//! The decisions of a gateway connection's authentication: whether to look
//! the token up, and, once the user's servers and channels are known, which
//! topics to subscribe to and whose permissions to load.

use crate::structures::channel::Channel;
use crate::structures::server::Server;
use crate::text::{id_list, join_ids};
use vstd::prelude::*;

verus! {

/// A message that a client sends over the gateway.
#[derive(Debug, Clone)]
pub enum ClientPayload {
    Authenticate { token: String },
    Ping,
}

/// The token to look up, if any: a connection that is authenticated already,
/// or a payload that is not an authentication, leads nowhere.
pub fn authentication_token(already_authenticated: bool, payload: ClientPayload) -> (r: Option<String>)
    ensures
        r == (if already_authenticated {
            None
        } else {
            match payload {
                ClientPayload::Authenticate { token } => Some(token),
                _ => None,
            }
        }),
{
    if already_authenticated {
        return None;
    }
    match payload {
        ClientPayload::Authenticate { token } => Some(token),
        _ => None,
    }
}

/// Whose permissions to load and store under `id`: those in the server at
/// index `server` of the user's servers, if any, and in the channel at index
/// `channel` of the user's channels, if any.
#[derive(Debug, Clone, Copy, PartialEq, Eq, Structural)]
pub struct PermissionTarget {
    pub id: i64,
    pub server: Option<usize>,
    pub channel: Option<usize>,
}

/// What an authenticated connection does next: subscribe to these topics, in
/// order, and load the permissions of these targets, in order.
#[derive(Debug, Clone)]
pub struct ReadyPlan {
    pub subscriptions: Vec<i64>,
    pub targets: Vec<PermissionTarget>,
}

pub open spec fn server_ids(servers: Seq<Server>) -> Seq<i64> {
    servers.map_values(|s: Server| s.id)
}

pub open spec fn channel_ids(channels: Seq<Channel>) -> Seq<i64> {
    channels.map_values(|c: Channel| c.id)
}

/// The index of the first server with id `server_id`, if there is one.
pub open spec fn first_server(servers: Seq<Server>, server_id: i64) -> Option<usize> {
    match server_ids(servers).index_of_first(server_id) {
        Some(i) => Some(i as usize),
        None => None,
    }
}

/// The server whose permissions apply in a channel: the first of the user's
/// servers that has the channel's server id, for a channel of a server.
pub open spec fn channel_server(servers: Seq<Server>, channel: Channel) -> Option<usize> {
    match channel.server_id {
        Some(id) => first_server(servers, id),
        None => None,
    }
}

pub open spec fn server_target(servers: Seq<Server>, i: int) -> PermissionTarget {
    PermissionTarget { id: servers[i].id, server: Some(i as usize), channel: None }
}

pub open spec fn channel_target(servers: Seq<Server>, channels: Seq<Channel>, j: int) -> PermissionTarget {
    PermissionTarget {
        id: channels[j].id,
        server: channel_server(servers, channels[j]),
        channel: Some(j as usize),
    }
}

/// One target per server, then one per channel.
pub open spec fn ready_targets(servers: Seq<Server>, channels: Seq<Channel>) -> Seq<PermissionTarget> {
    Seq::new(servers.len(), |i: int| server_target(servers, i)) + Seq::new(
        channels.len(),
        |j: int| channel_target(servers, channels, j),
    )
}

/// The user's own topic, then one per server, then one per channel.
pub open spec fn ready_subscriptions(user_id: i64, servers: Seq<Server>, channels: Seq<Channel>) -> Seq<i64> {
    seq![user_id] + server_ids(servers) + channel_ids(channels)
}

/// The index of the first server in `servers` whose id is `server_id`.
pub fn find_server(servers: &Vec<Server>, server_id: i64) -> (r: Option<usize>)
    ensures
        r == first_server(servers@, server_id),
{
    let mut i: usize = 0;
    while i < servers.len()
        invariant
            i <= servers.len(),
            forall|k: int| 0 <= k < i ==> servers@[k].id != server_id,
        decreases servers.len() - i,
    {
        if servers[i].id == server_id {
            proof {
                let ids = server_ids(servers@);
                assert(ids[i as int] == server_id);
                ids.index_of_first_ensures(server_id);
                let found = ids.index_of_first(server_id);
                assert(found is Some);
                let k = found->Some_0;
                assert(ids[k] == server_id);
                assert(k == i);
            }
            return Some(i);
        }
        i = i + 1;
    }
    proof {
        let ids = server_ids(servers@);
        ids.index_of_first_ensures(server_id);
        assert(!ids.contains(server_id));
    }
    None
}

/// The comma-separated decimal ids of `servers`, the form in which the
/// channels of all of them are asked for.
pub fn server_id_list(servers: &Vec<Server>) -> (s: String)
    ensures
        s@ == id_list(server_ids(servers@)),
{
    let mut ids: Vec<i64> = Vec::new();
    let mut i: usize = 0;
    while i < servers.len()
        invariant
            i <= servers.len(),
            ids@ == server_ids(servers@.take(i as int)),
        decreases servers.len() - i,
    {
        ids.push(servers[i].id);
        i = i + 1;
        assert(ids@ =~= server_ids(servers@.take(i as int)));
    }
    assert(servers@.take(servers.len() as int) =~= servers@);
    join_ids(&ids)
}

/// The plan of a connection that has authenticated as `user_id`, whose
/// servers are `servers` and whose channels (its own and those of its
/// servers) are `channels`.
pub fn plan_ready(user_id: i64, servers: &Vec<Server>, channels: &Vec<Channel>) -> (plan: ReadyPlan)
    ensures
        plan.subscriptions@ == ready_subscriptions(user_id, servers@, channels@),
        plan.targets@ == ready_targets(servers@, channels@),
        plan.targets@.len() == servers@.len() + channels@.len(),
        forall|j: int|
            0 <= j < channels@.len() ==> (#[trigger] plan.targets@[servers@.len() + j]).server
                == channel_server(servers@, channels@[j]),
{
    let mut subscriptions: Vec<i64> = Vec::new();
    let mut targets: Vec<PermissionTarget> = Vec::new();
    subscriptions.push(user_id);
    let mut i: usize = 0;
    while i < servers.len()
        invariant
            i <= servers.len(),
            subscriptions@ == seq![user_id] + server_ids(servers@.take(i as int)),
            targets@ == Seq::new(i as nat, |k: int| server_target(servers@, k)),
        decreases servers.len() - i,
    {
        subscriptions.push(servers[i].id);
        targets.push(PermissionTarget { id: servers[i].id, server: Some(i), channel: None });
        i = i + 1;
        assert(subscriptions@ =~= seq![user_id] + server_ids(servers@.take(i as int)));
        assert(targets@ =~= Seq::new(i as nat, |k: int| server_target(servers@, k)));
    }
    assert(servers@.take(servers.len() as int) =~= servers@);
    let mut j: usize = 0;
    while j < channels.len()
        invariant
            j <= channels.len(),
            subscriptions@ == seq![user_id] + server_ids(servers@) + channel_ids(
                channels@.take(j as int),
            ),
            targets@ == Seq::new(servers@.len(), |k: int| server_target(servers@, k)) + Seq::new(
                j as nat,
                |k: int| channel_target(servers@, channels@, k),
            ),
        decreases channels.len() - j,
    {
        let server = match channels[j].server_id {
            Some(server_id) => find_server(servers, server_id),
            None => None,
        };
        subscriptions.push(channels[j].id);
        targets.push(PermissionTarget { id: channels[j].id, server, channel: Some(j) });
        j = j + 1;
        assert(subscriptions@ =~= seq![user_id] + server_ids(servers@) + channel_ids(
            channels@.take(j as int),
        ));
        assert(targets@ =~= Seq::new(servers@.len(), |k: int| server_target(servers@, k))
            + Seq::new(j as nat, |k: int| channel_target(servers@, channels@, k)));
    }
    assert(channels@.take(channels.len() as int) =~= channels@);
    assert forall|j: int| 0 <= j < channels@.len() implies (#[trigger] targets@[servers@.len()
        + j]).server == channel_server(servers@, channels@[j]) by {
        assert(targets@[servers@.len() + j] == channel_target(servers@, channels@, j));
    }
    ReadyPlan { subscriptions, targets }
}

/// Permissions are loaded for exactly the topics that are subscribed to after
/// the user's own, in the same order: every server and every channel once.
pub proof fn lemma_targets_follow_subscriptions(user_id: i64, servers: Seq<Server>, channels: Seq<Channel>)
    ensures
        ready_subscriptions(user_id, servers, channels).len() == ready_targets(servers, channels).len()
            + 1,
        ready_subscriptions(user_id, servers, channels)[0] == user_id,
        forall|k: int|
            0 <= k < ready_targets(servers, channels).len() ==> #[trigger] ready_targets(
                servers,
                channels,
            )[k].id == ready_subscriptions(user_id, servers, channels)[k + 1],
        forall|i: int|
            0 <= i < servers.len() ==> ready_subscriptions(user_id, servers, channels).contains(
                #[trigger] servers[i].id,
            ),
        forall|j: int|
            0 <= j < channels.len() ==> ready_subscriptions(user_id, servers, channels).contains(
                #[trigger] channels[j].id,
            ),
{
    let subs = ready_subscriptions(user_id, servers, channels);
    let targets = ready_targets(servers, channels);
    assert forall|k: int| 0 <= k < targets.len() implies #[trigger] targets[k].id == subs[k + 1] by {
        if k < servers.len() {
            assert(subs[k + 1] == server_ids(servers)[k]);
        } else {
            assert(subs[k + 1] == channel_ids(channels)[k - servers.len()]);
        }
    }
    assert forall|i: int| 0 <= i < servers.len() implies subs.contains(#[trigger] servers[i].id) by {
        assert(subs[i + 1] == servers[i].id);
    }
    assert forall|j: int| 0 <= j < channels.len() implies subs.contains(#[trigger] channels[j].id) by {
        assert(subs[servers.len() + j + 1] == channels[j].id);
    }
}

/// A channel's permissions are loaded together with a server exactly when
/// the channel belongs to one of the user's servers, and then with the first
/// server that has the channel's server id.
pub proof fn lemma_channel_server(servers: Seq<Server>, channel: Channel)
    requires
        servers.len() <= usize::MAX,
    ensures
        match channel_server(servers, channel) {
            Some(i) => {
                &&& channel.server_id == Some(servers[i as int].id)
                &&& i < servers.len()
                &&& forall|k: int| 0 <= k < i ==> servers[k].id != servers[i as int].id
            },
            None => forall|k: int|
                0 <= k < servers.len() ==> channel.server_id != Some(#[trigger] servers[k].id),
        },
{
    match channel.server_id {
        Some(id) => {
            let ids = server_ids(servers);
            ids.index_of_first_ensures(id);
            match ids.index_of_first(id) {
                Some(i) => {
                    assert(ids[i] == servers[i].id);
                    assert forall|k: int| 0 <= k < i implies servers[k].id != servers[i].id by {
                        assert(ids[k] == servers[k].id);
                    }
                },
                None => {
                    assert forall|k: int| 0 <= k < servers.len() implies channel.server_id != Some(
                        #[trigger] servers[k].id,
                    ) by {
                        assert(ids[k] == servers[k].id);
                        if servers[k].id == id {
                            assert(ids.contains(id));
                        }
                    }
                },
            }
        },
        None => {},
    }
}

/// The first server with a given id: `find_server`'s answer names a server
/// with that id that no earlier server shares, and it is `None` only when no
/// server has that id.
pub proof fn lemma_first_server_rule(servers: Seq<Server>, server_id: i64)
    requires
        servers.len() <= usize::MAX,
    ensures
        match first_server(servers, server_id) {
            Some(i) => {
                &&& i < servers.len()
                &&& servers[i as int].id == server_id
                &&& forall|k: int| 0 <= k < i ==> #[trigger] servers[k].id != server_id
            },
            None => forall|k: int| 0 <= k < servers.len() ==> #[trigger] servers[k].id != server_id,
        },
{
    let ids = server_ids(servers);
    ids.index_of_first_ensures(server_id);
    match ids.index_of_first(server_id) {
        Some(i) => {
            assert(ids[i] == servers[i].id);
            assert forall|k: int| 0 <= k < i implies #[trigger] servers[k].id != server_id by {
                assert(ids[k] == servers[k].id);
            }
        },
        None => {
            assert forall|k: int| 0 <= k < servers.len() implies #[trigger] servers[k].id != server_id by {
                assert(ids[k] == servers[k].id);
                if servers[k].id == server_id {
                    assert(ids.contains(server_id));
                }
            }
        },
    }
}

/// The permission targets of a plan: one per server, in order, with that
/// server and no channel; then one per channel, in order, with that channel
/// and, whatever kind the channel is, the first of the user's servers whose
/// id is the channel's server id, or no server when none has it.
pub proof fn lemma_ready_targets_rule(servers: Seq<Server>, channels: Seq<Channel>)
    requires
        servers.len() <= usize::MAX,
        channels.len() <= usize::MAX,
    ensures
        ready_targets(servers, channels).len() == servers.len() + channels.len(),
        forall|i: int|
            0 <= i < servers.len() ==> (#[trigger] ready_targets(servers, channels)[i]).id
                == servers[i].id,
        forall|i: int|
            0 <= i < servers.len() ==> (#[trigger] ready_targets(servers, channels)[i]).server == Some(
                i as usize,
            ),
        forall|i: int|
            0 <= i < servers.len() ==> (#[trigger] ready_targets(servers, channels)[i]).channel is None,
        forall|j: int|
            0 <= j < channels.len() ==> (#[trigger] ready_targets(servers, channels)[servers.len()
                + j]).id == channels[j].id,
        forall|j: int|
            0 <= j < channels.len() ==> (#[trigger] ready_targets(servers, channels)[servers.len()
                + j]).channel == Some(j as usize),
        forall|j: int|
            0 <= j < channels.len() && (#[trigger] ready_targets(servers, channels)[servers.len()
                + j]).server is Some ==> ({
                let i = ready_targets(servers, channels)[servers.len() + j].server->Some_0;
                i < servers.len() && channels[j].server_id == Some(servers[i as int].id)
            }),
        forall|j: int, k: int|
            #![trigger ready_targets(servers, channels)[servers.len() + j], servers[k]]
            0 <= j < channels.len() && ready_targets(servers, channels)[servers.len() + j].server is Some
                && 0 <= k < ready_targets(servers, channels)[servers.len() + j].server->Some_0
                ==> servers[k].id != channels[j].server_id->Some_0,
        forall|j: int, k: int|
            #![trigger ready_targets(servers, channels)[servers.len() + j], servers[k]]
            0 <= j < channels.len() && ready_targets(servers, channels)[servers.len() + j].server is None
                && 0 <= k < servers.len() ==> channels[j].server_id != Some(servers[k].id),
{
    let targets = ready_targets(servers, channels);
    assert forall|j: int| 0 <= j < channels.len() implies #[trigger] targets[servers.len() + j]
        == channel_target(servers, channels, j) by {}
    assert forall|j: int| 0 <= j < channels.len() implies #[trigger] targets[servers.len() + j]
        == channel_target(servers, channels, j) && (match channel_server(servers, channels[j]) {
        Some(i) => {
            &&& channels[j].server_id == Some(servers[i as int].id)
            &&& i < servers.len()
            &&& forall|k: int| 0 <= k < i ==> servers[k].id != servers[i as int].id
        },
        None => forall|k: int|
            0 <= k < servers.len() ==> channels[j].server_id != Some(#[trigger] servers[k].id),
    }) by {
        lemma_channel_server(servers, channels[j]);
    }
}

/// The subscriptions of a plan: the user's own topic, then every server's
/// id in order, then every channel's id in order.
pub proof fn lemma_ready_subscriptions_rule(user_id: i64, servers: Seq<Server>, channels: Seq<Channel>)
    ensures
        ready_subscriptions(user_id, servers, channels).len() == 1 + servers.len() + channels.len(),
        ready_subscriptions(user_id, servers, channels)[0] == user_id,
        forall|i: int|
            0 <= i < servers.len() ==> #[trigger] ready_subscriptions(user_id, servers, channels)[1 + i]
                == servers[i].id,
        forall|j: int|
            0 <= j < channels.len() ==> #[trigger] ready_subscriptions(user_id, servers, channels)[1
                + servers.len() + j] == channels[j].id,
{
    let subs = ready_subscriptions(user_id, servers, channels);
    assert forall|i: int| 0 <= i < servers.len() implies #[trigger] subs[1 + i] == servers[i].id by {}
    assert forall|j: int| 0 <= j < channels.len() implies #[trigger] subs[1 + servers.len() + j]
        == channels[j].id by {}
}

} // verus!

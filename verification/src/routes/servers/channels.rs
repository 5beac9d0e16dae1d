//! Creating a channel in a server.

use crate::error::Error;
use crate::permissions::{lemma_contains_monotone, Permissions};
use crate::structures::channel::{Channel, ChannelTypes};
use crate::utils::snowflake::IdGenerator;
use crate::validation::{finish, length_errors, push_length_error, Field, FieldError, Rule, ValidationErrors};
use vstd::prelude::*;

verus! {

/// The body of a request to create a channel in a server.
#[derive(Debug, Clone)]
pub struct CreateServerChannelOptions {
    pub channel_type: ChannelTypes,
    /// Between 1 and 32 characters.
    pub name: String,
}

impl CreateServerChannelOptions {
    /// The rules that the body breaks.
    pub open spec fn errors(&self) -> Seq<FieldError> {
        length_errors(self.name@, 1, 32, Field::Name)
    }

    /// Checks the body's field rules.
    pub fn validate(&self) -> (r: Result<(), ValidationErrors>)
        ensures
            r is Ok <==> self.errors().len() == 0,
            r matches Err(e) ==> e@ == self.errors(),
    {
        let mut errors: Vec<FieldError> = Vec::new();
        push_length_error(&mut errors, self.name.as_str(), 1, 32, Field::Name);
        assert(errors@ =~= self.errors());
        finish(errors)
    }
}

/// The kinds of channel that a server can hold.
pub open spec fn server_channel_kind(kind: ChannelTypes) -> bool {
    kind == ChannelTypes::Text || kind == ChannelTypes::Category || kind == ChannelTypes::Voice
}

/// Everything that a channel creation checks before the channel is made, in
/// order; `Ok` when it may be made.
pub open spec fn channel_checks(
    options: CreateServerChannelOptions,
    permissions: Permissions,
    channel_count: u64,
    max_channels: u64,
) -> Result<(), Error> {
    if !permissions.contains(Permissions::MANAGE_CHANNELS) {
        Err(Error::MissingPermissions(Permissions::MANAGE_CHANNELS))
    } else if channel_count > max_channels {
        Err(Error::MaximumChannels)
    } else if !server_channel_kind(options.channel_type) {
        Err(Error::MissingAccess)
    } else {
        Ok(())
    }
}

/// Creates a channel in server `server_id` for a user holding `permissions`
/// there, when the server has `channel_count` channels and may have
/// `max_channels`: the body must be valid, the user must be allowed to manage
/// channels, the server must not hold more than `max_channels` channels
/// already, and the kind must be text, voice or category.
pub fn create_channel(
    server_id: i64,
    options: CreateServerChannelOptions,
    permissions: Permissions,
    channel_count: u64,
    max_channels: u64,
    ids: &mut IdGenerator,
) -> (r: Result<Channel, Error>)
    ensures
        options.errors().len() > 0 ==> (r matches Err(Error::InvalidBody { error }) && error@
            == options.errors()),
        r is Err ==> *final(ids) == *old(ids),
        options.errors().len() == 0 && permissions.bits & Permissions::MANAGE_CHANNELS
            != Permissions::MANAGE_CHANNELS ==> (r matches Err(Error::MissingPermissions(f)) && f
            == Permissions::MANAGE_CHANNELS),
        options.errors().len() == 0 && permissions.bits & Permissions::MANAGE_CHANNELS
            == Permissions::MANAGE_CHANNELS && channel_count > max_channels ==> r matches Err(
            Error::MaximumChannels,
        ),
        r is Ok <==> (options.errors().len() == 0 && permissions.bits & Permissions::MANAGE_CHANNELS
            == Permissions::MANAGE_CHANNELS && channel_count <= max_channels && (options.channel_type
            == ChannelTypes::Text || options.channel_type == ChannelTypes::Voice
            || options.channel_type == ChannelTypes::Category)),
        r matches Ok(c) ==> (c.channel_type == options.channel_type && (c.name matches Some(n) && n@
            == options.name@) && c.server_id == Some(server_id) && c.parent_id is None),
        options.errors().len() == 0 ==> match r {
            Ok(channel) => {
                &&& channel_checks(options, permissions, channel_count, max_channels) is Ok
                &&& channel.fresh(old(ids).nth_id(0), options.channel_type, options.name@, server_id)
                &&& final(ids).advanced_from(*old(ids), 1)
            },
            Err(e) => channel_checks(options, permissions, channel_count, max_channels) == Err::<
                (),
                Error,
            >(e),
        },
{
    if let Err(error) = options.validate() {
        return Err(Error::InvalidBody { error });
    }
    permissions.has(Permissions::MANAGE_CHANNELS)?;
    if channel_count > max_channels {
        return Err(Error::MaximumChannels);
    }
    match options.channel_type {
        ChannelTypes::Text => Ok(Channel::new_text(options.name, server_id, ids)),
        ChannelTypes::Category => Ok(Channel::new_category(options.name, server_id, ids)),
        ChannelTypes::Voice => Ok(Channel::new_voice(options.name, server_id, ids)),
        _ => Err(Error::MissingAccess),
    }
}

/// Granting more permissions never turns an allowed channel creation into a
/// refusal.
pub proof fn lemma_create_channel_monotone(
    options: CreateServerChannelOptions,
    p: Permissions,
    q: Permissions,
    channel_count: u64,
    max_channels: u64,
)
    requires
        p.subset_of(q),
        channel_checks(options, p, channel_count, max_channels) is Ok,
    ensures
        channel_checks(options, q, channel_count, max_channels) is Ok,
{
    lemma_contains_monotone(p, q, Permissions::MANAGE_CHANNELS);
}

/// What a valid channel creation is answered with: without the right to
/// manage channels the missing flag is named; then a server that already
/// holds more channels than allowed gets `MaximumChannels`, whatever kind of
/// channel is asked for; then only text, voice and category channels can be
/// made, other kinds get `MissingAccess`.
pub proof fn lemma_channel_rule(
    options: CreateServerChannelOptions,
    permissions: Permissions,
    channel_count: u64,
    max_channels: u64,
)
    ensures
        permissions.bits & Permissions::MANAGE_CHANNELS != Permissions::MANAGE_CHANNELS ==> channel_checks(
            options,
            permissions,
            channel_count,
            max_channels,
        ) == Err::<(), Error>(Error::MissingPermissions(Permissions::MANAGE_CHANNELS)),
        permissions.bits & Permissions::MANAGE_CHANNELS == Permissions::MANAGE_CHANNELS && channel_count
            > max_channels ==> channel_checks(options, permissions, channel_count, max_channels)
            == Err::<(), Error>(Error::MaximumChannels),
        permissions.bits & Permissions::MANAGE_CHANNELS == Permissions::MANAGE_CHANNELS && channel_count
            <= max_channels ==> channel_checks(options, permissions, channel_count, max_channels)
            == (match options.channel_type {
            ChannelTypes::Text => Ok::<(), Error>(()),
            ChannelTypes::Voice => Ok(()),
            ChannelTypes::Category => Ok(()),
            _ => Err(Error::MissingAccess),
        }),
{
}

/// The field rule of a channel body: a name of 1 to 32 characters.
pub proof fn lemma_channel_body_rule(options: CreateServerChannelOptions)
    ensures
        options.errors() == (if 1 <= options.name@.len() && options.name@.len() <= 32 {
            Seq::<FieldError>::empty()
        } else {
            seq![FieldError { field: Field::Name, rule: Rule::Length }]
        }),
{
}

} // verus!

use itchat::gateway::authenticate::{
    authentication_token, find_server, plan_ready, server_id_list, ClientPayload, PermissionTarget,
};
use itchat::structures::channel::{Channel, ChannelTypes};
use itchat::structures::member::Member;
use itchat::structures::role::Role;
use itchat::structures::server::Server;
use itchat::structures::user::User;
use itchat::text::join_ids;
use itchat::utils::snowflake::{generate, IdGenerator, ITCHAT_EPOCH};

#[test]
fn generated_ids_carry_machine_and_node() {
    let mut ids = IdGenerator::new();
    let a = generate(&mut ids);
    let b = generate(&mut ids);
    assert_eq!((a >> 12) & 0x3ff, 33);
    assert_eq!((b >> 12) & 0x3ff, 33);
    assert_ne!(a, b);
    assert_eq!(ITCHAT_EPOCH, 1609459200000);
}

#[test]
fn generated_ids_increase_and_count_within_a_tick() {
    let mut ids = IdGenerator::new();
    let mut previous = generate(&mut ids);
    for _ in 0..10_000 {
        let next = generate(&mut ids);
        assert!(next > previous);
        if next >> 22 == previous >> 22 {
            assert_eq!(next, previous + 1);
        }
        previous = next;
    }
}

#[test]
fn new_structures() {
    let mut ids = IdGenerator::new();
    let role = Role::new("Mod".to_string(), 12, &mut ids);
    assert_eq!(role.name, "Mod");
    assert_eq!(role.server_id, 12);
    assert_eq!(role.permissions.bits, 0);
    assert_eq!(role.color, 0);
    assert!(!role.hoist);
    let server = Server::new("Fake Server".to_string(), 4, &mut ids);
    assert_eq!(server.owner_id, 4);
    assert_eq!(server.icon, None);
    assert_eq!(server.banner, None);
    let user = User::new("u".to_string(), "u@x.y".to_string(), "hash".to_string(), &mut ids);
    assert!(!user.verified);
    let member = Member::new(4, server.id);
    assert_eq!(member, Member { id: 4, server_id: server.id });
    assert_ne!(role.id, server.id);
}

#[test]
fn join_ids_texts() {
    assert_eq!(join_ids(&vec![1, -20, 300]), "1,-20,300");
    assert_eq!(join_ids(&vec![]), "");
    assert_eq!(join_ids(&vec![i64::MIN, 0, i64::MAX]), "-9223372036854775808,0,9223372036854775807");
}

#[test]
fn token_only_for_new_authentication() {
    let auth = || ClientPayload::Authenticate { token: "tok".to_string() };
    assert_eq!(authentication_token(false, auth()), Some("tok".to_string()));
    assert_eq!(authentication_token(true, auth()), None);
    assert_eq!(authentication_token(false, ClientPayload::Ping), None);
}

fn servers() -> Vec<Server> {
    vec![
        Server::with_id(10, "a".to_string(), 1),
        Server::with_id(20, "b".to_string(), 1),
        Server::with_id(10, "dup".to_string(), 1),
    ]
}

#[test]
fn find_server_takes_first_match() {
    let s = servers();
    assert_eq!(find_server(&s, 10), Some(0));
    assert_eq!(find_server(&s, 20), Some(1));
    assert_eq!(find_server(&s, 30), None);
    assert_eq!(server_id_list(&s), "10,20,10");
}

#[test]
fn ready_plan() {
    let s = servers();
    let mut dm = Channel::with_id(5, ChannelTypes::Direct, "dm".to_string(), 0);
    dm.server_id = None;
    let channels = vec![dm, Channel::with_id(6, ChannelTypes::Text, "t".to_string(), 20), Channel::with_id(7, ChannelTypes::Text, "x".to_string(), 99)];
    let plan = plan_ready(1, &s, &channels);
    assert_eq!(plan.subscriptions, vec![1, 10, 20, 10, 5, 6, 7]);
    assert_eq!(
        plan.targets,
        vec![
            PermissionTarget { id: 10, server: Some(0), channel: None },
            PermissionTarget { id: 20, server: Some(1), channel: None },
            PermissionTarget { id: 10, server: Some(2), channel: None },
            PermissionTarget { id: 5, server: None, channel: Some(0) },
            PermissionTarget { id: 6, server: Some(1), channel: Some(1) },
            PermissionTarget { id: 7, server: None, channel: Some(2) },
        ]
    );
}

#[test]
fn ready_plan_without_servers() {
    let plan = plan_ready(3, &vec![], &vec![]);
    assert_eq!(plan.subscriptions, vec![3]);
    assert!(plan.targets.is_empty());
}

use itchat::error::Error;
use itchat::permissions::Permissions;
use itchat::routes::servers::channels::{create_channel, CreateServerChannelOptions};
use itchat::routes::servers::create::{create_server, CreateServerOptions};
use itchat::routes::servers::edit::{edit_server, EditServerOptions};
use itchat::routes::servers::roles::{create_role, CreateRoleOptions};
use itchat::structures::channel::ChannelTypes;
use itchat::structures::server::Server;
use itchat::utils::snowflake::IdGenerator;
use itchat::validation::{Field, FieldError, Rule};

fn perms(bits: u64) -> Permissions {
    Permissions { bits }
}

fn name_length_error() -> Vec<FieldError> {
    vec![FieldError { field: Field::Name, rule: Rule::Length }]
}

#[test]
fn create_server_makes_server_member_and_channels() {
    let mut ids = IdGenerator::new();
    let made = create_server(42, CreateServerOptions { name: "Rustaceans".to_string() }, 3, 100, &mut ids).unwrap();
    assert_eq!(made.server.name, "Rustaceans");
    assert_eq!(made.server.owner_id, 42);
    assert_eq!(made.server.description, None);
    assert_eq!(made.server.permissions, Permissions::default_everyone());
    assert_eq!(made.member.id, 42);
    assert_eq!(made.member.server_id, made.server.id);
    assert_eq!(made.category.channel_type, ChannelTypes::Category);
    assert_eq!(made.category.name.as_deref(), Some("General"));
    assert_eq!(made.category.server_id, Some(made.server.id));
    assert_eq!(made.category.parent_id, None);
    assert_eq!(made.chat.channel_type, ChannelTypes::Text);
    assert_eq!(made.chat.name.as_deref(), Some("general"));
    assert_eq!(made.chat.server_id, Some(made.server.id));
    assert_eq!(made.chat.parent_id, Some(made.category.id));
    assert_ne!(made.server.id, made.category.id);
    assert_ne!(made.category.id, made.chat.id);
    assert!(made.server.id < made.category.id && made.category.id < made.chat.id);
}

#[test]
fn create_server_limit() {
    let mut ids = IdGenerator::new();
    assert!(create_server(1, CreateServerOptions { name: "a".to_string() }, 100, 100, &mut ids).is_ok());
    assert!(matches!(
        create_server(1, CreateServerOptions { name: "a".to_string() }, 101, 100, &mut ids),
        Err(Error::MaximumServers)
    ));
}

#[test]
fn create_server_name_rules() {
    let mut ids = IdGenerator::new();
    match create_server(1, CreateServerOptions { name: String::new() }, 0, 100, &mut ids) {
        Err(Error::InvalidBody { error }) => assert_eq!(error.errors, name_length_error()),
        _ => panic!("an empty name must be refused"),
    }
    assert!(create_server(1, CreateServerOptions { name: "x".repeat(50) }, 0, 100, &mut ids).is_ok());
    assert!(create_server(1, CreateServerOptions { name: "x".repeat(51) }, 0, 100, &mut ids).is_err());
    // characters, not bytes, are counted
    assert!(create_server(1, CreateServerOptions { name: "é".repeat(50) }, 0, 100, &mut ids).is_ok());
    // an invalid body is reported before the limit
    assert!(matches!(
        create_server(1, CreateServerOptions { name: String::new() }, 500, 100, &mut ids),
        Err(Error::InvalidBody { .. })
    ));
}

fn sample_server() -> Server {
    Server::with_id(9, "old".to_string(), 1)
}

#[test]
fn edit_renames_when_allowed() {
    let after = edit_server(
        sample_server(),
        perms(Permissions::MANAGE_SERVER),
        EditServerOptions { name: Some("new".to_string()) },
    )
    .unwrap();
    assert_eq!(after.name, "new");
    assert_eq!(after.id, 9);
    assert_eq!(after.owner_id, 1);
}

#[test]
fn edit_without_name_keeps_server() {
    let after = edit_server(sample_server(), perms(Permissions::MANAGE_SERVER), EditServerOptions { name: None }).unwrap();
    assert_eq!(after.name, "old");
}

#[test]
fn edit_twice_is_edit_once() {
    let opts = || EditServerOptions { name: Some("same".to_string()) };
    let p = perms(Permissions::MANAGE_SERVER);
    let once = edit_server(sample_server(), p, opts()).unwrap();
    let twice = edit_server(once.clone(), p, opts()).unwrap();
    assert_eq!(once.name, twice.name);
    assert_eq!(once.id, twice.id);
}

#[test]
fn edit_refusals() {
    assert!(matches!(
        edit_server(sample_server(), perms(Permissions::VIEW_CHANNEL), EditServerOptions { name: None }),
        Err(Error::MissingPermissions(f)) if f == Permissions::MANAGE_SERVER
    ));
    match edit_server(sample_server(), perms(0), EditServerOptions { name: Some(String::new()) }) {
        Err(Error::InvalidBody { error }) => assert_eq!(error.errors, name_length_error()),
        _ => panic!("an empty name must be refused first"),
    }
}

fn channel_opts(kind: ChannelTypes, name: &str) -> CreateServerChannelOptions {
    CreateServerChannelOptions { channel_type: kind, name: name.to_string() }
}

#[test]
fn create_channel_of_each_server_kind() {
    let mut ids = IdGenerator::new();
    let p = perms(Permissions::MANAGE_CHANNELS);
    for kind in [ChannelTypes::Text, ChannelTypes::Voice, ChannelTypes::Category] {
        let c = create_channel(77, channel_opts(kind, "room"), p, 0, 200, &mut ids).unwrap();
        assert_eq!(c.channel_type, kind);
        assert_eq!(c.name.as_deref(), Some("room"));
        assert_eq!(c.server_id, Some(77));
        assert_eq!(c.parent_id, None);
    }
}

#[test]
fn create_channel_refusals() {
    let mut ids = IdGenerator::new();
    let p = perms(Permissions::MANAGE_CHANNELS);
    for kind in [ChannelTypes::Direct, ChannelTypes::Group, ChannelTypes::Unknown] {
        assert!(matches!(create_channel(77, channel_opts(kind, "room"), p, 0, 200, &mut ids), Err(Error::MissingAccess)));
    }
    assert!(matches!(
        create_channel(77, channel_opts(ChannelTypes::Text, "room"), p, 201, 200, &mut ids),
        Err(Error::MaximumChannels)
    ));
    assert!(create_channel(77, channel_opts(ChannelTypes::Text, "room"), p, 200, 200, &mut ids).is_ok());
    assert!(matches!(
        create_channel(77, channel_opts(ChannelTypes::Text, "room"), perms(0), 0, 200, &mut ids),
        Err(Error::MissingPermissions(f)) if f == Permissions::MANAGE_CHANNELS
    ));
    match create_channel(77, channel_opts(ChannelTypes::Text, &"r".repeat(33)), perms(0), 999, 200, &mut ids) {
        Err(Error::InvalidBody { error }) => assert_eq!(error.errors, name_length_error()),
        _ => panic!("a long name must be refused first"),
    }
}

fn role_opts(name: &str) -> CreateRoleOptions {
    CreateRoleOptions { name: name.to_string(), color: 200, permissions: perms(Permissions::MANAGE_MESSAGES), hoist: true }
}

#[test]
fn create_role_takes_body_settings() {
    let mut ids = IdGenerator::new();
    let r = create_role(5, role_opts("Mod"), perms(Permissions::MANAGE_ROLES), 3, 100, &mut ids).unwrap();
    assert_eq!(r.name, "Mod");
    assert_eq!(r.server_id, 5);
    assert_eq!(r.color, 200);
    assert!(r.hoist);
    assert_eq!(r.permissions, perms(Permissions::MANAGE_MESSAGES));
}

#[test]
fn create_role_refusals() {
    let mut ids = IdGenerator::new();
    assert!(matches!(
        create_role(5, role_opts("Mod"), perms(Permissions::MANAGE_ROLES), 101, 100, &mut ids),
        Err(Error::MaximumRoles)
    ));
    assert!(matches!(
        create_role(5, role_opts("Mod"), perms(Permissions::VIEW_CHANNEL), 0, 100, &mut ids),
        Err(Error::MissingPermissions(f)) if f == Permissions::MANAGE_ROLES
    ));
    assert!(matches!(
        create_role(5, role_opts(""), perms(Permissions::MANAGE_ROLES), 0, 100, &mut ids),
        Err(Error::InvalidBody { .. })
    ));
}

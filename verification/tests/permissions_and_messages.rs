use itchat::error::Error;
use itchat::permissions::Permissions;
use itchat::routes::messages::{authorize_delete, authorize_fetch, authorize_read, message_in_channel};

fn perms(bits: u64) -> Permissions {
    Permissions { bits }
}

#[test]
fn has_accepts_held_flags() {
    let p = perms(Permissions::VIEW_CHANNEL | Permissions::MANAGE_ROLES);
    assert!(p.has(Permissions::VIEW_CHANNEL).is_ok());
    assert!(p.has(Permissions::MANAGE_ROLES).is_ok());
    assert!(p.has(Permissions::VIEW_CHANNEL | Permissions::MANAGE_ROLES).is_ok());
    assert!(p.has(0).is_ok());
}

#[test]
fn has_names_missing_flags() {
    let p = perms(Permissions::VIEW_CHANNEL);
    assert!(matches!(
        p.has(Permissions::MANAGE_SERVER),
        Err(Error::MissingPermissions(f)) if f == Permissions::MANAGE_SERVER
    ));
    assert!(matches!(
        p.has(Permissions::VIEW_CHANNEL | Permissions::SEND_MESSAGES),
        Err(Error::MissingPermissions(f)) if f == Permissions::VIEW_CHANNEL | Permissions::SEND_MESSAGES
    ));
}

#[test]
fn default_permissions() {
    assert_eq!(Permissions::empty().bits, 0);
    let everyone = Permissions::default_everyone();
    assert_eq!(everyone.bits, 2 | 4 | 8 | 16 | 32);
    assert!(everyone.has(Permissions::VIEW_CHANNEL).is_ok());
    assert!(everyone.has(Permissions::MANAGE_SERVER).is_err());
}

#[test]
fn author_deletes_own_message() {
    let p = perms(Permissions::VIEW_CHANNEL);
    assert!(authorize_delete(p, 7, 7).is_ok());
}

#[test]
fn deleting_others_message_needs_manage_messages() {
    let p = perms(Permissions::VIEW_CHANNEL);
    assert!(matches!(
        authorize_delete(p, 7, 8),
        Err(Error::MissingPermissions(f)) if f == Permissions::MANAGE_MESSAGES
    ));
    let q = perms(Permissions::VIEW_CHANNEL | Permissions::MANAGE_MESSAGES);
    assert!(authorize_delete(q, 7, 8).is_ok());
}

#[test]
fn deleting_needs_a_visible_channel() {
    let p = perms(Permissions::MANAGE_MESSAGES);
    assert!(matches!(
        authorize_delete(p, 7, 7),
        Err(Error::MissingPermissions(f)) if f == Permissions::VIEW_CHANNEL
    ));
}

#[test]
fn fetching_checks_channel_then_permissions() {
    let all = perms(Permissions::VIEW_CHANNEL | Permissions::READ_MESSAGE_HISTORY);
    assert!(authorize_fetch(5, 5, all).is_ok());
    assert!(matches!(authorize_fetch(5, 6, all), Err(Error::MissingAccess)));
    assert!(matches!(authorize_fetch(5, 6, perms(0)), Err(Error::MissingAccess)));
    assert!(matches!(
        authorize_fetch(5, 5, perms(Permissions::VIEW_CHANNEL)),
        Err(Error::MissingPermissions(f)) if f == Permissions::READ_MESSAGE_HISTORY
    ));
    assert!(matches!(
        authorize_fetch(5, 5, perms(Permissions::READ_MESSAGE_HISTORY)),
        Err(Error::MissingPermissions(f)) if f == Permissions::VIEW_CHANNEL
    ));
}

#[test]
fn fetch_halves() {
    assert!(message_in_channel(1, 1).is_ok());
    assert!(matches!(message_in_channel(1, 2), Err(Error::MissingAccess)));
    assert!(authorize_read(perms(Permissions::VIEW_CHANNEL | Permissions::READ_MESSAGE_HISTORY)).is_ok());
    assert!(authorize_read(perms(0)).is_err());
}

#[test]
fn more_permissions_keep_deletion_allowed() {
    let p = perms(Permissions::VIEW_CHANNEL | Permissions::MANAGE_MESSAGES);
    let q = perms(p.bits | Permissions::ADMINISTRATOR | Permissions::MANAGE_ROLES);
    assert!(authorize_delete(p, 1, 2).is_ok());
    assert!(authorize_delete(q, 1, 2).is_ok());
}

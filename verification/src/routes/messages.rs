//! Who may read and who may delete a message.

use crate::error::Error;
use crate::permissions::{lemma_contains_monotone, Permissions};
use vstd::prelude::*;

verus! {

/// The answer to a request to delete a message written by `author_id`, made
/// by `user_id` with `permissions` in the message's channel: the channel must
/// be visible, and deleting another user's message takes the right to manage
/// messages.
pub open spec fn delete_outcome(permissions: Permissions, author_id: i64, user_id: i64) -> Result<(), Error> {
    if !permissions.contains(Permissions::VIEW_CHANNEL) {
        Err(Error::MissingPermissions(Permissions::VIEW_CHANNEL))
    } else if author_id != user_id && !permissions.contains(Permissions::MANAGE_MESSAGES) {
        Err(Error::MissingPermissions(Permissions::MANAGE_MESSAGES))
    } else {
        Ok(())
    }
}

/// The answer to a request to read a message that lies in channel
/// `message_channel_id` through channel `channel_id`, made with `permissions`
/// in that channel.
pub open spec fn fetch_outcome(message_channel_id: u64, channel_id: u64, permissions: Permissions) -> Result<(), Error> {
    if message_channel_id != channel_id {
        Err(Error::MissingAccess)
    } else {
        read_outcome(permissions)
    }
}

/// Reading messages takes a visible channel and its message history.
pub open spec fn read_outcome(permissions: Permissions) -> Result<(), Error> {
    if !permissions.contains(Permissions::VIEW_CHANNEL) {
        Err(Error::MissingPermissions(Permissions::VIEW_CHANNEL))
    } else if !permissions.contains(Permissions::READ_MESSAGE_HISTORY) {
        Err(Error::MissingPermissions(Permissions::READ_MESSAGE_HISTORY))
    } else {
        Ok(())
    }
}

/// Decides whether `user_id`, holding `permissions` in the channel, may delete
/// a message written by `author_id`.
pub fn authorize_delete(permissions: Permissions, author_id: i64, user_id: i64) -> (r: Result<(), Error>)
    ensures
        r == delete_outcome(permissions, author_id, user_id),
        r is Ok <==> (permissions.bits & Permissions::VIEW_CHANNEL == Permissions::VIEW_CHANNEL && (
        author_id == user_id || permissions.bits & Permissions::MANAGE_MESSAGES
            == Permissions::MANAGE_MESSAGES)),
{
    permissions.has(Permissions::VIEW_CHANNEL)?;
    if author_id != user_id {
        permissions.has(Permissions::MANAGE_MESSAGES)?;
    }
    Ok(())
}

/// The message must lie in the channel that the request names.
pub fn message_in_channel(message_channel_id: u64, channel_id: u64) -> (r: Result<(), Error>)
    ensures
        r == (if message_channel_id != channel_id {
            Err::<(), Error>(Error::MissingAccess)
        } else {
            Ok(())
        }),
{
    if message_channel_id != channel_id {
        return Err(Error::MissingAccess);
    }
    Ok(())
}

/// Decides whether `permissions` allow reading the channel's messages.
pub fn authorize_read(permissions: Permissions) -> (r: Result<(), Error>)
    ensures
        r == read_outcome(permissions),
        r is Ok <==> (permissions.bits & Permissions::VIEW_CHANNEL == Permissions::VIEW_CHANNEL
            && permissions.bits & Permissions::READ_MESSAGE_HISTORY
            == Permissions::READ_MESSAGE_HISTORY),
{
    permissions.has(Permissions::VIEW_CHANNEL)?;
    permissions.has(Permissions::READ_MESSAGE_HISTORY)?;
    Ok(())
}

/// Decides whether a message of channel `message_channel_id` may be read
/// through channel `channel_id` with `permissions`.
pub fn authorize_fetch(message_channel_id: u64, channel_id: u64, permissions: Permissions) -> (r: Result<(), Error>)
    ensures
        r == fetch_outcome(message_channel_id, channel_id, permissions),
        message_channel_id != channel_id ==> r matches Err(Error::MissingAccess),
        r is Ok <==> (message_channel_id == channel_id && permissions.bits & Permissions::VIEW_CHANNEL
            == Permissions::VIEW_CHANNEL && permissions.bits & Permissions::READ_MESSAGE_HISTORY
            == Permissions::READ_MESSAGE_HISTORY),
{
    message_in_channel(message_channel_id, channel_id)?;
    authorize_read(permissions)
}

/// Authors can always delete their own messages in a channel they can see.
pub proof fn lemma_author_deletes_own(permissions: Permissions, user_id: i64)
    ensures
        delete_outcome(permissions, user_id, user_id) is Ok <==> permissions.contains(
            Permissions::VIEW_CHANNEL,
        ),
{
}

/// Granting more permissions never turns an allowed deletion into a refusal.
pub proof fn lemma_delete_monotone(p: Permissions, q: Permissions, author_id: i64, user_id: i64)
    requires
        p.subset_of(q),
        delete_outcome(p, author_id, user_id) is Ok,
    ensures
        delete_outcome(q, author_id, user_id) is Ok,
{
    lemma_contains_monotone(p, q, Permissions::VIEW_CHANNEL);
    if author_id != user_id {
        lemma_contains_monotone(p, q, Permissions::MANAGE_MESSAGES);
    }
}

/// Granting more permissions never turns an allowed read into a refusal.
pub proof fn lemma_fetch_monotone(p: Permissions, q: Permissions, message_channel_id: u64, channel_id: u64)
    requires
        p.subset_of(q),
        fetch_outcome(message_channel_id, channel_id, p) is Ok,
    ensures
        fetch_outcome(message_channel_id, channel_id, q) is Ok,
{
    lemma_contains_monotone(p, q, Permissions::VIEW_CHANNEL);
    lemma_contains_monotone(p, q, Permissions::READ_MESSAGE_HISTORY);
}

/// A message is only ever given out through the channel it lies in: asked
/// for through any other channel, the answer is `MissingAccess` whatever the
/// permissions; through its own channel it is given out exactly when the
/// channel is visible and its history readable, and otherwise the first
/// missing flag is named.
pub proof fn lemma_fetch_rule(message_channel_id: u64, channel_id: u64, permissions: Permissions)
    ensures
        message_channel_id != channel_id ==> fetch_outcome(message_channel_id, channel_id, permissions)
            == Err::<(), Error>(Error::MissingAccess),
        message_channel_id == channel_id ==> fetch_outcome(message_channel_id, channel_id, permissions)
            == (if permissions.bits & Permissions::VIEW_CHANNEL != Permissions::VIEW_CHANNEL {
            Err::<(), Error>(Error::MissingPermissions(Permissions::VIEW_CHANNEL))
        } else if permissions.bits & Permissions::READ_MESSAGE_HISTORY
            != Permissions::READ_MESSAGE_HISTORY {
            Err(Error::MissingPermissions(Permissions::READ_MESSAGE_HISTORY))
        } else {
            Ok(())
        }),
{
}

/// Deleting needs a visible channel; deleting someone else's message needs
/// the right to manage messages as well; the first missing flag is named.
pub proof fn lemma_delete_rule(permissions: Permissions, author_id: i64, user_id: i64)
    ensures
        delete_outcome(permissions, author_id, user_id) == (if permissions.bits
            & Permissions::VIEW_CHANNEL != Permissions::VIEW_CHANNEL {
            Err::<(), Error>(Error::MissingPermissions(Permissions::VIEW_CHANNEL))
        } else if author_id != user_id && permissions.bits & Permissions::MANAGE_MESSAGES
            != Permissions::MANAGE_MESSAGES {
            Err(Error::MissingPermissions(Permissions::MANAGE_MESSAGES))
        } else {
            Ok(())
        }),
{
}

} // verus!

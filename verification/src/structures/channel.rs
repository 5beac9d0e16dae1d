//! Channels: text, voice and category channels of servers, and the other
//! kinds that a channel can have.

use crate::utils::snowflake::{generate_signed, IdGenerator};
use vstd::prelude::*;

verus! {

#[derive(Debug, Clone, Copy, PartialEq, Eq, Structural)]
pub enum ChannelTypes {
    Unknown,
    Direct,
    Group,
    Text,
    Voice,
    Category,
}

#[derive(Debug, Clone)]
pub struct Channel {
    pub id: i64,
    pub channel_type: ChannelTypes,
    pub name: Option<String>,
    pub server_id: Option<i64>,
    pub parent_id: Option<i64>,
}

impl Channel {
    /// A fresh server channel of kind `kind`, without a parent.
    pub open spec fn fresh(self, id: i64, kind: ChannelTypes, name: Seq<char>, server_id: i64) -> bool {
        &&& self.id == id
        &&& self.channel_type == kind
        &&& self.name matches Some(n) && n@ == name
        &&& self.server_id == Some(server_id)
        &&& self.parent_id is None
    }

    /// The channel `name` of kind `kind` in server `server_id`, with the id `id`.
    pub fn with_id(id: i64, kind: ChannelTypes, name: String, server_id: i64) -> (c: Channel)
        ensures
            c.fresh(id, kind, name@, server_id),
    {
        Channel { id, channel_type: kind, name: Some(name), server_id: Some(server_id), parent_id: None }
    }

    /// A new channel of kind `kind` with the generator's next id.
    fn new_of_kind(kind: ChannelTypes, name: String, server_id: i64, ids: &mut IdGenerator) -> (c: Channel)
        ensures
            c.fresh(old(ids).nth_id(0), kind, name@, server_id),
            final(ids).advanced_from(*old(ids), 1),
    {
        let id = generate_signed(ids);
        Channel::with_id(id, kind, name, server_id)
    }

    /// A new text channel `name` in server `server_id`.
    pub fn new_text(name: String, server_id: i64, ids: &mut IdGenerator) -> (c: Channel)
        ensures
            c.fresh(old(ids).nth_id(0), ChannelTypes::Text, name@, server_id),
            final(ids).advanced_from(*old(ids), 1),
    {
        Channel::new_of_kind(ChannelTypes::Text, name, server_id, ids)
    }

    /// A new voice channel `name` in server `server_id`.
    pub fn new_voice(name: String, server_id: i64, ids: &mut IdGenerator) -> (c: Channel)
        ensures
            c.fresh(old(ids).nth_id(0), ChannelTypes::Voice, name@, server_id),
            final(ids).advanced_from(*old(ids), 1),
    {
        Channel::new_of_kind(ChannelTypes::Voice, name, server_id, ids)
    }

    /// A new category `name` in server `server_id`.
    pub fn new_category(name: String, server_id: i64, ids: &mut IdGenerator) -> (c: Channel)
        ensures
            c.fresh(old(ids).nth_id(0), ChannelTypes::Category, name@, server_id),
            final(ids).advanced_from(*old(ids), 1),
    {
        Channel::new_of_kind(ChannelTypes::Category, name, server_id, ids)
    }
}

/// A fresh channel has the given id, kind and name, belongs to the given
/// server and has no parent.
pub proof fn lemma_fresh_channel_rule(c: Channel, id: i64, kind: ChannelTypes, name: Seq<char>, server_id: i64)
    requires
        c.fresh(id, kind, name, server_id),
    ensures
        c.id == id,
        c.channel_type == kind,
        c.name is Some,
        c.name->Some_0@ == name,
        c.server_id == Some(server_id),
        c.parent_id is None,
{
}

} // verus!

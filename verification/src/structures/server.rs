//! Servers: the communities that hold channels, roles and members.

use crate::permissions::Permissions;
use crate::utils::snowflake::{generate_signed, IdGenerator};
use vstd::prelude::*;

verus! {

#[derive(Debug, Clone)]
pub struct Server {
    pub id: i64,
    pub name: String,
    pub description: Option<String>,
    pub icon: Option<String>,
    pub banner: Option<String>,
    pub owner_id: i64,
    pub permissions: Permissions,
}

impl Server {
    /// A fresh server: no description, icon or banner, and the default
    /// permissions of everyone.
    pub open spec fn fresh(self, id: i64, name: Seq<char>, owner_id: i64) -> bool {
        &&& self.id == id
        &&& self.name@ == name
        &&& self.owner_id == owner_id
        &&& self.description is None
        &&& self.icon is None
        &&& self.banner is None
        &&& self.permissions.bits == Permissions::VIEW_CHANNEL | Permissions::SEND_MESSAGES
            | Permissions::READ_MESSAGE_HISTORY | Permissions::EMBED_LINKS
            | Permissions::UPLOAD_FILES
    }

    /// The server `name` owned by `owner_id`, with the id `id`.
    pub fn with_id(id: i64, name: String, owner_id: i64) -> (s: Server)
        ensures
            s.fresh(id, name@, owner_id),
    {
        Server {
            id,
            name,
            description: None,
            icon: None,
            banner: None,
            owner_id,
            permissions: Permissions::default_everyone(),
        }
    }

    /// A new server `name` owned by `owner_id`, with the generator's next id.
    pub fn new(name: String, owner_id: i64, ids: &mut IdGenerator) -> (s: Server)
        ensures
            s.fresh(old(ids).nth_id(0), name@, owner_id),
            final(ids).advanced_from(*old(ids), 1),
    {
        let id = generate_signed(ids);
        Server::with_id(id, name, owner_id)
    }
}

/// A fresh server has the given id, name and owner, no description, icon or
/// banner, and everyone may view channels, send messages, read history,
/// embed links and upload files, and nothing more.
pub proof fn lemma_fresh_server_rule(s: Server, id: i64, name: Seq<char>, owner_id: i64)
    requires
        s.fresh(id, name, owner_id),
    ensures
        s.id == id,
        s.name@ == name,
        s.owner_id == owner_id,
        s.description is None,
        s.icon is None,
        s.banner is None,
        s.permissions.bits == 62,
{
    assert(Permissions::VIEW_CHANNEL | Permissions::SEND_MESSAGES | Permissions::READ_MESSAGE_HISTORY
        | Permissions::EMBED_LINKS | Permissions::UPLOAD_FILES == 62) by (bit_vector);
}

} // verus!

//! Roles: named permission sets of a server.

use crate::permissions::Permissions;
use crate::utils::snowflake::{generate_signed, IdGenerator};
use vstd::prelude::*;

verus! {

#[derive(Debug, Clone)]
pub struct Role {
    pub id: i64,
    pub name: String,
    pub permissions: Permissions,
    pub color: i32,
    pub hoist: bool,
    pub server_id: i64,
}

impl Role {
    /// A fresh role of a server with the given id: no permissions, colour 0,
    /// not hoisted.
    pub open spec fn fresh(self, id: i64, name: Seq<char>, server_id: i64) -> bool {
        &&& self.id == id
        &&& self.name@ == name
        &&& self.server_id == server_id
        &&& self.permissions.bits == 0
        &&& self.color == 0
        &&& !self.hoist
    }

    /// The role `name` of server `server_id`, with the id `id`.
    pub fn with_id(id: i64, name: String, server_id: i64) -> (r: Role)
        ensures
            r.fresh(id, name@, server_id),
    {
        Role { id, name, permissions: Permissions::empty(), color: 0, hoist: false, server_id }
    }

    /// A new role `name` of server `server_id`, with the generator's next id.
    pub fn new(name: String, server_id: i64, ids: &mut IdGenerator) -> (r: Role)
        ensures
            r.fresh(old(ids).nth_id(0), name@, server_id),
            final(ids).advanced_from(*old(ids), 1),
    {
        let id = generate_signed(ids);
        Role::with_id(id, name, server_id)
    }
}

/// A fresh role has the given id, name and server, no permissions, colour 0
/// and is not hoisted.
pub proof fn lemma_fresh_role_rule(r: Role, id: i64, name: Seq<char>, server_id: i64)
    requires
        r.fresh(id, name, server_id),
    ensures
        r.id == id,
        r.name@ == name,
        r.server_id == server_id,
        r.permissions.bits == 0,
        r.color == 0,
        r.hoist == false,
{
}

} // verus!

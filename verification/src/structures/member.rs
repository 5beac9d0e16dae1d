//! Members: the link between a user and a server the user has joined.

use vstd::prelude::*;

verus! {

#[derive(Debug, Clone, Copy, PartialEq, Eq, Structural)]
pub struct Member {
    /// The id of the user.
    pub id: i64,
    pub server_id: i64,
}

impl Member {
    /// User `user_id` as a member of server `server_id`.
    pub fn new(user_id: i64, server_id: i64) -> (m: Member)
        ensures
            m.id == user_id,
            m.server_id == server_id,
    {
        Member { id: user_id, server_id }
    }
}

} // verus!

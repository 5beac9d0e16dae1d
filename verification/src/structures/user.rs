//! User accounts.

use crate::utils::snowflake::{generate_signed, IdGenerator};
use vstd::prelude::*;

verus! {

#[derive(Debug, Clone)]
pub struct User {
    pub id: i64,
    pub username: String,
    pub email: String,
    /// The encoded password hash.
    pub password: String,
    pub verified: bool,
}

impl User {
    /// A fresh, not yet verified account.
    pub open spec fn fresh(self, id: i64, username: Seq<char>, email: Seq<char>, password: Seq<char>) -> bool {
        &&& self.id == id
        &&& self.username@ == username
        &&& self.email@ == email
        &&& self.password@ == password
        &&& !self.verified
    }

    /// The account `username` with the given email and password hash and the
    /// id `id`, not yet verified.
    pub fn with_id(id: i64, username: String, email: String, password: String) -> (u: User)
        ensures
            u.fresh(id, username@, email@, password@),
    {
        User { id, username, email, password, verified: false }
    }

    /// A new account with the generator's next id, not yet verified.
    pub fn new(username: String, email: String, password: String, ids: &mut IdGenerator) -> (u: User)
        ensures
            u.fresh(old(ids).nth_id(0), username@, email@, password@),
            final(ids).advanced_from(*old(ids), 1),
    {
        let id = generate_signed(ids);
        User::with_id(id, username, email, password)
    }
}

/// A fresh account has the given id, username, email and password hash and
/// is not verified.
pub proof fn lemma_fresh_user_rule(u: User, id: i64, username: Seq<char>, email: Seq<char>, password: Seq<char>)
    requires
        u.fresh(id, username, email, password),
    ensures
        u.id == id,
        u.username@ == username,
        u.email@ == email,
        u.password@ == password,
        u.verified == false,
{
}

} // verus!

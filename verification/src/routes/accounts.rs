//! Registering accounts and verifying them.

use crate::error::Error;
use crate::structures::user::User;
use crate::utils::snowflake::{generate_signed, IdGenerator};
use crate::validation::{
    email_errors, finish, is_valid_email, length_errors, push_email_error, push_length_error,
    Field, FieldError, Rule, ValidationErrors,
};
use crate::utils::password::{argon2_hash_encoded, hash_encoded, is_salt, random_url_safe};
use vstd::pervasive::unreached;
use vstd::prelude::*;
use vstd::string::*;

verus! {

/// The body of a registration request.
#[derive(Debug, Clone, Copy)]
pub struct RegisterSchema<'r> {
    /// Between 3 and 32 characters.
    pub username: &'r str,
    /// Between 8 and 32 characters.
    pub password: &'r str,
    /// An email address.
    pub email: &'r str,
}

impl<'r> RegisterSchema<'r> {
    /// The rules that the body breaks, in field order.
    pub open spec fn errors(&self) -> Seq<FieldError> {
        length_errors(self.username@, 3, 32, Field::Username) + length_errors(
            self.password@,
            8,
            32,
            Field::Password,
        ) + email_errors(self.email@, Field::Email)
    }

    /// Checks the body's field rules.
    pub fn validate(&self) -> (r: Result<(), ValidationErrors>)
        ensures
            r is Ok <==> self.errors().len() == 0,
            r matches Err(e) ==> e@ == self.errors(),
    {
        let mut errors: Vec<FieldError> = Vec::new();
        push_length_error(&mut errors, self.username, 3, 32, Field::Username);
        push_length_error(&mut errors, self.password, 8, 32, Field::Password);
        push_email_error(&mut errors, self.email, Field::Email);
        assert(errors@ =~= self.errors());
        finish(errors)
    }
}

/// The account that registration makes from a valid body: the given
/// username and email, the password hashed with `salt`, the id `id`, and
/// verified at once.
pub open spec fn registered(u: User, data: RegisterSchema, salt: Seq<char>, id: i64) -> bool {
    &&& u.id == id
    &&& u.username@ == data.username@
    &&& u.email@ == data.email@
    &&& u.password@ == argon2_hash_encoded(data.password@, salt)
    &&& u.verified
}

/// Registers an account from `data`, given whether its email address is in
/// use, with the salt `salt` and the id `id`: the body must be valid and the
/// email address free.
pub fn new_account(data: RegisterSchema, email_in_use: bool, salt: &str, id: i64) -> (r: Result<User, Error>)
    requires
        8 <= salt@.len() <= 0x3fff_ffff,
    ensures
        data.errors().len() > 0 ==> (r matches Err(Error::InvalidBody { error }) && error@
            == data.errors()),
        data.errors().len() == 0 && email_in_use ==> r matches Err(Error::EmailAlreadyInUse),
        data.errors().len() == 0 && !email_in_use ==> (r matches Ok(u) && registered(
            u,
            data,
            salt@,
            id,
        )),
{
    if let Err(error) = data.validate() {
        return Err(Error::InvalidBody { error });
    }
    if email_in_use {
        return Err(Error::EmailAlreadyInUse);
    }
    assert(data.password@.len() <= 32) by {
        assert(length_errors(data.password@, 8, 32, Field::Password).len() == 0);
    }
    let hashed = match hash_encoded(data.password, salt) {
        Ok(h) => h,
        Err(_) => unreached(),
    };
    let mut user = User::with_id(
        id,
        String::from_str(data.username),
        String::from_str(data.email),
        hashed,
    );
    user.verified = true;
    Ok(user)
}

/// Registers an account from `data`, given whether its email address is in
/// use: the body must be valid and the email address free; the password is
/// hashed with a new random salt and the account gets a new snowflake id.
pub fn register_account(data: RegisterSchema, email_in_use: bool, ids: &mut IdGenerator) -> (r: Result<User, Error>)
    ensures
        data.errors().len() > 0 ==> (r matches Err(Error::InvalidBody { error }) && error@
            == data.errors()),
        data.errors().len() == 0 && email_in_use ==> r matches Err(Error::EmailAlreadyInUse),
        data.errors().len() == 0 && !email_in_use ==> (r matches Ok(u) && u.id == old(ids).nth_id(0)
            && final(ids).advanced_from(*old(ids), 1) && exists|salt: Seq<char>|
            is_salt(salt) && #[trigger] registered(u, data, salt, u.id)),
        r is Err ==> *final(ids) == *old(ids),
{
    if let Err(error) = data.validate() {
        return Err(Error::InvalidBody { error });
    }
    if email_in_use {
        return Err(Error::EmailAlreadyInUse);
    }
    let salt = random_url_safe(24);
    let id = generate_signed(ids);
    let r = new_account(data, email_in_use, salt.as_str(), id);
    assert(is_salt(salt@));
    r
}

/// The answer to a verification request, given the unverified account with
/// the requested id if there is one: that account, now verified.
pub fn verify_account(found: Option<User>) -> (r: Result<User, Error>)
    ensures
        match found {
            Some(u) => r matches Ok(v) && v.id == u.id && v.username == u.username && v.email
                == u.email && v.password == u.password && v.verified,
            None => r matches Err(Error::AccountNotFound),
        },
{
    match found {
        Some(user) => {
            let mut user = user;
            user.verified = true;
            Ok(user)
        },
        None => Err(Error::AccountNotFound),
    }
}

/// No two accounts of `table` share an email address.
pub open spec fn emails_unique(table: Seq<User>) -> bool {
    forall|i: int, j: int|
        0 <= i < j < table.len() ==> #[trigger] table[i].email@ != #[trigger] table[j].email@
}

/// Some account of `table` has the email address `email`.
pub open spec fn email_taken(table: Seq<User>, email: Seq<char>) -> bool {
    exists|i: int| 0 <= i < table.len() && #[trigger] table[i].email@ == email
}

/// Registration keeps email addresses unique: when no two accounts of
/// `table` share an address, the caller reports whether the body's address is
/// taken in `table`, and registration makes the account `u` (which it does
/// only when the address is free), adding `u` to `table` keeps the addresses
/// unique.
pub proof fn lemma_register_keeps_emails_unique(
    table: Seq<User>,
    data: RegisterSchema,
    email_in_use: bool,
    u: User,
    salt: Seq<char>,
)
    requires
        emails_unique(table),
        email_in_use == email_taken(table, data.email@),
        !email_in_use,
        registered(u, data, salt, u.id),
    ensures
        emails_unique(table.push(u)),
{
    assert forall|i: int, j: int|
        0 <= i < j < table.push(u).len() implies #[trigger] table.push(u)[i].email@
            != #[trigger] table.push(u)[j].email@ by {
        if j == table.len() {
            assert(table.push(u)[i] == table[i]);
            if table[i].email@ == data.email@ {
                assert(email_taken(table, data.email@));
            }
        } else {
            assert(table.push(u)[i] == table[i]);
            assert(table.push(u)[j] == table[j]);
        }
    }
}

/// No two accounts of `table` share an id.
pub open spec fn ids_unique(table: Seq<User>) -> bool {
    forall|i: int, j: int| 0 <= i < j < table.len() ==> #[trigger] table[i].id != #[trigger] table[j].id
}

/// Some account of `table` with the id `id` is not verified yet: what the
/// verification lookup asks for.
pub open spec fn unverified_with_id(table: Seq<User>, id: i64) -> bool {
    exists|i: int| 0 <= i < table.len() && #[trigger] table[i].id == id && !table[i].verified
}

/// A second verification finds nothing: once the account at `i` is replaced
/// by the verified account that `verify_account` made of it, no unverified
/// account with that id is left, so the lookup yields `None` and
/// `verify_account` answers `AccountNotFound`.
pub proof fn lemma_verified_once(table: Seq<User>, i: int, v: User)
    requires
        ids_unique(table),
        0 <= i < table.len(),
        v.id == table[i].id,
        v.verified,
    ensures
        !unverified_with_id(table.update(i, v), v.id),
{
    let t2 = table.update(i, v);
    assert forall|k: int| 0 <= k < t2.len() && #[trigger] t2[k].id == v.id implies t2[k].verified by {
        if k != i {
            assert(t2[k] == table[k]);
            if k < i {
                assert(table[k].id != table[i].id);
            } else {
                assert(table[i].id != table[k].id);
            }
        }
    }
}

/// The field rules of a registration body, reported in field order: a
/// username of 3 to 32 characters, a password of 8 to 32 characters, and an
/// email address that `validator` accepts.
pub proof fn lemma_register_body_rule(data: RegisterSchema)
    ensures
        data.errors() == (if 3 <= data.username@.len() && data.username@.len() <= 32 {
            Seq::<FieldError>::empty()
        } else {
            seq![FieldError { field: Field::Username, rule: Rule::Length }]
        }) + (if 8 <= data.password@.len() && data.password@.len() <= 32 {
            Seq::<FieldError>::empty()
        } else {
            seq![FieldError { field: Field::Password, rule: Rule::Length }]
        }) + (if is_valid_email(data.email@) {
            Seq::<FieldError>::empty()
        } else {
            seq![FieldError { field: Field::Email, rule: Rule::Email }]
        }),
{
}

/// A registered account keeps the body's username and email, stores the
/// Argon2 hash of the password with the salt in place of the password, and
/// is verified at once.
pub proof fn lemma_registered_rule(u: User, data: RegisterSchema, salt: Seq<char>, id: i64)
    requires
        registered(u, data, salt, id),
    ensures
        u.id == id,
        u.username@ == data.username@,
        u.email@ == data.email@,
        u.password@ == argon2_hash_encoded(data.password@, salt),
        u.verified == true,
{
}

/// A salt is 24 characters, each `_`, `-`, a digit or an ASCII letter.
pub proof fn lemma_salt_rule(salt: Seq<char>)
    ensures
        is_salt(salt) <==> (salt.len() == 24 && forall|i: int|
            0 <= i < salt.len() ==> ({
                let c = #[trigger] salt[i];
                c == '_' || c == '-' || ('0' <= c && c <= '9') || ('a' <= c && c <= 'z') || ('A' <= c
                    && c <= 'Z')
            })),
{
}

} // verus!

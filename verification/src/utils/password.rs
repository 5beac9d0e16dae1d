//! Password hashing with Argon2 and the random salts that it is given.

use argon2::Error as Argon2Error;
use vstd::prelude::*;

verus! {

#[verifier::external_type_specification]
#[verifier::external_body]
pub struct ExArgon2Error(Argon2Error);

/// The encoded Argon2 hash (`argon2::hash_encoded` with `Config::default()`)
/// of a password with a salt, both taken as their UTF-8 bytes.
pub uninterp spec fn argon2_hash_encoded(password: Seq<char>, salt: Seq<char>) -> Seq<char>;

/// `argon2::hash_encoded(password, salt, &Config::default())` on the UTF-8
/// bytes of both. The result is the name `argon2_hash_encoded` of the two
/// texts; it is `Ok` whenever the salt has at least 8 bytes and neither text
/// has more than `u32::MAX` bytes (a character takes at most 4 bytes), the
/// limits that `Context::new` checks for the default configuration.
#[verifier::external_body]
pub(crate) fn hash_encoded(password: &str, salt: &str) -> (r: Result<String, Argon2Error>)
    ensures
        r matches Ok(h) ==> h@ == argon2_hash_encoded(password@, salt@),
        8 <= salt@.len() && 4 * salt@.len() <= u32::MAX && 4 * password@.len() <= u32::MAX
            ==> r is Ok,
{
    argon2::hash_encoded(password.as_bytes(), salt.as_bytes(), &argon2::Config::default())
}

/// A character of `nanoid`'s URL-safe alphabet: `_`, `-`, a digit or an
/// ASCII letter.
pub open spec fn is_url_safe_char(c: char) -> bool {
    ||| c == '_'
    ||| c == '-'
    ||| ('0' <= c && c <= '9')
    ||| ('a' <= c && c <= 'z')
    ||| ('A' <= c && c <= 'Z')
}

/// A salt as registration makes them: 24 URL-safe characters.
pub open spec fn is_salt(s: Seq<char>) -> bool {
    &&& s.len() == 24
    &&& forall|i: int| 0 <= i < s.len() ==> is_url_safe_char(#[trigger] s[i])
}

/// `nanoid::format(nanoid::rngs::default, &nanoid::alphabet::SAFE, size)`, the
/// expansion of `nanoid!(size)`: `size` characters drawn at random from the
/// 64 characters of the URL-safe alphabet. Which characters come out is
/// chance, and is not stated.
#[verifier::external_body]
pub(crate) fn random_url_safe(size: usize) -> (s: String)
    ensures
        s@.len() == size,
        forall|i: int| 0 <= i < s@.len() ==> is_url_safe_char(#[trigger] s@[i]),
{
    nanoid::format(nanoid::rngs::default, &nanoid::alphabet::SAFE, size)
}

} // verus!

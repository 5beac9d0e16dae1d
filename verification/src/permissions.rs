//! Permission bit sets and the check that a request holds the flags it needs.

use crate::error::Error;
use vstd::prelude::*;

verus! {

/// A set of permission flags, one bit per flag.
#[derive(Clone, Copy, Debug, PartialEq, Eq, Structural)]
pub struct Permissions {
    pub bits: u64,
}

impl Permissions {
    pub const ADMINISTRATOR: u64 = 1;
    pub const VIEW_CHANNEL: u64 = 2;
    pub const SEND_MESSAGES: u64 = 4;
    pub const READ_MESSAGE_HISTORY: u64 = 8;
    pub const EMBED_LINKS: u64 = 16;
    pub const UPLOAD_FILES: u64 = 32;
    pub const MANAGE_SERVER: u64 = 64;
    pub const MANAGE_CHANNELS: u64 = 128;
    pub const MANAGE_MESSAGES: u64 = 256;
    pub const MANAGE_ROLES: u64 = 512;

    /// Every flag of `flags` is set in `self`.
    pub open spec fn contains(self, flags: u64) -> bool {
        self.bits & flags == flags
    }

    /// Every flag of `self` is also set in `other`.
    pub open spec fn subset_of(self, other: Permissions) -> bool {
        self.bits & other.bits == self.bits
    }

    /// The outcome of asking `self` for `flags`.
    pub open spec fn spec_has(self, flags: u64) -> Result<(), Error> {
        if self.contains(flags) {
            Ok(())
        } else {
            Err(Error::MissingPermissions(flags))
        }
    }

    /// The empty set: what a role or a user holds by default.
    pub fn empty() -> (p: Permissions)
        ensures
            p.bits == 0,
    {
        Permissions { bits: 0 }
    }

    /// What everyone holds on a newly created server.
    pub fn default_everyone() -> (p: Permissions)
        ensures
            p.bits == Self::VIEW_CHANNEL | Self::SEND_MESSAGES | Self::READ_MESSAGE_HISTORY
                | Self::EMBED_LINKS | Self::UPLOAD_FILES,
    {
        Permissions {
            bits: Self::VIEW_CHANNEL | Self::SEND_MESSAGES | Self::READ_MESSAGE_HISTORY
                | Self::EMBED_LINKS | Self::UPLOAD_FILES,
        }
    }

    /// Succeeds when every flag of `flags` is held, and otherwise names the
    /// flags that were asked for.
    pub fn has(self, flags: u64) -> (r: Result<(), Error>)
        ensures
            r == self.spec_has(flags),
    {
        if self.bits & flags == flags {
            Ok(())
        } else {
            Err(Error::MissingPermissions(flags))
        }
    }
}

/// A flag held by a set is held by every larger set.
pub proof fn lemma_contains_monotone(p: Permissions, q: Permissions, flags: u64)
    requires
        p.subset_of(q),
        p.contains(flags),
    ensures
        q.contains(flags),
{
    let (a, b, f) = (p.bits, q.bits, flags);
    assert(a & b == a && a & f == f ==> b & f == f) by (bit_vector);
}

/// Asking for flags succeeds exactly when every one of them is set, and
/// otherwise names all the flags that were asked for.
pub proof fn lemma_has_rule(p: Permissions, flags: u64)
    ensures
        p.spec_has(flags) is Ok <==> p.bits & flags == flags,
        p.spec_has(flags) is Err ==> p.spec_has(flags) == Err::<(), Error>(
            Error::MissingPermissions(flags),
        ),
        p.subset_of(Permissions { bits: p.bits | flags }),
{
    let (a, f) = (p.bits, flags);
    assert(a & (a | f) == a) by (bit_vector);
}

} // verus!

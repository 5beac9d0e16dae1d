//! The errors that a request can be answered with.

use crate::validation::ValidationErrors;
use vstd::prelude::*;

verus! {

/// Why a request was refused.
#[derive(Debug)]
pub enum Error {
    /// The request body broke one or more field rules.
    InvalidBody { error: ValidationErrors },
    /// An account with this email address exists already.
    EmailAlreadyInUse,
    /// No unverified account has the given id.
    AccountNotFound,
    /// The resource does not belong where the request says it does, or
    /// cannot be created.
    MissingAccess,
    /// The caller lacks the listed permission flags.
    MissingPermissions(u64),
    /// The user is a member of too many servers.
    MaximumServers,
    /// The server has too many channels.
    MaximumChannels,
    /// The server has too many roles.
    MaximumRoles,
}

} // verus!

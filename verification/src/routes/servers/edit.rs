//! Editing a server's settings.

use crate::error::Error;
use crate::permissions::{lemma_contains_monotone, Permissions};
use crate::structures::server::Server;
use crate::validation::{finish, length_errors, push_length_error, Field, FieldError, Rule, ValidationErrors};
use vstd::prelude::*;

verus! {

/// The body of a request to edit a server; absent fields stay as they are.
#[derive(Debug, Clone)]
pub struct EditServerOptions {
    /// When present, between 1 and 50 characters.
    pub name: Option<String>,
}

impl EditServerOptions {
    /// The rules that the body breaks.
    pub open spec fn errors(&self) -> Seq<FieldError> {
        match self.name {
            Some(name) => length_errors(name@, 1, 50, Field::Name),
            None => Seq::empty(),
        }
    }

    /// Checks the body's field rules.
    pub fn validate(&self) -> (r: Result<(), ValidationErrors>)
        ensures
            r is Ok <==> self.errors().len() == 0,
            r matches Err(e) ==> e@ == self.errors(),
    {
        let mut errors: Vec<FieldError> = Vec::new();
        match &self.name {
            Some(name) => push_length_error(&mut errors, name.as_str(), 1, 50, Field::Name),
            None => {},
        }
        assert(errors@ =~= self.errors());
        finish(errors)
    }
}

/// `after` is `before` with the edit `name` applied: the name replaced when
/// one is given, and every other setting kept.
pub open spec fn edited(before: Server, name: Option<Seq<char>>, after: Server) -> bool {
    &&& after.id == before.id
    &&& after.name@ == (match name {
        Some(n) => n,
        None => before.name@,
    })
    &&& after.description == before.description
    &&& after.icon == before.icon
    &&& after.banner == before.banner
    &&& after.owner_id == before.owner_id
    &&& after.permissions == before.permissions
}

/// The name that an edit asks for, as characters.
pub open spec fn requested_name(options: EditServerOptions) -> Option<Seq<char>> {
    match options.name {
        Some(n) => Some(n@),
        None => None,
    }
}

/// Applies an edit to `server` for a user holding `permissions` on it: the
/// body must be valid and the user must be allowed to manage the server.
pub fn edit_server(server: Server, permissions: Permissions, options: EditServerOptions) -> (r: Result<Server, Error>)
    ensures
        r is Ok <==> (options.errors().len() == 0 && permissions.bits & Permissions::MANAGE_SERVER
            == Permissions::MANAGE_SERVER),
        match r {
            Ok(after) => {
                &&& options.errors().len() == 0
                &&& permissions.contains(Permissions::MANAGE_SERVER)
                &&& edited(server, requested_name(options), after)
                &&& after.id == server.id
                &&& after.name@ == (match options.name {
                    Some(n) => n@,
                    None => server.name@,
                })
                &&& after.description == server.description
                &&& after.icon == server.icon
                &&& after.banner == server.banner
                &&& after.owner_id == server.owner_id
                &&& after.permissions == server.permissions
            },
            Err(Error::InvalidBody { error }) => options.errors().len() > 0 && error@ == options.errors(),
            Err(Error::MissingPermissions(flags)) => {
                &&& options.errors().len() == 0
                &&& !permissions.contains(Permissions::MANAGE_SERVER)
                &&& flags == Permissions::MANAGE_SERVER
            },
            Err(_) => false,
        },
{
    if let Err(error) = options.validate() {
        return Err(Error::InvalidBody { error });
    }
    permissions.has(Permissions::MANAGE_SERVER)?;
    let mut server = server;
    if let Some(name) = options.name {
        server.name = name;
    }
    Ok(server)
}

/// Applying the same edit twice leaves the server as applying it once does.
pub proof fn lemma_edit_idempotent(s0: Server, name: Option<Seq<char>>, s1: Server, s2: Server)
    requires
        edited(s0, name, s1),
        edited(s1, name, s2),
    ensures
        edited(s0, name, s2),
{
}

/// An edit without a name changes nothing that the contract speaks of.
pub proof fn lemma_empty_edit_keeps_server(s0: Server, s1: Server)
    requires
        edited(s0, None, s1),
    ensures
        s1.id == s0.id,
        s1.name@ == s0.name@,
        s1.owner_id == s0.owner_id,
        s1.permissions == s0.permissions,
{
}

/// Granting more permissions never turns an allowed edit into a refusal.
pub proof fn lemma_edit_monotone(p: Permissions, q: Permissions)
    requires
        p.subset_of(q),
        p.contains(Permissions::MANAGE_SERVER),
    ensures
        q.contains(Permissions::MANAGE_SERVER),
{
    lemma_contains_monotone(p, q, Permissions::MANAGE_SERVER);
}

/// An edit changes nothing but the name: the id, description, icon,
/// banner, owner and permissions stay as they were, and the name becomes the
/// requested one, or stays when none is requested.
pub proof fn lemma_edit_changes_only_name(before: Server, options: EditServerOptions, after: Server)
    requires
        edited(before, requested_name(options), after),
    ensures
        after.id == before.id,
        after.description == before.description,
        after.icon == before.icon,
        after.banner == before.banner,
        after.owner_id == before.owner_id,
        after.permissions == before.permissions,
        options.name matches Some(n) ==> after.name@ == n@,
        options.name is None ==> after.name@ == before.name@,
{
}

/// The field rule of an edit body: a name, when present, of 1 to 50
/// characters.
pub proof fn lemma_edit_body_rule(options: EditServerOptions)
    ensures
        options.errors() == (match options.name {
            Some(n) => if 1 <= n@.len() && n@.len() <= 50 {
                Seq::<FieldError>::empty()
            } else {
                seq![FieldError { field: Field::Name, rule: Rule::Length }]
            },
            None => Seq::<FieldError>::empty(),
        }),
{
}

} // verus!

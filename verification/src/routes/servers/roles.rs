//! Creating a role in a server.

use crate::error::Error;
use crate::permissions::{lemma_contains_monotone, Permissions};
use crate::structures::role::Role;
use crate::utils::snowflake::IdGenerator;
use crate::validation::{finish, length_errors, push_length_error, Field, FieldError, Rule, ValidationErrors};
use vstd::prelude::*;

verus! {

/// The body of a request to create a role.
#[derive(Debug, Clone)]
pub struct CreateRoleOptions {
    /// Between 1 and 32 characters.
    pub name: String,
    pub color: u8,
    pub permissions: Permissions,
    pub hoist: bool,
}

impl CreateRoleOptions {
    /// The rules that the body breaks.
    pub open spec fn errors(&self) -> Seq<FieldError> {
        length_errors(self.name@, 1, 32, Field::Name)
    }

    /// Checks the body's field rules.
    pub fn validate(&self) -> (r: Result<(), ValidationErrors>)
        ensures
            r is Ok <==> self.errors().len() == 0,
            r matches Err(e) ==> e@ == self.errors(),
    {
        let mut errors: Vec<FieldError> = Vec::new();
        push_length_error(&mut errors, self.name.as_str(), 1, 32, Field::Name);
        assert(errors@ =~= self.errors());
        finish(errors)
    }
}

/// Everything that a role creation checks once the body is valid, in order.
pub open spec fn role_checks(permissions: Permissions, role_count: u64, max_roles: u64) -> Result<(), Error> {
    if !permissions.contains(Permissions::MANAGE_ROLES) {
        Err(Error::MissingPermissions(Permissions::MANAGE_ROLES))
    } else if role_count > max_roles {
        Err(Error::MaximumRoles)
    } else {
        Ok(())
    }
}

/// Creates a role in server `server_id` for a user holding `permissions`
/// there, when the server has `role_count` roles and may have `max_roles`:
/// the body must be valid, the user must be allowed to manage roles and the
/// server must not hold more than `max_roles` roles already. The role takes
/// the body's name, colour, permissions and hoisting.
pub fn create_role(
    server_id: i64,
    options: CreateRoleOptions,
    permissions: Permissions,
    role_count: u64,
    max_roles: u64,
    ids: &mut IdGenerator,
) -> (r: Result<Role, Error>)
    ensures
        options.errors().len() > 0 ==> (r matches Err(Error::InvalidBody { error }) && error@
            == options.errors()),
        r is Err ==> *final(ids) == *old(ids),
        r is Ok <==> (options.errors().len() == 0 && permissions.bits & Permissions::MANAGE_ROLES
            == Permissions::MANAGE_ROLES && role_count <= max_roles),
        r matches Err(Error::MaximumRoles) ==> role_count > max_roles,
        r matches Ok(role) ==> (role.name@ == options.name@ && role.server_id == server_id
            && role.permissions == options.permissions && role.color == options.color as i32
            && role.hoist == options.hoist),
        options.errors().len() == 0 ==> match r {
            Ok(role) => {
                &&& role_checks(permissions, role_count, max_roles) is Ok
                &&& role.id == old(ids).nth_id(0)
                &&& final(ids).advanced_from(*old(ids), 1)
                &&& role.name@ == options.name@
                &&& role.server_id == server_id
                &&& role.permissions == options.permissions
                &&& role.color == options.color as i32
                &&& role.hoist == options.hoist
            },
            Err(e) => role_checks(permissions, role_count, max_roles) == Err::<(), Error>(e),
        },
{
    if let Err(error) = options.validate() {
        return Err(Error::InvalidBody { error });
    }
    permissions.has(Permissions::MANAGE_ROLES)?;
    if role_count > max_roles {
        return Err(Error::MaximumRoles);
    }
    let mut role = Role::new(options.name, server_id, ids);
    role.permissions = options.permissions;
    role.hoist = options.hoist;
    role.color = options.color as i32;
    Ok(role)
}

/// Granting more permissions never turns an allowed role creation into a
/// refusal.
pub proof fn lemma_create_role_monotone(p: Permissions, q: Permissions, role_count: u64, max_roles: u64)
    requires
        p.subset_of(q),
        role_checks(p, role_count, max_roles) is Ok,
    ensures
        role_checks(q, role_count, max_roles) is Ok,
{
    lemma_contains_monotone(p, q, Permissions::MANAGE_ROLES);
}

/// What a valid role creation is answered with: without the right to
/// manage roles the missing flag is named; a server that already holds more
/// roles than allowed gets `MaximumRoles`; otherwise the role is made, also
/// for a server that has no role yet.
pub proof fn lemma_role_rule(permissions: Permissions, role_count: u64, max_roles: u64)
    ensures
        role_checks(permissions, role_count, max_roles) == (if permissions.bits & Permissions::MANAGE_ROLES
            != Permissions::MANAGE_ROLES {
            Err::<(), Error>(Error::MissingPermissions(Permissions::MANAGE_ROLES))
        } else if role_count > max_roles {
            Err(Error::MaximumRoles)
        } else {
            Ok(())
        }),
        role_checks(permissions, role_count, max_roles) matches Err(Error::MaximumRoles)
            ==> role_count > max_roles,
{
}

/// The field rule of a role body: a name of 1 to 32 characters.
pub proof fn lemma_role_body_rule(options: CreateRoleOptions)
    ensures
        options.errors() == (if 1 <= options.name@.len() && options.name@.len() <= 32 {
            Seq::<FieldError>::empty()
        } else {
            seq![FieldError { field: Field::Name, rule: Rule::Length }]
        }),
{
}

} // verus!

//! Creating a server, with its owner's membership, a "General" category and
//! a "general" text channel inside it.

use crate::error::Error;
use crate::structures::channel::{Channel, ChannelTypes};
use crate::structures::member::Member;
use crate::structures::server::Server;
use crate::utils::snowflake::{lemma_advance_compose, lemma_advance_nth, IdGenerator};
use crate::validation::{finish, length_errors, push_length_error, Field, FieldError, Rule, ValidationErrors};
use vstd::prelude::*;
use vstd::string::*;

verus! {

/// The body of a request to create a server.
#[derive(Debug, Clone)]
pub struct CreateServerOptions {
    /// Between 1 and 50 characters.
    pub name: String,
}

impl CreateServerOptions {
    /// The rules that the body breaks.
    pub open spec fn errors(&self) -> Seq<FieldError> {
        length_errors(self.name@, 1, 50, Field::Name)
    }

    /// Checks the body's field rules.
    pub fn validate(&self) -> (r: Result<(), ValidationErrors>)
        ensures
            r is Ok <==> self.errors().len() == 0,
            r matches Err(e) ==> e@ == self.errors(),
    {
        let mut errors: Vec<FieldError> = Vec::new();
        push_length_error(&mut errors, self.name.as_str(), 1, 50, Field::Name);
        assert(errors@ =~= self.errors());
        finish(errors)
    }
}

/// Everything that creating a server makes.
#[derive(Debug, Clone)]
pub struct NewServer {
    pub server: Server,
    pub member: Member,
    pub category: Channel,
    pub chat: Channel,
}

impl NewServer {
    /// The server `name` of `owner_id` with its owner as member, a category
    /// "General" and, inside it, a text channel "general".
    pub open spec fn made_for(self, owner_id: i64, name: Seq<char>) -> bool {
        let server_id = self.server.id;
        &&& self.server.fresh(server_id, name, owner_id)
        &&& self.member.id == owner_id
        &&& self.member.server_id == server_id
        &&& self.category.fresh(self.category.id, ChannelTypes::Category, "General"@, server_id)
        &&& self.chat.channel_type == ChannelTypes::Text
        &&& (self.chat.name matches Some(n) && n@ == "general"@)
        &&& self.chat.server_id == Some(server_id)
        &&& self.chat.parent_id == Some(self.category.id)
    }
}

/// Creates a server for `user_id`, who is a member of `joined` servers when
/// at most `max_servers` are allowed: the body must be valid and the user
/// must not be in more than `max_servers` servers already.
pub fn create_server(
    user_id: i64,
    options: CreateServerOptions,
    joined: u64,
    max_servers: u64,
    ids: &mut IdGenerator,
) -> (r: Result<NewServer, Error>)
    ensures
        match r {
            Ok(made) => {
                &&& options.errors().len() == 0
                &&& joined <= max_servers
                &&& made.made_for(user_id, options.name@)
                &&& made.server.id == old(ids).nth_id(0)
                &&& made.category.id == old(ids).nth_id(1)
                &&& made.chat.id == old(ids).nth_id(2)
                &&& final(ids).advanced_from(*old(ids), 3)
            },
            Err(Error::InvalidBody { error }) => options.errors().len() > 0 && error@ == options.errors(),
            Err(Error::MaximumServers) => options.errors().len() == 0 && joined > max_servers,
            Err(_) => false,
        },
        r is Err ==> *final(ids) == *old(ids),
{
    if let Err(error) = options.validate() {
        return Err(Error::InvalidBody { error });
    }
    if joined > max_servers {
        return Err(Error::MaximumServers);
    }
    let ghost g0 = *ids;
    let server = Server::new(options.name, user_id, ids);
    let ghost g1 = *ids;
    let member = Member::new(user_id, server.id);
    let category = Channel::new_category(String::from_str("General"), server.id, ids);
    let ghost g2 = *ids;
    let mut chat = Channel::new_text(String::from_str("general"), server.id, ids);
    proof {
        lemma_advance_nth(g0, g1, 1, 0);
        lemma_advance_compose(g0, g1, g2, 1, 1);
        lemma_advance_nth(g0, g2, 2, 0);
        lemma_advance_compose(g0, g2, *ids, 2, 1);
    }
    chat.parent_id = Some(category.id);
    Ok(NewServer { server, member, category, chat })
}

/// The field rule of a server body: a name of 1 to 50 characters.
pub proof fn lemma_server_body_rule(options: CreateServerOptions)
    ensures
        options.errors() == (if 1 <= options.name@.len() && options.name@.len() <= 50 {
            Seq::<FieldError>::empty()
        } else {
            seq![FieldError { field: Field::Name, rule: Rule::Length }]
        }),
{
}

/// What creating a server makes: the server, owned by its creator; the
/// creator as its member; a category "General" of that server without a
/// parent; and a text channel "general" of that server inside the category.
pub proof fn lemma_new_server_rule(made: NewServer, owner_id: i64, name: Seq<char>)
    requires
        made.made_for(owner_id, name),
    ensures
        made.server.name@ == name,
        made.server.owner_id == owner_id,
        made.member.id == owner_id,
        made.member.server_id == made.server.id,
        made.category.channel_type == ChannelTypes::Category,
        made.category.name is Some,
        made.category.name->Some_0@ == "General"@,
        made.category.server_id == Some(made.server.id),
        made.category.parent_id is None,
        made.chat.channel_type == ChannelTypes::Text,
        made.chat.name is Some,
        made.chat.name->Some_0@ == "general"@,
        made.chat.server_id == Some(made.server.id),
        made.chat.parent_id == Some(made.category.id),
{
}

} // verus!

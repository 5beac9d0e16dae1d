# itchat

The rules of the itchat chat server, written in Verus and proved against
their contracts, with a thin Rust shell around them.

- `src/` — the verified library:
  - `permissions`: permission bit sets and the `has` check;
  - `validation`: field rules of request bodies (character counts and email
    syntax, through `validator`) and the list of broken rules;
  - `utils::snowflake`: snowflake ids through `rbatis`'s generator;
  - `utils::password`: Argon2 password hashes (`rust-argon2`) and random
    salts (`nanoid`);
  - `structures`: roles, servers, channels, members and users;
  - `routes`: what registering and verifying accounts, reading and deleting
    messages, and creating or editing servers, channels and roles decide and
    create;
  - `gateway::authenticate`: what an authenticating gateway connection looks
    up, subscribes to and loads permissions for;
  - `text`: decimal id lists.
- `app/` — the server shell: configuration, JSON forms of the library's
  types, and handlers that do the storage and network work through the
  `Store` and `Connection` traits and let the library decide.
- `tests/` — tests of the library on concrete values.

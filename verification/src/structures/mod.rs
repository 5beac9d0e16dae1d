pub mod channel;
pub mod member;
pub mod role;
pub mod server;
pub mod user;

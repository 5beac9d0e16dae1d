pub mod channels;
pub mod create;
pub mod edit;
pub mod roles;

pub mod accounts;
pub mod messages;
pub mod servers;

//! Verified core of the itchat chat server: the rules that decide what a
//! request may do, the values that a request creates, and the plan that a
//! gateway connection follows once it has authenticated.

pub mod error;
pub mod gateway;
pub mod permissions;
pub mod routes;
pub mod structures;
pub mod text;
pub mod utils;
pub mod validation;

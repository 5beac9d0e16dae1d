pub mod password;
pub mod snowflake;

pub mod blog;
pub mod helper;
pub mod id;
pub mod user;

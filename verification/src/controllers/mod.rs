pub mod blog;
pub mod user;

//! The core of a small personal-blog backend: password hashing, session
//! tokens, the authorization extractor and the decisions of the blog and user
//! request handlers, stated over plain values so that a thin server shell can
//! perform the I/O around them.

pub mod controllers;
pub mod database;
pub mod hex;
pub mod http;
pub mod model;
pub mod store;
pub mod text;
pub mod token;
pub mod utils;
pub mod validation;

//! The layout of the document store and what the server does to it on start.

use vstd::prelude::*;

use crate::controllers::user::enrols;
use crate::http::Abort;
use crate::model::user::{User, UserView};
use crate::utils::PasswordError;

verus! {

/// The name of the collection that holds the users.
pub fn get_user_collection() -> (name: String)
    ensures
        name@ == "users"@,
{
    String::from_str("users")
}

/// The name of the collection that holds the blog posts.
pub fn get_blog_collection() -> (name: String)
    ensures
        name@ == "blogs"@,
{
    String::from_str("blogs")
}

/// An index on one field of a collection.
#[derive(Clone, Debug, PartialEq, Eq)]
pub struct IndexKey {
    pub field: String,
    pub ascending: bool,
}

/// The index that the blog collection has: ascending on the title. Asking
/// the store for it on every start is safe.
pub fn create_blog_index() -> (key: IndexKey)
    ensures
        key.field@ == "title"@,
        key.ascending,
{
    IndexKey { field: String::from_str("title"), ascending: true }
}

/// The request body that stands for the configured administrator.
pub open spec fn administrator(email: Seq<char>, username: Seq<char>, password: Seq<char>) -> UserView {
    UserView { id: None, username, email, password, created_at: None }
}

/// Decides whether to seed the administrator: only a store that counts no
/// users gets one, with the configured name and email and the hash of the
/// configured password.
pub fn create_init_user(count: u64, email: String, username: String, password: String) -> (seed:
    Result<Option<User>, Abort>)
    ensures
        count != 0 ==> seed matches Ok(None),
        count == 0 ==> match seed {
            Ok(Some(record)) => enrols(administrator(email@, username@, password@), record@),
            Ok(None) => false,
            Err(abort) => abort == Abort::Password(PasswordError::Hashing),
        },
{
    if count != 0 {
        return Ok(None);
    }
    let configured = User { _id: None, username, email, password, created_at: None };
    match configured.enrol_now() {
        Ok(record) => Ok(Some(record)),
        Err(abort) => Err(abort),
    }
}

} // verus!

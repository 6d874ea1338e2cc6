//! What a handler hands back: a response, or the next step for the server to
//! take on its behalf.

use vstd::prelude::*;

use crate::controllers::blog::{ImageData, PostResponse, UploadResponse};
use crate::controllers::user::LoginMessage;
use crate::model::blog::{Blog, BlogView};
use crate::model::helper::ResponseMessage;
use crate::model::id::DocumentId;
use crate::token::TokenError;
use crate::utils::PasswordError;

verus! {

/// The body of a response. All but `Text` are sent as JSON.
#[derive(Clone, Debug, PartialEq, Eq)]
pub enum Body {
    Text(String),
    Message(ResponseMessage),
    Post(PostResponse),
    Login(LoginMessage),
    Upload(UploadResponse),
    Blog(Blog),
    Blogs(Vec<Blog>),
    Inserted(DocumentId),
}

/// An HTTP response: the status code and the body.
#[derive(Clone, Debug, PartialEq, Eq)]
pub struct Response {
    pub status: u16,
    pub body: Body,
}

/// A body as a mathematical value.
pub enum BodyView {
    Text(Seq<char>),
    Message { success: u8, message: Seq<char> },
    Post { success: i8, id: Seq<char> },
    Login { success: u8, token: Seq<char> },
    Upload { errno: i8, url: Seq<char>, href: Seq<char> },
    Blog(BlogView),
    Blogs(Seq<BlogView>),
    Inserted(Seq<u8>),
}

/// A response as a mathematical value.
pub struct ResponseView {
    pub status: u16,
    pub body: BodyView,
}

impl View for Body {
    type V = BodyView;

    open spec fn view(&self) -> BodyView {
        match *self {
            Body::Text(text) => BodyView::Text(text@),
            Body::Message(m) => BodyView::Message { success: m.success, message: m.message@ },
            Body::Post(p) => BodyView::Post { success: p.success, id: p.id@ },
            Body::Login(l) => BodyView::Login { success: l.success, token: l.token@ },
            Body::Upload(u) => BodyView::Upload {
                errno: u.errno,
                url: u.data.url@,
                href: u.data.href@,
            },
            Body::Blog(blog) => BodyView::Blog(blog@),
            Body::Blogs(blogs) => BodyView::Blogs(blogs@.map_values(|b: Blog| b@)),
            Body::Inserted(id) => BodyView::Inserted(id.bytes@),
        }
    }
}

impl View for Response {
    type V = ResponseView;

    open spec fn view(&self) -> ResponseView {
        ResponseView { status: self.status, body: self.body@ }
    }
}

/// The response that reports a failure: `{success: 0, message}` under the
/// given status.
pub open spec fn failure(status: u16, message: Seq<char>) -> ResponseView {
    ResponseView { status, body: BodyView::Message { success: 0, message } }
}

impl Response {
    /// A response that reports a failure with the given message.
    pub fn failed(status: u16, message: String) -> (response: Response)
        ensures
            response@ == failure(status, message@),
    {
        Response { status, body: Body::Message(ResponseMessage { success: 0, message }) }
    }
}

/// What a handler decides before the store is asked: to answer at once, or to
/// go on with the given request to the store.
#[derive(Clone, Debug, PartialEq, Eq)]
pub enum Step<T> {
    Reply(Response),
    Proceed(T),
}

/// An input on which a handler cannot go on. The server has no response for
/// these and aborts the request.
#[derive(Clone, Copy, Debug, PartialEq, Eq, Structural)]
pub enum Abort {
    /// A record that must carry an identifier has none.
    MissingId,
    /// The uploaded part names no file.
    MissingFilename,
    /// The uploaded file's name has no extension.
    MissingExtension,
    /// A password could not be hashed or checked.
    Password(PasswordError),
    /// No token could be issued.
    Token(TokenError),
    /// A token is to be issued and no secret is configured to sign it with.
    MissingSecret,
    /// The store's answer is not the one that the registration waits for.
    OutOfTurn,
}

} // verus!

//! The user handlers: registration, login and the greeting.

use vstd::prelude::*;

use crate::hex;
use crate::http::{failure, Abort, Body, BodyView, Response, ResponseView};
use crate::model::id::{DocumentId, Timestamp};
use crate::model::user::{
    issue_is, issued_at, token_session, AuthorizedUser, Claims, LoginUser, User, UserView,
};
use crate::token::{TokenError, ONE_WEEK};
use crate::utils::{bcrypt_verdict, hash_password, is_hash_of, verify_password, PasswordError};

verus! {

/// A JSON body `{success, token}`.
#[derive(Clone, Debug, PartialEq, Eq)]
pub struct LoginMessage {
    pub success: u8,
    pub token: String,
}

/// The greeting, whoever asks.
pub fn hello(authorized_user: &Option<AuthorizedUser>) -> (response: Response)
    ensures
        response@ == (ResponseView { status: 200, body: BodyView::Text("Hello world!"@) }),
{
    Response { status: 200, body: Body::Text(String::from_str("Hello world!")) }
}

/// The message for a registration under a username that is in use.
pub open spec fn username_taken() -> Seq<char> {
    "对不起，用户名已经存在！"@
}

/// The message for a registration under an email that is in use.
pub open spec fn email_taken() -> Seq<char> {
    "对不起，邮箱名已经存在！"@
}

/// The message for a login that names no user or the wrong password.
pub open spec fn bad_credentials() -> Seq<char> {
    "邮箱或密码错误！"@
}

/// The answer to a registration once the store has said whether the username
/// is in use: a refusal with status 400 if it is, none yet if it is not.
pub open spec fn username_answer(taken: bool) -> Option<ResponseView> {
    if taken {
        Some(failure(400, username_taken()))
    } else {
        None
    }
}

/// The answer to a registration once the store has said whether the email is
/// in use: a refusal with status 200 if it is, none yet if it is not.
pub open spec fn email_answer(taken: bool) -> Option<ResponseView> {
    if taken {
        Some(failure(200, email_taken()))
    } else {
        None
    }
}

/// The record stored for a registration: the request body with the hash in
/// place of the password, under the given identifier and creation time.
pub open spec fn enrolled_as(user: UserView, hash: Seq<char>, id: Seq<u8>, now: int) -> UserView {
    UserView {
        id: Some(id),
        username: user.username,
        email: user.email,
        password: hash,
        created_at: Some(now),
    }
}

/// Whether `stored` is a record that a registration of `user` may store: it
/// is `enrolled_as` under some identifier and time, with a hash of the user's
/// password.
pub open spec fn enrols(user: UserView, stored: UserView) -> bool {
    &&& stored.id matches Some(id)
    &&& stored.created_at matches Some(now)
    &&& stored == enrolled_as(user, stored.password, id, now)
    &&& is_hash_of(user.password, stored.password)
}

impl User {
    /// The record to store for this request body.
    pub fn enrol(self, hash: String, id: DocumentId, now: Timestamp) -> (stored: User)
        ensures
            stored@ == enrolled_as(self@, hash@, id.bytes@, now.millis as int),
    {
        User {
            _id: Some(id),
            username: self.username,
            email: self.email,
            password: hash,
            created_at: Some(now),
        }
    }

    /// Hashes the password of this request body and stamps the record with a
    /// fresh identifier and the current time.
    pub fn enrol_now(self) -> (stored: Result<User, Abort>)
        ensures
            match stored {
                Ok(record) => enrols(self@, record@),
                Err(abort) => abort == Abort::Password(PasswordError::Hashing),
            },
    {
        match hash_password(self.password.as_str()) {
            Err(e) => Err(Abort::Password(e)),
            Ok(hash) => Ok(self.enrol(hash, DocumentId::generate(), Timestamp::now())),
        }
    }
}

/// How far a registration has come.
#[derive(Clone, Debug, PartialEq, Eq)]
pub enum Registration {
    /// The store is asked whether the username is in use.
    CheckingUsername(User),
    /// The store is asked whether the email is in use.
    CheckingEmail(User),
    /// The store is asked to insert the record.
    Storing,
    /// The response has been given.
    Finished,
}

/// What the store says to a registration.
#[derive(Clone, Debug, PartialEq, Eq)]
pub enum StoreAnswer {
    /// Whether the lookup found a user.
    Found(bool),
    /// The identifier under which the record was inserted.
    Inserted(DocumentId),
    /// The error with which the store failed, on a lookup or on the
    /// insertion.
    Failed(String),
}

/// What a registration asks for next.
#[derive(Clone, Debug, PartialEq, Eq)]
pub enum Request {
    /// Look up a user by username.
    FindUsername(String),
    /// Look up a user by email.
    FindEmail(String),
    /// Insert the record.
    Insert(User),
    /// Send the response; the registration is over.
    Respond(Response),
}

impl Registration {
    /// Starts a registration: the first question is whether the username is
    /// in use.
    pub fn begin(user: User) -> (started: (Registration, Request))
        ensures
            started.0 matches Registration::CheckingUsername(kept) && kept@ == user@,
            started.1 matches Request::FindUsername(name) && name@ == user@.username,
    {
        let name = user.username.clone();
        (Registration::CheckingUsername(user), Request::FindUsername(name))
    }
}

/// Takes a registration one step further on the store's answer.
///
/// A username in use ends it with status 400, an email in use with status
/// 200, both with `success: 0`. If neither is in use the record is handed over
/// for insertion, with the password hashed. The store's answer to that ends
/// it: status 200 with the inserted identifier, or status 400 with the
/// store's error. A lookup on which the store fails ends it in the same way,
/// with status 400 and the store's error, and nothing is inserted. An answer
/// of the wrong kind is out of turn.
pub fn register(state: Registration, answer: StoreAnswer) -> (step: Result<
    (Registration, Request),
    Abort,
>)
    ensures
        match (state, answer) {
            (Registration::CheckingUsername(user), StoreAnswer::Found(taken)) => match username_answer(
                taken,
            ) {
                Some(refusal) => step matches Ok((Registration::Finished, Request::Respond(response)))
                    && response@ == refusal,
                None => step matches Ok((Registration::CheckingEmail(kept), Request::FindEmail(email)))
                    && kept@ == user@ && email@ == user@.email,
            },
            (Registration::CheckingEmail(user), StoreAnswer::Found(taken)) => match email_answer(
                taken,
            ) {
                Some(refusal) => step matches Ok((Registration::Finished, Request::Respond(response)))
                    && response@ == refusal,
                None => match step {
                    Ok((Registration::Storing, Request::Insert(record))) => enrols(user@, record@),
                    Ok(_) => false,
                    Err(abort) => abort == Abort::Password(PasswordError::Hashing),
                },
            },
            (Registration::CheckingUsername(_), StoreAnswer::Failed(message)) => step matches Ok(
                (Registration::Finished, Request::Respond(response)),
            ) && response@ == failure(400, message@),
            (Registration::CheckingEmail(_), StoreAnswer::Failed(message)) => step matches Ok(
                (Registration::Finished, Request::Respond(response)),
            ) && response@ == failure(400, message@),
            (Registration::Storing, StoreAnswer::Inserted(id)) => step matches Ok(
                (Registration::Finished, Request::Respond(response)),
            ) && response@ == (ResponseView { status: 200, body: BodyView::Inserted(id.bytes@) }),
            (Registration::Storing, StoreAnswer::Failed(message)) => step matches Ok(
                (Registration::Finished, Request::Respond(response)),
            ) && response@ == failure(400, message@),
            _ => step matches Err(abort) && abort == Abort::OutOfTurn,
        },
{
    match state {
        Registration::CheckingUsername(user) => match answer {
            StoreAnswer::Found(taken) => {
                if taken {
                    let refusal = Response::failed(400, String::from_str("对不起，用户名已经存在！"));
                    Ok((Registration::Finished, Request::Respond(refusal)))
                } else {
                    let email = user.email.clone();
                    Ok((Registration::CheckingEmail(user), Request::FindEmail(email)))
                }
            },
            StoreAnswer::Failed(message) => Ok(
                (Registration::Finished, Request::Respond(Response::failed(400, message))),
            ),
            StoreAnswer::Inserted(_) => Err(Abort::OutOfTurn),
        },
        Registration::CheckingEmail(user) => match answer {
            StoreAnswer::Found(taken) => {
                if taken {
                    let refusal = Response::failed(200, String::from_str("对不起，邮箱名已经存在！"));
                    Ok((Registration::Finished, Request::Respond(refusal)))
                } else {
                    match user.enrol_now() {
                        Ok(record) => Ok((Registration::Storing, Request::Insert(record))),
                        Err(abort) => Err(abort),
                    }
                }
            },
            StoreAnswer::Failed(message) => Ok(
                (Registration::Finished, Request::Respond(Response::failed(400, message))),
            ),
            StoreAnswer::Inserted(_) => Err(Abort::OutOfTurn),
        },
        Registration::Storing => match answer {
            StoreAnswer::Inserted(id) => Ok(
                (
                    Registration::Finished,
                    Request::Respond(Response { status: 200, body: Body::Inserted(id) }),
                ),
            ),
            StoreAnswer::Failed(message) => Ok(
                (Registration::Finished, Request::Respond(Response::failed(400, message))),
            ),
            StoreAnswer::Found(_) => Err(Abort::OutOfTurn),
        },
        Registration::Finished => Err(Abort::OutOfTurn),
    }
}

/// Whom a login is for: the identifier of the user that was found, if the
/// password verifies against the stored hash; nobody if no user was found or
/// the password is wrong. A stored hash that is malformed, and a verified user
/// without an identifier, cannot be served.
pub open spec fn authenticated(password: Seq<char>, found: Option<UserView>) -> Result<
    Option<Seq<u8>>,
    Abort,
> {
    match found {
        None => Ok(None),
        Some(user) => login_decision(
            user.id,
            match bcrypt_verdict(password, user.password) {
                Some(same) => Ok(same),
                None => Err(PasswordError::MalformedHash),
            },
        ),
    }
}

/// Whom a login is for, given the identifier of the user that was found and
/// the outcome of checking the password against that user's hash: the user
/// for a password that verifies, nobody for one that does not. A check that
/// failed, and a verified user without an identifier, cannot be served.
pub open spec fn login_decision(id: Option<Seq<u8>>, checked: Result<bool, PasswordError>) -> Result<
    Option<Seq<u8>>,
    Abort,
> {
    match checked {
        Err(e) => Err(Abort::Password(e)),
        Ok(false) => Ok(None),
        Ok(true) => match id {
            None => Err(Abort::MissingId),
            Some(id) => Ok(Some(id)),
        },
    }
}

/// The identifier as a mathematical value, if there is one.
pub open spec fn id_view(id: Option<DocumentId>) -> Option<Seq<u8>> {
    match id {
        Some(id) => Some(id.bytes@),
        None => None,
    }
}

/// Decides whom a login is for, once the password has been checked against
/// the hash of the user that was found.
pub fn decide_login(id: Option<DocumentId>, checked: Result<bool, PasswordError>) -> (who: Result<
    Option<DocumentId>,
    Abort,
>)
    ensures
        match who {
            Ok(named) => login_decision(id_view(id), checked) == Ok::<Option<Seq<u8>>, Abort>(
                id_view(named),
            ),
            Err(abort) => login_decision(id_view(id), checked) == Err::<Option<Seq<u8>>, Abort>(
                abort,
            ),
        },
{
    match checked {
        Err(e) => Err(Abort::Password(e)),
        Ok(false) => Ok(None),
        Ok(true) => match id {
            None => Err(Abort::MissingId),
            Some(id) => Ok(Some(id)),
        },
    }
}

/// The user record as a mathematical value, if there is one.
pub open spec fn found_view(found: Option<User>) -> Option<UserView> {
    match found {
        Some(user) => Some(user@),
        None => None,
    }
}

/// Decides whom a login is for, given the user that the store holds under
/// the email of the credentials.
pub fn authenticate(credentials: &LoginUser, found: &Option<User>) -> (who: Result<
    Option<DocumentId>,
    Abort,
>)
    ensures
        match who {
            Ok(Some(id)) => authenticated(credentials.password@, found_view(*found)) == Ok::<
                Option<Seq<u8>>,
                Abort,
            >(Some(id.bytes@)),
            Ok(None) => authenticated(credentials.password@, found_view(*found)) == Ok::<
                Option<Seq<u8>>,
                Abort,
            >(None),
            Err(abort) => authenticated(credentials.password@, found_view(*found)) == Err::<
                Option<Seq<u8>>,
                Abort,
            >(abort),
        },
{
    match found {
        None => Ok(None),
        Some(user) => decide_login(
            user._id,
            verify_password(credentials.password.as_str(), user.password.as_str()),
        ),
    }
}

/// The answer to a login at the instant `now`: `{success: 0, message}` where
/// it is for nobody, `{success: 1, token}` with a token issued for the user's
/// written identifier otherwise; both with status 200. A login that is for a
/// user cannot be served without a secret to sign with.
pub open spec fn login_answer(
    password: Seq<char>,
    found: Option<UserView>,
    secret: Option<Seq<char>>,
    now: int,
) -> Result<ResponseView, Abort> {
    match authenticated(password, found) {
        Err(abort) => Err(abort),
        Ok(None) => Ok(failure(200, bad_credentials())),
        Ok(Some(id)) => match secret {
            None => Err(Abort::MissingSecret),
            Some(key) => match issued_at(hex::encode(id), key, now) {
                Ok(token) => Ok(
                    ResponseView { status: 200, body: BodyView::Login { success: 1, token } },
                ),
                Err(e) => Err(Abort::Token(e)),
            },
        },
    }
}

/// Whether a handler's result is the one that a specification names.
pub open spec fn answers(given: Result<Response, Abort>, named: Result<ResponseView, Abort>) -> bool {
    match given {
        Ok(response) => named == Ok::<ResponseView, Abort>(response@),
        Err(abort) => named == Err::<ResponseView, Abort>(abort),
    }
}

/// Whether a token in a response, if there is one, names the written
/// identifier of the user that was found, expires a week after `now`, and
/// holds no space.
pub open spec fn token_names(
    given: Result<Response, Abort>,
    found: Option<UserView>,
    secret: Option<Seq<char>>,
    now: int,
) -> bool {
    match given {
        Ok(response) => match response@.body {
            BodyView::Login { token, .. } => {
                &&& found matches Some(user)
                &&& user.id matches Some(id)
                &&& secret matches Some(key)
                &&& !token.contains(' ')
                &&& token_session(token, key) == Some((hex::encode(id), now + ONE_WEEK))
            },
            _ => true,
        },
        Err(_) => true,
    }
}

/// Whether the answer to a login is the one owed at the instant that a clock
/// reads as `now`.
pub open spec fn login_is(
    given: Result<Response, Abort>,
    password: Seq<char>,
    found: Option<UserView>,
    secret: Option<Seq<char>>,
    now: i64,
) -> bool {
    answers(given, login_answer(password, found, secret, now as int)) && token_names(
        given,
        found,
        secret,
        now as int,
    )
}

/// The secret as a mathematical value, if there is one.
pub open spec fn secret_view(secret: Option<&str>) -> Option<Seq<char>> {
    match secret {
        Some(key) => Some(key@),
        None => None,
    }
}

/// The answer to a login that is for nobody.
fn bad_login() -> (response: Response)
    ensures
        response@ == failure(200, bad_credentials()),
{
    Response::failed(200, String::from_str("邮箱或密码错误！"))
}

/// The answer to a login that is for a user: the token that was issued, or
/// the reason why none was.
fn logged_in(issued: Result<String, TokenError>) -> (answer: Result<Response, Abort>)
    ensures
        match issued {
            Ok(token) => answer matches Ok(response) && response@ == (ResponseView {
                status: 200,
                body: BodyView::Login { success: 1, token: token@ },
            }),
            Err(e) => answer matches Err(abort) && abort == Abort::Token(e),
        },
{
    match issued {
        Ok(token) => Ok(
            Response { status: 200, body: Body::Login(LoginMessage { success: 1, token }) },
        ),
        Err(e) => Err(Abort::Token(e)),
    }
}

/// Answers a login for which the store failed to look the user up:
/// `{success: 0, message}` with the store's error and status 200.
pub fn lookup_failed(message: String) -> (response: Response)
    ensures
        response@ == failure(200, message@),
{
    Response::failed(200, message)
}

/// Answers a login as of the instant `now`, given the user that the store
/// holds under the email of the credentials and the secret to sign with, if
/// one is configured.
pub fn login_at(credentials: &LoginUser, found: &Option<User>, secret: Option<&str>, now: i64) -> (answer:
    Result<Response, Abort>)
    ensures
        answers(
            answer,
            login_answer(
                credentials.password@,
                found_view(*found),
                secret_view(secret),
                now as int,
            ),
        ),
        token_names(answer, found_view(*found), secret_view(secret), now as int),
{
    match authenticate(credentials, found) {
        Err(abort) => Err(abort),
        Ok(None) => Ok(bad_login()),
        Ok(Some(id)) => match secret {
            None => Err(Abort::MissingSecret),
            Some(key) => {
                let written = id.to_hex();
                logged_in(Claims::generate_token_at(written.as_str(), key, now))
            },
        },
    }
}

/// Answers a login as of now, given the user that the store holds under the
/// email of the credentials and the secret to sign with, if one is
/// configured. The secret is asked for, and the clock is read, only for a
/// login that is for a user.
pub fn login(credentials: &LoginUser, found: &Option<User>, secret: Option<&str>) -> (answer: Result<
    Response,
    Abort,
>)
    ensures
        exists|now: i64|
            #[trigger] login_is(
                answer,
                credentials.password@,
                found_view(*found),
                secret_view(secret),
                now,
            ),
{
    match authenticate(credentials, found) {
        Err(abort) => {
            assert(login_is(
                Err(abort),
                credentials.password@,
                found_view(*found),
                secret_view(secret),
                0i64,
            ));
            Err(abort)
        },
        Ok(None) => {
            let answer = Ok(bad_login());
            assert(login_is(
                answer,
                credentials.password@,
                found_view(*found),
                secret_view(secret),
                0i64,
            ));
            answer
        },
        Ok(Some(id)) => match secret {
            None => {
                assert(login_is(
                    Err(Abort::MissingSecret),
                    credentials.password@,
                    found_view(*found),
                    secret_view(secret),
                    0i64,
                ));
                Err(Abort::MissingSecret)
            },
            Some(key) => {
                let written = id.to_hex();
                let issued = Claims::generate_token(written.as_str(), key);
                let ghost now = choose|now: i64| #[trigger] issue_is(issued, written@, key@, now);
                let answer = logged_in(issued);
                assert(login_is(
                    answer,
                    credentials.password@,
                    found_view(*found),
                    secret_view(secret),
                    now,
                ));
                answer
            },
        },
    }
}

} // verus!

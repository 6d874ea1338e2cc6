//! Users, credentials, session claims and the authorized principal.

use vstd::prelude::*;

use crate::model::id::{DocumentId, Timestamp};
use crate::text::{after_only_space, only_space_at, second_of_two};
use crate::token::{
    carried_claims, jwt_decode, jwt_encode, signed_token, unix_seconds, RawClaims, TokenError,
    ONE_WEEK,
};
use crate::validation::{email_well_formed, fault, is_email, length_at_least, verdict, Field};

verus! {

/// A user record. `_id` and `created_at` are absent in a request body and set
/// at registration; `password` holds the plain password in a request body and
/// its hash in a stored record.
#[derive(Clone, Debug, PartialEq, Eq)]
pub struct User {
    pub _id: Option<DocumentId>,
    pub username: String,
    pub email: String,
    pub password: String,
    pub created_at: Option<Timestamp>,
}

/// A user record as a mathematical value.
pub struct UserView {
    pub id: Option<Seq<u8>>,
    pub username: Seq<char>,
    pub email: Seq<char>,
    pub password: Seq<char>,
    pub created_at: Option<int>,
}

impl View for User {
    type V = UserView;

    open spec fn view(&self) -> UserView {
        UserView {
            id: match self._id {
                Some(id) => Some(id.bytes@),
                None => None,
            },
            username: self.username@,
            email: self.email@,
            password: self.password@,
            created_at: match self.created_at {
                Some(at) => Some(at.millis as int),
                None => None,
            },
        }
    }
}

impl UserView {
    /// The fields that break a rule: the username must not be empty, the email
    /// is well formed, the password has at least six characters.
    pub open spec fn faults(self) -> Seq<Field> {
        fault(self.username.len() >= 1, Field::Username) + fault(
            email_well_formed(self.email),
            Field::Email,
        ) + fault(self.password.len() >= 6, Field::Password)
    }

    /// Whether the record keeps all three rules.
    pub open spec fn valid(self) -> bool {
        self.username.len() >= 1 && email_well_formed(self.email) && self.password.len() >= 6
    }
}

impl User {
    /// Holds a request body to the rules and lists the fields that break one.
    pub fn validate(&self) -> (checked: Result<(), Vec<Field>>)
        ensures
            checked is Ok <==> self@.valid(),
            checked matches Err(listed) ==> listed@ == self@.faults(),
    {
        let mut faults: Vec<Field> = Vec::new();
        if !length_at_least(self.username.as_str(), 1) {
            faults.push(Field::Username);
        }
        if !is_email(self.email.as_str()) {
            faults.push(Field::Email);
        }
        if !length_at_least(self.password.as_str(), 6) {
            faults.push(Field::Password);
        }
        assert(faults@ =~= self@.faults());
        verdict(faults)
    }
}

/// The body of a login request.
#[derive(Clone, Debug, PartialEq, Eq)]
pub struct LoginUser {
    pub email: String,
    pub password: String,
}

impl LoginUser {
    /// The fields that break a rule: the email is well formed, the password
    /// has at least six characters.
    pub open spec fn faults(&self) -> Seq<Field> {
        fault(email_well_formed(self.email@), Field::Email) + fault(
            self.password@.len() >= 6,
            Field::Password,
        )
    }

    /// Whether the credentials keep both rules.
    pub open spec fn valid(&self) -> bool {
        email_well_formed(self.email@) && self.password@.len() >= 6
    }

    /// Holds a request body to the rules and lists the fields that break one.
    pub fn validate(&self) -> (checked: Result<(), Vec<Field>>)
        ensures
            checked is Ok <==> self.valid(),
            checked matches Err(listed) ==> listed@ == self.faults(),
    {
        let mut faults: Vec<Field> = Vec::new();
        if !is_email(self.email.as_str()) {
            faults.push(Field::Email);
        }
        if !length_at_least(self.password.as_str(), 6) {
            faults.push(Field::Password);
        }
        assert(faults@ =~= self.faults());
        verdict(faults)
    }
}

/// The signed payload of a session token: the subject's identifier and the
/// expiry in seconds since the Unix epoch.
#[derive(Clone, Debug, PartialEq, Eq)]
pub struct Claims {
    pub sub: String,
    pub exp: usize,
}

/// The expiry of a token issued at `now`, where a claim can hold it.
pub open spec fn expiry_at(now: int) -> Option<int> {
    if 0 <= now + ONE_WEEK <= i64::MAX && now + ONE_WEEK <= usize::MAX {
        Some(now + ONE_WEEK)
    } else {
        None
    }
}

/// The token issued for `id` at `now` under `secret`: one is owed whenever a
/// claim can hold the expiry.
pub open spec fn issued_at(id: Seq<char>, secret: Seq<char>, now: int) -> Result<
    Seq<char>,
    TokenError,
> {
    match expiry_at(now) {
        None => Err(TokenError::Clock),
        Some(exp) => Ok(signed_token(id, exp, secret)),
    }
}

/// The session claims in a pair of raw claims: both are there and the expiry
/// fits the machine word.
pub open spec fn session_claims(raw: (Option<Seq<char>>, Option<int>)) -> Option<(Seq<char>, int)> {
    match raw {
        (Some(sub), Some(exp)) => if exp <= usize::MAX {
            Some((sub, exp))
        } else {
            None
        },
        _ => None,
    }
}

/// The session claims that a token carries under a secret, whatever the
/// time: `None` for a token that is malformed, wrongly signed, or without a
/// claim.
pub open spec fn token_session(token: Seq<char>, secret: Seq<char>) -> Option<(Seq<char>, int)> {
    match carried_claims(token, secret) {
        Some(raw) => session_claims(raw),
        None => None,
    }
}

/// The claims with which a token is accepted at the instant `now`: those it
/// carries, as long as its expiry has not passed.
pub open spec fn verified_at(token: Seq<char>, secret: Seq<char>, now: int) -> Option<
    (Seq<char>, int),
> {
    match token_session(token, secret) {
        Some(claims) => if claims.1 >= now {
            Some(claims)
        } else {
            None
        },
        None => None,
    }
}

/// Whether the outcome of a verification is the one that `named` describes:
/// the claims where there are some, the one error `Rejected` otherwise.
pub open spec fn verdict_is(verified: Result<Claims, TokenError>, named: Option<(Seq<char>, int)>) -> bool {
    match verified {
        Ok(claims) => named == Some((claims.sub@, claims.exp as int)),
        Err(e) => named is None && e == TokenError::Rejected,
    }
}

/// Whether the outcome of a verification is the one owed at the instant that
/// a clock reads as `now`.
pub open spec fn verdict_at(
    verified: Result<Claims, TokenError>,
    token: Seq<char>,
    secret: Seq<char>,
    now: i64,
) -> bool {
    verdict_is(verified, verified_at(token, secret, now as int))
}

/// Whether the outcome of issuing a token for `id` is the one owed at the
/// instant that a clock reads as `now`: the token of `issued_at`, without a
/// space and with `id` for its subject, or the error of `issued_at`.
pub open spec fn issue_is(
    issued: Result<String, TokenError>,
    id: Seq<char>,
    secret: Seq<char>,
    now: i64,
) -> bool {
    match issued {
        Ok(token) => {
            &&& issued_at(id, secret, now as int) == Ok::<Seq<char>, TokenError>(token@)
            &&& !token@.contains(' ')
            &&& token_session(token@, secret) == Some((id, now + ONE_WEEK))
        },
        Err(e) => issued_at(id, secret, now as int) == Err::<Seq<char>, TokenError>(e),
    }
}

impl Claims {
    /// Holds raw claims to the shape of session claims.
    pub fn from_raw(raw: RawClaims) -> (claims: Option<Claims>)
        ensures
            match claims {
                Some(c) => session_claims(raw@) == Some((c.sub@, c.exp as int)),
                None => session_claims(raw@) is None,
            },
    {
        match raw.sub {
            None => None,
            Some(sub) => match raw.exp {
                None => None,
                Some(exp) => {
                    if exp <= usize::MAX as u64 {
                        Some(Claims { sub, exp: exp as usize })
                    } else {
                        None
                    }
                },
            },
        }
    }

    /// Issues a token for `id` as of the instant `now`, in seconds since the
    /// Unix epoch: it expires seven days later. A token is issued whenever a
    /// claim can hold that expiry. It holds no space, it carries `id` as its
    /// subject, and it is accepted under the same secret at every instant up
    /// to its expiry and at none after it.
    pub fn generate_token_at(id: &str, secret: &str, now: i64) -> (issued: Result<
        String,
        TokenError,
    >)
        ensures
            match issued {
                Ok(token) => issued_at(id@, secret@, now as int) == Ok::<Seq<char>, TokenError>(
                    token@,
                ),
                Err(e) => issued_at(id@, secret@, now as int) == Err::<Seq<char>, TokenError>(e),
            },
            issued matches Ok(token) ==> !token@.contains(' ') && token_session(token@, secret@)
                == Some((id@, now + ONE_WEEK)),
            issued matches Ok(token) ==> forall|at: int|
                #[trigger] verified_at(token@, secret@, at) == if at <= now + ONE_WEEK {
                    Some((id@, now + ONE_WEEK))
                } else {
                    None
                },
    {
        if now < -ONE_WEEK || now > i64::MAX - ONE_WEEK {
            return Err(TokenError::Clock);
        }
        let expiry: i64 = now + ONE_WEEK;
        if expiry as u64 > usize::MAX as u64 {
            return Err(TokenError::Clock);
        }
        match jwt_encode(id, expiry as usize, secret) {
            Ok(token) => Ok(token),
            Err(_) => Err(TokenError::Signing),
        }
    }

    /// Issues a token for `id` as of now.
    pub fn generate_token(id: &str, secret: &str) -> (issued: Result<String, TokenError>)
        ensures
            exists|now: i64| #[trigger] issue_is(issued, id@, secret@, now),
    {
        let now: i64 = unix_seconds();
        let issued = Claims::generate_token_at(id, secret, now);
        assert(issue_is(issued, id@, secret@, now));
        issued
    }

    /// Checks a token's form and signature and reads the session claims it
    /// carries, whatever the time.
    pub fn read(token: &str, secret: &str) -> (carried: Option<Claims>)
        ensures
            match carried {
                Some(claims) => token_session(token@, secret@) == Some(
                    (claims.sub@, claims.exp as int),
                ),
                None => token_session(token@, secret@) is None,
            },
    {
        match jwt_decode(token, secret) {
            Err(_) => None,
            Ok(raw) => Claims::from_raw(raw),
        }
    }

    /// Whether the expiry of these claims has not passed at the instant
    /// `now`: at the expiry itself they still hold.
    pub fn holds_at(&self, now: i64) -> (holds: bool)
        ensures
            holds == (self.exp as int >= now as int),
    {
        now < 0 || self.exp as u64 >= now as u64
    }

    /// Verifies a token as of the instant `now`, in seconds since the Unix
    /// epoch: its form, its signature and its expiry. Every failure is the one
    /// error `Rejected`.
    pub fn verify_at(token: &str, secret: &str, now: i64) -> (verified: Result<Claims, TokenError>)
        ensures
            verdict_is(verified, verified_at(token@, secret@, now as int)),
    {
        match Claims::read(token, secret) {
            None => Err(TokenError::Rejected),
            Some(claims) => {
                if claims.holds_at(now) {
                    Ok(claims)
                } else {
                    Err(TokenError::Rejected)
                }
            },
        }
    }

    /// Verifies a token as of now. The clock is read only for a token that is
    /// well formed and rightly signed.
    pub fn verify(token: &str, secret: &str) -> (verified: Result<Claims, TokenError>)
        ensures
            exists|now: i64| #[trigger] verdict_at(verified, token@, secret@, now),
    {
        match Claims::read(token, secret) {
            None => {
                assert(verdict_at(Err(TokenError::Rejected), token@, secret@, 0i64));
                Err(TokenError::Rejected)
            },
            Some(claims) => {
                let now: i64 = unix_seconds();
                let verified = if claims.holds_at(now) {
                    Ok(claims)
                } else {
                    Err(TokenError::Rejected)
                };
                assert(verdict_at(verified, token@, secret@, now));
                verified
            },
        }
    }
}

/// The authenticated principal of a request: the token of its authorization
/// header, without the scheme, and the subject that the token names.
#[derive(Clone, Debug, PartialEq, Eq)]
pub struct AuthorizedUser {
    pub token: String,
    pub sub: String,
}

/// The refusal of the authorization extractor.
#[derive(Clone, Debug, PartialEq, Eq)]
pub struct Rejection {
    pub status: u16,
    pub message: String,
}

impl Rejection {
    /// Whether this is the one refusal that the extractor gives: status 400
    /// with the message "Not Authorized".
    pub open spec fn is_not_authorized(&self) -> bool {
        self.status == 400 && self.message@ == "Not Authorized"@
    }

    /// The refusal that the extractor gives.
    pub fn not_authorized() -> (rejection: Rejection)
        ensures
            rejection.is_not_authorized(),
    {
        Rejection { status: 400, message: String::from_str("Not Authorized") }
    }
}

/// The token in an authorization header of the form `<scheme> <token>`: what
/// follows the single space. `None` for a missing header and for one that does
/// not consist of exactly two parts.
pub open spec fn header_token(header: Option<Seq<char>>) -> Option<Seq<char>> {
    match header {
        Some(value) => after_only_space(value),
        None => None,
    }
}

/// The authorization header as a mathematical value, if there is one.
pub open spec fn header_view(header: Option<&str>) -> Option<Seq<char>> {
    match header {
        Some(value) => Some(value@),
        None => None,
    }
}

/// The principal that the extractor yields at the instant `now`, as the pair
/// of its `token` and its `sub`: the token of the header, and the subject of
/// the claims with which that token is accepted. `None` where the request is
/// refused.
pub open spec fn extracted_at(header: Option<Seq<char>>, secret: Seq<char>, now: int) -> Option<
    (Seq<char>, Seq<char>),
> {
    match header_token(header) {
        Some(token) => match verified_at(token, secret, now) {
            Some(claims) => Some((token, claims.0)),
            None => None,
        },
        None => None,
    }
}

/// Whether the outcome of an extraction is the one that `named` describes:
/// the principal where there is one, the refusal "Not Authorized" otherwise.
pub open spec fn extraction_is(
    extracted: Result<AuthorizedUser, Rejection>,
    named: Option<(Seq<char>, Seq<char>)>,
) -> bool {
    match extracted {
        Ok(user) => named == Some((user.token@, user.sub@)),
        Err(rejection) => named is None && rejection.is_not_authorized(),
    }
}

/// Whether the outcome of an extraction is the one owed at the instant that
/// a clock reads as `now`.
pub open spec fn extraction_at(
    extracted: Result<AuthorizedUser, Rejection>,
    header: Option<Seq<char>>,
    secret: Seq<char>,
    now: i64,
) -> bool {
    extraction_is(extracted, extracted_at(header, secret, now as int))
}

impl AuthorizedUser {
    /// The token part of an authorization header.
    pub fn token_of<'a>(header: Option<&'a str>) -> (token: Option<&'a str>)
        ensures
            match token {
                Some(t) => header matches Some(value) && header_token(Some(value@)) == Some(t@),
                None => header matches Some(value) ==> header_token(Some(value@)) is None,
            },
    {
        match header {
            Some(value) => second_of_two(value),
            None => None,
        }
    }

    /// Decides on a token that has been checked: the principal for verified
    /// claims, the refusal otherwise.
    pub fn grant(token: &str, verified: Result<Claims, TokenError>) -> (granted: Result<
        AuthorizedUser,
        Rejection,
    >)
        ensures
            match granted {
                Ok(user) => verified matches Ok(claims) && user.token@ == token@ && user.sub@
                    == claims.sub@,
                Err(rejection) => verified is Err && rejection.is_not_authorized(),
            },
    {
        match verified {
            Ok(claims) => Ok(AuthorizedUser { token: String::from_str(token), sub: claims.sub }),
            Err(_) => Err(Rejection::not_authorized()),
        }
    }

    /// The authorization extractor as of the instant `now`. A missing header,
    /// one that is not of the form `<scheme> <token>`, and a token that fails
    /// verification are all refused with "Not Authorized"; otherwise the
    /// principal holds the token and the subject of its claims.
    pub fn from_request_at(header: Option<&str>, secret: &str, now: i64) -> (extracted: Result<
        AuthorizedUser,
        Rejection,
    >)
        ensures
            extraction_is(
                extracted,
                extracted_at(header_view(header), secret@, now as int),
            ),
    {
        match header {
            None => Err(Rejection::not_authorized()),
            Some(value) => match AuthorizedUser::token_of(Some(value)) {
                None => Err(Rejection::not_authorized()),
                Some(token) => AuthorizedUser::grant(token, Claims::verify_at(token, secret, now)),
            },
        }
    }

    /// The authorization extractor as of now. The clock is read only for a
    /// header whose token is well formed and rightly signed.
    pub fn from_request(header: Option<&str>, secret: &str) -> (extracted: Result<
        AuthorizedUser,
        Rejection,
    >)
        ensures
            exists|now: i64| #[trigger] extraction_at(extracted, header_view(header), secret@, now),
    {
        let ghost sent = header_view(header);
        match header {
            None => {
                let refused = Err(Rejection::not_authorized());
                assert(extraction_at(refused, sent, secret@, 0i64));
                refused
            },
            Some(value) => match AuthorizedUser::token_of(Some(value)) {
                None => {
                    let refused = Err(Rejection::not_authorized());
                    assert(extraction_at(refused, sent, secret@, 0i64));
                    refused
                },
                Some(token) => {
                    let verified = Claims::verify(token, secret);
                    let ghost now = choose|now: i64|
                        #[trigger] verdict_at(verified, token@, secret@, now);
                    let extracted = AuthorizedUser::grant(token, verified);
                    assert(extraction_at(extracted, sent, secret@, now));
                    extracted
                },
            },
        }
    }
}

/// A token that was issued at `issued` is accepted by the extractor, in a
/// header of the form `<scheme> <token>`, at every instant up to seven days
/// after `issued`, and the principal then holds the token and names its
/// subject; at every later instant the request is refused.
pub proof fn lemma_issued_token_is_accepted_for_a_week(
    scheme: Seq<char>,
    token: Seq<char>,
    secret: Seq<char>,
    id: Seq<char>,
    issued: int,
    now: int,
)
    requires
        token_session(token, secret) == Some((id, issued + ONE_WEEK)),
        !token.contains(' '),
        !scheme.contains(' '),
    ensures
        extracted_at(Some(scheme + seq![' '] + token), secret, now) == if now <= issued
            + ONE_WEEK {
            Some((token, id))
        } else {
            None
        },
{
    let header = scheme + seq![' '] + token;
    let at = scheme.len() as int;
    assert(only_space_at(header, at)) by {
        assert forall|j: int| 0 <= j < header.len() && j != at implies header[j] != ' ' by {
            if j < at {
                assert(header[j] == scheme[j]);
                assert(scheme.contains(scheme[j]));
            } else {
                assert(header[j] == token[j - at - 1]);
                assert(token.contains(token[j - at - 1]));
            }
        }
    }
    let chosen = choose|at: int| only_space_at(header, at);
    assert(chosen == at);
    assert(header.skip(at + 1) =~= token);
}

} // verus!

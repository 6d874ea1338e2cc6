//! Signed session tokens: what is handed to the signing library and what comes
//! back from it.

use vstd::prelude::*;

verus! {

/// Lifetime of a session token, in seconds: seven days.
pub const ONE_WEEK: i64 = 604800;

/// The token that `jsonwebtoken::encode` writes for the claims `{sub, exp}`
/// under a secret, with its default header.
pub uninterp spec fn signed_token(sub: Seq<char>, exp: int, secret: Seq<char>) -> Seq<char>;

/// The `sub` and `exp` claims that `jsonwebtoken::decode` reads from a token
/// under a secret, with the expiry left unchecked: the subject where it is a
/// text, the expiry where it is a whole number that is not negative. `None`
/// where it turns the token away as malformed, wrongly signed or without an
/// expiry.
pub uninterp spec fn carried_claims(token: Seq<char>, secret: Seq<char>) -> Option<
    (Option<Seq<char>>, Option<int>),
>;

/// The error of `jsonwebtoken::encode` and `jsonwebtoken::decode`, carried
/// through as it is.
#[verifier::external_type_specification]
#[verifier::external_body]
pub struct ExTokenFault(jsonwebtoken::errors::Error);

/// The two claims of a token as they were found in it, before they are held to
/// the shape that a session needs.
#[derive(Clone, Debug, PartialEq, Eq)]
pub struct RawClaims {
    pub sub: Option<String>,
    pub exp: Option<u64>,
}

impl View for RawClaims {
    type V = (Option<Seq<char>>, Option<int>);

    open spec fn view(&self) -> (Option<Seq<char>>, Option<int>) {
        (
            match self.sub {
                Some(sub) => Some(sub@),
                None => None,
            },
            match self.exp {
                Some(exp) => Some(exp as int),
                None => None,
            },
        )
    }
}

/// Why no token was issued, or why one was turned away.
#[derive(Clone, Copy, Debug, PartialEq, Eq, Structural)]
pub enum TokenError {
    /// The expiry, seven days after the given instant, is not a number that a
    /// claim can hold.
    Clock,
    /// The signing library reported a failure. With a secret for its key it
    /// never does.
    Signing,
    /// The token is malformed, wrongly signed, expired, or lacks a claim.
    Rejected,
}

/// Calls `chrono::Utc::now` and hands out its `timestamp`, the seconds since
/// the Unix epoch. It reads the system clock, so nothing is promised of it.
#[verifier::external_body]
pub(crate) fn unix_seconds() -> (now: i64) {
    chrono::Utc::now().timestamp()
}

/// Calls `jsonwebtoken::encode` with the default header (HS256) on the claims
/// `{sub, exp}`, keyed by the secret's bytes. With such a key it does not
/// fail, and its result depends on the three arguments alone. Two more things
/// are claimed of the token: it is written in the URL-safe base64 alphabet and
/// dots, so it holds no space; and whoever decodes it under the same secret
/// reads the two claims that went into it.
#[verifier::external_body]
pub(crate) fn jwt_encode(sub: &str, exp: usize, secret: &str) -> (signed: Result<
    String,
    jsonwebtoken::errors::Error,
>)
    ensures
        match signed {
            Ok(token) => {
                &&& token@ == signed_token(sub@, exp as int, secret@)
                &&& !token@.contains(' ')
                &&& carried_claims(token@, secret@) == Some((Some(sub@), Some(exp as int)))
            },
            Err(_) => false,
        },
{
    let mut claims = serde_json::Map::new();
    claims.insert("sub".to_string(), serde_json::Value::from(sub));
    claims.insert("exp".to_string(), serde_json::Value::from(exp));
    let key = jsonwebtoken::EncodingKey::from_secret(secret.as_bytes());
    jsonwebtoken::encode(&jsonwebtoken::Header::default(), &claims, &key)
}

/// Calls `jsonwebtoken::decode` with the default validation (HS256, an expiry
/// claim required), keyed by the secret's bytes, but with the comparison of
/// the expiry against the system clock switched off: that comparison is made
/// by `Claims::verify_at`. What is left depends on the token and the secret
/// alone.
#[verifier::external_body]
pub(crate) fn jwt_decode(token: &str, secret: &str) -> (decoded: Result<
    RawClaims,
    jsonwebtoken::errors::Error,
>)
    ensures
        match decoded {
            Ok(raw) => carried_claims(token@, secret@) == Some(raw@),
            Err(_) => carried_claims(token@, secret@) is None,
        },
{
    let key = jsonwebtoken::DecodingKey::from_secret(secret.as_bytes());
    let mut rules = jsonwebtoken::Validation::default();
    rules.validate_exp = false;
    let data = jsonwebtoken::decode::<serde_json::Value>(token, &key, &rules)?;
    let sub = match data.claims.get("sub") {
        Some(serde_json::Value::String(sub)) => Some(sub.clone()),
        _ => None,
    };
    let exp = match data.claims.get("exp") {
        Some(exp) => exp.as_u64(),
        None => None,
    };
    Ok(RawClaims { sub, exp })
}

} // verus!

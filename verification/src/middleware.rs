//! The decisions of the middleware that every request passes.

use vstd::prelude::*;
use crate::claims::{
    access_fields_read_back, access_of, AccessClaims, AccessClaimsView, ClaimsMethod,
};
use crate::error::{message_of, status_of, AuthError, ErrorResponse};
use crate::ident::{parsed_key, read_key};
use crate::issuer::{issued, issued_access, Config, JwtTokens, Users};
use crate::jwt::{decode_token_at, token_claims, unix_now, well_signed};
use crate::payload::ClaimValue;
use crate::text::{same_text, skip_chars, starts_with};

verus! {

/// Where the middleware has brought a request before any identity is looked up.
#[derive(Debug, Clone, Copy, PartialEq, Eq, Structural)]
pub enum AuthStep {
    /// The path needs no authentication: the request goes on as it is.
    Forwarded,
    /// The token is valid and names this identity key: the identity is to be
    /// looked up.
    SubjectParsed(u128),
    /// The request is refused.
    Rejected(AuthError),
}

/// The paths that need no authentication: the health check, and all that
/// lies under the authentication endpoints.
pub open spec fn is_public_path(path: Seq<char>) -> bool {
    path == "/api/healthchecker"@ || "/api/auth/"@.is_prefix_of(path)
}

/// A text that may be absent, as plain values.
pub open spec fn text_of(text: Option<&str>) -> Option<Seq<char>> {
    match text {
        Some(t) => Some(t@),
        None => None,
    }
}

/// The token that a request presents: the value of its `access_token`
/// cookie if it has one; else its `Authorization` header, without the prefix
/// `Bearer ` where it has that prefix.
pub open spec fn presented_token(cookie: Option<Seq<char>>, authorization: Option<Seq<char>>)
    -> Option<Seq<char>> {
    match cookie {
        Some(value) => Some(value),
        None => match authorization {
            Some(value) => if "Bearer "@.is_prefix_of(value) {
                Some(value.skip(7))
            } else {
                Some(value)
            },
            None => None,
        },
    }
}

/// What reading an access token gives, from what the decoder found in it
/// and the time of the reading.
pub open spec fn access_reading(found: Option<Map<Seq<char>, ClaimValue>>, now: i64) -> Result<
    AccessClaimsView,
    AuthError,
> {
    match found {
        None => Err(AuthError::WrongCredentials),
        Some(fields) => match access_of(fields) {
            None => Err(AuthError::WrongCredentials),
            Some(claims) => if now >= claims.exp {
                Err(AuthError::InvalidToken)
            } else {
                Ok(claims)
            },
        },
    }
}

/// The step that the middleware takes for a request at a given time.
///
/// A public path is forwarded whatever else the request holds. Otherwise a
/// request without a token is rejected with `MissingCredentials`; one whose
/// token cannot be read, with the error of the reading; one whose subject
/// is no identity key, with `InvalidToken`. Any other request names the
/// identity to look up.
pub open spec fn request_step(
    path: Seq<char>,
    cookie: Option<Seq<char>>,
    authorization: Option<Seq<char>>,
    secret: Seq<char>,
    now: i64,
) -> AuthStep {
    if is_public_path(path) {
        AuthStep::Forwarded
    } else {
        match presented_token(cookie, authorization) {
            None => AuthStep::Rejected(AuthError::MissingCredentials),
            Some(token) => match access_reading(token_claims(token, secret), now) {
                Err(e) => AuthStep::Rejected(e),
                Ok(claims) => match parsed_key(claims.sub) {
                    None => AuthStep::Rejected(AuthError::InvalidToken),
                    Some(key) => AuthStep::SubjectParsed(key),
                },
            },
        }
    }
}

/// Whether the token that a request presents is well signed under a secret.
pub open spec fn presents_well_signed(
    cookie: Option<Seq<char>>,
    authorization: Option<Seq<char>>,
    secret: Seq<char>,
) -> bool {
    match presented_token(cookie, authorization) {
        Some(token) => well_signed(token, secret),
        None => false,
    }
}

/// Whether a path needs no authentication.
pub fn is_bypassed(path: &str) -> (public: bool)
    ensures
        public == is_public_path(path@),
{
    same_text(path, "/api/healthchecker") || starts_with(path, "/api/auth/")
}

/// The token that a request presents, from its `access_token` cookie and its
/// `Authorization` header.
pub fn extract_token(cookie: Option<&str>, authorization: Option<&str>) -> (token: Option<String>)
    ensures
        token matches Some(t) ==> presented_token(text_of(cookie), text_of(authorization))
            == Some(t@),
        token is None ==> presented_token(text_of(cookie), text_of(authorization)) is None,
{
    match cookie {
        Some(value) => Some(value.to_owned()),
        None => match authorization {
            Some(value) => {
                if starts_with(value, "Bearer ") {
                    proof {
                        reveal_strlit("Bearer ");
                    }
                    Some(skip_chars(value, 7))
                } else {
                    Some(value.to_owned())
                }
            },
            None => None,
        },
    }
}

/// The step of the middleware for a request at a given time.
pub fn auth_at(
    path: &str,
    cookie: Option<&str>,
    authorization: Option<&str>,
    secret: &str,
    now: i64,
) -> (step: AuthStep)
    ensures
        step == request_step(path@, text_of(cookie), text_of(authorization), secret@, now),
        step is SubjectParsed ==> presents_well_signed(
            text_of(cookie),
            text_of(authorization),
            secret@,
        ),
        !is_public_path(path@) && presented_token(text_of(cookie), text_of(authorization)) is Some
            && !presents_well_signed(text_of(cookie), text_of(authorization), secret@) ==> step
            == AuthStep::Rejected(AuthError::WrongCredentials),
{
    if is_bypassed(path) {
        return AuthStep::Forwarded;
    }
    let token = match extract_token(cookie, authorization) {
        Some(token) => token,
        None => {
            return AuthStep::Rejected(AuthError::MissingCredentials);
        },
    };
    let claims = match decode_token_at::<AccessClaims>(token.as_str(), secret, now) {
        Ok(claims) => claims,
        Err(e) => {
            return AuthStep::Rejected(e);
        },
    };
    match read_key(claims.get_sub()) {
        Some(key) => AuthStep::SubjectParsed(key),
        None => AuthStep::Rejected(AuthError::InvalidToken),
    }
}

/// The step of the middleware for a request at the time that the clock
/// shows, which is not before the epoch.
pub fn auth(path: &str, cookie: Option<&str>, authorization: Option<&str>, secret: &str) -> (step:
    AuthStep)
    ensures
        exists|now: i64|
            0 <= now && #[trigger] request_step(
                path@,
                text_of(cookie),
                text_of(authorization),
                secret@,
                now,
            ) == step,
        is_public_path(path@) ==> step == AuthStep::Forwarded,
        !is_public_path(path@) && presented_token(text_of(cookie), text_of(authorization))
            is None ==> step == AuthStep::Rejected(AuthError::MissingCredentials),
        step is SubjectParsed ==> presents_well_signed(
            text_of(cookie),
            text_of(authorization),
            secret@,
        ),
        !is_public_path(path@) && presented_token(text_of(cookie), text_of(authorization)) is Some
            && !presents_well_signed(text_of(cookie), text_of(authorization), secret@) ==> step
            == AuthStep::Rejected(AuthError::WrongCredentials),
{
    let now = unix_now();
    let step = auth_at(path, cookie, authorization, secret, now);
    assert(0 <= now && request_step(path@, text_of(cookie), text_of(authorization), secret@, now)
        == step);
    step
}

/// The outcome of the lookup: the identity to attach to the request, or
/// `IdentityNotFound` where the store has none or could not answer.
pub fn resolve_identity(found: Option<Users>) -> (r: Result<Users, AuthError>)
    ensures
        found matches Some(user) ==> r == Ok::<Users, AuthError>(user),
        found is None ==> r == Err::<Users, AuthError>(AuthError::IdentityNotFound),
{
    match found {
        Some(user) => Ok(user),
        None => Err(AuthError::IdentityNotFound),
    }
}

/// The status and body that a refused request is answered with.
pub fn rejection(err: AuthError) -> (r: (u16, ErrorResponse))
    ensures
        r.0 == status_of(err),
        r.1.status@ == "fail"@,
        r.1.message@ == message_of(err),
{
    let message = err.message();
    (err.status_code(), ErrorResponse::new(message.as_str()))
}

/// Before its expiry, the access token of an issued pair brings a request
/// for a guarded path to the lookup of the identity that it was issued for,
/// whether it comes as cookie or as bearer token.
pub proof fn issued_token_passes(
    key: u128,
    config: Config,
    now: i64,
    access_id: Seq<char>,
    refresh_id: Seq<char>,
    pair: JwtTokens,
    path: Seq<char>,
    at: i64,
)
    requires
        issued(key, config, now, access_id, refresh_id, Ok(pair)),
        !is_public_path(path),
        at < now + config.jwt_maxage,
    ensures
        request_step(path, Some(pair.access_token@), None, config.jwt_secret@, at)
            == AuthStep::SubjectParsed(key),
        request_step(
            path,
            None,
            Some("Bearer "@ + pair.access_token@),
            config.jwt_secret@,
            at,
        ) == AuthStep::SubjectParsed(key),
{
    access_fields_read_back(issued_access(key, config, now, access_id));
    reveal_strlit("Bearer ");
    let header = "Bearer "@ + pair.access_token@;
    assert(header.subrange(0, 7) =~= "Bearer "@);
    assert(header.skip(7) =~= pair.access_token@);
}

} // verus!

//! What the endpoints decide once their input has been read: whom to let
//! in, what to answer, and which cookies to set.

use vstd::prelude::*;
use crate::claims::{refresh_of, AccessClaims, ClaimsMethod, RefreshClaims};
use crate::error::{message_of, status_of, ApiError, AuthError, ErrorResponse};
use crate::hash::{hash, matches_hash, verify};
use crate::ident::{fresh_key, fresh_token_id, parsed_key, read_key};
use crate::issuer::{
    can_issue, holds_every_expiry, issue_tokens, issued, normal, Config, JwtTokens, Users,
};
use crate::jwt::{accepted_at, decode_token_at, token_claims, unix_now, well_signed};
use crate::middleware::{rejection, text_of};
use crate::payload::ClaimValue;
use crate::text::{lower_ascii, lowered};
use crate::schema::{
    platform_named, underscored, upper_text, FilteredUser, LoginUserSchema, Platform,
    SignupUserSchema, UserData, UserLoginResponse, UserResponse,
};

verus! {

/// How a cookie is bound to the site that set it.
#[derive(Debug, Clone, Copy, PartialEq, Eq, Structural)]
pub enum SameSite {
    Strict,
    Lax,
    Unset,
}

/// A cookie to set on a response.
#[derive(Debug, Clone, PartialEq, Eq)]
pub struct Cookie {
    pub name: String,
    pub value: String,
    pub path: String,
    /// The lifetime in seconds; a negative one makes the client drop the cookie.
    pub max_age: i64,
    pub same_site: SameSite,
    pub secure: bool,
    pub http_only: bool,
}

/// The answer to a login or a refresh: the body and the cookies to set.
#[derive(Debug, Clone, PartialEq, Eq)]
pub struct SessionReply {
    pub body: UserLoginResponse,
    pub cookies: Vec<Cookie>,
}

/// The answer to a logout: the status of the body and the cookie to set.
#[derive(Debug, Clone, PartialEq, Eq)]
pub struct LogoutReply {
    pub status: String,
    pub cookie: Cookie,
}

/// The body of the health check.
#[derive(Debug, Clone, PartialEq, Eq)]
pub struct HealthResponse {
    pub status: String,
    pub message: String,
}

/// What is stored of a new identity.
#[derive(Debug, Clone, PartialEq, Eq)]
pub struct NewUser {
    pub user_id: u128,
    pub name: String,
    pub username: String,
    pub email: String,
    pub password: String,
    pub preferred_platform: Option<String>,
}

/// A cookie for the whole site, bound to it laxly, with the given name,
/// value, lifetime and flags.
pub open spec fn site_cookie(
    cookie: Cookie,
    name: Seq<char>,
    value: Seq<char>,
    max_age: i64,
    secure: bool,
    http_only: bool,
) -> bool {
    &&& cookie.name@ == name
    &&& cookie.value@ == value
    &&& cookie.path@ == "/"@
    &&& cookie.max_age == max_age
    &&& cookie.same_site == SameSite::Lax
    &&& cookie.secure == secure
    &&& cookie.http_only == http_only
}

/// A result that is a refusal with the given status and message.
pub open spec fn refused<T>(r: Result<T, (u16, ErrorResponse)>, status: u16, message: Seq<char>)
    -> bool {
    match r {
        Ok(_) => false,
        Err(e) => e.0 == status && e.1.status@ == "fail"@ && e.1.message@ == message,
    }
}

/// A result that is the refusal for a failure kind.
pub open spec fn refused_for<T>(r: Result<T, (u16, ErrorResponse)>, err: AuthError) -> bool {
    refused(r, status_of(err), message_of(err))
}

/// The body of a session reply: success and the two tokens.
pub open spec fn session_body(body: UserLoginResponse, tokens: JwtTokens) -> bool {
    &&& body.status@ == "success"@
    &&& body.access_token@ == tokens.access_token@
    &&& body.refresh_token@ == tokens.refresh_token@
}

/// The reply to a login for a pair of tokens: the pair in the body, and
/// three cookies that live as long as an access token. The two that hold
/// the tokens are hidden from scripts; `logged_in` is not.
pub open spec fn login_reply_for(reply: SessionReply, tokens: JwtTokens, config: Config) -> bool {
    &&& session_body(reply.body, tokens)
    &&& reply.cookies@.len() == 3
    &&& site_cookie(
        reply.cookies@[0],
        "access_token"@,
        tokens.access_token@,
        config.jwt_maxage as i64,
        config.secure_cookies,
        true,
    )
    &&& site_cookie(
        reply.cookies@[1],
        "refresh_token"@,
        tokens.refresh_token@,
        config.jwt_maxage as i64,
        config.secure_cookies,
        true,
    )
    &&& site_cookie(
        reply.cookies@[2],
        "logged_in"@,
        "true"@,
        config.jwt_maxage as i64,
        config.secure_cookies,
        false,
    )
}

/// The reply to a refresh for a pair of tokens: the pair in the body, and
/// the new refresh token as a cookie.
pub open spec fn refresh_reply_for(reply: SessionReply, tokens: JwtTokens, config: Config)
    -> bool {
    &&& session_body(reply.body, tokens)
    &&& reply.cookies@.len() == 1
    &&& site_cookie(
        reply.cookies@[0],
        "refresh_token"@,
        tokens.refresh_token@,
        config.jwt_maxage as i64,
        config.secure_cookies,
        true,
    )
}

fn new_cookie(name: &str, value: &str, max_age: i64, secure: bool, http_only: bool) -> (cookie:
    Cookie)
    ensures
        site_cookie(cookie, name@, value@, max_age, secure, http_only),
{
    Cookie {
        name: name.to_owned(),
        value: value.to_owned(),
        path: "/".to_owned(),
        max_age,
        same_site: SameSite::Lax,
        secure,
        http_only,
    }
}

fn refuse<T>(status: u16, message: &str) -> (r: Result<T, (u16, ErrorResponse)>)
    ensures
        refused(r, status, message@),
{
    Err((status, ErrorResponse::new(message)))
}

fn refuse_for<T>(err: AuthError) -> (r: Result<T, (u16, ErrorResponse)>)
    ensures
        refused_for(r, err),
{
    Err(rejection(err))
}

/// The reply to a login with a pair of tokens.
pub fn login_reply(tokens: JwtTokens, config: &Config) -> (reply: SessionReply)
    ensures
        login_reply_for(reply, tokens, *config),
{
    let max_age = config.jwt_maxage as i64;
    let secure = config.secure_cookies;
    let mut cookies: Vec<Cookie> = Vec::new();
    cookies.push(new_cookie("access_token", tokens.access_token.as_str(), max_age, secure, true));
    cookies.push(
        new_cookie("refresh_token", tokens.refresh_token.as_str(), max_age, secure, true),
    );
    cookies.push(new_cookie("logged_in", "true", max_age, secure, false));
    SessionReply {
        body: UserLoginResponse {
            status: "success".to_owned(),
            access_token: tokens.access_token,
            refresh_token: tokens.refresh_token,
        },
        cookies,
    }
}

/// The reply to a refresh with a pair of tokens.
pub fn refresh_reply(tokens: JwtTokens, config: &Config) -> (reply: SessionReply)
    ensures
        refresh_reply_for(reply, tokens, *config),
{
    let mut cookies: Vec<Cookie> = Vec::new();
    cookies.push(
        new_cookie(
            "refresh_token",
            tokens.refresh_token.as_str(),
            config.jwt_maxage as i64,
            config.secure_cookies,
            true,
        ),
    );
    SessionReply {
        body: UserLoginResponse {
            status: "success".to_owned(),
            access_token: tokens.access_token,
            refresh_token: tokens.refresh_token,
        },
        cookies,
    }
}

/// How the answer to a login or a refresh relates to what the issuance gave:
/// the reply for the pair, or the refusal for the failure.
pub open spec fn login_answer(
    r: Result<SessionReply, (u16, ErrorResponse)>,
    issuance: Result<JwtTokens, AuthError>,
    config: Config,
) -> bool {
    match issuance {
        Ok(tokens) => match r {
            Ok(reply) => login_reply_for(reply, tokens, config),
            Err(_) => false,
        },
        Err(e) => refused_for(r, e),
    }
}

/// The answer to a login for what the issuance gave.
pub fn login_outcome(issuance: Result<JwtTokens, AuthError>, config: &Config) -> (r: Result<
    SessionReply,
    (u16, ErrorResponse),
>)
    ensures
        login_answer(r, issuance, *config),
{
    match issuance {
        Ok(tokens) => Ok(login_reply(tokens, config)),
        Err(e) => refuse_for(e),
    }
}

/// How the answer to a login relates to the identity found, the password
/// sent, the configuration, the time and the two fresh identifiers.
///
/// Without an identity, and with a password that does not match the stored
/// hash, the login is refused with status 400. Otherwise, where tokens can
/// be issued at that time, the answer is the reply for the pair issued for
/// the identity; elsewhere it is the refusal for `TokenCreation`.
pub open spec fn login_at(
    r: Result<SessionReply, (u16, ErrorResponse)>,
    found: Option<Users>,
    password: Seq<char>,
    config: Config,
    now: i64,
    access_id: Seq<char>,
    refresh_id: Seq<char>,
) -> bool {
    match found {
        None => refused(
            r,
            400,
            "Invalid email or password: could not locate user with that email"@,
        ),
        Some(user) => if !matches_hash(password, user.password@) {
            refused(r, 400, "Invalid password. Does not match hash"@)
        } else if can_issue(config, now) {
            match r {
                Ok(reply) => exists|tokens: JwtTokens|
                    #![trigger issued(user.user_id, config, now, access_id, refresh_id, Ok(tokens))]
                    issued(user.user_id, config, now, access_id, refresh_id, Ok(tokens))
                        && login_reply_for(reply, tokens, config),
                Err(_) => false,
            }
        } else {
            refused_for(r, AuthError::TokenCreation)
        },
    }
}

/// Answers a login at a given time with the given fresh identifiers, given
/// the identity that the store holds under the email of the request, if any.
pub fn login_user_handler_at(
    found: Option<Users>,
    payload: &LoginUserSchema,
    config: &Config,
    now: i64,
    access_id: String,
    refresh_id: String,
) -> (r: Result<SessionReply, (u16, ErrorResponse)>)
    ensures
        login_at(r, found, payload.password@, *config, now, access_id@, refresh_id@),
{
    let user = match found {
        Some(user) => user,
        None => {
            return refuse(400, "Invalid email or password: could not locate user with that email");
        },
    };
    if !verify(payload.password.as_str(), user.password.as_str()) {
        return refuse(400, "Invalid password. Does not match hash");
    }
    let issuance = issue_tokens(&user, config, now, access_id, refresh_id);
    let ghost given = issuance;
    let r = login_outcome(issuance, config);
    proof {
        if given is Ok {
            let tokens = given->Ok_0;
            assert(issued(user.user_id, *config, now, access_id@, refresh_id@, Ok(tokens))
                && login_reply_for(r->Ok_0, tokens, *config));
        }
    }
    r
}

/// Answers a login now, with identifiers drawn at random: the answer at the
/// time that the clock shows, which is not before the epoch. With an
/// identity and its password, under a normal configuration and on a machine
/// that can hold every expiry, a reply is owed. The refusals for a missing
/// identity and for a password that does not match depend on neither the
/// clock nor chance.
pub fn login_user_handler(found: Option<Users>, payload: &LoginUserSchema, config: &Config) -> (r:
    Result<SessionReply, (u16, ErrorResponse)>)
    ensures
        exists|now: i64, access_id: Seq<char>, refresh_id: Seq<char>|
            0 <= now && #[trigger] login_at(
                r,
                found,
                payload.password@,
                *config,
                now,
                access_id,
                refresh_id,
            ),
        found matches Some(user) ==> (matches_hash(payload.password@, user.password@) && normal(
            *config,
        ) && holds_every_expiry() ==> r is Ok),
        found is None ==> refused(
            r,
            400,
            "Invalid email or password: could not locate user with that email"@,
        ),
        found matches Some(user) ==> (!matches_hash(payload.password@, user.password@) ==> refused(
            r,
            400,
            "Invalid password. Does not match hash"@,
        )),
{
    let now = unix_now();
    let access_id = fresh_token_id();
    let refresh_id = fresh_token_id();
    let ghost ids = (access_id@, refresh_id@);
    let r = login_user_handler_at(found, payload, config, now, access_id, refresh_id);
    assert(0 <= now && login_at(r, found, payload.password@, *config, now, ids.0, ids.1));
    r
}

/// What reading a refresh token gives, from what the decoder found in it
/// and the time of the reading.
pub open spec fn refresh_reading(found: Option<Map<Seq<char>, ClaimValue>>, now: i64) -> Result<
    Seq<char>,
    AuthError,
> {
    match found {
        None => Err(AuthError::WrongCredentials),
        Some(fields) => match refresh_of(fields) {
            None => Err(AuthError::WrongCredentials),
            Some(claims) => if now >= claims.exp {
                Err(AuthError::InvalidToken)
            } else {
                Ok(claims.sub)
            },
        },
    }
}

/// The subject that reading an access token gives.
pub open spec fn access_subject(found: Option<Map<Seq<char>, ClaimValue>>, now: i64) -> Result<
    Seq<char>,
    AuthError,
> {
    match crate::middleware::access_reading(found, now) {
        Ok(claims) => Ok(claims.sub),
        Err(e) => Err(e),
    }
}

/// How the identity key asked of a token cookie relates to the cookie and
/// to the subject that reading the token gives.
///
/// Without the cookie the request is refused with status 401 and the given
/// message; with a token that cannot be read, as for the error of the
/// reading; with a subject that is no identity key, as for `InvalidToken`.
/// Otherwise the key is that of the subject.
pub open spec fn subject_asked(
    r: Result<u128, (u16, ErrorResponse)>,
    cookie: Option<Seq<char>>,
    missing: Seq<char>,
    subject: Result<Seq<char>, AuthError>,
) -> bool {
    match cookie {
        None => refused(r, 401, missing),
        Some(_) => match subject {
            Err(e) => refused_for(r, e),
            Ok(sub) => match parsed_key(sub) {
                None => refused_for(r, AuthError::InvalidToken),
                Some(key) => r matches Ok(k) && k == key,
            },
        },
    }
}

fn subject_key(sub: &str) -> (r: Result<u128, (u16, ErrorResponse)>)
    ensures
        match parsed_key(sub@) {
            None => refused_for(r, AuthError::InvalidToken),
            Some(key) => r matches Ok(k) && k == key,
        },
{
    match read_key(sub) {
        Some(key) => Ok(key),
        None => refuse_for(AuthError::InvalidToken),
    }
}

/// The identity that a refresh asks new tokens for, from the
/// `refresh_token` cookie of the request, at a given time.
pub fn refresh_subject_at(cookie: Option<&str>, secret: &str, now: i64) -> (r: Result<
    u128,
    (u16, ErrorResponse),
>)
    ensures
        subject_asked(
            r,
            text_of(cookie),
            "No refresh token found"@,
            match cookie {
                Some(token) => refresh_reading(token_claims(token@, secret@), now),
                None => Err(AuthError::MissingCredentials),
            },
        ),
        cookie matches Some(token) ==> (!well_signed(token@, secret@) ==> refused_for(
            r,
            AuthError::WrongCredentials,
        )),
{
    let token = match cookie {
        Some(token) => token,
        None => {
            return refuse(401, "No refresh token found");
        },
    };
    match decode_token_at::<RefreshClaims>(token, secret, now) {
        Ok(claims) => subject_key(claims.get_sub()),
        Err(e) => refuse_for(e),
    }
}

/// The identity that a refresh asks new tokens for, at the time that the
/// clock shows.
pub fn refresh_subject(cookie: Option<&str>, secret: &str) -> (r: Result<
    u128,
    (u16, ErrorResponse),
>)
    ensures
        cookie is None ==> refused(r, 401, "No refresh token found"@),
        cookie matches Some(token) ==> exists|now: i64|
            0 <= now && subject_asked(
                r,
                text_of(cookie),
                "No refresh token found"@,
                #[trigger] refresh_reading(token_claims(token@, secret@), now),
            ),
        cookie matches Some(token) ==> (!well_signed(token@, secret@) ==> refused_for(
            r,
            AuthError::WrongCredentials,
        )),
{
    let now = unix_now();
    let r = refresh_subject_at(cookie, secret, now);
    proof {
        if let Some(token) = cookie {
            assert(0 <= now && subject_asked(
                r,
                text_of(cookie),
                "No refresh token found"@,
                refresh_reading(token_claims(token@, secret@), now),
            ));
        }
    }
    r
}

/// How the answer to a refresh relates to what the issuance gave: the reply
/// for the pair, or the refusal for the failure.
pub open spec fn refresh_answer(
    r: Result<SessionReply, (u16, ErrorResponse)>,
    issuance: Result<JwtTokens, AuthError>,
    config: Config,
) -> bool {
    match issuance {
        Ok(tokens) => match r {
            Ok(reply) => refresh_reply_for(reply, tokens, config),
            Err(_) => false,
        },
        Err(e) => refused_for(r, e),
    }
}

/// The answer to a refresh for what the issuance gave.
pub fn refresh_outcome(issuance: Result<JwtTokens, AuthError>, config: &Config) -> (r: Result<
    SessionReply,
    (u16, ErrorResponse),
>)
    ensures
        refresh_answer(r, issuance, *config),
{
    match issuance {
        Ok(tokens) => Ok(refresh_reply(tokens, config)),
        Err(e) => refuse_for(e),
    }
}

/// How the answer to a refresh relates to the identity found, the
/// configuration, the time and the two fresh identifiers.
///
/// Without an identity the refresh is refused as for `IdentityNotFound`.
/// Otherwise, where tokens can be issued at that time, the answer is the
/// reply for the pair issued for the identity; elsewhere it is the refusal
/// for `TokenCreation`.
pub open spec fn refresh_at(
    r: Result<SessionReply, (u16, ErrorResponse)>,
    found: Option<Users>,
    config: Config,
    now: i64,
    access_id: Seq<char>,
    refresh_id: Seq<char>,
) -> bool {
    match found {
        None => refused_for(r, AuthError::IdentityNotFound),
        Some(user) => if can_issue(config, now) {
            match r {
                Ok(reply) => exists|tokens: JwtTokens|
                    #![trigger issued(user.user_id, config, now, access_id, refresh_id, Ok(tokens))]
                    issued(user.user_id, config, now, access_id, refresh_id, Ok(tokens))
                        && refresh_reply_for(reply, tokens, config),
                Err(_) => false,
            }
        } else {
            refused_for(r, AuthError::TokenCreation)
        },
    }
}

/// Answers a refresh at a given time with the given fresh identifiers,
/// given the identity that the store holds under the subject of the refresh
/// token, if any.
pub fn refresh_token_handler_at(
    found: Option<Users>,
    config: &Config,
    now: i64,
    access_id: String,
    refresh_id: String,
) -> (r: Result<SessionReply, (u16, ErrorResponse)>)
    ensures
        refresh_at(r, found, *config, now, access_id@, refresh_id@),
{
    let user = match found {
        Some(user) => user,
        None => {
            return refuse_for(AuthError::IdentityNotFound);
        },
    };
    let issuance = issue_tokens(&user, config, now, access_id, refresh_id);
    let ghost given = issuance;
    let r = refresh_outcome(issuance, config);
    proof {
        if given is Ok {
            let tokens = given->Ok_0;
            assert(issued(user.user_id, *config, now, access_id@, refresh_id@, Ok(tokens))
                && refresh_reply_for(r->Ok_0, tokens, *config));
        }
    }
    r
}

/// Answers a refresh now, with identifiers drawn at random: the answer at
/// the time that the clock shows, which is not before the epoch. For a found
/// identity, under a normal configuration and on a machine that can hold
/// every expiry, a reply is owed. The refusal for a missing identity depends
/// on neither the clock nor chance.
pub fn refresh_token_handler(found: Option<Users>, config: &Config) -> (r: Result<
    SessionReply,
    (u16, ErrorResponse),
>)
    ensures
        exists|now: i64, access_id: Seq<char>, refresh_id: Seq<char>|
            0 <= now && #[trigger] refresh_at(r, found, *config, now, access_id, refresh_id),
        found is Some && normal(*config) && holds_every_expiry() ==> r is Ok,
        found is None ==> refused_for(r, AuthError::IdentityNotFound),
{
    let now = unix_now();
    let access_id = fresh_token_id();
    let refresh_id = fresh_token_id();
    let ghost ids = (access_id@, refresh_id@);
    let r = refresh_token_handler_at(found, config, now, access_id, refresh_id);
    assert(0 <= now && refresh_at(r, found, *config, now, ids.0, ids.1));
    r
}

/// The identity that a request asks about, from its `access_token` cookie,
/// at a given time.
pub fn user_subject_at(cookie: Option<&str>, secret: &str, now: i64) -> (r: Result<
    u128,
    (u16, ErrorResponse),
>)
    ensures
        subject_asked(
            r,
            text_of(cookie),
            "Access token not found"@,
            match cookie {
                Some(token) => access_subject(token_claims(token@, secret@), now),
                None => Err(AuthError::MissingCredentials),
            },
        ),
        cookie matches Some(token) ==> (!well_signed(token@, secret@) ==> refused_for(
            r,
            AuthError::WrongCredentials,
        )),
{
    let token = match cookie {
        Some(token) => token,
        None => {
            return refuse(401, "Access token not found");
        },
    };
    match decode_token_at::<AccessClaims>(token, secret, now) {
        Ok(claims) => subject_key(claims.get_sub()),
        Err(e) => refuse_for(e),
    }
}

/// The identity that a request asks about, at the time that the clock shows.
pub fn user_subject(cookie: Option<&str>, secret: &str) -> (r: Result<u128, (u16, ErrorResponse)>)
    ensures
        cookie is None ==> refused(r, 401, "Access token not found"@),
        cookie matches Some(token) ==> exists|now: i64|
            0 <= now && subject_asked(
                r,
                text_of(cookie),
                "Access token not found"@,
                #[trigger] access_subject(token_claims(token@, secret@), now),
            ),
        cookie matches Some(token) ==> (!well_signed(token@, secret@) ==> refused_for(
            r,
            AuthError::WrongCredentials,
        )),
{
    let now = unix_now();
    let r = user_subject_at(cookie, secret, now);
    proof {
        if let Some(token) = cookie {
            assert(0 <= now && subject_asked(
                r,
                text_of(cookie),
                "Access token not found"@,
                access_subject(token_claims(token@, secret@), now),
            ));
        }
    }
    r
}

/// The platform that an identity prefers: the one that its stored text
/// names, and Spotify where it stores none.
pub open spec fn preferred(stored: Option<String>) -> Platform {
    match stored {
        Some(text) => platform_named(underscored(upper_text(text@))),
        None => Platform::Spotify,
    }
}

/// An identity as a client may see it.
pub open spec fn shown_as(shown: FilteredUser, user: Users) -> bool {
    &&& shown.user_id == user.user_id
    &&& shown.name@ == user.name@
    &&& shown.username@ == user.username@
    &&& shown.email@ == user.email@
    &&& shown.preferred_platform == preferred(user.preferred_platform)
    &&& shown.photo@ == match user.photo {
        Some(photo) => photo@,
        None => ""@,
    }
    &&& user.created_at == Some(shown.createdAt)
    &&& user.updated_at == Some(shown.updatedAt)
}

/// The body that shows an identity, with a message. An identity whose
/// times of creation and change are not both known cannot be shown: that is
/// a failure of the server, status 500.
pub fn user_response(user: Users, message: &str) -> (r: Result<
    UserResponse,
    (u16, ErrorResponse),
>)
    ensures
        user.created_at is None || user.updated_at is None ==> refused(
            r,
            500,
            "Internal server error"@,
        ),
        user.created_at is Some && user.updated_at is Some ==> (r matches Ok(body)
            && body.status@ == "success"@ && body.message@ == message@ && shown_as(
            body.data.user,
            user,
        )),
{
    let (created, updated) = match (user.created_at, user.updated_at) {
        (Some(created), Some(updated)) => (created, updated),
        _ => {
            return refuse(500, "Internal server error");
        },
    };
    let preferred_platform = match user.preferred_platform {
        Some(text) => Platform::from(text),
        None => Platform::Spotify,
    };
    let photo = match user.photo {
        Some(photo) => photo,
        None => "".to_owned(),
    };
    Ok(
        UserResponse {
            status: "success".to_owned(),
            message: message.to_owned(),
            data: UserData {
                user: FilteredUser {
                    user_id: user.user_id,
                    name: user.name,
                    username: user.username,
                    email: user.email,
                    preferred_platform,
                    photo,
                    createdAt: created,
                    updatedAt: updated,
                },
            },
        },
    )
}

/// Answers a request about the identity of the caller, given the identity
/// that the store holds under the subject of the access token, if any.
pub fn get_user_handler(found: Option<Users>) -> (r: Result<UserResponse, (u16, ErrorResponse)>)
    ensures
        found is None ==> refused(r, 404, "User not found"@),
        found matches Some(user) ==> (user.created_at is None || user.updated_at is None
            ==> refused(r, 500, "Internal server error"@)),
        found matches Some(user) ==> (user.created_at is Some && user.updated_at is Some ==> (
        r matches Ok(body) && body.status@ == "success"@ && body.message@ == "User found"@
            && shown_as(body.data.user, user))),
{
    match found {
        Some(user) => user_response(user, "User found"),
        None => refuse(404, "User not found"),
    }
}

/// What is stored of a new identity for what a client sent to sign up: the
/// given key, the names and the platform as they were sent, the email in
/// small letters, and the given hash as password.
pub open spec fn stored_as(
    user: NewUser,
    payload: SignupUserSchema,
    hashed: Seq<char>,
    user_id: u128,
) -> bool {
    &&& user.user_id == user_id
    &&& user.name@ == payload.name@
    &&& user.username@ == payload.username@
    &&& user.email@ == lowered(payload.email@)
    &&& user.password@ == hashed
    &&& user.preferred_platform == payload.preferred_platform
}

/// What is stored of a new identity, given the outcome of hashing its
/// password and its fresh key; a failed hashing is refused as for its error.
pub fn new_user_from(payload: &SignupUserSchema, hashed: Result<String, AuthError>, user_id: u128)
    -> (r: Result<NewUser, (u16, ErrorResponse)>)
    ensures
        hashed matches Ok(h) ==> match r {
            Ok(user) => stored_as(user, *payload, h@, user_id),
            Err(_) => false,
        },
        hashed matches Err(e) ==> refused_for(r, e),
{
    let password = match hashed {
        Ok(h) => h,
        Err(e) => {
            return refuse_for(e);
        },
    };
    Ok(
        NewUser {
            user_id,
            name: payload.name.clone(),
            username: payload.username.clone(),
            email: lower_ascii(payload.email.as_str()),
            password,
            preferred_platform: payload.preferred_platform.clone(),
        },
    )
}

/// What is stored of a new identity, for what a client sent to sign up: a
/// key drawn at random, and a hash that matches the password. The only
/// refusal is that of `HashingError`.
pub fn register_user_handler(payload: &SignupUserSchema) -> (r: Result<
    NewUser,
    (u16, ErrorResponse),
>)
    ensures
        match r {
            Ok(user) => exists|user_id: u128|
                #![trigger stored_as(user, *payload, user.password@, user_id)]
                stored_as(user, *payload, user.password@, user_id) && matches_hash(
                    payload.password@,
                    user.password@,
                ),
            Err(_) => refused_for(r, AuthError::HashingError),
        },
{
    let hashed = hash(&payload.password);
    let user_id = fresh_key();
    let r = new_user_from(payload, hashed, user_id);
    proof {
        if r is Ok {
            let user = r->Ok_0;
            assert(stored_as(user, *payload, user.password@, user_id));
        }
    }
    r
}

/// The body that answers a sign-up, given the identity as it was stored.
pub fn registered_reply(user: Users) -> (r: Result<UserResponse, (u16, ErrorResponse)>)
    ensures
        user.created_at is None || user.updated_at is None ==> refused(
            r,
            500,
            "Internal server error"@,
        ),
        user.created_at is Some && user.updated_at is Some ==> (r matches Ok(body)
            && body.status@ == "success"@ && body.message@ == "User registered successfully"@
            && shown_as(body.data.user, user)),
{
    user_response(user, "User registered successfully")
}

/// A failure as it is reported for a failure kind.
pub open spec fn reports(api: ApiError, err: AuthError) -> bool {
    api.status_code == status_of(err) && api.message@ == message_of(err) && api.error_code is None
}

/// How the claims asked of a bearer token relate to the reading of the
/// token: the claims of a good reading, and the report of a failed one.
pub open spec fn reported<T>(inner: Result<T, AuthError>, r: Result<T, ApiError>) -> bool {
    match inner {
        Ok(claims) => r == Ok::<T, ApiError>(claims),
        Err(e) => match r {
            Ok(_) => false,
            Err(api) => reports(api, e),
        },
    }
}

/// The claims of the bearer token of a request, at a given time. A request
/// without a bearer token is reported as `MissingCredentials`; a token that
/// cannot be read, as the error of the reading.
pub fn decode_token_from_request_parts_at<T: ClaimsMethod>(
    bearer: Option<&str>,
    secret: &str,
    now: i64,
) -> (r: Result<T, ApiError>)
    ensures
        bearer is None ==> r is Err && reports(r->Err_0, AuthError::MissingCredentials),
        bearer matches Some(token) ==> exists|inner: Result<T, AuthError>|
            #![trigger accepted_at::<T>(token_claims(token@, secret@), now, inner)]
            accepted_at::<T>(token_claims(token@, secret@), now, inner) && reported(inner, r),
        bearer matches Some(token) ==> (!well_signed(token@, secret@) ==> r is Err && reports(
            r->Err_0,
            AuthError::WrongCredentials,
        )),
{
    let token = match bearer {
        Some(token) => token,
        None => {
            return Err(ApiError::from_auth_error(AuthError::MissingCredentials));
        },
    };
    let inner = decode_token_at::<T>(token, secret, now);
    let ghost read = inner;
    let r = match inner {
        Ok(claims) => Ok(claims),
        Err(e) => Err(ApiError::from_auth_error(e)),
    };
    assert(accepted_at::<T>(token_claims(token@, secret@), now, read) && reported(read, r));
    r
}

/// The claims of the bearer token of a request, at the time that the clock
/// shows.
pub fn decode_token_from_request_parts<T: ClaimsMethod>(bearer: Option<&str>, secret: &str) -> (r:
    Result<T, ApiError>)
    ensures
        bearer is None ==> r is Err && reports(r->Err_0, AuthError::MissingCredentials),
        bearer matches Some(token) ==> exists|now: i64, inner: Result<T, AuthError>|
            #![trigger accepted_at::<T>(token_claims(token@, secret@), now, inner)]
            0 <= now && accepted_at::<T>(token_claims(token@, secret@), now, inner) && reported(
                inner,
                r,
            ),
        bearer matches Some(token) ==> (!well_signed(token@, secret@) ==> r is Err && reports(
            r->Err_0,
            AuthError::WrongCredentials,
        )),
{
    decode_token_from_request_parts_at::<T>(bearer, secret, unix_now())
}

/// The answer to a logout: the access cookie is emptied and expires at once.
pub fn logout_handler() -> (reply: LogoutReply)
    ensures
        reply.status@ == "success"@,
        site_cookie(reply.cookie, "access_token"@, ""@, -3600i64, false, true),
{
    LogoutReply {
        status: "success".to_owned(),
        cookie: new_cookie("access_token", "", -3600, false, true),
    }
}

/// The answer of the health check.
pub fn health_check_handler() -> (body: HealthResponse)
    ensures
        body.status@ == "success"@,
        body.message@ == "Rusty Melody is healthy!"@,
{
    HealthResponse { status: "success".to_owned(), message: "Rusty Melody is healthy!".to_owned() }
}

} // verus!

//! Minting a linked pair of tokens for an identity.

use vstd::prelude::*;
use crate::claims::{
    access_fields, access_fields_read_back, refresh_fields, refresh_fields_read_back,
    AccessClaims, AccessClaimsView, RefreshClaims, RefreshClaimsView,
};
use crate::error::AuthError;
use crate::ident::{format_key, fresh_token_id, key_text_of, parsed_key};
use crate::jwt::{
    accepted_at, encode_token, signed_token, three_segments, token_claims, unix_now, well_signed,
};

verus! {

/// What the process is configured with: the secret that signs every token,
/// the lifetime in seconds of each kind of token, and whether cookies are
/// for secure transport only.
#[derive(Debug, Clone, PartialEq, Eq)]
pub struct Config {
    pub jwt_secret: String,
    pub jwt_maxage: u32,
    pub jwt_refresh_maxage: u32,
    pub secure_cookies: bool,
}

/// An identity as the store holds it.
#[derive(Debug, Clone, PartialEq, Eq)]
pub struct Users {
    pub user_id: u128,
    pub name: String,
    pub username: String,
    pub email: String,
    pub password: String,
    pub preferred_platform: Option<String>,
    pub photo: Option<String>,
    pub created_at: Option<i64>,
    pub updated_at: Option<i64>,
}

/// An access token and the refresh token issued with it.
#[derive(Debug, Clone, PartialEq, Eq)]
pub struct JwtTokens {
    pub access_token: String,
    pub refresh_token: String,
}

impl Config {
    /// A configuration in which both kinds of token live equally long.
    pub fn new(jwt_secret: String, jwt_maxage: u32, secure_cookies: bool) -> (config: Config)
        ensures
            config.jwt_secret == jwt_secret,
            config.jwt_maxage == jwt_maxage,
            config.jwt_refresh_maxage == jwt_maxage,
            config.secure_cookies == secure_cookies,
    {
        Config { jwt_secret, jwt_maxage, jwt_refresh_maxage: jwt_maxage, secure_cookies }
    }
}

/// Tokens can be issued at a time when the time is not before the epoch,
/// both lifetimes are positive, and both expiries can be held.
pub open spec fn can_issue(config: Config, now: i64) -> bool {
    &&& 0 <= now
    &&& 0 < config.jwt_maxage
    &&& 0 < config.jwt_refresh_maxage
    &&& now + config.jwt_maxage <= usize::MAX
    &&& now + config.jwt_refresh_maxage <= usize::MAX
}

/// A configuration is normal when both kinds of token have a positive
/// lifetime.
pub open spec fn normal(config: Config) -> bool {
    0 < config.jwt_maxage && 0 < config.jwt_refresh_maxage
}

/// This machine can hold every expiry: the latest time of the clock and the
/// longest lifetime together fit a word.
pub open spec fn holds_every_expiry() -> bool {
    usize::MAX >= i64::MAX + u32::MAX
}

/// Under a normal configuration, on a machine that can hold every expiry,
/// tokens can be issued at every time from the epoch on.
pub proof fn normal_configuration_issues(config: Config, now: i64)
    requires
        normal(config),
        holds_every_expiry(),
        0 <= now,
    ensures
        can_issue(config, now),
{
}

/// The access claims issued for an identity at a time.
pub open spec fn issued_access(key: u128, config: Config, now: i64, access_id: Seq<char>)
    -> AccessClaimsView {
    AccessClaimsView {
        exp: (now + config.jwt_maxage) as usize,
        iat: now as usize,
        sub: key_text_of(key),
        jti: access_id,
    }
}

/// The refresh claims issued for an identity at a time: they name the access
/// token of the same issuance and repeat its expiry.
pub open spec fn issued_refresh(
    key: u128,
    config: Config,
    now: i64,
    access_id: Seq<char>,
    refresh_id: Seq<char>,
) -> RefreshClaimsView {
    RefreshClaimsView {
        exp: (now + config.jwt_refresh_maxage) as usize,
        iat: now as usize,
        sub: key_text_of(key),
        jti: refresh_id,
        prf: access_id,
        pex: (now + config.jwt_maxage) as usize,
    }
}

/// A token that carries a claim set under a secret: it is the token that
/// the two determine, it has three segments, it is well signed, and the
/// decoder finds the claim set in it.
pub open spec fn carries(
    token: Seq<char>,
    fields: Map<Seq<char>, crate::payload::ClaimValue>,
    secret: Seq<char>,
) -> bool {
    &&& token == signed_token(fields, secret)
    &&& three_segments(token)
    &&& well_signed(token, secret)
    &&& token_claims(token, secret) == Some(fields)
}

/// How the result of an issuance relates to the identity, the configuration,
/// the time and the two fresh identifiers: a pair exactly where tokens can be
/// issued, each token carrying its claims, with a subject that reads back as
/// the identity's key; `TokenCreation` elsewhere.
pub open spec fn issued(
    key: u128,
    config: Config,
    now: i64,
    access_id: Seq<char>,
    refresh_id: Seq<char>,
    r: Result<JwtTokens, AuthError>,
) -> bool {
    match r {
        Ok(pair) => {
            &&& can_issue(config, now)
            &&& parsed_key(key_text_of(key)) == Some(key)
            &&& carries(
                pair.access_token@,
                access_fields(issued_access(key, config, now, access_id)),
                config.jwt_secret@,
            )
            &&& carries(
                pair.refresh_token@,
                refresh_fields(issued_refresh(key, config, now, access_id, refresh_id)),
                config.jwt_secret@,
            )
        },
        Err(e) => e == AuthError::TokenCreation && !can_issue(config, now),
    }
}

/// The claims of both tokens for an identity at a given time with the given
/// fresh identifiers, wherever tokens can be issued at that time.
pub fn issue_claims(
    user: &Users,
    config: &Config,
    now: i64,
    access_id: String,
    refresh_id: String,
) -> (r: Option<(AccessClaims, RefreshClaims)>)
    ensures
        r is Some <==> can_issue(*config, now),
        r matches Some(pair) ==> pair.0@ == issued_access(user.user_id, *config, now, access_id@)
            && pair.1@ == issued_refresh(user.user_id, *config, now, access_id@, refresh_id@),
        r matches Some(pair) ==> parsed_key(pair.0.sub@) == Some(user.user_id) && parsed_key(
            pair.1.sub@,
        ) == Some(user.user_id),
{
    if now < 0 || config.jwt_maxage == 0 || config.jwt_refresh_maxage == 0 {
        return None;
    }
    let iat = now as u64;
    if iat > usize::MAX as u64 - config.jwt_maxage as u64 || iat > usize::MAX as u64
        - config.jwt_refresh_maxage as u64 {
        return None;
    }
    let access_exp = (iat + config.jwt_maxage as u64) as usize;
    let refresh_exp = (iat + config.jwt_refresh_maxage as u64) as usize;
    let sub = format_key(user.user_id);
    let access_claims = AccessClaims {
        iat: iat as usize,
        exp: access_exp,
        sub: sub.clone(),
        jti: access_id.clone(),
    };
    let refresh_claims = RefreshClaims {
        sub,
        jti: refresh_id,
        iat: iat as usize,
        exp: refresh_exp,
        prf: access_id,
        pex: access_exp,
    };
    Some((access_claims, refresh_claims))
}

/// Mints the pair of tokens for an identity at a given time with the given
/// fresh identifiers. Where tokens can be issued at that time the result is
/// the pair that carries the issued claims; elsewhere it is `TokenCreation`.
pub fn issue_tokens(
    user: &Users,
    config: &Config,
    now: i64,
    access_id: String,
    refresh_id: String,
) -> (r: Result<JwtTokens, AuthError>)
    ensures
        issued(user.user_id, *config, now, access_id@, refresh_id@, r),
        r is Ok <==> can_issue(*config, now),
{
    let (access_claims, refresh_claims) = match issue_claims(
        user,
        config,
        now,
        access_id,
        refresh_id,
    ) {
        Some(claims) => claims,
        None => {
            return Err(AuthError::TokenCreation);
        },
    };
    let access_token = match encode_token(&access_claims, config.jwt_secret.as_str()) {
        Ok(token) => token,
        Err(e) => {
            return Err(e);
        },
    };
    let refresh_token = match encode_token(&refresh_claims, config.jwt_secret.as_str()) {
        Ok(token) => token,
        Err(e) => {
            return Err(e);
        },
    };
    Ok(JwtTokens { access_token, refresh_token })
}

/// Mints the pair of tokens for an identity now, with identifiers drawn at
/// random: the issuance at the time that the clock shows, which is not
/// before the epoch. Under a normal configuration, on a machine that can
/// hold every expiry, it succeeds; without a positive lifetime for each kind
/// of token nothing is issued at any time.
pub fn generate_tokens(user: Users, config: &Config) -> (r: Result<JwtTokens, AuthError>)
    ensures
        exists|now: i64, access_id: Seq<char>, refresh_id: Seq<char>|
            0 <= now && #[trigger] issued(user.user_id, *config, now, access_id, refresh_id, r),
        normal(*config) && holds_every_expiry() ==> r is Ok,
        !normal(*config) ==> r is Err,
{
    let now = unix_now();
    let access_token_id = fresh_token_id();
    let refresh_token_id = fresh_token_id();
    let ghost access_id = access_token_id@;
    let ghost refresh_id = refresh_token_id@;
    let r = issue_tokens(&user, config, now, access_token_id, refresh_token_id);
    assert(0 <= now && issued(user.user_id, *config, now, access_id, refresh_id, r));
    r
}

/// Whenever both tokens of an issued pair are read, the refresh claims name
/// the access token of the pair and repeat its expiry, and both speak for
/// the identity that the pair was issued for.
pub proof fn issued_pair_is_linked(
    key: u128,
    config: Config,
    now: i64,
    access_id: Seq<char>,
    refresh_id: Seq<char>,
    pair: JwtTokens,
    access_time: i64,
    refresh_time: i64,
    access: Result<AccessClaims, AuthError>,
    refresh: Result<RefreshClaims, AuthError>,
)
    requires
        issued(key, config, now, access_id, refresh_id, Ok(pair)),
        accepted_at::<AccessClaims>(
            token_claims(pair.access_token@, config.jwt_secret@),
            access_time,
            access,
        ),
        accepted_at::<RefreshClaims>(
            token_claims(pair.refresh_token@, config.jwt_secret@),
            refresh_time,
            refresh,
        ),
        access is Ok,
        refresh is Ok,
    ensures
        refresh.unwrap().prf@ == access.unwrap().jti@,
        refresh.unwrap().pex == access.unwrap().exp,
        access.unwrap().sub@ == key_text_of(key),
        refresh.unwrap().sub@ == key_text_of(key),
        access.unwrap().exp > access.unwrap().iat,
        refresh.unwrap().exp > refresh.unwrap().iat,
{
    access_fields_read_back(issued_access(key, config, now, access_id));
    refresh_fields_read_back(issued_refresh(key, config, now, access_id, refresh_id));
}

} // verus!

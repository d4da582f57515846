//! Signing a claim set into a compact token and reading a token back.

use vstd::prelude::*;
use crate::claims::{
    access_fields_read_back, refresh_fields_read_back, verifiable, AccessClaims, ClaimsMethod,
    RefreshClaims,
};
use crate::error::AuthError;
use crate::payload::{object_fields, plain_fields, ClaimValue};

verus! {

/// The length of the signature segment of a token.
pub const SIGNATURE_LEN: usize = 43;

/// The token that `jsonwebtoken::encode` makes of a claim set under a secret,
/// with the default header.
pub uninterp spec fn signed_token(fields: Map<Seq<char>, ClaimValue>, secret: Seq<char>) -> Seq<
    char,
>;

/// The claim set that `jsonwebtoken::decode` finds in a token under a secret
/// when it checks everything but the clock, or nothing where it rejects the
/// token.
pub uninterp spec fn token_claims(token: Seq<char>, secret: Seq<char>) -> Option<
    Map<Seq<char>, ClaimValue>,
>;

/// The signature that `jsonwebtoken::crypto::sign` gives a message under a
/// secret: the text of its keyed SHA-256 digest.
pub uninterp spec fn token_mac(message: Seq<char>, secret: Seq<char>) -> Seq<char>;

/// The part of a token that is signed: all that stands before the last dot
/// of a token whose signature segment has the full length.
pub open spec fn signed_part(token: Seq<char>) -> Seq<char> {
    token.subrange(0, token.len() - SIGNATURE_LEN - 1)
}

/// The signature segment of a token: its last characters.
pub open spec fn signature_part(token: Seq<char>) -> Seq<char> {
    token.subrange(token.len() - SIGNATURE_LEN, token.len() as int)
}

/// A token is framed when a dot stands before its signature segment.
pub open spec fn framed(token: Seq<char>) -> bool {
    token.len() > SIGNATURE_LEN && token[token.len() - SIGNATURE_LEN - 1] == '.'
}

/// A token has three segments when it holds exactly two dots and none of
/// the three parts that they divide it into is empty.
pub open spec fn three_segments(token: Seq<char>) -> bool {
    exists|first: int, second: int|
        #![trigger token[first], token[second]]
        {
            &&& 0 < first
            &&& first + 1 < second
            &&& second + 1 < token.len()
            &&& token[first] == '.'
            &&& token[second] == '.'
            &&& forall|k: int|
                0 <= k < token.len() && k != first && k != second ==> token[k] != '.'
        }
}

/// A token is well signed under a secret when it is framed and its signature
/// segment is the signature of all that stands before the dot.
pub open spec fn well_signed(token: Seq<char>, secret: Seq<char>) -> bool {
    framed(token) && signature_part(token) == token_mac(signed_part(token), secret)
}

#[verifier::external_type_specification]
#[verifier::external_body]
pub struct ExJwtError(jsonwebtoken::errors::Error);

/// Calls `jsonwebtoken::encode` with the default header (HS256) and the
/// secret as key. For a claim set of texts and whole numbers it has no
/// failing path. The token is named by the claim set and the secret; it has
/// three segments; it is its signed part, a dot and the signature of that
/// part, 43 characters long; and a claim set with a numeric expiry and no
/// audience is what the decoder finds in it under the same secret.
/// Not proved.
#[verifier::external_body]
fn jwt_encode(claims: &serde_json::Map<String, serde_json::Value>, secret: &str) -> (r: Result<
    String,
    jsonwebtoken::errors::Error,
>)
    requires
        plain_fields(object_fields(*claims)),
    ensures
        r is Ok,
        r matches Ok(t) ==> t@ == signed_token(object_fields(*claims), secret@),
        r matches Ok(t) ==> three_segments(t@),
        r matches Ok(t) ==> framed(t@) && signature_part(t@) == token_mac(signed_part(t@), secret@),
        r matches Ok(t) ==> (verifiable(object_fields(*claims)) ==> token_claims(t@, secret@)
            == Some(object_fields(*claims))),
{
    let key = jsonwebtoken::EncodingKey::from_secret(secret.as_bytes());
    jsonwebtoken::encode(&jsonwebtoken::Header::default(), claims, &key)
}

/// Calls `jsonwebtoken::decode` for HS256 with the secret as key and the
/// check of the expiry against the clock switched off. The claim set that
/// comes back is the one named for the token and the secret, and a token is
/// only accepted if it is well signed. Not proved.
#[verifier::external_body]
fn jwt_decode(token: &str, secret: &str) -> (r: Result<
    serde_json::Map<String, serde_json::Value>,
    jsonwebtoken::errors::Error,
>)
    ensures
        r matches Ok(object) ==> token_claims(token@, secret@) == Some(object_fields(object)),
        r is Err ==> token_claims(token@, secret@) is None,
        r is Ok ==> framed(token@) && signature_part(token@) == token_mac(
            signed_part(token@),
            secret@,
        ),
{
    let key = jsonwebtoken::DecodingKey::from_secret(secret.as_bytes());
    let mut validation = jsonwebtoken::Validation::new(jsonwebtoken::Algorithm::HS256);
    validation.validate_exp = false;
    jsonwebtoken::decode::<serde_json::Map<String, serde_json::Value>>(token, &key, &validation)
        .map(|data| data.claims)
}

/// Calls `chrono::Utc::now` and `DateTime::timestamp`: the seconds since the
/// epoch on this machine's clock. The clock is read as a span of time since
/// the epoch, so the value is never negative; nothing else is known of it.
/// Not proved.
#[verifier::external_body]
pub(crate) fn unix_now() -> (now: i64)
    ensures
        0 <= now,
{
    chrono::Utc::now().timestamp()
}

/// What signing returns for each outcome of the encoder: its token, or
/// `TokenCreation` whatever made it fail.
pub fn encode_outcome(outcome: Result<String, jsonwebtoken::errors::Error>) -> (r: Result<
    String,
    AuthError,
>)
    ensures
        outcome matches Ok(t) ==> r == Ok::<String, AuthError>(t),
        outcome is Err ==> r == Err::<String, AuthError>(AuthError::TokenCreation),
{
    match outcome {
        Ok(t) => Ok(t),
        Err(_) => Err(AuthError::TokenCreation),
    }
}

/// Signs claims under a secret, which always succeeds. The token is the one
/// that the claim set and the secret determine, it has three segments, it is
/// well signed, and under the same secret it holds the claim set again.
pub fn encode_token<T: ClaimsMethod>(claims: &T, secret: &str) -> (r: Result<String, AuthError>)
    ensures
        r is Ok,
        r matches Ok(t) ==> t@ == signed_token(claims.fields(), secret@),
        r matches Ok(t) ==> three_segments(t@),
        r matches Ok(t) ==> well_signed(t@, secret@),
        r matches Ok(t) ==> token_claims(t@, secret@) == Some(claims.fields()),
{
    proof {
        claims.fields_are_signable();
    }
    let object = claims.to_object();
    encode_outcome(jwt_encode(&object, secret))
}

/// What reading a token returns, given what the decoder found in it and the
/// time of the reading.
///
/// A token that the decoder rejects, or whose claim set has not the asked
/// shape, gives `WrongCredentials`. One whose expiry is not after `now` gives
/// `InvalidToken`. Any other token gives its claims.
pub fn claims_at<T: ClaimsMethod>(
    found: Result<serde_json::Map<String, serde_json::Value>, jsonwebtoken::errors::Error>,
    now: i64,
) -> (r: Result<T, AuthError>)
    ensures
        found is Err ==> fails_with(r, AuthError::WrongCredentials),
        found matches Ok(object) ==> accepted_at::<T>(Some(object_fields(object)), now, r),
{
    match found {
        Err(_) => Err(AuthError::WrongCredentials),
        Ok(object) => match T::from_object(&object) {
            None => Err(AuthError::WrongCredentials),
            Some(claims) => {
                let exp = claims.get_exp();
                if now < 0 || (now as u64) < (exp as u64) {
                    Ok(claims)
                } else {
                    Err(AuthError::InvalidToken)
                }
            },
        },
    }
}

/// A result that is the given failure.
pub open spec fn fails_with<T>(r: Result<T, AuthError>, err: AuthError) -> bool {
    match r {
        Ok(_) => false,
        Err(e) => e == err,
    }
}

/// How the result of reading a token relates to the claim set that the
/// decoder found in it and to the time of the reading.
pub open spec fn accepted_at<T: ClaimsMethod>(
    found: Option<Map<Seq<char>, ClaimValue>>,
    now: i64,
    r: Result<T, AuthError>,
) -> bool {
    match found {
        None => fails_with(r, AuthError::WrongCredentials),
        Some(fields) => if !T::shaped(fields) {
            fails_with(r, AuthError::WrongCredentials)
        } else if now >= T::expiry_of(fields) {
            fails_with(r, AuthError::InvalidToken)
        } else {
            match r {
                Ok(claims) => claims.read_from(fields),
                Err(_) => false,
            }
        },
    }
}

/// Reads a token under a secret at a given time: checks its signature and
/// format, the shape of its claims, and that it has not expired. The decoder
/// finds claims in well signed tokens only, so a token that is not well
/// signed gives `WrongCredentials`.
pub fn decode_token_at<T: ClaimsMethod>(token: &str, secret: &str, now: i64) -> (r: Result<
    T,
    AuthError,
>)
    ensures
        accepted_at::<T>(token_claims(token@, secret@), now, r),
        token_claims(token@, secret@) is Some ==> well_signed(token@, secret@),
        !well_signed(token@, secret@) ==> fails_with(r, AuthError::WrongCredentials),
        r is Ok ==> well_signed(token@, secret@),
{
    claims_at::<T>(jwt_decode(token, secret), now)
}

/// Reads a token under a secret at the time that the clock shows, which is
/// not before the epoch.
pub fn decode_token<T: ClaimsMethod>(token: &str, secret: &str) -> (r: Result<T, AuthError>)
    ensures
        exists|now: i64|
            0 <= now && #[trigger] accepted_at::<T>(token_claims(token@, secret@), now, r),
        token_claims(token@, secret@) is Some ==> well_signed(token@, secret@),
        !well_signed(token@, secret@) ==> fails_with(r, AuthError::WrongCredentials),
        r is Ok ==> well_signed(token@, secret@),
{
    let now = unix_now();
    let r = decode_token_at::<T>(token, secret, now);
    assert(0 <= now && accepted_at::<T>(token_claims(token@, secret@), now, r));
    r
}

/// Before its expiry, an access token reads back as the claims that were
/// signed into it, under the secret that signed it.
pub proof fn access_round_trip(
    claims: AccessClaims,
    token: Seq<char>,
    secret: Seq<char>,
    now: i64,
    read: Result<AccessClaims, AuthError>,
)
    requires
        token_claims(token, secret) == Some(claims.fields()),
        now < claims.exp,
        accepted_at::<AccessClaims>(token_claims(token, secret), now, read),
    ensures
        read is Ok,
        read.unwrap()@ == claims@,
{
    access_fields_read_back(claims@);
}

/// Before its expiry, a refresh token reads back as the claims that were
/// signed into it, under the secret that signed it.
pub proof fn refresh_round_trip(
    claims: RefreshClaims,
    token: Seq<char>,
    secret: Seq<char>,
    now: i64,
    read: Result<RefreshClaims, AuthError>,
)
    requires
        token_claims(token, secret) == Some(claims.fields()),
        now < claims.exp,
        accepted_at::<RefreshClaims>(token_claims(token, secret), now, read),
    ensures
        read is Ok,
        read.unwrap()@ == claims@,
{
    refresh_fields_read_back(claims@);
}

/// A token from which a well signed token arises by changing one character
/// of the signature segment is not well signed, so no reading accepts it.
pub proof fn tampered_signature_rejected(
    token: Seq<char>,
    tampered: Seq<char>,
    secret: Seq<char>,
    at: int,
)
    requires
        well_signed(token, secret),
        tampered.len() == token.len(),
        token.len() - SIGNATURE_LEN <= at < token.len(),
        tampered[at] != token[at],
        forall|i: int| 0 <= i < token.len() && i != at ==> tampered[i] == token[i],
    ensures
        !well_signed(tampered, secret),
{
    assert(signed_part(tampered) =~= signed_part(token));
    assert(signature_part(tampered)[at - (token.len() - SIGNATURE_LEN)] == tampered[at]);
    assert(signature_part(token)[at - (token.len() - SIGNATURE_LEN)] == token[at]);
}

/// A token whose expiry is not after the time of the reading is rejected,
/// however well it is signed.
pub proof fn expired_token_rejected<T: ClaimsMethod>(
    found: Option<Map<Seq<char>, ClaimValue>>,
    now: i64,
    read: Result<T, AuthError>,
)
    requires
        accepted_at::<T>(found, now, read),
        found matches Some(fields) ==> T::shaped(fields) ==> T::expiry_of(fields) <= now,
    ensures
        read is Err,
{
}

} // verus!

//! One-way hashing of passwords and the check of a password against a hash.

use vstd::prelude::*;
use crate::error::AuthError;

verus! {

/// The work factor that passwords are hashed with.
pub const HASH_COST: u32 = 4;

/// What `bcrypt::verify` answers for a password and a stored hash: whether
/// they match, or nothing where the stored hash cannot be read.
pub uninterp spec fn bcrypt_verdict(password: Seq<char>, hashed: Seq<char>) -> Option<bool>;

/// A password matches a stored hash when bcrypt reads the hash and finds the
/// password behind it.
pub open spec fn matches_hash(password: Seq<char>, hashed: Seq<char>) -> bool {
    bcrypt_verdict(password, hashed) == Some(true)
}

#[verifier::external_type_specification]
#[verifier::external_body]
pub struct ExBcryptError(bcrypt::BcryptError);

/// The decimal digit for a value below 10.
pub open spec fn decimal_digit(value: u32) -> char {
    (('0' as u32) + value) as char
}

/// How a hash made with a work factor begins: the version `2b` and the work
/// factor in two digits, each between dollar signs.
pub open spec fn cost_prefix(cost: u32) -> Seq<char> {
    seq!['$', '2', 'b', '$', decimal_digit((cost / 10) % 10), decimal_digit(cost % 10), '$']
}

/// Calls `bcrypt::hash`. It salts at random, so nothing is said of which hash
/// comes back, only that it begins with the version and the work factor
/// asked for, and that `bcrypt::verify` accepts the password against it.
/// Not proved.
#[verifier::external_body]
fn bcrypt_hash(password: &str, cost: u32) -> (r: Result<String, bcrypt::BcryptError>)
    ensures
        r matches Ok(h) ==> bcrypt_verdict(password@, h@) == Some(true),
        r matches Ok(h) ==> cost_prefix(cost).is_prefix_of(h@),
{
    bcrypt::hash(password, cost)
}

/// Calls `bcrypt::verify` and names its answer. Not proved.
#[verifier::external_body]
fn bcrypt_verify(password: &str, hashed: &str) -> (r: Result<bool, bcrypt::BcryptError>)
    ensures
        r matches Ok(b) ==> bcrypt_verdict(password@, hashed@) == Some(b),
        r is Err ==> bcrypt_verdict(password@, hashed@) is None,
{
    bcrypt::verify(password, hashed)
}

/// What hashing returns for each outcome of the primitive: its hash, or
/// `HashingError` whatever made it fail.
pub fn hash_outcome(outcome: Result<String, bcrypt::BcryptError>) -> (r: Result<String, AuthError>)
    ensures
        outcome matches Ok(h) ==> r == Ok::<String, AuthError>(h),
        outcome is Err ==> r == Err::<String, AuthError>(AuthError::HashingError),
{
    match outcome {
        Ok(h) => Ok(h),
        Err(_) => Err(AuthError::HashingError),
    }
}

/// Hashes a password with a fresh salt and the work factor `HASH_COST`. The
/// hash that comes back matches the password and begins with that work
/// factor; the only failure is one of the primitive itself.
pub fn hash(s: &String) -> (r: Result<String, AuthError>)
    ensures
        r matches Ok(h) ==> matches_hash(s@, h@),
        r matches Ok(h) ==> cost_prefix(HASH_COST).is_prefix_of(h@),
        r matches Ok(h) ==> "$2b$04$"@.is_prefix_of(h@),
        r matches Err(e) ==> e == AuthError::HashingError,
{
    proof {
        reveal_strlit("$2b$04$");
        assert(cost_prefix(HASH_COST) =~= "$2b$04$"@);
    }
    hash_outcome(bcrypt_hash(s.as_str(), HASH_COST))
}

/// Whether a password matches a stored hash. A stored hash that cannot be
/// read counts as no match.
pub fn verify(password: &str, hash: &str) -> (ok: bool)
    ensures
        ok == matches_hash(password@, hash@),
{
    match bcrypt_verify(password, hash) {
        Ok(b) => b,
        Err(_) => false,
    }
}

} // verus!

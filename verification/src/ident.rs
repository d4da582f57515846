//! Identity keys and token identifiers, and their text form.

use vstd::prelude::*;

verus! {

/// The place among the 32 hex digits of a key of the digit that stands at a
/// given place of its text.
pub open spec fn digit_place(i: int) -> int {
    if i < 8 {
        i
    } else if i < 13 {
        i - 1
    } else if i < 18 {
        i - 2
    } else if i < 23 {
        i - 3
    } else {
        i - 4
    }
}

/// The lower-case hex digit for a value below 16.
pub open spec fn hex_digit(value: u128) -> char {
    if value < 10 {
        (('0' as u128) + value) as char
    } else {
        (('a' as u128) + value - 10) as char
    }
}

/// The text of a key: its 32 hex digits in lower case, the most significant
/// first, in groups of 8, 4, 4, 4 and 12 with a hyphen between them.
pub open spec fn key_text_of(key: u128) -> Seq<char> {
    Seq::new(
        36,
        |i: int|
            if i == 8 || i == 13 || i == 18 || i == 23 {
                '-'
            } else {
                hex_digit((key >> ((4 * (31 - digit_place(i))) as u128)) & 0xf)
            },
    )
}

/// The key that `uuid::Uuid::parse_str` reads from a text, or nothing where
/// it reads none.
pub uninterp spec fn parsed_key(text: Seq<char>) -> Option<u128>;

/// Calls `uuid::Uuid::new_v4`: a key drawn at random. Nothing is known of
/// the value.
#[verifier::external_body]
pub(crate) fn fresh_key() -> u128 {
    uuid::Uuid::new_v4().as_u128()
}

/// Calls `uuid::Uuid::from_u128` and formats it: the hyphenated lower-case
/// text of the key, which `parse_str` reads back as the key. Not proved.
#[verifier::external_body]
pub(crate) fn format_key(key: u128) -> (text: String)
    ensures
        text@ == key_text_of(key),
        parsed_key(text@) == Some(key),
{
    uuid::Uuid::from_u128(key).to_string()
}

/// Calls `uuid::Uuid::parse_str` and names the key that it reads. Not proved.
#[verifier::external_body]
pub(crate) fn read_key(text: &str) -> (key: Option<u128>)
    ensures
        key == parsed_key(text@),
{
    Some(uuid::Uuid::parse_str(text).ok()?.as_u128())
}

/// A fresh identifier for a token: the text of a key drawn at random.
pub fn fresh_token_id() -> (id: String)
    ensures
        exists|key: u128| id@ == #[trigger] key_text_of(key),
{
    format_key(fresh_key())
}

} // verus!

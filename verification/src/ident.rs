//! Row identifiers. A row is identified by the 128 bits of its UUID; the
//! textual forms are read and written by the `uuid` crate.

use vstd::prelude::*;

verus! {

/// What `uuid::Uuid::parse_str` makes of a text: the 128-bit value of the
/// identifier it denotes, or the text of the error it reports.
pub uninterp spec fn uuid_parsed(text: Seq<char>) -> Result<u128, Seq<char>>;

/// The `k`th of the 32 hexadecimal digits of a 128-bit value, counted from
/// the most significant, in lower case.
pub open spec fn hex_digit(id: u128, k: int) -> char {
    "0123456789abcdef"@[((id >> (((31 - k) * 4) as u128)) & 0xf) as int]
}

/// How many digits stand before position `i` of the hyphenated form.
pub open spec fn digits_before(i: int) -> int {
    if i < 8 {
        i
    } else if i < 13 {
        i - 1
    } else if i < 18 {
        i - 2
    } else if i < 23 {
        i - 3
    } else {
        i - 4
    }
}

/// The hyphenated form of an identifier: its 32 hexadecimal digits in lower
/// case, in groups of 8, 4, 4, 4 and 12 with a hyphen between two groups.
pub open spec fn hyphenated(id: u128) -> Seq<char> {
    Seq::new(
        36,
        |i: int|
            if i == 8 || i == 13 || i == 18 || i == 23 {
                '-'
            } else {
                hex_digit(id, digits_before(i))
            },
    )
}

/// Whether a text reads as an identifier: `uuid::Uuid::parse_str` makes
/// that identifier of it.
pub open spec fn reads_as(text: Seq<char>, id: u128) -> bool {
    uuid_parsed(text) == Ok::<u128, Seq<char>>(id)
}

/// Calls `uuid::Uuid::parse_str`. The identifier comes back as its 128-bit
/// value (`Uuid::as_u128`), an error as the text of its `Display`.
/// Trusted: the result is the one that `uuid_parsed` names for this text.
#[verifier::external_body]
pub(crate) fn parse_uuid(text: &str) -> (parsed: Result<u128, String>)
    ensures
        match parsed {
            Ok(id) => uuid_parsed(text@) == Ok::<u128, Seq<char>>(id),
            Err(message) => uuid_parsed(text@) == Err::<u128, Seq<char>>(message@),
        },
{
    match uuid::Uuid::parse_str(text) {
        Ok(id) => Ok(id.as_u128()),
        Err(error) => Err(error.to_string()),
    }
}

/// Writes the identifier with `uuid::Uuid`'s `Display` (`Uuid::from_u128`,
/// then `to_string`).
/// Trusted: the result is the hyphenated form in lower case, the most
/// significant digit first, and `uuid::Uuid::parse_str` reads it back as
/// the same identifier, as its documentation promises of every form that
/// the crate writes.
#[verifier::external_body]
pub(crate) fn format_uuid(id: u128) -> (written: String)
    ensures
        written@ == hyphenated(id),
        reads_as(written@, id),
{
    uuid::Uuid::from_u128(id).to_string()
}

} // verus!

//! Texts that cross the wire: how identifiers and statuses are written and
//! how a body is split into rows.
//!
//! The functions of this module call into `uuid`, `reqwest` and `serde_json`.
//! Their contracts are taken from those crates and are not proved here.

use crate::text::decimal;
use vstd::prelude::*;

verus! {

/// A JSON value as `serde_json` holds it. Nothing inside it is visible here.
#[verifier::external_type_specification]
#[verifier::external_body]
pub struct ExJsonValue(serde_json::Value);

/// The character that stands for a hexadecimal digit, in lower case.
pub open spec fn hex_digit(v: int) -> char
    recommends
        0 <= v < 16,
{
    "0123456789abcdef"@[v]
}

/// The last `count` hexadecimal digits of `value`, most significant first,
/// in lower case.
pub open spec fn hex(value: nat, count: nat) -> Seq<char>
    decreases count,
{
    if count == 0 {
        Seq::empty()
    } else {
        hex(value / 16, (count - 1) as nat).push(hex_digit((value % 16) as int))
    }
}

/// An identifier in its hyphenated form: its thirty-two hexadecimal digits,
/// most significant first and in lower case, in groups of 8, 4, 4, 4 and 12
/// with a hyphen between the groups.
pub open spec fn hyphenated(id: u128) -> Seq<char> {
    let digits = hex(id as nat, 32);
    digits.subrange(0, 8) + seq!['-'] + digits.subrange(8, 12) + seq!['-'] + digits.subrange(
        12,
        16,
    ) + seq!['-'] + digits.subrange(16, 20) + seq!['-'] + digits.subrange(20, 32)
}

/// The words that follow the number when an HTTP status is written out: the
/// reason phrase that `http` lists for the code, or the placeholder that it
/// writes for a code it lists no phrase for.
pub uninterp spec fn status_reason(code: u16) -> Seq<char>;

/// The text of an HTTP status: its number in decimal, a space, and the
/// words that `http` has for it.
pub open spec fn status_line(code: u16) -> Seq<char> {
    decimal(code as nat) + seq![' '] + status_reason(code)
}

/// What `serde_json` makes of a body that should hold a list of rows: the
/// number of rows, or the parser's complaint.
pub uninterp spec fn parsed_rows(body: Seq<char>) -> Result<nat, Seq<char>>;

/// Writes an identifier as `uuid::Uuid` displays it.
///
/// Calls `Uuid::from_u128`, which takes the value's bytes most significant
/// first, and the identifier's `Display`, which writes the hyphenated
/// lower-case form. The contract states that form.
#[verifier::external_body]
pub(crate) fn ident_text(id: u128) -> (text: String)
    ensures
        text@ == hyphenated(id),
{
    uuid::Uuid::from_u128(id).to_string()
}

/// Writes a status as `reqwest::StatusCode` displays it.
///
/// Calls `StatusCode::from_u16`, which accepts exactly the codes from 100 to
/// 999, and the status's `Display`, which writes the number, a space, and
/// the reason phrase or a placeholder. The words are a function of the code
/// alone; the contract gives them a name and states the rest.
#[verifier::external_body]
pub(crate) fn status_text(code: u16) -> (text: String)
    requires
        100 <= code < 1000,
    ensures
        text@ == decimal(code as nat) + seq![' '] + status_reason(code),
{
    match reqwest::StatusCode::from_u16(code) {
        Ok(status) => status.to_string(),
        Err(_) => String::new(),
    }
}

/// Splits a body into rows with `serde_json::from_str`.
///
/// The outcome is a function of the body alone: either the rows of a JSON
/// array, or the text of the parser's error. The contract names that outcome
/// and ties the number of rows and the error text to it.
#[verifier::external_body]
pub(crate) fn parse_rows(body: &str) -> (rows: Result<Vec<serde_json::Value>, String>)
    ensures
        match rows {
            Ok(list) => parsed_rows(body@) == Ok::<nat, Seq<char>>(list@.len()),
            Err(complaint) => parsed_rows(body@) == Err::<nat, Seq<char>>(complaint@),
        },
{
    match serde_json::from_str::<Vec<serde_json::Value>>(body) {
        Ok(list) => Ok(list),
        Err(error) => Err(error.to_string()),
    }
}

} // verus!

//! Session identifiers: 128-bit values written as canonical UUID text.

use vstd::prelude::*;
use crate::text::hex_digit_char;

verus! {

/// What uuid's parser makes of a text: the 128-bit value, or the text of its error.
pub uninterp spec fn uuid_parse(s: Seq<char>) -> Result<u128, Seq<char>>;

/// The last `n` hexadecimal digits of `v`, most significant first.
pub open spec fn hex_digits(v: nat, n: nat) -> Seq<char>
    decreases n,
{
    if n == 0 {
        Seq::empty()
    } else {
        hex_digits(v / 16, (n - 1) as nat).push(hex_digit_char(v % 16))
    }
}

/// Canonical UUID text of `v`: 32 lowercase hex digits grouped 8-4-4-4-12 by hyphens.
pub open spec fn uuid_text(v: u128) -> Seq<char> {
    let h = hex_digits(v as nat, 32);
    h.subrange(0, 8) + seq!['-'] + h.subrange(8, 12) + seq!['-'] + h.subrange(12, 16) + seq!['-']
        + h.subrange(16, 20) + seq!['-'] + h.subrange(20, 32)
}

/// uuid's parser reads `s` as the value `v`.
pub open spec fn reads_as(s: Seq<char>, v: u128) -> bool {
    uuid_parse(s) == Ok::<u128, Seq<char>>(v)
}

/// A parse result with the error text taken to its view.
pub open spec fn parse_view(r: Result<u128, String>) -> Result<u128, Seq<char>> {
    match r {
        Ok(v) => Ok(v),
        Err(e) => Err(e@),
    }
}

/// Relies on uuid::Uuid::new_v4 (read through Uuid::as_u128): a fresh random
/// identifier, of which nothing is promised.
#[verifier::external_body]
pub(crate) fn random_session_id() -> (r: u128) {
    uuid::Uuid::new_v4().as_u128()
}

/// Relies on uuid::Uuid::parse_str (read through Uuid::as_u128, and the error's
/// Display text): the outcome depends on the text alone.
#[verifier::external_body]
pub(crate) fn parse_uuid(s: &str) -> (r: Result<u128, String>)
    ensures
        parse_view(r) == uuid_parse(s@),
{
    match uuid::Uuid::parse_str(s) {
        Ok(u) => Ok(u.as_u128()),
        Err(e) => Err(e.to_string()),
    }
}

/// Relies on uuid::Uuid::from_u128 and Uuid's Display: the hyphenated lowercase
/// form of the big-endian value, which uuid's parser reads back to the same value.
#[verifier::external_body]
pub(crate) fn uuid_to_text(v: u128) -> (r: String)
    ensures
        r@ == uuid_text(v),
        reads_as(r@, v),
{
    uuid::Uuid::from_u128(v).to_string()
}

} // verus!

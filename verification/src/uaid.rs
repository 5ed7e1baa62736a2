//! User agent identifiers (UUIDs) as the protocol writes them, and the calls
//! into the `uuid` crate that parse and print them.
//!
//! The library holds an identifier as the `u128` that `Uuid::as_u128` gives.
use vstd::prelude::*;

use uuid::Uuid;

verus! {

/// The lower-case hexadecimal digit of `d` (`d < 16`).
pub open spec fn hex_char(d: nat) -> char {
    if d < 10 {
        (48 + d) as char
    } else {
        (87 + d) as char
    }
}

/// The last `n` hexadecimal digits of `v`, most significant first.
pub open spec fn hex_digits(v: nat, n: nat) -> Seq<char>
    decreases n,
{
    if n == 0 {
        Seq::empty()
    } else {
        hex_digits(v / 16, (n - 1) as nat).push(hex_char(v % 16))
    }
}

/// The "simple" text of an identifier: its 32 lower-case hexadecimal digits
/// without hyphens, most significant first.
pub open spec fn simple_form(u: u128) -> Seq<char> {
    hex_digits(u as nat, 32)
}

/// What `Uuid::parse_str` makes of `s`: the identifier, or `None` where it
/// refuses the text.
pub uninterp spec fn uuid_parse(s: Seq<char>) -> Option<u128>;

/// Calls `uuid::Uuid::parse_str` and takes the identifier as a `u128`.
/// The parse depends on the text alone; of the formats it accepts, the
/// contract states the simple one: 32 hexadecimal digits (lower case, as
/// `simple_form` writes them) parse to their value.
#[verifier::external_body]
pub(crate) fn parse_uuid(s: &str) -> (r: Option<u128>)
    ensures
        r == uuid_parse(s@),
        forall|u: u128| s@ == simple_form(u) ==> r == Some(u),
{
    match Uuid::parse_str(s) {
        Ok(u) => Some(u.as_u128()),
        Err(_) => None,
    }
}

/// Calls `uuid::Uuid::from_u128(u).as_simple().to_string()`, which writes
/// the 32 lower-case hexadecimal digits of `u`, most significant first.
#[verifier::external_body]
pub(crate) fn simple_string(u: u128) -> (r: String)
    ensures
        r@ == simple_form(u),
{
    Uuid::from_u128(u).as_simple().to_string()
}

} // verus!

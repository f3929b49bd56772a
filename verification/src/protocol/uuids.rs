//! GATT identifiers of the BP1-family custom service.

use vstd::prelude::*;
use crate::ble::hex::{hex_nibbles, is_hex_char};

verus! {

pub const SERVICE_STR: &'static str = "53527aa4-29f7-ae11-4e74-997334782568";
pub const WRITE_STR: &'static str = "ee684b1a-1e9b-ed3e-ee55-f894667e92ac";
pub const NOTIFY_STR: &'static str = "654b749c-e37f-ae1f-ebab-40ca133e3690";

/// The text from position `i` on is hyphenated-UUID shaped: hyphens at
/// positions 8, 13, 18 and 23, hex digits elsewhere, 36 characters in all.
pub open spec fn hyphenated_from(s: Seq<char>, i: nat) -> bool
    decreases 36 - i,
{
    if i >= 36 {
        s.len() == 36
    } else if s.len() <= i {
        false
    } else if i == 8 || i == 13 || i == 18 || i == 23 {
        s[i as int] == '-' && hyphenated_from(s, i + 1)
    } else {
        is_hex_char(s[i as int]) && hyphenated_from(s, i + 1)
    }
}

/// A UUID in its hyphenated text form.
pub open spec fn is_hyphenated_uuid(s: Seq<char>) -> bool {
    hyphenated_from(s, 0)
}

/// A sequence of hex digit values read as one big-endian number.
pub open spec fn hex_number(n: Seq<u8>) -> int
    decreases n.len(),
{
    if n.len() == 0 { 0 } else { hex_number(n.drop_last()) * 16 + n.last() }
}

/// The 128-bit value a hyphenated UUID text denotes: its hex digits, read
/// big-endian.
pub open spec fn uuid_number(s: Seq<char>) -> u128 {
    hex_number(hex_nibbles(s)) as u128
}

/// `uuid::Uuid::parse_str`, read back with `Uuid::as_u128`.
/// Contract: text in the hyphenated form parses, and the value is its 32 hex
/// digits read big-endian (the crate packs the parsed bytes in order and
/// `as_u128` reads them big-endian). The crate also accepts other forms
/// (simple, braced, URN); nothing is stated of those.
#[verifier::external_body]
fn uuid_value(text: &str) -> (r: Option<u128>)
    ensures
        is_hyphenated_uuid(text@) ==> r == Some(uuid_number(text@)),
{
    match uuid::Uuid::parse_str(text) {
        Ok(u) => Some(u.as_u128()),
        Err(_) => None,
    }
}

/// The custom service.
pub fn service() -> (r: u128)
    ensures
        r == uuid_number(SERVICE_STR@),
{
    proof {
        reveal_strlit("53527aa4-29f7-ae11-4e74-997334782568");
        reveal_with_fuel(hyphenated_from, 37);
    }
    assert(is_hyphenated_uuid(SERVICE_STR@));
    match uuid_value(SERVICE_STR) {
        Some(v) => v,
        None => 0,
    }
}

/// The write characteristic.
pub fn write() -> (r: u128)
    ensures
        r == uuid_number(WRITE_STR@),
{
    proof {
        reveal_strlit("ee684b1a-1e9b-ed3e-ee55-f894667e92ac");
        reveal_with_fuel(hyphenated_from, 37);
    }
    assert(is_hyphenated_uuid(WRITE_STR@));
    match uuid_value(WRITE_STR) {
        Some(v) => v,
        None => 0,
    }
}

/// The notify characteristic.
pub fn notify() -> (r: u128)
    ensures
        r == uuid_number(NOTIFY_STR@),
{
    proof {
        reveal_strlit("654b749c-e37f-ae1f-ebab-40ca133e3690");
        reveal_with_fuel(hyphenated_from, 37);
    }
    assert(is_hyphenated_uuid(NOTIFY_STR@));
    match uuid_value(NOTIFY_STR) {
        Some(v) => v,
        None => 0,
    }
}

} // verus!

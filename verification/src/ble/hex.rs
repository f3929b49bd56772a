//! Hex text typed in Capture Studio for raw writes.

use vstd::prelude::*;
use crate::text::{str_chars, string_of};

verus! {

/// An ASCII hex digit.
pub open spec fn is_hex_char(c: char) -> bool {
    ('0' <= c && c <= '9') || ('a' <= c && c <= 'f') || ('A' <= c && c <= 'F')
}

/// The value of a hex digit.
pub open spec fn hex_value(c: char) -> u8 {
    if '0' <= c && c <= '9' {
        (c as int - 48) as u8
    } else if 'a' <= c && c <= 'f' {
        (c as int - 87) as u8
    } else {
        (c as int - 55) as u8
    }
}

/// The values of the hex digits of a text, in order; other characters are
/// skipped.
pub open spec fn hex_nibbles(s: Seq<char>) -> Seq<u8>
    decreases s.len(),
{
    if s.len() == 0 {
        Seq::empty()
    } else if is_hex_char(s.last()) {
        hex_nibbles(s.drop_last()).push(hex_value(s.last()))
    } else {
        hex_nibbles(s.drop_last())
    }
}

/// Bytes from consecutive pairs of digit values, high digit first.
pub open spec fn pack_nibbles(n: Seq<u8>) -> Seq<u8> {
    Seq::new(n.len() / 2, |i: int| (n[2 * i] * 16 + n[2 * i + 1]) as u8)
}

fn hex_char_value(c: char) -> (r: Option<u8>)
    ensures
        match r {
            Some(v) => is_hex_char(c) && v == hex_value(c),
            None => !is_hex_char(c),
        },
{
    if '0' <= c && c <= '9' {
        Some(((c as u32) - 48) as u8)
    } else if 'a' <= c && c <= 'f' {
        Some(((c as u32) - 87) as u8)
    } else if 'A' <= c && c <= 'F' {
        Some(((c as u32) - 55) as u8)
    } else {
        None
    }
}

/// Parse hex text: characters other than hex digits are ignored, and the
/// digits must pair up into bytes.
pub fn parse_hex(s: &str) -> (r: Result<Vec<u8>, String>)
    ensures
        match r {
            Ok(v) => hex_nibbles(s@).len() % 2 == 0 && v@ == pack_nibbles(hex_nibbles(s@)),
            Err(e) => hex_nibbles(s@).len() % 2 != 0 && e@ == "Hex string must have even length"@,
        },
{
    let chars = str_chars(s);
    let mut nibbles: Vec<u8> = Vec::new();
    let mut i: usize = 0;
    while i < chars.len()
        invariant
            chars@ == s@,
            i <= chars.len(),
            nibbles@ == hex_nibbles(s@.take(i as int)),
            forall|j: int| 0 <= j < nibbles.len() ==> #[trigger] nibbles@[j] < 16,
        decreases chars.len() - i,
    {
        let c = chars[i];
        assert(s@.take(i + 1).drop_last() =~= s@.take(i as int));
        match hex_char_value(c) {
            Some(v) => {
                nibbles.push(v);
            },
            None => {},
        }
        i = i + 1;
    }
    assert(s@.take(chars.len() as int) =~= s@);
    if nibbles.len() % 2 != 0 {
        return Err(string_of("Hex string must have even length"));
    }
    let ghost n = nibbles@;
    let mut out: Vec<u8> = Vec::new();
    let mut k: usize = 0;
    while k < nibbles.len() / 2
        invariant
            n == nibbles@,
            n.len() % 2 == 0,
            k <= n.len() / 2,
            forall|j: int| 0 <= j < n.len() ==> #[trigger] n[j] < 16,
            out@ == pack_nibbles(n).take(k as int),
        decreases n.len() / 2 - k,
    {
        let hi = nibbles[2 * k];
        let lo = nibbles[2 * k + 1];
        out.push(hi * 16 + lo);
        assert(out@ =~= pack_nibbles(n).take(k + 1));
        k = k + 1;
    }
    assert(pack_nibbles(n).take((n.len() / 2) as int) =~= pack_nibbles(n));
    Ok(out)
}

/// The bytes of a raw write typed as hex: the text must parse and must not
/// be empty.
pub fn raw_write_payload(hex: &str) -> (r: Result<Vec<u8>, String>)
    ensures
        match r {
            Ok(v) => hex_nibbles(hex@).len() % 2 == 0 && v@ == pack_nibbles(hex_nibbles(hex@)) && v@.len() > 0,
            Err(e) => if hex_nibbles(hex@).len() % 2 != 0 {
                e@ == "Hex string must have even length"@
            } else {
                hex_nibbles(hex@).len() == 0 && e@ == "Empty payload"@
            },
        },
{
    let data = parse_hex(hex)?;
    if data.len() == 0 {
        return Err(string_of("Empty payload"));
    }
    Ok(data)
}

} // verus!

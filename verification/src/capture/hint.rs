//! Short human hints for frames of the BP1 packet table.

use vstd::prelude::*;
use crate::text::{decimal, hex_prefixed, push_decimal, push_hex_prefixed, push_str, string_of};

verus! {

/// The first payload byte, or 0 when there is none.
pub open spec fn first_or_zero(p: Seq<u8>) -> u8 {
    if p.len() > 0 { p[0] } else { 0 }
}

/// `ON` for a nonzero flag byte, `OFF` for zero.
pub open spec fn on_off(b: u8) -> Seq<char> {
    if b != 0 { "ON"@ } else { "OFF"@ }
}

/// Name of an ANC mode byte.
pub open spec fn anc_mode_name(b: u8) -> Seq<char> {
    if b == 0 { "Off"@ } else if b == 1 { "ANC"@ } else if b == 2 { "Transparency"@ } else { "?"@ }
}

/// Name of an EQ preset index.
pub open spec fn eq_name(b: u8) -> Seq<char> {
    if b == 0 {
        "Balanced"@
    } else if b == 1 {
        "Bass"@
    } else if b == 2 {
        "Voice"@
    } else if b == 3 {
        "Clear"@
    } else {
        "?"@
    }
}

/// What a command byte and its payload mean.
pub open spec fn meaning(cmd: u8, p: Seq<u8>) -> Seq<char> {
    if cmd == 0x02 && p.len() >= 4 {
        "Battery L="@ + decimal(p[0] as nat) + "% R="@ + decimal(p[2] as nat) + "%"@
    } else if cmd == 0x23 {
        "GameMode "@ + on_off(first_or_zero(p))
    } else if cmd == 0x24 {
        "GameMode cmd "@ + on_off(first_or_zero(p))
    } else if cmd == 0x27 && p.len() > 0 {
        "Case "@ + decimal(p[0] as nat) + "% chg="@ + decimal(
            (if p.len() > 1 { p[1] } else { 0u8 }) as nat,
        )
    } else if cmd == 0x34 && p.len() >= 2 {
        "ANC "@ + anc_mode_name(p[0]) + " level="@ + hex_prefixed(p[1])
    } else if cmd == 0x34 {
        "ANC ack"@
    } else if cmd == 0x42 {
        "EQ query resp "@ + decimal(first_or_zero(p) as nat)
    } else if cmd == 0x43 {
        "EQ "@ + eq_name(first_or_zero(p))
    } else if cmd == 0x12 {
        "Identity"@
    } else if cmd == 0x30 {
        "Keepalive"@
    } else if cmd == 0x32 {
        "ANC Transparency notify"@
    } else if cmd == 0x33 {
        "ANC On notify"@
    } else if cmd == 0x80 {
        "Case event"@
    } else if cmd == 0x92 {
        "Find/Gesture?"@
    } else {
        "cmd="@ + hex_prefixed(cmd)
    }
}

/// The hint for a frame: none below two bytes; `TX`/`RX` and the meaning for
/// the write and notify magics; the raw magic otherwise.
pub open spec fn hint_text(data: Seq<u8>) -> Option<Seq<char>> {
    if data.len() < 2 {
        None
    } else if data[0] == 0xBA {
        Some("TX "@ + meaning(data[1], data.subrange(2, data.len() as int)))
    } else if data[0] == 0xAA {
        Some("RX "@ + meaning(data[1], data.subrange(2, data.len() as int)))
    } else {
        Some("raw magic="@ + hex_prefixed(data[0]))
    }
}

fn first_byte(p: &[u8]) -> (b: u8)
    ensures
        b == first_or_zero(p@),
{
    if p.len() > 0 { p[0] } else { 0 }
}

fn push_on_off(out: &mut String, b: u8)
    ensures
        final(out)@ == old(out)@ + on_off(b),
{
    if b != 0 { push_str(out, "ON") } else { push_str(out, "OFF") }
}

fn push_anc_mode_name(out: &mut String, b: u8)
    ensures
        final(out)@ == old(out)@ + anc_mode_name(b),
{
    if b == 0 {
        push_str(out, "Off")
    } else if b == 1 {
        push_str(out, "ANC")
    } else if b == 2 {
        push_str(out, "Transparency")
    } else {
        push_str(out, "?")
    }
}

fn push_eq_name(out: &mut String, b: u8)
    ensures
        final(out)@ == old(out)@ + eq_name(b),
{
    if b == 0 {
        push_str(out, "Balanced")
    } else if b == 1 {
        push_str(out, "Bass")
    } else if b == 2 {
        push_str(out, "Voice")
    } else if b == 3 {
        push_str(out, "Clear")
    } else {
        push_str(out, "?")
    }
}

/// Append the meaning of `cmd` with payload `p`.
fn push_meaning(out: &mut String, cmd: u8, p: &[u8])
    ensures
        final(out)@ == old(out)@ + meaning(cmd, p@),
{
    let ghost start = out@;
    if cmd == 0x02 && p.len() >= 4 {
        push_str(out, "Battery L=");
        push_decimal(out, p[0] as u64);
        push_str(out, "% R=");
        push_decimal(out, p[2] as u64);
        push_str(out, "%");
    } else if cmd == 0x23 {
        push_str(out, "GameMode ");
        push_on_off(out, first_byte(p));
    } else if cmd == 0x24 {
        push_str(out, "GameMode cmd ");
        push_on_off(out, first_byte(p));
    } else if cmd == 0x27 && p.len() > 0 {
        push_str(out, "Case ");
        push_decimal(out, p[0] as u64);
        push_str(out, "% chg=");
        let chg: u8 = if p.len() > 1 { p[1] } else { 0 };
        push_decimal(out, chg as u64);
    } else if cmd == 0x34 && p.len() >= 2 {
        push_str(out, "ANC ");
        push_anc_mode_name(out, p[0]);
        push_str(out, " level=");
        push_hex_prefixed(out, p[1]);
    } else if cmd == 0x34 {
        push_str(out, "ANC ack");
    } else if cmd == 0x42 {
        push_str(out, "EQ query resp ");
        push_decimal(out, first_byte(p) as u64);
    } else if cmd == 0x43 {
        push_str(out, "EQ ");
        push_eq_name(out, first_byte(p));
    } else if cmd == 0x12 {
        push_str(out, "Identity");
    } else if cmd == 0x30 {
        push_str(out, "Keepalive");
    } else if cmd == 0x32 {
        push_str(out, "ANC Transparency notify");
    } else if cmd == 0x33 {
        push_str(out, "ANC On notify");
    } else if cmd == 0x80 {
        push_str(out, "Case event");
    } else if cmd == 0x92 {
        push_str(out, "Find/Gesture?");
    } else {
        push_str(out, "cmd=");
        push_hex_prefixed(out, cmd);
    }
    assert(out@ =~= start + meaning(cmd, p@));
}

/// Try to produce a short decoded hint from known BP1 opcodes.
pub fn hint_decode(data: &[u8]) -> (r: Option<String>)
    ensures
        opt_hint(r) == hint_text(data@),
{
    if data.len() < 2 {
        return None;
    }
    let magic = data[0];
    let cmd = data[1];
    let payload = vstd::slice::slice_subrange(data, 2, data.len());
    if magic == 0xBA {
        let mut out = string_of("TX ");
        push_meaning(&mut out, cmd, payload);
        Some(out)
    } else if magic == 0xAA {
        let mut out = string_of("RX ");
        push_meaning(&mut out, cmd, payload);
        Some(out)
    } else {
        let mut out = string_of("raw magic=");
        push_hex_prefixed(&mut out, magic);
        Some(out)
    }
}

/// The text of an optional hint.
pub open spec fn opt_hint(o: Option<String>) -> Option<Seq<char>> {
    match o {
        Some(s) => Some(s@),
        None => None,
    }
}

} // verus!

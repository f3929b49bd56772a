//! Parsing of BLE advertisement data used by the discovery flow.

use vstd::prelude::*;
use crate::text::{hex2, hex_bytes, push_hex2, push_hex_bytes, str_chars, string_push};

verus! {

pub const BASEUS_SERVICE_UUID: &'static str = "53527AA4-29F7-AE11-4E74-997334782568";

/// The fields of an advertisement that discovery reads.
#[derive(Debug, Clone, PartialEq, Eq)]
pub struct Advertisement {
    pub service_uuids: Vec<String>,
    pub manufacturer_data: Vec<u8>,
    pub local_name: Option<String>,
}

pub struct AdvertisementView {
    pub service_uuids: Seq<Seq<char>>,
    pub manufacturer_data: Seq<u8>,
    pub local_name: Option<Seq<char>>,
}

/// Text of each string in a sequence.
pub open spec fn texts(v: Seq<String>) -> Seq<Seq<char>> {
    v.map_values(|s: String| s@)
}

pub open spec fn opt_string_view(o: Option<String>) -> Option<Seq<char>> {
    match o {
        Some(s) => Some(s@),
        None => None,
    }
}

impl View for Advertisement {
    type V = AdvertisementView;

    open spec fn view(&self) -> AdvertisementView {
        AdvertisementView {
            service_uuids: texts(self.service_uuids@),
            manufacturer_data: self.manufacturer_data@,
            local_name: opt_string_view(self.local_name),
        }
    }
}

/// 16-bit service UUIDs of a list payload: each little-endian pair printed
/// most significant byte first (`{:02X}{:02X}`); an odd last byte is ignored.
pub open spec fn uuid16_texts(p: Seq<u8>) -> Seq<Seq<char>> {
    Seq::new(p.len() / 2, |k: int| hex2(p[2 * k + 1]) + hex2(p[2 * k]))
}

/// A 128-bit UUID payload in printing order: the first three fields are stored
/// little-endian and are reversed; the last 8 bytes keep their order.
pub open spec fn uuid128_order(p: Seq<u8>) -> Seq<u8> {
    p.subrange(0, 4).reverse() + p.subrange(4, 6).reverse() + p.subrange(6, 8).reverse() + p.subrange(8, 16)
}

/// Canonical `XXXXXXXX-XXXX-XXXX-XXXX-XXXXXXXXXXXX` text of a 128-bit UUID payload.
pub open spec fn uuid128_text(p: Seq<u8>) -> Seq<char> {
    let b = uuid128_order(p);
    hex_bytes(b.subrange(0, 4)) + seq!['-'] + hex_bytes(b.subrange(4, 6)) + seq!['-']
        + hex_bytes(b.subrange(6, 8)) + seq!['-'] + hex_bytes(b.subrange(8, 10)) + seq!['-']
        + hex_bytes(b.subrange(10, 16))
}

/// Effect of one AD structure on what has been read so far.
pub open spec fn apply_ad(acc: AdvertisementView, ad_type: u8, payload: Seq<u8>) -> AdvertisementView {
    if ad_type == 0x02 || ad_type == 0x03 {
        AdvertisementView {
            service_uuids: acc.service_uuids + uuid16_texts(payload),
            manufacturer_data: acc.manufacturer_data,
            local_name: acc.local_name,
        }
    } else if (ad_type == 0x06 || ad_type == 0x07) && payload.len() == 16 {
        AdvertisementView {
            service_uuids: acc.service_uuids.push(uuid128_text(payload)),
            manufacturer_data: acc.manufacturer_data,
            local_name: acc.local_name,
        }
    } else if ad_type == 0x08 || ad_type == 0x09 {
        AdvertisementView {
            service_uuids: acc.service_uuids,
            manufacturer_data: acc.manufacturer_data,
            local_name: if vstd::utf8::valid_utf8(payload) { Some(vstd::utf8::decode_utf8(payload)) } else { None },
        }
    } else if ad_type == 0xFF {
        AdvertisementView {
            service_uuids: acc.service_uuids,
            manufacturer_data: payload,
            local_name: acc.local_name,
        }
    } else {
        acc
    }
}

/// AD structures from `offset` on: `len | type | payload(len - 1)`; a zero length
/// is skipped, a structure running past the end stops the parse.
pub open spec fn parse_from(data: Seq<u8>, offset: int, acc: AdvertisementView) -> AdvertisementView
    decreases data.len() - offset,
{
    if offset < 0 || offset >= data.len() {
        acc
    } else {
        let length = data[offset] as int;
        let o = offset + 1;
        if length == 0 {
            parse_from(data, o, acc)
        } else if o + length > data.len() {
            acc
        } else {
            parse_from(data, o + length, apply_ad(acc, data[o], data.subrange(o + 1, o + length)))
        }
    }
}

pub open spec fn empty_advertisement() -> AdvertisementView {
    AdvertisementView { service_uuids: Seq::empty(), manufacturer_data: Seq::empty(), local_name: None }
}

/// `String::from_utf8` from std.
/// Contract: succeeds exactly on well-formed UTF-8 and then holds the decoded
/// characters (UTF-8 as vstd's `valid_utf8` / `decode_utf8` define it).
#[verifier::external_body]
fn string_from_utf8(bytes: Vec<u8>) -> (r: Option<String>)
    ensures
        r is Some <==> vstd::utf8::valid_utf8(bytes@),
        r matches Some(s) ==> s@ == vstd::utf8::decode_utf8(bytes@),
{
    String::from_utf8(bytes).ok()
}

fn format_uuid16(hi: u8, lo: u8) -> (r: String)
    ensures
        r@ == hex2(hi) + hex2(lo),
{
    let mut s = String::new();
    push_hex2(&mut s, hi);
    push_hex2(&mut s, lo);
    assert(s@ =~= hex2(hi) + hex2(lo));
    s
}

fn format_uuid128(bytes: &[u8]) -> (r: String)
    requires
        bytes@.len() == 16,
    ensures
        r@ == uuid128_text(bytes@),
{
    let b: Vec<u8> = vec![
        bytes[3], bytes[2], bytes[1], bytes[0], bytes[5], bytes[4], bytes[7], bytes[6],
        bytes[8], bytes[9], bytes[10], bytes[11], bytes[12], bytes[13], bytes[14], bytes[15],
    ];
    assert(b@ =~= uuid128_order(bytes@));
    let s = b.as_slice();
    let mut out = String::new();
    push_hex_bytes(&mut out, vstd::slice::slice_subrange(s, 0, 4));
    string_push(&mut out, '-');
    push_hex_bytes(&mut out, vstd::slice::slice_subrange(s, 4, 6));
    string_push(&mut out, '-');
    push_hex_bytes(&mut out, vstd::slice::slice_subrange(s, 6, 8));
    string_push(&mut out, '-');
    push_hex_bytes(&mut out, vstd::slice::slice_subrange(s, 8, 10));
    string_push(&mut out, '-');
    push_hex_bytes(&mut out, vstd::slice::slice_subrange(s, 10, 16));
    assert(out@ =~= uuid128_text(bytes@));
    out
}

/// Parse raw advertisement bytes (a sequence of AD structures).
pub fn parse_advertisement(data: &[u8]) -> (r: Advertisement)
    ensures
        r@ == parse_from(data@, 0, empty_advertisement()),
{
    let mut result = Advertisement { service_uuids: Vec::new(), manufacturer_data: Vec::new(), local_name: None };
    assert(texts(result.service_uuids@) =~= Seq::<Seq<char>>::empty());
    assert(result@ == empty_advertisement());
    let mut offset: usize = 0;
    while offset < data.len()
        invariant_except_break
            offset <= data.len(),
            parse_from(data@, 0, empty_advertisement()) == parse_from(data@, offset as int, result@),
        ensures
            parse_from(data@, 0, empty_advertisement()) == result@,
        decreases data.len() - offset,
    {
        let length = data[offset] as usize;
        offset = offset + 1;
        if length == 0 {
            continue;
        }
        if length > data.len() - offset {
            break;
        }
        let end = offset + length;
        let ad_type = data[offset];
        let payload = vstd::slice::slice_subrange(data, offset + 1, end);
        let ghost before = result@;
        if ad_type == 0x02 || ad_type == 0x03 {
            let n = payload.len() / 2;
            let mut k: usize = 0;
            while k < n
                invariant
                    n == payload.len() / 2,
                    k <= n,
                    result.manufacturer_data@ == before.manufacturer_data,
                    opt_string_view(result.local_name) == before.local_name,
                    texts(result.service_uuids@) == before.service_uuids + uuid16_texts(payload@).take(k as int),
                decreases n - k,
            {
                let s = format_uuid16(payload[2 * k + 1], payload[2 * k]);
                let ghost prev = result.service_uuids@;
                result.service_uuids.push(s);
                assert(texts(result.service_uuids@) =~= texts(prev).push(s@));
                assert(uuid16_texts(payload@).take(k + 1) =~= uuid16_texts(payload@).take(k as int).push(hex2(payload@[2 * k + 1]) + hex2(payload@[2 * k as int])));
                assert(texts(result.service_uuids@) =~= before.service_uuids + uuid16_texts(payload@).take(k + 1));
                k = k + 1;
            }
            assert(uuid16_texts(payload@).take(n as int) =~= uuid16_texts(payload@));
        } else if (ad_type == 0x06 || ad_type == 0x07) && payload.len() == 16 {
            let s = format_uuid128(payload);
            let ghost prev = result.service_uuids@;
            result.service_uuids.push(s);
            assert(texts(result.service_uuids@) =~= texts(prev).push(s@));
            assert(texts(result.service_uuids@) =~= before.service_uuids.push(uuid128_text(payload@)));
        } else if ad_type == 0x08 || ad_type == 0x09 {
            result.local_name = string_from_utf8(vstd::slice::slice_to_vec(payload));
        } else if ad_type == 0xFF {
            result.manufacturer_data = vstd::slice::slice_to_vec(payload);
        }
        assert(result@ == apply_ad(before, ad_type, payload@));
        offset = end;
    }
    result
}

/// `AAAAAAAAAAAA_BBBBBBBBBBBB` from the first two six-byte values of the
/// manufacturer data, each byte-reversed when `reverse_bytes` is set;
/// `None` when fewer than 12 bytes are present.
pub open spec fn canonical_serial_spec(m: Seq<u8>, reverse_bytes: bool) -> Option<Seq<char>> {
    if m.len() < 12 {
        None
    } else {
        let a = m.subrange(0, 6);
        let b = m.subrange(6, 12);
        let (a, b) = if reverse_bytes { (a.reverse(), b.reverse()) } else { (a, b) };
        Some(hex_bytes(a) + seq!['_'] + hex_bytes(b))
    }
}

fn push_serial_part(out: &mut String, part: &[u8], reverse_bytes: bool)
    ensures
        final(out)@ == old(out)@ + hex_bytes(if reverse_bytes { part@.reverse() } else { part@ }),
{
    if reverse_bytes {
        let mut rev: Vec<u8> = Vec::new();
        let mut i: usize = part.len();
        while i > 0
            invariant
                i <= part.len(),
                rev@ == part@.subrange(i as int, part@.len() as int).reverse(),
            decreases i,
        {
            i = i - 1;
            rev.push(part[i]);
            assert(part@.subrange(i as int, part@.len() as int).reverse() =~= part@.subrange(i + 1, part@.len() as int).reverse().push(part@[i as int]));
        }
        assert(part@.subrange(0, part@.len() as int) =~= part@);
        push_hex_bytes(out, rev.as_slice());
    } else {
        push_hex_bytes(out, part);
    }
}

pub fn canonical_serial(manufacturer: &[u8], reverse_bytes: bool) -> (r: Option<String>)
    ensures
        opt_string_view(r) == canonical_serial_spec(manufacturer@, reverse_bytes),
{
    if manufacturer.len() < 12 {
        return None;
    }
    let mut out = String::new();
    push_serial_part(&mut out, vstd::slice::slice_subrange(manufacturer, 0, 6), reverse_bytes);
    string_push(&mut out, '_');
    push_serial_part(&mut out, vstd::slice::slice_subrange(manufacturer, 6, 12), reverse_bytes);
    assert(out@ =~= canonical_serial_spec(manufacturer@, reverse_bytes).unwrap());
    Some(out)
}

/// ASCII lowercase of one character.
pub open spec fn ascii_lower(c: char) -> char {
    if 'A' <= c && c <= 'Z' { ((c as int) + 32) as char } else { c }
}

/// ASCII case-insensitive equality (`str::eq_ignore_ascii_case`).
pub open spec fn eq_ignore_ascii_case(a: Seq<char>, b: Seq<char>) -> bool {
    a.len() == b.len() && forall|i: int| 0 <= i < a.len() ==> ascii_lower(#[trigger] a[i]) == ascii_lower(b[i])
}

fn to_ascii_lower(c: char) -> (r: char)
    ensures
        r == ascii_lower(c),
{
    if 'A' <= c && c <= 'Z' {
        ((c as u8) + 32) as char
    } else {
        c
    }
}

fn str_eq_ignore_ascii_case(a: &str, b: &str) -> (r: bool)
    ensures
        r == eq_ignore_ascii_case(a@, b@),
{
    let x = str_chars(a);
    let y = str_chars(b);
    if x.len() != y.len() {
        return false;
    }
    let mut i: usize = 0;
    while i < x.len()
        invariant
            x@ == a@,
            y@ == b@,
            x.len() == y.len(),
            i <= x.len(),
            forall|j: int| 0 <= j < i ==> ascii_lower(#[trigger] a@[j]) == ascii_lower(b@[j]),
        decreases x.len() - i,
    {
        if to_ascii_lower(x[i]) != to_ascii_lower(y[i]) {
            return false;
        }
        i = i + 1;
    }
    true
}

/// Whether the advertised services satisfy the service requirement: when it is
/// required, one of them must be the Baseus service (ASCII case ignored).
pub fn has_required_service(service_uuids: &[&str], required: bool) -> (r: bool)
    ensures
        r == (!required || exists|i: int| 0 <= i < service_uuids@.len()
            && eq_ignore_ascii_case(#[trigger] service_uuids@[i]@, BASEUS_SERVICE_UUID@)),
{
    if !required {
        return true;
    }
    let mut i: usize = 0;
    while i < service_uuids.len()
        invariant
            i <= service_uuids@.len(),
            forall|j: int| 0 <= j < i ==> !eq_ignore_ascii_case(#[trigger] service_uuids@[j]@, BASEUS_SERVICE_UUID@),
        decreases service_uuids.len() - i,
    {
        if str_eq_ignore_ascii_case(service_uuids[i], BASEUS_SERVICE_UUID) {
            return true;
        }
        i = i + 1;
    }
    false
}

} // verus!

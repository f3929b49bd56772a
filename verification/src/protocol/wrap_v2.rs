use vstd::prelude::*;
use crate::text::{chars_contain, contains_seq, lowercase, str_chars, string_push, to_lowercase};

verus! {

/// Generator polynomial of the headphone CRC in reflected (LSB-first) form.
pub const CRC_POLY_REFLECTED: u16 = 0xA001;

/// One bit step of the reflected CRC shift register.
pub open spec fn crc_bit(c: u16) -> u16 {
    if c & 1 == 1 { (c >> 1) ^ CRC_POLY_REFLECTED } else { c >> 1 }
}

/// Eight bit steps: the register after one byte has been xor-ed in.
pub open spec fn crc_rounds(c: u16, n: nat) -> u16
    decreases n,
{
    if n == 0 { c } else { crc_rounds(crc_bit(c), (n - 1) as nat) }
}

/// Register after feeding one byte.
pub open spec fn crc_byte(c: u16, b: u8) -> u16 {
    crc_rounds(c ^ (b as u16), 8)
}

/// CRC16 of a byte sequence: register starts at 0xFFFF, bytes are fed in order,
/// no final xor (the CRC-16/MODBUS parameters).
pub open spec fn crc16_spec(data: Seq<u8>) -> u16
    decreases data.len(),
{
    if data.len() == 0 { 0xFFFF } else { crc_byte(crc16_spec(data.drop_last()), data.last()) }
}

/// Custom CRC16 used by the 789C headphone framing.
pub fn crc16(data: &[u8]) -> (r: u16)
    ensures
        r == crc16_spec(data@),
{
    let mut crc: u16 = 0xFFFF;
    let mut i: usize = 0;
    while i < data.len()
        invariant
            i <= data.len(),
            crc == crc16_spec(data@.take(i as int)),
        decreases data.len() - i,
    {
        let mut c: u16 = crc ^ (data[i] as u16);
        let mut k: usize = 0;
        while k < 8
            invariant
                k <= 8,
                crc_rounds(c, (8 - k) as nat) == crc_byte(crc, data@[i as int]),
            decreases 8 - k,
        {
            c = if c & 1 == 1 { (c >> 1) ^ CRC_POLY_REFLECTED } else { c >> 1 };
            k = k + 1;
        }
        assert(data@.take(i + 1).drop_last() =~= data@.take(i as int));
        crc = c;
        i = i + 1;
    }
    assert(data@.take(data.len() as int) =~= data@);
    crc
}

} // verus!

verus! {

// ---------------------------------------------------------------------------
// Byte helpers
// ---------------------------------------------------------------------------

/// Big-endian bytes of a 16-bit value.
pub open spec fn be16_bytes(v: u16) -> Seq<u8> {
    seq![(v / 256) as u8, (v % 256) as u8]
}

/// Value of a big-endian 16-bit field.
pub open spec fn be16_value(hi: u8, lo: u8) -> int {
    hi * 256 + lo
}

fn be16_push(out: &mut Vec<u8>, v: u16)
    ensures
        final(out)@ == old(out)@ + be16_bytes(v),
{
    let hi = (v >> 8) as u8;
    let lo = (v & 0xFF) as u8;
    assert(hi == (v / 256) as u8 && lo == (v % 256) as u8) by (bit_vector)
        requires
            hi == (v >> 8) as u8,
            lo == (v & 0xFF) as u8;
    out.push(hi);
    out.push(lo);
    assert(final(out)@ =~= old(out)@ + be16_bytes(v));
}

fn extend(out: &mut Vec<u8>, src: &[u8])
    ensures
        final(out)@ == old(out)@ + src@,
{
    let mut i: usize = 0;
    while i < src.len()
        invariant
            i <= src.len(),
            out@ == old(out)@ + src@.take(i as int),
        decreases src.len() - i,
    {
        out.push(src[i]);
        assert(src@.take(i + 1) =~= src@.take(i as int).push(src@[i as int]));
        i = i + 1;
    }
    assert(src@.take(src.len() as int) =~= src@);
}

/// Byte-wise equality of two byte slices.
pub fn bytes_eq(a: &[u8], b: &[u8]) -> (r: bool)
    ensures
        r == (a@ == b@),
{
    if a.len() != b.len() {
        return false;
    }
    let mut i: usize = 0;
    while i < a.len()
        invariant
            a.len() == b.len(),
            i <= a.len(),
            forall|j: int| 0 <= j < i ==> a@[j] == b@[j],
        decreases a.len() - i,
    {
        if a[i] != b[i] {
            return false;
        }
        i = i + 1;
    }
    assert(a@ =~= b@);
    true
}

// ---------------------------------------------------------------------------
// Wrapping a bare BA command (app → device)
// ---------------------------------------------------------------------------

/// Opcodes of the "set / action" group (type byte 03).
pub open spec fn is_set_opcode(op: u8) -> bool {
    op == 0x10 || op == 0x22 || op == 0x24 || op == 0x26 || op == 0x2B || op == 0x2D
        || op == 0x2E || op == 0x34 || op == 0x37 || op == 0x3A || op == 0x3C || op == 0x4A
        || op == 0x4C || op == 0x4F || op == 0x50 || op == 0x52 || op == 0x54 || op == 0x56
        || op == 0x58 || op == 0x8D || op == 0x8F || op == 0x92 || op == 0x94 || op == 0x97
        || op == 0x9B || op == 0xA2 || op == 0xA4 || op == 0xFE || op == 0x31
}

/// Opcodes of the "query / state" group (type byte 01).
pub open spec fn is_query_opcode(op: u8) -> bool {
    op == 0x01 || op == 0x02 || op == 0x12 || op == 0x19 || op == 0x1A || op == 0x1C
        || op == 0x21 || op == 0x23 || op == 0x25 || op == 0x27 || op == 0x2A || op == 0x2C
        || op == 0x2F || op == 0x30 || op == 0x33 || op == 0x35 || op == 0x36 || op == 0x38
        || op == 0x40 || op == 0x4B || op == 0x4E || op == 0x51 || op == 0x53 || op == 0x55
        || op == 0x57 || op == 0x59 || op == 0x5A || op == 0x5B || op == 0x80 || op == 0x8A
        || op == 0x8B || op == 0x8C || op == 0x8E || op == 0x91 || op == 0x93 || op == 0x96
        || op == 0x9A || op == 0xA1 || op == 0xA3
}

/// Type byte used for an opcode in the wrapped frame: 03, 01 or 00.
pub open spec fn opcode_type_spec(op: u8) -> u8 {
    if is_set_opcode(op) {
        0x03
    } else if is_query_opcode(op) {
        0x01
    } else {
        0x00
    }
}

/// Opcode → type byte used in the wrap.
fn opcode_type(opcode: u8) -> (t: u8)
    ensures
        t == opcode_type_spec(opcode),
{
    match opcode {
        0x10 | 0x22 | 0x24 | 0x26 | 0x2B | 0x2D | 0x2E | 0x34 | 0x37 | 0x3A | 0x3C
        | 0x4A | 0x4C | 0x4F | 0x50 | 0x52 | 0x54 | 0x56 | 0x58 | 0x8D | 0x8F | 0x92
        | 0x94 | 0x97 | 0x9B | 0xA2 | 0xA4 | 0xFE | 0x31 => 0x03,
        0x01 | 0x02 | 0x12 | 0x19 | 0x1A | 0x1C | 0x21 | 0x23 | 0x25 | 0x27 | 0x2A
        | 0x2C | 0x2F | 0x30 | 0x33 | 0x35 | 0x36 | 0x38 | 0x40 | 0x4B | 0x4E | 0x51
        | 0x53 | 0x55 | 0x57 | 0x59 | 0x5A | 0x5B | 0x80 | 0x8A | 0x8B | 0x8C | 0x8E
        | 0x91 | 0x93 | 0x96 | 0x9A | 0xA1 | 0xA3 => 0x01,
        _ => 0x00,
    }
}

/// A bare command that can be wrapped: at least the magic and an opcode.
pub open spec fn is_bare_command(bare: Seq<u8>) -> bool {
    bare.len() >= 2 && bare[0] == 0xBA
}

/// Content carried by the wrap: opcode and payload; a typed opcode 0x01 carries 0xFF.
pub open spec fn wrap_content(bare: Seq<u8>) -> Seq<u8> {
    if opcode_type_spec(bare[1]) != 0 && bare[1] == 0x01 {
        seq![0xFF]
    } else {
        bare.subrange(1, bare.len() as int)
    }
}

/// Frame without its CRC:
/// type 00: `78 9C | len+7 (be16) | 02 | content`;
/// typed:   `78 9C | len+9 (be16) | 02 | type | len | content`.
pub open spec fn wrap_body(bare: Seq<u8>) -> Seq<u8> {
    let sub = wrap_content(bare);
    let ty = opcode_type_spec(bare[1]);
    if ty == 0 {
        seq![0x78u8, 0x9Cu8] + be16_bytes((((sub.len() as u16) as int) + 7) as u16) + seq![0x02u8] + sub
    } else {
        seq![0x78u8, 0x9Cu8] + be16_bytes(((sub.len() as u16) + 9) as u16) + seq![0x02u8, ty, (sub.len() as u16) as u8] + sub
    }
}

/// The wrapped frame: body followed by its CRC16, big-endian.
pub open spec fn wrapped(bare: Seq<u8>) -> Seq<u8> {
    wrap_body(bare) + be16_bytes(crc16_spec(wrap_body(bare)))
}

/// The 16-bit length field of a typed frame does not overflow.
pub open spec fn wrap_fits(bare: Seq<u8>) -> bool {
    is_bare_command(bare) && opcode_type_spec(bare[1]) != 0 ==> (wrap_content(bare).len() as u16) + 9 <= 0xFFFF
}

/// Wrap a bare BA command (e.g. `[0xBA, 0x34, 0x01, 0x68]`) into a 789C frame + CRC.
pub fn wrap_ba_command(bare: &[u8]) -> (r: Option<Vec<u8>>)
    requires
        wrap_fits(bare@),
    ensures
        !is_bare_command(bare@) ==> r is None,
        is_bare_command(bare@) ==> (r matches Some(w) && w@ == wrapped(bare@)),
{
    if bare.len() < 2 || bare[0] != 0xBA {
        return None;
    }
    let opcode = bare[1];
    let ty = opcode_type(opcode);
    let mut substring2: Vec<u8> = vstd::slice::slice_to_vec(vstd::slice::slice_subrange(bare, 1, bare.len()));
    let mut body: Vec<u8> = Vec::new();
    body.push(0x78);
    body.push(0x9C);
    if ty == 0x00 {
        assert(substring2@ =~= wrap_content(bare@));
        let l16 = #[verifier::truncate] (substring2.len() as u16);
        let len = #[verifier::truncate] ((l16 as u32 + 7) as u16);
        be16_push(&mut body, len);
        body.push(0x02);
        extend(&mut body, substring2.as_slice());
        assert(body@ =~= wrap_body(bare@));
    } else {
        if opcode == 0x01 {
            substring2 = vec![0xFF];
        }
        assert(substring2@ =~= wrap_content(bare@));
        let length = #[verifier::truncate] (substring2.len() as u16);
        let len_field = length + 9;
        be16_push(&mut body, len_field);
        body.push(0x02);
        body.push(ty);
        body.push(#[verifier::truncate] (length as u8));
        extend(&mut body, substring2.as_slice());
        assert(body@ =~= wrap_body(bare@));
    }
    let c = crc16(body.as_slice());
    be16_push(&mut body, c);
    Some(body)
}

/// Header and body of the BP1 Ultra battery poll: the 789C head, a total
/// length of 10, the fixed 02, then the battery opcode 02 with query type 01
/// and length 01.
pub open spec fn ultra_battery_body() -> Seq<u8> {
    seq![0x78u8, 0x9C, 0x00, 0x0A, 0x02, 0x02, 0x01, 0x01]
}

/// The BP1 Ultra battery polling frame: its body followed by the body's CRC.
/// Ultra firmware answers it with the earbud and case batteries, so it is the
/// one query used for Ultra polling.
pub fn battery_query_frame() -> (r: Vec<u8>)
    ensures
        r@ == ultra_battery_body() + be16_bytes(crc16_spec(ultra_battery_body())),
{
    let mut body: Vec<u8> = vec![0x78, 0x9C, 0x00, 0x0A, 0x02, 0x02, 0x01, 0x01];
    assert(body@ =~= ultra_battery_body());
    let c = crc16(body.as_slice());
    be16_push(&mut body, c);
    body
}

} // verus!

verus! {

// ---------------------------------------------------------------------------
// Unwrapping notifications (device → app)
// ---------------------------------------------------------------------------

/// A logical notification frame: at least two bytes, starting with 0xAA.
pub open spec fn is_aa_frame(f: Seq<u8>) -> bool {
    f.len() >= 2 && f[0] == 0xAA
}

/// `AA` followed by `tail`.
pub open spec fn aa_frame(tail: Seq<u8>) -> Seq<u8> {
    seq![0xAAu8] + tail
}

/// First index at or after `k` of an AA frame in `out` whose opcode is `op`.
pub open spec fn find_same_opcode(out: Seq<Seq<u8>>, op: u8, k: int) -> Option<int>
    decreases out.len() - k,
{
    if k < 0 || k >= out.len() {
        None
    } else if is_aa_frame(out[k]) && out[k][1] == op {
        Some(k)
    } else {
        find_same_opcode(out, op, k + 1)
    }
}

/// Collecting a frame: only AA frames are kept, an identical frame is not
/// repeated, and a frame whose opcode is already present replaces the first
/// such frame only when it is longer (a truncated AA 02 never wins).
pub open spec fn push_unique(out: Seq<Seq<u8>>, frame: Seq<u8>) -> Seq<Seq<u8>> {
    if !is_aa_frame(frame) {
        out
    } else if out.contains(frame) {
        out
    } else {
        match find_same_opcode(out, frame[1], 0) {
            Some(k) => if frame.len() > out[k].len() { out.update(k, frame) } else { out },
            None => out.push(frame),
        }
    }
}

/// First index at or after `k` holding `b`.
pub open spec fn find_byte(s: Seq<u8>, b: u8, k: int) -> Option<int>
    decreases s.len() - k,
{
    if k < 0 || k >= s.len() {
        None
    } else if s[k] == b {
        Some(k)
    } else {
        find_byte(s, b, k + 1)
    }
}

/// Length-prefixed walk over a 789C packet from offset `i`: at each step the byte
/// after `i` is a length `l`, the `l` bytes after it are emitted behind `AA`, and
/// the walk moves on by `l + 1`. Stops at a zero length or a chunk that passes
/// `end`. Also tells whether anything was emitted.
pub open spec fn walk(pkt: Seq<u8>, i: int, end: int, out: Seq<Seq<u8>>) -> (Seq<Seq<u8>>, bool)
    decreases end - i,
{
    if 0 <= i && i + 1 < end && end <= pkt.len() {
        let l = pkt[i + 1] as int;
        let start = i + 2;
        let stop = start + l;
        if l == 0 || stop > end {
            (out, false)
        } else {
            let next = push_unique(out, aa_frame(pkt.subrange(start, stop)));
            (walk(pkt, i + l + 1, end, next).0, true)
        }
    } else {
        (out, false)
    }
}

/// Frames extracted from one 789C packet (header and CRC included).
pub open spec fn extract_inner(pkt: Seq<u8>, out: Seq<Seq<u8>>) -> Seq<Seq<u8>> {
    if pkt.len() < 8 {
        out
    } else {
        let end = pkt.len() - 2;
        // a literal AA inside the packet, up to the CRC
        let out1 = match find_byte(pkt, 0xAA, 0) {
            Some(pos) => if pos + 2 <= end { push_unique(out, pkt.subrange(pos, end)) } else { out },
            None => out,
        };
        let code = pkt[5];
        if code == 0x1B || code == 0x4D {
            // subcontracting opcodes: AA + raw content from offset 5
            push_unique(out1, aa_frame(pkt.subrange(5, end)))
        } else {
            let (out2, emitted) = walk(pkt, 5, end, out1);
            if !emitted && pkt.len() > 9 && pkt[4] == 0x02 {
                let ty = pkt[5];
                if ty == 0x00 {
                    push_unique(out2, aa_frame(pkt.subrange(5, end)))
                } else if end > 7 {
                    let l = pkt[6] as int;
                    if l > 0 && 7 + l <= end { push_unique(out2, aa_frame(pkt.subrange(7, 7 + l))) } else { out2 }
                } else {
                    out2
                }
            } else {
                out2
            }
        }
    }
}

/// Walk over consecutive 789C packets from offset `i`; each holds its total length
/// at bytes 2..4 (big-endian). Stops at a length below 6 or past the buffer.
pub open spec fn scan_packets(data: Seq<u8>, i: int, out: Seq<Seq<u8>>) -> Seq<Seq<u8>>
    decreases data.len() - i,
{
    if 0 <= i && i + 6 <= data.len() {
        let total = be16_value(data[i + 2], data[i + 3]);
        if total < 6 || i + total > data.len() {
            out
        } else {
            let next = if total > 7 { extract_inner(data.subrange(i, i + total), out) } else { out };
            scan_packets(data, i + total, next)
        }
    } else {
        out
    }
}

/// The official full battery frame `AA 02 LL 00 RR 01` at offset `i`.
pub open spec fn full_battery_at(data: Seq<u8>, i: int) -> bool {
    data[i] == 0xAA && data[i + 1] == 0x02 && data[i + 3] == 0x00 && data[i + 5] == 0x01
}

/// Scan of the raw buffer from offset `i` for full battery frames and case
/// frames (`AA 27` plus up to two bytes).
pub open spec fn scan_aa(data: Seq<u8>, i: int, out: Seq<Seq<u8>>) -> Seq<Seq<u8>>
    decreases data.len() - i,
{
    if 0 <= i && i + 5 < data.len() {
        if full_battery_at(data, i) {
            scan_aa(data, i + 6, push_unique(out, data.subrange(i, i + 6)))
        } else if data[i] == 0xAA && data[i + 1] == 0x27 {
            let end = if i + 4 < data.len() { i + 4 } else { data.len() as int };
            scan_aa(data, end, push_unique(out, data.subrange(i, end)))
        } else {
            scan_aa(data, i + 1, out)
        }
    } else {
        out
    }
}

/// AA frames carried by a notify buffer.
pub open spec fn unwrap_spec(data: Seq<u8>) -> Seq<Seq<u8>> {
    if data.len() >= 2 && data[0] == 0xAA {
        seq![data]
    } else {
        let out0: Seq<Seq<u8>> = seq![];
        let out1 = if data.len() >= 6 && data[0] == 0x78 && data[1] == 0x9C {
            scan_packets(data, 0, out0)
        } else {
            out0
        };
        let out2 = scan_aa(data, 0, out1);
        if out2.len() == 0 && data.len() > 0 { seq![data] } else { out2 }
    }
}

/// Byte contents of collected frames.
pub open spec fn frames(v: Seq<Vec<u8>>) -> Seq<Seq<u8>> {
    v.map_values(|f: Vec<u8>| f@)
}

/// First frame already in `out` with the same opcode, if any.
fn find_same(out: &Vec<Vec<u8>>, op: u8) -> (r: Option<usize>)
    ensures
        r matches Some(k) ==> k < out.len() && find_same_opcode(frames(out@), op, 0) == Some(k as int),
        r is None ==> find_same_opcode(frames(out@), op, 0) is None,
{
    let ghost dv = frames(out@);
    let mut k: usize = 0;
    while k < out.len()
        invariant
            dv == frames(out@),
            k <= out.len(),
            find_same_opcode(dv, op, 0) == find_same_opcode(dv, op, k as int),
        decreases out.len() - k,
    {
        let f = &out[k];
        assert(f@ == dv[k as int]);
        if f.len() >= 2 && f[1] == op && f[0] == 0xAA {
            return Some(k);
        }
        k = k + 1;
    }
    None
}

/// Whether `out` already holds exactly `frame`.
fn contains_frame(out: &Vec<Vec<u8>>, frame: &[u8]) -> (r: bool)
    ensures
        r == frames(out@).contains(frame@),
{
    let ghost dv = frames(out@);
    let mut k: usize = 0;
    while k < out.len()
        invariant
            dv == frames(out@),
            k <= out.len(),
            forall|j: int| 0 <= j < k ==> dv[j] != frame@,
        decreases out.len() - k,
    {
        assert(out[k as int]@ == dv[k as int]);
        if bytes_eq(out[k].as_slice(), frame) {
            assert(dv[k as int] == frame@);
            return true;
        }
        k = k + 1;
    }
    false
}

/// Collect `frame` into `out` as `push_unique` says.
fn push_unique_aa(out: &mut Vec<Vec<u8>>, frame: Vec<u8>)
    ensures
        frames(final(out)@) == push_unique(frames(old(out)@), frame@),
{
    if frame.len() < 2 || frame[0] != 0xAA {
        return;
    }
    if contains_frame(out, frame.as_slice()) {
        return;
    }
    // Prefer the longer frame when the same opcode is already present.
    match find_same(out, frame[1]) {
        Some(k) => {
            if frame.len() > out[k].len() {
                let ghost before = frames(out@);
                out.set(k, frame);
                assert(frames(out@) =~= before.update(k as int, frame@));
            }
        },
        None => {
            let ghost before = frames(out@);
            out.push(frame);
            assert(frames(out@) =~= before.push(frame@));
        },
    }
}

/// `AA` followed by `src[from..to]`.
fn aa_frame_of(src: &[u8], from: usize, to: usize) -> (f: Vec<u8>)
    requires
        from <= to <= src@.len(),
    ensures
        f@ == aa_frame(src@.subrange(from as int, to as int)),
{
    let mut f: Vec<u8> = vec![0xAA];
    extend(&mut f, vstd::slice::slice_subrange(src, from, to));
    assert(f@ =~= aa_frame(src@.subrange(from as int, to as int)));
    f
}

/// First position of `b` in `s`.
fn position_of(s: &[u8], b: u8) -> (r: Option<usize>)
    ensures
        r matches Some(k) ==> k < s.len() && find_byte(s@, b, 0) == Some(k as int),
        r is None ==> find_byte(s@, b, 0) is None,
{
    let mut k: usize = 0;
    while k < s.len()
        invariant
            k <= s.len(),
            find_byte(s@, b, 0) == find_byte(s@, b, k as int),
        decreases s.len() - k,
    {
        if s[k] == b {
            return Some(k);
        }
        k = k + 1;
    }
    None
}

/// Official 789C inner extract (one packet, header and CRC included).
fn extract_789c_inner(pkt: &[u8], out: &mut Vec<Vec<u8>>)
    ensures
        frames(final(out)@) == extract_inner(pkt@, frames(old(out)@)),
{
    if pkt.len() < 8 {
        return;
    }
    let end_excl_crc = pkt.len() - 2;
    // Prefer a literal AA if present (some firmwares embed it)
    match position_of(pkt, 0xAA) {
        Some(pos) => {
            if pos <= end_excl_crc - 2 {
                push_unique_aa(out, vstd::slice::slice_to_vec(vstd::slice::slice_subrange(pkt, pos, end_excl_crc)));
            }
        },
        None => {},
    }
    // bytes[5] = first content code (type 00/01/03, or opcode for subcontracting)
    let code = pkt[5];
    if code == 0x1B || code == 0x4D {
        push_unique_aa(out, aa_frame_of(pkt, 5, end_excl_crc));
        return;
    }
    let ghost out1 = frames(out@);
    // Length-prefixed walk from offset 5
    let mut i6: usize = 5;
    let mut emitted = false;
    while i6 + 1 < end_excl_crc
        invariant_except_break
            end_excl_crc == pkt.len() - 2,
            pkt.len() >= 8,
            5 <= i6 <= end_excl_crc,
            walk(pkt@, 5, end_excl_crc as int, out1)
                == (if emitted { (walk(pkt@, i6 as int, end_excl_crc as int, frames(out@)).0, true) }
                    else { walk(pkt@, i6 as int, end_excl_crc as int, frames(out@)) }),
        ensures
            walk(pkt@, 5, end_excl_crc as int, out1) == (frames(out@), emitted),
        decreases end_excl_crc - i6,
    {
        let len = pkt[i6 + 1] as usize;
        let start = i6 + 2;
        if len == 0 || len > end_excl_crc - start {
            break;
        }
        let stop = start + len;
        push_unique_aa(out, aa_frame_of(pkt, start, stop));
        emitted = true;
        i6 = i6 + len + 1;
    }
    // Fallback: type-byte frames where [4]=0x02, [5]=ty, [6]=len, [7…]=body
    if !emitted && pkt.len() > 9 && pkt[4] == 0x02 {
        let ty = pkt[5];
        if ty == 0x00 {
            push_unique_aa(out, aa_frame_of(pkt, 5, end_excl_crc));
        } else if end_excl_crc > 7 {
            let len = pkt[6] as usize;
            if len > 0 && 7 + len <= end_excl_crc {
                push_unique_aa(out, aa_frame_of(pkt, 7, 7 + len));
            }
        }
    }
}

/// Extract AA frames from a notify buffer (official `getReplyData` rules):
/// a bare `AA…` buffer passes through; `789C` packets are walked one after the
/// other and their content extracted; then the raw buffer is scanned for full
/// battery (`AA 02 LL 00 RR 01`) and case (`AA 27 …`) frames; when nothing was
/// found the raw buffer itself is returned. The CRC of a packet is not required
/// to match: packets with a bad CRC are salvaged the same way.
pub fn unwrap_notify(data: &[u8]) -> (r: Vec<Vec<u8>>)
    ensures
        frames(r@) == unwrap_spec(data@),
{
    if data.len() >= 2 && data[0] == 0xAA {
        let mut r: Vec<Vec<u8>> = Vec::new();
        r.push(vstd::slice::slice_to_vec(data));
        assert(frames(r@) =~= seq![data@]);
        return r;
    }
    let mut out: Vec<Vec<u8>> = Vec::new();
    let ghost out0: Seq<Seq<u8>> = seq![];
    assert(frames(out@) =~= out0);
    if data.len() >= 6 && data[0] == 0x78 && data[1] == 0x9C {
        let mut i: usize = 0;
        while i <= data.len() - 6
            invariant_except_break
                data.len() >= 6,
                i <= data.len(),
                scan_packets(data@, 0, out0) == scan_packets(data@, i as int, frames(out@)),
            ensures
                scan_packets(data@, 0, out0) == frames(out@),
            decreases data.len() - i,
        {
            let total = (data[i + 2] as usize) * 256 + (data[i + 3] as usize);
            if total < 6 || total > data.len() - i {
                break;
            }
            if total > 7 {
                extract_789c_inner(vstd::slice::slice_subrange(data, i, i + total), &mut out);
            }
            i = i + total;
        }
    }
    let ghost out1 = frames(out@);
    // Scan for full official battery frames only (partial AA02 is mode-ACK noise)
    let mut i: usize = 0;
    while data.len() > 5 && i < data.len() - 5
        invariant
            i <= data.len(),
            scan_aa(data@, 0, out1) == scan_aa(data@, i as int, frames(out@)),
        decreases data.len() - i,
    {
        if data[i] == 0xAA && data[i + 1] == 0x02 && data[i + 3] == 0x00 && data[i + 5] == 0x01 {
            push_unique_aa(&mut out, vstd::slice::slice_to_vec(vstd::slice::slice_subrange(data, i, i + 6)));
            i = i + 6;
        } else if data[i] == 0xAA && data[i + 1] == 0x27 {
            let end = if i + 4 < data.len() { i + 4 } else { data.len() };
            push_unique_aa(&mut out, vstd::slice::slice_to_vec(vstd::slice::slice_subrange(data, i, end)));
            i = end;
        } else {
            i = i + 1;
        }
    }
    if out.len() == 0 && data.len() > 0 {
        let ghost before = frames(out@);
        out.push(vstd::slice::slice_to_vec(data));
        assert(frames(out@) =~= seq![data@]);
    }
    out
}

} // verus!

verus! {

// ---------------------------------------------------------------------------
// Models that need the 789C wrap
// ---------------------------------------------------------------------------

/// Name fragments of the models whose official app wraps every command
/// (Ultra / NC / M4s / Inspire families and a few others).
pub open spec fn v2_wrap_keywords() -> Seq<Seq<char>> {
    seq![
        "bp1 ultra"@, "ep10 ultra"@, "bp1 nc"@, "ep10 nc"@, "m4s"@, "inspire"@, "bc1 lite"@, "bc2"@,
        "bf1 lite"@, "wm01s"@, "wm02s"@, "as01 air"@, "mc2 nc"@, "mc2"@, "mp1"@, "ms1"@,
    ]
}

fn v2_wrap_keyword(i: usize) -> (r: &'static str)
    requires
        i < 16,
    ensures
        r@ == v2_wrap_keywords()[i as int],
{
    match i {
        0 => "bp1 ultra",
        1 => "ep10 ultra",
        2 => "bp1 nc",
        3 => "ep10 nc",
        4 => "m4s",
        5 => "inspire",
        6 => "bc1 lite",
        7 => "bc2",
        8 => "bf1 lite",
        9 => "wm01s",
        10 => "wm02s",
        11 => "as01 air",
        12 => "mc2 nc",
        13 => "mc2",
        14 => "mp1",
        _ => "ms1",
    }
}

/// Text of an optional name, empty when absent.
pub open spec fn opt_text(o: Option<&str>) -> Seq<char> {
    match o {
        Some(s) => s@,
        None => Seq::empty(),
    }
}

/// Lowercased `"<id> <name> <ble name>"` searched for the wrap keywords.
pub open spec fn v2_blob(model_id: Option<&str>, model_name: Option<&str>, ble_name: Option<&str>) -> Seq<char> {
    lowercase(opt_text(model_id) + seq![' '] + opt_text(model_name) + seq![' '] + opt_text(ble_name))
}

fn push_opt(blob: &mut String, o: Option<&str>)
    ensures
        final(blob)@ == old(blob)@ + opt_text(o),
{
    match o {
        Some(s) => blob.append(s),
        None => {
            assert(old(blob)@ + opt_text(o) =~= old(blob)@);
        },
    }
}

/// A lowercase text names a model that needs the 789C + CRC wrap.
pub open spec fn names_v2_model(lower: Seq<char>) -> bool {
    exists|k: int| 0 <= k < 16 && contains_seq(lower, #[trigger] v2_wrap_keywords()[k])
}

/// Whether a lowercase text names a model that needs the 789C + CRC wrap.
pub fn mentions_v2_model(lower_text: &str) -> (r: bool)
    ensures
        r == names_v2_model(lower_text@),
{
    let hay = str_chars(lower_text);
    let mut k: usize = 0;
    while k < 16
        invariant
            k <= 16,
            hay@ == lower_text@,
            forall|j: int| 0 <= j < k ==> !contains_seq(hay@, #[trigger] v2_wrap_keywords()[j]),
        decreases 16 - k,
    {
        let kw = str_chars(v2_wrap_keyword(k));
        if chars_contain(hay.as_slice(), kw.as_slice()) {
            return true;
        }
        k = k + 1;
    }
    false
}

/// Models that need the 789C + CRC wrap: the id, name and BLE name, joined
/// by spaces and lowercased, mention one of them.
pub fn needs_v2_wrap(model_id: Option<&str>, model_name: Option<&str>, ble_name: Option<&str>) -> (r: bool)
    ensures
        r == names_v2_model(v2_blob(model_id, model_name, ble_name)),
{
    let mut blob = String::new();
    push_opt(&mut blob, model_id);
    string_push(&mut blob, ' ');
    push_opt(&mut blob, model_name);
    string_push(&mut blob, ' ');
    push_opt(&mut blob, ble_name);
    assert(blob@ =~= opt_text(model_id) + seq![' '] + opt_text(model_name) + seq![' '] + opt_text(ble_name));
    let lower = to_lowercase(blob.as_str());
    mentions_v2_model(lower.as_str())
}

} // verus!

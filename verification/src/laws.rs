//! Properties of the library as a whole, stated over the specifications the
//! operations are verified against.

use vstd::prelude::*;
use crate::ble::hex::{hex_nibbles, hex_value, is_hex_char, pack_nibbles};
use crate::ble::link::merge_battery;
use crate::ble::table::{find_device, ids_distinct, lemma_find_device_range, upsert_spec};
use crate::ble::devices::DeviceView;
use crate::ble::order::precedes;
use crate::device::handshake::{
    HandshakeEvent, HandshakeView, Phase, elapse, fresh_flow, handshake_run, handshake_step, saturating_sum, total_elapsed,
};
use crate::capture::store::{
    CaptureOp, JournalView, attach_entry, capture_run, find_step, fresh_journal, keep_newest, last_start_or_stop,
    recorded_view, stopped_view,
};
use crate::capture::types::Direction;
use crate::capture::types::EntryView;
use crate::protocol::bp1_pro::{anc_ack, case_result, decodes_to, first_lr_window, lr_battery, lr_window};
use crate::protocol::codec::{command_bytes, notification_decodes_to};
use crate::protocol::advertisement::{apply_ad, empty_advertisement, parse_from, uuid128_text, uuid16_texts};
use crate::protocol::models::ProtocolFamily;
use crate::protocol::models::{
    ModelView, SupportLevel, any_match, best_pair, catalog, identified_lower, lemma_best_pair_exists,
    lemma_best_pair_unique,
};
use crate::protocol::profile::{DeviceProfileView, profile_of};
use crate::protocol::router::{FeatureCommand, ListeningCommand, feature_result, listening_result};
use crate::protocol::types::{
    AncMode, BatteryState, Command, DecodeError, DeviceEvent, EqPreset, SpatialMode, anc_mode_byte, eq_preset_byte, eq_preset_from_byte,
};
use crate::text::{hex2, hex_digit, hex_spaced};
use crate::ui::{component, newer_from, remote_newer, version_numbers};
use crate::protocol::wrap_v2::{
    crc16_spec, find_same_opcode,
    aa_frame, be16_bytes, be16_value, find_byte, is_bare_command, opcode_type_spec, scan_aa,
    unwrap_spec, walk, wrap_body, wrap_content, wrapped, extract_inner, scan_packets, push_unique,
};

verus! {

/// A model without a known protocol family gets no bytes for any command:
/// every feature and every listening command is refused.
pub proof fn law_unknown_family_sends_nothing(p: DeviceProfileView, f: FeatureCommand, l: ListeningCommand)
    requires
        p.protocol == ProtocolFamily::Unknown,
    ensures
        feature_result(p, f) is Err,
        listening_result(p, l) is Err,
{
}

/// Every EQ preset is read back from the byte it is written as.
pub proof fn law_eq_preset_byte_roundtrip(p: EqPreset)
    ensures
        eq_preset_from_byte(eq_preset_byte(p)) == Some(p),
{
}

/// A noise-mode acknowledgement that echoes the mode byte (with, for ANC, a
/// level of 0 or at least 0x10) reports that mode, whatever was sent before.
pub proof fn law_anc_echo_reports_mode(m: AncMode, level: u8, last: Option<AncMode>)
    requires
        m == AncMode::Anc ==> (level == 0 || level >= 0x10),
    ensures
        anc_ack(seq![anc_mode_byte(m), level], last) == Some(m),
{
}

/// The battery notification `AA 02 <L> 00 <R> 01` reports left `L` and right
/// `R` (levels of 5 % to 100 %, nothing charging).
pub proof fn law_battery_notification(left: u8, right: u8, last: Option<AncMode>, r: Result<DeviceEvent, DecodeError>)
    requires
        5 <= left <= 100,
        5 <= right <= 100,
        notification_decodes_to(seq![0xAAu8, 0x02, left, 0x00, right, 0x01], last, r),
    ensures
        r == Ok::<DeviceEvent, DecodeError>(DeviceEvent::Battery(BatteryState {
            left,
            right,
            case: 0,
            left_charging: false,
            right_charging: false,
            case_charging: false,
        })),
{
    let data = seq![0xAAu8, 0x02, left, 0x00, right, 0x01];
    let p = data.subrange(2, 6);
    assert(p =~= seq![left, 0x00, right, 0x01]);
    assert(lr_window(p, 0));
    assert(first_lr_window(p, 0));
    assert(lr_battery(p, 0) == BatteryState {
        left,
        right,
        case: 0,
        left_charging: false,
        right_charging: false,
        case_charging: false,
    });
}

/// The case notification `AA 27 <%> <chg>` reports the case level and
/// whether it charges (a level of 0 counts only while charging).
pub proof fn law_case_notification(pct: u8, chg: u8)
    requires
        pct <= 100,
        pct > 0 || chg != 0,
    ensures
        case_result(seq![pct, chg]) == Ok::<DeviceEvent, DecodeError>(DeviceEvent::Battery(BatteryState {
            left: 0,
            right: 0,
            case: pct,
            left_charging: false,
            right_charging: false,
            case_charging: chg != 0,
        })),
{
}

/// Merging the same battery reading twice is the same as merging it once.
pub proof fn law_battery_merge_idempotent(cur: BatteryState, p: BatteryState)
    ensures
        merge_battery(merge_battery(cur, p), p) == merge_battery(cur, p),
{
}

/// A version is never newer than itself.
pub proof fn law_version_not_newer_than_itself(v: Seq<char>)
    ensures
        !remote_newer(v, v),
{
    lemma_newer_from_same(version_numbers(v), 0);
}

proof fn lemma_newer_from_same(a: Seq<u64>, i: nat)
    ensures
        !newer_from(a, a, i),
    decreases a.len() - i,
{
    if i < a.len() {
        lemma_newer_from_same(a, i + 1);
    }
}

proof fn lemma_newer_from_asym(a: Seq<u64>, b: Seq<u64>, i: nat)
    ensures
        newer_from(a, b, i) ==> !newer_from(b, a, i),
    decreases (if a.len() > b.len() { a.len() } else { b.len() }) - i,
{
    if !(i >= a.len() && i >= b.len()) && component(a, i as int) == component(b, i as int) {
        lemma_newer_from_asym(a, b, i + 1);
    }
}

/// Of two versions, at most one is newer than the other.
pub proof fn law_version_newer_is_asymmetric(a: Seq<char>, b: Seq<char>)
    ensures
        remote_newer(a, b) ==> !remote_newer(b, a),
{
    lemma_newer_from_asym(version_numbers(a), version_numbers(b), 0);
}

/// Storing a device in a table without repeated ids keeps ids unique, and
/// looking its id up finds exactly that device.
pub proof fn law_upsert_then_find(s: Seq<DeviceView>, d: DeviceView)
    requires
        ids_distinct(s),
    ensures
        ids_distinct(upsert_spec(s, d)),
        match find_device(upsert_spec(s, d), d.id) {
            Some(k) => upsert_spec(s, d)[k] == d,
            None => false,
        },
{
    lemma_find_device_range(s, d.id, 0);
    let t = upsert_spec(s, d);
    lemma_find_device_range(t, d.id, 0);
    match find_device(s, d.id) {
        Some(k) => {
            assert(t[k] == d);
        },
        None => {
            assert(t[s.len() as int] == d);
        },
    }
}

/// After recording, the journal holds at most its limit of entries, and
/// they are the newest ones, in order.
pub proof fn law_journal_keeps_newest(entries: Seq<EntryView>, max: nat)
    ensures
        keep_newest(entries, max).len() <= max || keep_newest(entries, max) == entries,
        keep_newest(entries, max).len() <= entries.len(),
        forall|i: int| 0 <= i < keep_newest(entries, max).len() ==> #[trigger] keep_newest(entries, max)[i]
            == entries[entries.len() - keep_newest(entries, max).len() + i],
{
}

/// The nibbles of a byte sequence, high digit first.
pub open spec fn byte_nibbles(b: Seq<u8>) -> Seq<u8>
    decreases b.len(),
{
    if b.len() == 0 {
        Seq::empty()
    } else {
        byte_nibbles(b.drop_last()) + seq![(b.last() / 16) as u8, (b.last() % 16) as u8]
    }
}

proof fn lemma_nibbles_concat(a: Seq<char>, b: Seq<char>)
    ensures
        hex_nibbles(a + b) == hex_nibbles(a) + hex_nibbles(b),
    decreases b.len(),
{
    if b.len() == 0 {
        assert(a + b =~= a);
        assert(hex_nibbles(a) + hex_nibbles(b) =~= hex_nibbles(a));
    } else {
        lemma_nibbles_concat(a, b.drop_last());
        assert((a + b).drop_last() =~= a + b.drop_last());
        assert((a + b).last() == b.last());
        if is_hex_char(b.last()) {
            assert(hex_nibbles(a + b) =~= hex_nibbles(a) + hex_nibbles(b));
        } else {
            assert(hex_nibbles(a + b) =~= hex_nibbles(a) + hex_nibbles(b));
        }
    }
}

proof fn lemma_hex_digit_value(n: int)
    requires
        0 <= n < 16,
    ensures
        is_hex_char(hex_digit(n)),
        hex_value(hex_digit(n)) == n,
{
}

proof fn lemma_nibbles_hex2(x: u8)
    ensures
        hex_nibbles(hex2(x)) == seq![(x / 16) as u8, (x % 16) as u8],
{
    lemma_hex_digit_value((x / 16) as int);
    lemma_hex_digit_value((x % 16) as int);
    let h = hex2(x);
    let d = h.drop_last();
    assert(d =~= seq![hex_digit((x / 16) as int)]);
    assert(d.drop_last() =~= Seq::<char>::empty());
    assert(d.last() == hex_digit((x / 16) as int));
    assert(hex_nibbles(d) == hex_nibbles(d.drop_last()).push(hex_value(d.last())));
    assert(hex_nibbles(d) =~= seq![(x / 16) as u8]);
    assert(h.last() == hex_digit((x % 16) as int));
    assert(hex_nibbles(h) == hex_nibbles(d).push(hex_value(h.last())));
    assert(hex_nibbles(h) =~= seq![(x / 16) as u8, (x % 16) as u8]);
}

proof fn lemma_nibbles_of_hex(b: Seq<u8>)
    ensures
        hex_nibbles(hex_spaced(b)) == byte_nibbles(b),
    decreases b.len(),
{
    if b.len() == 0 {
    } else if b.len() == 1 {
        lemma_nibbles_hex2(b[0]);
        assert(b.drop_last() =~= Seq::<u8>::empty());
        assert(b.last() == b[0]);
        assert(byte_nibbles(b.drop_last()) =~= Seq::<u8>::empty());
        assert(byte_nibbles(b) =~= seq![(b[0] / 16) as u8, (b[0] % 16) as u8]);
    } else {
        lemma_nibbles_of_hex(b.drop_last());
        let front = hex_spaced(b.drop_last());
        lemma_nibbles_concat(front, seq![' ']);
        lemma_nibbles_concat(front + seq![' '], hex2(b.last()));
        lemma_nibbles_hex2(b.last());
        let sp = seq![' '];
        assert(sp.drop_last() =~= Seq::<char>::empty());
        assert(sp.last() == ' ');
        assert(!is_hex_char(' '));
        assert(hex_nibbles(sp) == hex_nibbles(sp.drop_last()));
        assert(hex_nibbles(sp) =~= Seq::<u8>::empty());
        assert(hex_nibbles(hex_spaced(b)) =~= byte_nibbles(b));
    }
}

proof fn lemma_byte_nibbles_index(b: Seq<u8>)
    ensures
        byte_nibbles(b).len() == 2 * b.len(),
        forall|i: int| 0 <= i < b.len() ==> byte_nibbles(b)[2 * i] == (#[trigger] b[i] / 16) as u8
            && byte_nibbles(b)[2 * i + 1] == (b[i] % 16) as u8,
    decreases b.len(),
{
    if b.len() > 0 {
        lemma_byte_nibbles_index(b.drop_last());
        assert forall|i: int| 0 <= i < b.len() implies byte_nibbles(b)[2 * i] == (#[trigger] b[i] / 16) as u8
            && byte_nibbles(b)[2 * i + 1] == (b[i] % 16) as u8 by {
            if i < b.len() - 1 {
                assert(b.drop_last()[i] == b[i]);
            }
        }
    }
}

/// The hex text Capture Studio shows for a frame parses back, as a raw
/// write, to the frame's bytes.
pub proof fn law_hex_text_roundtrip(b: Seq<u8>)
    ensures
        hex_nibbles(hex_spaced(b)).len() % 2 == 0,
        pack_nibbles(hex_nibbles(hex_spaced(b))) == b,
{
    lemma_nibbles_of_hex(b);
    lemma_byte_nibbles_index(b);
    let n = byte_nibbles(b);
    assert forall|i: int| 0 <= i < b.len() implies #[trigger] pack_nibbles(n)[i] == b[i] by {
        assert(n[2 * i] == (b[i] / 16) as u8);
        assert(n[2 * i + 1] == (b[i] % 16) as u8);
    }
    assert(pack_nibbles(n) =~= b);
}

/// A stopped capture records nothing: offering it a frame leaves the journal
/// exactly as stopping left it.
pub proof fn law_stopped_capture_records_nothing(
    v: JournalView,
    stop_ts: u64,
    direction: Direction,
    data: Seq<u8>,
    char_uuid: Option<Seq<char>>,
    decoded: Option<Seq<char>>,
    ts: u64,
)
    ensures
        recorded_view(stopped_view(v, stop_ts), direction, data, char_uuid, decoded, ts) == stopped_view(v, stop_ts),
{
}

/// Recording during a capture adds the new entry's id to the current step's
/// list (and only to it), so each step counts the frames recorded while it
/// was current.
pub proof fn law_record_counts_for_current_step(
    v: JournalView,
    direction: Direction,
    data: Seq<u8>,
    char_uuid: Option<Seq<char>>,
    decoded: Option<Seq<char>>,
    ts: u64,
    k: int,
)
    requires
        v.session.active,
        v.session.current_step_id matches Some(c) && find_step(v.session.steps, c) == Some(k),
    ensures
        recorded_view(v, direction, data, char_uuid, decoded, ts).session.steps.len() == v.session.steps.len(),
        recorded_view(v, direction, data, char_uuid, decoded, ts).session.steps[k].entry_ids
            == v.session.steps[k].entry_ids.push(v.next_id),
        forall|j: int|
            0 <= j < v.session.steps.len() && j != k ==> #[trigger] recorded_view(
                v,
                direction,
                data,
                char_uuid,
                decoded,
                ts,
            ).session.steps[j] == v.session.steps[j],
{
    assert(attach_entry(v.session, v.next_id) == recorded_view(v, direction, data, char_uuid, decoded, ts).session.steps);
    crate::capture::store::lemma_find_step_range(v.session.steps, v.session.current_step_id->0, 0);
}

/// While a capture is active, each recorded frame adds one entry until the
/// limit is reached; from then on the journal stays at its limit.
pub proof fn law_record_grows_to_limit(
    v: JournalView,
    direction: Direction,
    data: Seq<u8>,
    char_uuid: Option<Seq<char>>,
    decoded: Option<Seq<char>>,
    ts: u64,
)
    requires
        v.session.active,
    ensures
        recorded_view(v, direction, data, char_uuid, decoded, ts).session.entries.len() == if v.session.entries.len()
            + 1 > v.max_entries {
            v.max_entries
        } else {
            v.session.entries.len() + 1
        },
{
}

/// Only a verified model gets a verified profile, and only a device without
/// a model is left without a protocol family.
pub proof fn law_profile_follows_model(m: Option<ModelView>)
    ensures
        profile_of(m).verified <==> (m matches Some(x) && x.support == SupportLevel::Verified),
        profile_of(m).protocol == ProtocolFamily::Unknown <==> m is None,
{
}

proof fn lemma_no_aa_find_byte(s: Seq<u8>, k: int)
    requires
        0 <= k,
        forall|j: int| 0 <= j < s.len() ==> s[j] != 0xAA,
    ensures
        find_byte(s, 0xAA, k) is None,
    decreases s.len() - k,
{
    if k < s.len() {
        lemma_no_aa_find_byte(s, k + 1);
    }
}

proof fn lemma_no_aa_scan(s: Seq<u8>, i: int, out: Seq<Seq<u8>>)
    requires
        0 <= i,
        forall|j: int| 0 <= j < s.len() ==> s[j] != 0xAA,
    ensures
        scan_aa(s, i, out) == out,
    decreases s.len() - i,
{
    if i + 5 < s.len() {
        lemma_no_aa_scan(s, i + 1, out);
    }
}

/// Unwrapping a 789C frame that wrapping produced from a typed command gives
/// the command back as a notification frame (`AA` and the opcode with its
/// payload), provided no byte of the wrapped frame is 0xAA (the unwrapper
/// also picks up literal `AA` bytes).
pub proof fn law_unwrap_undoes_wrap(bare: Seq<u8>)
    requires
        is_bare_command(bare),
        opcode_type_spec(bare[1]) != 0,
        bare[1] != 0x01,
        bare.len() <= 256,
        forall|j: int| 0 <= j < wrapped(bare).len() ==> wrapped(bare)[j] != 0xAA,
    ensures
        unwrap_spec(wrapped(bare)) == seq![aa_frame(bare.subrange(1, bare.len() as int))],
{
    let w = wrapped(bare);
    let body = wrap_body(bare);
    let sub = wrap_content(bare);
    let ty = opcode_type_spec(bare[1]);
    let len: int = sub.len() as int;
    assert(sub == bare.subrange(1, bare.len() as int));
    assert(1 <= len <= 255);
    let v = ((len as u16) + 9) as u16;
    assert(v == len + 9);
    assert(body == seq![0x78u8, 0x9Cu8] + be16_bytes(v) + seq![0x02u8, ty, (len as u16) as u8] + sub);
    assert(body.len() == 7 + len);
    assert(w.len() == 9 + len);
    assert(w[0] == 0x78 && w[1] == 0x9C);
    assert(w[2] == (v / 256) as u8 && w[3] == (v % 256) as u8);
    assert(be16_value(w[2], w[3]) == len + 9);
    assert(w[4] == 0x02 && w[5] == ty && w[6] == len);
    assert(w.subrange(7, 7 + len) =~= sub);
    assert(w.subrange(0, w.len() as int) =~= w);
    lemma_no_aa_find_byte(w, 0);
    let frame = aa_frame(sub);
    let empty: Seq<Seq<u8>> = seq![];
    assert(push_unique(empty, frame) == seq![frame]);
    assert(walk(w, 6 + len, w.len() - 2, seq![frame]) == (seq![frame], false));
    assert(walk(w, 5, w.len() - 2, empty) == (seq![frame], true));
    assert(extract_inner(w, empty) == seq![frame]);
    assert(scan_packets(w, w.len() as int, seq![frame]) == seq![frame]);
    assert(scan_packets(w, 0, empty) == seq![frame]);
    lemma_no_aa_scan(w, 0, seq![frame]);
}

/// A case reading (no earbud levels) leaves the earbud levels and flags as
/// they were; an earbud reading (no case level, case not charging) leaves
/// the case as it was.
pub proof fn law_battery_merge_keeps_other_side(cur: BatteryState, p: BatteryState)
    ensures
        p.left == 0 && p.right == 0 ==> {
            let m = merge_battery(cur, p);
            m.left == cur.left && m.right == cur.right && m.left_charging == cur.left_charging
                && m.right_charging == cur.right_charging && m.case == p.case && m.case_charging == p.case_charging
        },
        (p.left != 0 || p.right != 0) && p.case == 0 && !p.case_charging ==> {
            let m = merge_battery(cur, p);
            m.case == cur.case && m.case_charging == cur.case_charging && m.left == p.left && m.right == p.right
        },
{
}

/// The listing order is a strict order: no device comes before itself, and
/// coming before is transitive.
pub proof fn law_listing_order_is_strict(a: DeviceView, b: DeviceView, c: DeviceView)
    ensures
        !precedes(a, a),
        precedes(a, b) ==> !precedes(b, a),
        precedes(a, b) && precedes(b, c) ==> precedes(a, c),
{
}

/// A lowercase name identifies a model exactly when some catalog pattern
/// occurs in it, and then the model is the one of the winning match: the
/// longest matching pattern, the first in catalog order among equally long
/// ones.
pub proof fn law_identify_picks_best_match(lower: Seq<char>)
    ensures
        !any_match(lower) ==> identified_lower(lower) is None,
        any_match(lower) ==> exists|i: int, j: int|
            #[trigger] best_pair(lower, catalog(), i, j) && identified_lower(lower) == Some(catalog()[i]),
{
    if any_match(lower) {
        lemma_best_pair_exists(lower, catalog());
        let (i, j) = choose|i: int, j: int| best_pair(lower, catalog(), i, j);
        let (ci, cj) = choose|ci: int, cj: int| best_pair(lower, catalog(), ci, cj);
        lemma_best_pair_unique(lower, catalog(), i, j, ci, cj);
        assert(identified_lower(lower) == Some(catalog()[i]));
    }
}

/// Every handshake event keeps a ready flow ready and a timed-out flow timed
/// out, and never changes the timeout.
pub proof fn law_handshake_end_phases_stay(v: HandshakeView, e: HandshakeEvent)
    ensures
        v.phase == Phase::Ready ==> handshake_step(v, e).phase == Phase::Ready,
        v.phase == Phase::TimedOut ==> handshake_step(v, e).phase == Phase::TimedOut,
        handshake_step(v, e).timeout_ms == v.timeout_ms,
{
}

/// After any sequence of events from a fresh flow: the timeout is the one
/// the flow was made with, the time recorded is the saturating sum of all
/// elapsed times, a bind action is known exactly when the flow is ready, and
/// a timed-out flow has used up its time.
pub proof fn law_handshake_records_elapsed_time(timeout_ms: u64, events: Seq<HandshakeEvent>)
    ensures
        handshake_run(fresh_flow(timeout_ms), events).timeout_ms == timeout_ms,
        handshake_run(fresh_flow(timeout_ms), events).elapsed_ms == total_elapsed(events),
        handshake_run(fresh_flow(timeout_ms), events).bind_action is Some
            <==> handshake_run(fresh_flow(timeout_ms), events).phase == Phase::Ready,
        handshake_run(fresh_flow(timeout_ms), events).phase == Phase::TimedOut
            ==> handshake_run(fresh_flow(timeout_ms), events).elapsed_ms >= timeout_ms,
    decreases events.len(),
{
    if events.len() > 0 {
        law_handshake_records_elapsed_time(timeout_ms, events.drop_last());
    }
}

/// After any sequence of events, `elapsed_ms` more milliseconds time the
/// flow out exactly when it is not ready and the saturating sum of all
/// elapsed times reaches the timeout; otherwise the phase stays, and the bind
/// action never changes.
pub proof fn law_handshake_timeout(timeout_ms: u64, events: Seq<HandshakeEvent>, elapsed_ms: u64)
    ensures
        ({
            let v = handshake_run(fresh_flow(timeout_ms), events);
            let w = elapse(v, elapsed_ms);
            &&& w.bind_action == v.bind_action
            &&& v.phase == Phase::Ready ==> w.phase == Phase::Ready
            &&& v.phase != Phase::Ready ==> (w.phase == Phase::TimedOut <==> saturating_sum(
                total_elapsed(events),
                elapsed_ms,
            ) >= timeout_ms)
            &&& w.phase != Phase::TimedOut ==> w.phase == v.phase
        }),
{
    law_handshake_records_elapsed_time(timeout_ms, events);
}

/// Capture is active exactly when the last start or stop was a start; other
/// operations leave the flag alone, so with neither it keeps its value.
pub proof fn law_capture_active_follows_start_stop(v: JournalView, ops: Seq<CaptureOp>)
    ensures
        capture_run(v, ops).session.active == match last_start_or_stop(ops) {
            Some(started) => started,
            None => v.session.active,
        },
    decreases ops.len(),
{
    if ops.len() > 0 {
        law_capture_active_follows_start_stop(v, ops.drop_last());
    }
}

/// A fresh store is inactive until started, and afterwards it is active
/// exactly when the last start or stop was a start.
pub proof fn law_fresh_capture_active_after_start(ops: Seq<CaptureOp>)
    ensures
        capture_run(fresh_journal(), ops).session.active == (last_start_or_stop(ops) == Some(true)),
{
    law_capture_active_follows_start_stop(fresh_journal(), ops);
}

/// The layout of a wrapped typed command: header, length, fixed 02, type,
/// content length, content, then two CRC bytes.
proof fn lemma_wrapped_typed_shape(bare: Seq<u8>)
    requires
        is_bare_command(bare),
        opcode_type_spec(bare[1]) != 0,
        bare[1] != 0x01,
        bare.len() <= 256,
    ensures
        wrapped(bare).len() == bare.len() + 8,
        wrapped(bare)[0] == 0x78,
        wrapped(bare)[1] == 0x9C,
        be16_value(wrapped(bare)[2], wrapped(bare)[3]) == bare.len() + 8,
        wrapped(bare)[4] == 0x02,
        wrapped(bare)[5] == opcode_type_spec(bare[1]),
        wrapped(bare)[6] == bare.len() - 1,
        wrapped(bare).subrange(7, bare.len() as int + 6) == bare.subrange(1, bare.len() as int),
{
    let w = wrapped(bare);
    let body = wrap_body(bare);
    let sub = wrap_content(bare);
    let ty = opcode_type_spec(bare[1]);
    let len: int = sub.len() as int;
    assert(sub == bare.subrange(1, bare.len() as int));
    assert(1 <= len <= 255);
    let v = ((len as u16) + 9) as u16;
    assert(v == len + 9);
    let head = seq![0x78u8, 0x9Cu8] + be16_bytes(v) + seq![0x02u8, ty, (len as u16) as u8];
    assert(body == head + sub);
    assert(head.len() == 7);
    assert(body.len() == 7 + len);
    assert(w == body + be16_bytes(crc16_spec(body)));
    assert(w.len() == 9 + len);
    assert(w[0] == head[0] && w[1] == head[1] && w[2] == head[2] && w[3] == head[3]);
    assert(w[4] == head[4] && w[5] == head[5] && w[6] == head[6]);
    assert(w[2] == (v / 256) as u8 && w[3] == (v % 256) as u8);
    assert(be16_value(w[2], w[3]) == len + 9);
    assert(w.subrange(7, 7 + len) =~= sub);
}

/// One wrapped typed command without 0xAA bytes yields exactly its AA form.
proof fn lemma_extract_wrapped(bare: Seq<u8>, out: Seq<Seq<u8>>)
    requires
        is_bare_command(bare),
        opcode_type_spec(bare[1]) != 0,
        bare[1] != 0x01,
        bare.len() <= 256,
        forall|j: int| 0 <= j < wrapped(bare).len() ==> wrapped(bare)[j] != 0xAA,
    ensures
        extract_inner(wrapped(bare), out) == push_unique(out, aa_frame(bare.subrange(1, bare.len() as int))),
{
    lemma_wrapped_typed_shape(bare);
    let w = wrapped(bare);
    let len: int = bare.len() - 1;
    let frame = aa_frame(bare.subrange(1, bare.len() as int));
    lemma_no_aa_find_byte(w, 0);
    let out1 = push_unique(out, frame);
    assert(walk(w, 6 + len, w.len() - 2, out1) == (out1, false));
    assert(walk(w, 5, w.len() - 2, out) == (out1, true));
}

/// Unwrapping two wrapped typed commands sent back to back (different
/// opcodes, no 0xAA byte anywhere) gives the AA form of the first, then that
/// of the second: every packet of the buffer is read, each after the
/// previous one's total length.
pub proof fn law_unwrap_reads_every_packet(a: Seq<u8>, b: Seq<u8>)
    requires
        is_bare_command(a),
        is_bare_command(b),
        opcode_type_spec(a[1]) != 0,
        opcode_type_spec(b[1]) != 0,
        a[1] != 0x01,
        b[1] != 0x01,
        a[1] != b[1],
        a.len() <= 256,
        b.len() <= 256,
        forall|j: int| 0 <= j < (wrapped(a) + wrapped(b)).len() ==> (wrapped(a) + wrapped(b))[j] != 0xAA,
    ensures
        unwrap_spec(wrapped(a) + wrapped(b)) == seq![
            aa_frame(a.subrange(1, a.len() as int)),
            aa_frame(b.subrange(1, b.len() as int)),
        ],
{
    let wa = wrapped(a);
    let wb = wrapped(b);
    let w = wa + wb;
    let n1 = wa.len() as int;
    let n2 = wb.len() as int;
    lemma_wrapped_typed_shape(a);
    lemma_wrapped_typed_shape(b);
    assert forall|j: int| 0 <= j < wa.len() implies wa[j] != 0xAA by {
        assert(w[j] == wa[j]);
    }
    assert forall|j: int| 0 <= j < wb.len() implies wb[j] != 0xAA by {
        assert(w[n1 + j] == wb[j]);
    }
    let fa = aa_frame(a.subrange(1, a.len() as int));
    let fb = aa_frame(b.subrange(1, b.len() as int));
    let empty: Seq<Seq<u8>> = seq![];
    lemma_extract_wrapped(a, empty);
    lemma_extract_wrapped(b, seq![fa]);
    assert(push_unique(empty, fa) == seq![fa]);
    assert(fa[1] == a[1] && fb[1] == b[1]);
    assert(find_same_opcode(seq![fa], b[1], 1) is None);
    assert(find_same_opcode(seq![fa], b[1], 0) is None);
    assert(!seq![fa].contains(fb)) by {
        if seq![fa].contains(fb) {
            assert(seq![fa][0] == fb);
        }
    }
    assert(push_unique(seq![fa], fb) == seq![fa, fb]);
    assert(w.subrange(0, n1) =~= wa);
    assert(w.subrange(n1, n1 + n2) =~= wb);
    assert(w[n1 + 2] == wb[2] && w[n1 + 3] == wb[3]);
    assert(w[0] == 0x78 && w[1] == 0x9C && w[2] == wa[2] && w[3] == wa[3]);
    assert(scan_packets(w, n1 + n2, seq![fa, fb]) == seq![fa, fb]);
    assert(scan_packets(w, n1, seq![fa]) == seq![fa, fb]);
    assert(scan_packets(w, 0, empty) == seq![fa, fb]);
    lemma_no_aa_scan(w, 0, seq![fa, fb]);
}

/// The type byte of a wrapped command follows the official table: set and
/// action opcodes are wrapped `78 9C | len+9 | 02 03 len | opcode payload |
/// CRC`, query and state opcodes the same with type 01 (opcode 01 carries
/// FF), and every other opcode `78 9C | len+7 | 02 | opcode payload | CRC`.
pub proof fn law_wrap_type_table(op: u8, payload: Seq<u8>)
    requires
        payload.len() <= 250,
    ensures
        ({
            let w = wrapped(seq![0xBAu8, op] + payload);
            let set = op == 0x10 || op == 0x22 || op == 0x24 || op == 0x26 || op == 0x2B || op == 0x2D
                || op == 0x2E || op == 0x34 || op == 0x37 || op == 0x3A || op == 0x3C || op == 0x4A
                || op == 0x4C || op == 0x4F || op == 0x50 || op == 0x52 || op == 0x54 || op == 0x56
                || op == 0x58 || op == 0x8D || op == 0x8F || op == 0x92 || op == 0x94 || op == 0x97
                || op == 0x9B || op == 0xA2 || op == 0xA4 || op == 0xFE || op == 0x31;
            let query = op == 0x01 || op == 0x02 || op == 0x12 || op == 0x19 || op == 0x1A || op == 0x1C
                || op == 0x21 || op == 0x23 || op == 0x25 || op == 0x27 || op == 0x2A || op == 0x2C
                || op == 0x2F || op == 0x30 || op == 0x33 || op == 0x35 || op == 0x36 || op == 0x38
                || op == 0x40 || op == 0x4B || op == 0x4E || op == 0x51 || op == 0x53 || op == 0x55
                || op == 0x57 || op == 0x59 || op == 0x5A || op == 0x5B || op == 0x80 || op == 0x8A
                || op == 0x8B || op == 0x8C || op == 0x8E || op == 0x91 || op == 0x93 || op == 0x96
                || op == 0x9A || op == 0xA1 || op == 0xA3;
            &&& w[0] == 0x78 && w[1] == 0x9C && w[4] == 0x02
            &&& set ==> w[5] == 0x03 && w[6] == payload.len() + 1 && w[7] == op
                && be16_value(w[2], w[3]) == payload.len() + 10 && w.len() == payload.len() + 10
                && w.subrange(8, 8 + payload.len() as int) == payload
            &&& query && op != 0x01 ==> w[5] == 0x01 && w[6] == payload.len() + 1 && w[7] == op
                && be16_value(w[2], w[3]) == payload.len() + 10 && w.len() == payload.len() + 10
                && w.subrange(8, 8 + payload.len() as int) == payload
            &&& op == 0x01 ==> w[5] == 0x01 && w[6] == 0x01 && w[7] == 0xFF && w.len() == 10
            &&& !set && !query ==> w[5] == op && be16_value(w[2], w[3]) == payload.len() + 8
                && w.len() == payload.len() + 8 && w.subrange(6, 6 + payload.len() as int) == payload
        }),
{
    let bare = seq![0xBAu8, op] + payload;
    let sub = wrap_content(bare);
    let ty = opcode_type_spec(op);
    assert(bare[1] == op);
    let w = wrapped(bare);
    let body = wrap_body(bare);
    if ty != 0 {
        if op == 0x01 {
            assert(sub == seq![0xFFu8]);
            let v = ((sub.len() as u16) + 9) as u16;
            assert(body == seq![0x78u8, 0x9Cu8] + be16_bytes(v) + seq![0x02u8, ty, (sub.len() as u16) as u8] + sub);
        } else {
            assert(sub =~= seq![op] + payload);
            let v = ((sub.len() as u16) + 9) as u16;
            assert(v == payload.len() + 10);
            assert(body == seq![0x78u8, 0x9Cu8] + be16_bytes(v) + seq![0x02u8, ty, (sub.len() as u16) as u8] + sub);
            assert(w[2] == (v / 256) as u8 && w[3] == (v % 256) as u8);
            assert(w.subrange(8, 8 + payload.len() as int) =~= payload);
        }
    } else {
        assert(sub =~= seq![op] + payload);
        let v = (((sub.len() as u16) as int) + 7) as u16;
        assert(v == payload.len() + 8);
        assert(body == seq![0x78u8, 0x9Cu8] + be16_bytes(v) + seq![0x02u8] + sub);
        assert(w[2] == (v / 256) as u8 && w[3] == (v % 256) as u8);
        assert(w.subrange(6, 6 + payload.len() as int) =~= payload);
    }
}

/// An EQ query response (`AA 42`) or set acknowledgement (`AA 43`) decodes
/// to the preset its byte names (00 Balanced, 01 Bass, 02 Voice, 03 Clear;
/// anything else Balanced), and a game-mode notification (`AA 23`) to on
/// exactly when its byte is nonzero.
pub proof fn law_eq_and_game_notifications(op: u8, b: u8, last: Option<AncMode>, r: Result<DeviceEvent, DecodeError>)
    requires
        decodes_to(op, seq![b], last, r),
    ensures
        op == 0x42 || op == 0x43 ==> r == Ok::<DeviceEvent, DecodeError>(DeviceEvent::Eq(
            if b == 0x01 {
                EqPreset::BassBoost
            } else if b == 0x02 {
                EqPreset::Voice
            } else if b == 0x03 {
                EqPreset::Clear
            } else {
                EqPreset::Balanced
            },
        )),
        op == 0x23 ==> r == Ok::<DeviceEvent, DecodeError>(DeviceEvent::GameMode(b != 0)),
{
}

/// The same for whole notification buffers `AA <op> <b>`: for every preset,
/// both `AA 42 <p>` and `AA 43 <p>` decode to that preset.
pub proof fn law_eq_notification_roundtrip(p: EqPreset, op: u8, last: Option<AncMode>, r: Result<DeviceEvent, DecodeError>)
    requires
        op == 0x42 || op == 0x43,
        notification_decodes_to(seq![0xAAu8, op, eq_preset_byte(p)], last, r),
    ensures
        r == Ok::<DeviceEvent, DecodeError>(DeviceEvent::Eq(p)),
{
    let data = seq![0xAAu8, op, eq_preset_byte(p)];
    assert(data.subrange(2, 3) =~= seq![eq_preset_byte(p)]);
    law_eq_and_game_notifications(op, eq_preset_byte(p), last, r);
    assert(eq_preset_byte(p) == match p {
        EqPreset::Balanced => 0u8,
        EqPreset::BassBoost => 1u8,
        EqPreset::Voice => 2u8,
        EqPreset::Clear => 3u8,
    });
}

/// An advertisement holding one AD structure `len | type | payload`:
/// 128-bit service UUID lists (types 06 and 07) with a 16-byte payload add
/// that UUID's text; 16-bit lists (02, 03) add each 16-bit UUID; type FF is
/// the manufacturer data; other types leave the service list empty.
pub proof fn law_single_ad_structure(t: u8, payload: Seq<u8>)
    requires
        payload.len() <= 254,
    ensures
        ({
            let adv = parse_from(seq![(payload.len() + 1) as u8, t] + payload, 0, empty_advertisement());
            &&& (t == 0x06 || t == 0x07) && payload.len() == 16 ==> adv.service_uuids == seq![uuid128_text(payload)]
            &&& (t == 0x02 || t == 0x03) ==> adv.service_uuids == uuid16_texts(payload)
            &&& t == 0xFF ==> adv.manufacturer_data == payload && adv.service_uuids.len() == 0
            &&& !(t == 0x02 || t == 0x03 || t == 0x06 || t == 0x07) ==> adv.service_uuids.len() == 0
        }),
{
    let data = seq![(payload.len() + 1) as u8, t] + payload;
    assert(data[0] as int == payload.len() + 1);
    assert(data[1] == t);
    assert(data.subrange(2, data.len() as int) =~= payload);
    let e = empty_advertisement();
    assert(data.len() == payload.len() + 2);
    assert(parse_from(data, data.len() as int, apply_ad(e, t, payload)) == apply_ad(e, t, payload));
    assert(parse_from(data, 0, e) == parse_from(data, data.len() as int, apply_ad(e, t, payload)));
    assert(Seq::<Seq<char>>::empty() + uuid16_texts(payload) =~= uuid16_texts(payload));
    assert(Seq::<Seq<char>>::empty().push(uuid128_text(payload)) =~= seq![uuid128_text(payload)]);
}

/// The wire bytes of every command: `BA`, the opcode, then the payload,
/// with each flag carried as 01 (on) or 00 (off), so commands that differ
/// in a flag differ on the wire.
pub proof fn law_command_wire_format(cmd: Command)
    ensures
        command_bytes(cmd) == match cmd {
            Command::SetAnc { mode, level } => seq![0xBAu8, 0x34, match mode {
                AncMode::Off => 0x00u8,
                AncMode::Anc => 0x01u8,
                AncMode::Transparency => 0x02u8,
            }, level],
            Command::SetNoise { mode, parameter } => seq![0xBAu8, 0x34, match mode {
                AncMode::Off => 0x00u8,
                AncMode::Anc => 0x01u8,
                AncMode::Transparency => 0x02u8,
            }, parameter],
            Command::SetEq(p) => seq![0xBAu8, 0x43, match p {
                EqPreset::Balanced => 0x00u8,
                EqPreset::BassBoost => 0x01u8,
                EqPreset::Voice => 0x02u8,
                EqPreset::Clear => 0x03u8,
            }],
            Command::SetEqIndex(i) => seq![0xBAu8, 0x43, i],
            Command::QueryEq => seq![0xBAu8, 0x42],
            Command::QueryBattery => seq![0xBAu8, 0x02],
            Command::SetGameMode(on) => seq![0xBAu8, 0x24, if on { 0x01u8 } else { 0x00u8 }],
            Command::SetSpatial(m) => seq![0xBAu8, 0x43, match m {
                SpatialMode::Off => 0x00u8,
                SpatialMode::Music => 0x01u8,
                SpatialMode::Cinema => 0x02u8,
                SpatialMode::Game => 0x03u8,
            }],
            Command::SetBassBoost(level) => seq![0xBAu8, 0x54, if level != 0 { 0x01u8 } else { 0x00u8 }, level],
            Command::SetLdac(on) => seq![0xBAu8, 0x75, if on { 0x01u8 } else { 0x00u8 }],
            Command::QueryLdac => seq![0xBAu8, 0x74],
            Command::SetHearingProtection { enabled, level } => seq![0xBAu8, 0x94, if enabled { 0x01u8 } else { 0x00u8 }, level],
            Command::QueryHearingProtection => seq![0xBAu8, 0x93],
            Command::FindBuds(start) => seq![0xBAu8, 0x10, 0x02, if start { 0x01u8 } else { 0x00u8 }],
        },
        command_bytes(Command::SetGameMode(true)) != command_bytes(Command::SetGameMode(false)),
{
    assert(command_bytes(cmd) =~= match cmd {
        Command::SetAnc { mode, level } => seq![0xBAu8, 0x34, match mode {
            AncMode::Off => 0x00u8,
            AncMode::Anc => 0x01u8,
            AncMode::Transparency => 0x02u8,
        }, level],
        Command::SetNoise { mode, parameter } => seq![0xBAu8, 0x34, match mode {
            AncMode::Off => 0x00u8,
            AncMode::Anc => 0x01u8,
            AncMode::Transparency => 0x02u8,
        }, parameter],
        Command::SetEq(p) => seq![0xBAu8, 0x43, match p {
            EqPreset::Balanced => 0x00u8,
            EqPreset::BassBoost => 0x01u8,
            EqPreset::Voice => 0x02u8,
            EqPreset::Clear => 0x03u8,
        }],
        Command::SetEqIndex(i) => seq![0xBAu8, 0x43, i],
        Command::QueryEq => seq![0xBAu8, 0x42],
        Command::QueryBattery => seq![0xBAu8, 0x02],
        Command::SetGameMode(on) => seq![0xBAu8, 0x24, if on { 0x01u8 } else { 0x00u8 }],
        Command::SetSpatial(m) => seq![0xBAu8, 0x43, match m {
            SpatialMode::Off => 0x00u8,
            SpatialMode::Music => 0x01u8,
            SpatialMode::Cinema => 0x02u8,
            SpatialMode::Game => 0x03u8,
        }],
        Command::SetBassBoost(level) => seq![0xBAu8, 0x54, if level != 0 { 0x01u8 } else { 0x00u8 }, level],
        Command::SetLdac(on) => seq![0xBAu8, 0x75, if on { 0x01u8 } else { 0x00u8 }],
        Command::QueryLdac => seq![0xBAu8, 0x74],
        Command::SetHearingProtection { enabled, level } => seq![0xBAu8, 0x94, if enabled { 0x01u8 } else { 0x00u8 }, level],
        Command::QueryHearingProtection => seq![0xBAu8, 0x93],
        Command::FindBuds(start) => seq![0xBAu8, 0x10, 0x02, if start { 0x01u8 } else { 0x00u8 }],
    });
    assert(command_bytes(Command::SetGameMode(true))[2] != command_bytes(Command::SetGameMode(false))[2]);
}

} // verus!

//! Bass BP1 Pro ANC decoder and command builders
//! (packet table: BP1 Pro ANC reference captures).

use vstd::prelude::*;
use super::framing::Frame;
use super::types::{eq_preset_from_byte, AncMode, BatteryState, DecodeError, DeviceEvent, EqPreset};

verus! {

pub struct Bp1ProAnc;

// ---------------------------------------------------------------------------
// Specification of the decoder
// ---------------------------------------------------------------------------

/// A plausible battery byte: 0..=100, or 0x80 | pct with pct in 0..=100.
pub open spec fn is_pct_byte(b: u8) -> bool {
    b <= 100 || b % 128 <= 100
}

/// Percentage carried by a battery byte: values above 100 lose the charge bit
/// and are capped at 100.
pub open spec fn pct_value(b: u8) -> u8 {
    if b > 100 {
        if b % 128 <= 100 { (b % 128) as u8 } else { 100 }
    } else {
        b
    }
}

/// Charging flag carried by a battery byte (high bit, only when above 100).
pub open spec fn pct_charging(b: u8) -> bool {
    b > 100 && b >= 128
}

/// `LL 00 RR 01` at offset `i` with plausible bytes and both sides at least 5 %.
pub open spec fn lr_window(p: Seq<u8>, i: int) -> bool {
    &&& 0 <= i
    &&& i + 3 < p.len()
    &&& p[i + 1] == 0x00
    &&& p[i + 3] == 0x01
    &&& is_pct_byte(p[i])
    &&& is_pct_byte(p[i + 2])
    &&& pct_value(p[i]) >= 5
    &&& pct_value(p[i + 2]) >= 5
}

/// `i` is the first offset holding an L/R battery window.
pub open spec fn first_lr_window(p: Seq<u8>, i: int) -> bool {
    lr_window(p, i) && forall|j: int| 0 <= j < i ==> !lr_window(p, j)
}

/// Earbud battery state read from the window at offset `i`.
pub open spec fn lr_battery(p: Seq<u8>, i: int) -> BatteryState {
    BatteryState {
        left: pct_value(p[i]),
        right: pct_value(p[i + 2]),
        case: 0,
        left_charging: pct_charging(p[i]),
        right_charging: pct_charging(p[i + 2]),
        case_charging: false,
    }
}

/// Error for an AA 02 payload that holds no L/R window.
pub open spec fn battery_error(p: Seq<u8>) -> DecodeError {
    DecodeError::PayloadTooShort { opcode: 0x02, need: 4, got: p.len() as usize }
}

/// Second byte of a payload, 0 when absent.
pub open spec fn byte_or_zero(p: Seq<u8>, i: int) -> u8 {
    if 0 <= i < p.len() { p[i] } else { 0 }
}

/// Decoding of an AA 27 (case battery) payload.
pub open spec fn case_result(p: Seq<u8>) -> Result<DeviceEvent, DecodeError> {
    let err = DecodeError::PayloadTooShort { opcode: 0x27, need: 1, got: p.len() as usize };
    if p.len() == 0 {
        Err(DecodeError::PayloadTooShort { opcode: 0x27, need: 1, got: 0 })
    } else if !is_pct_byte(p[0]) {
        Err(err)
    } else if pct_value(p[0]) == 0 && !pct_charging(p[0]) && byte_or_zero(p, 1) == 0 {
        Err(err)
    } else {
        Ok(DeviceEvent::Battery(BatteryState {
            left: 0,
            right: 0,
            case: pct_value(p[0]),
            left_charging: false,
            right_charging: false,
            case_charging: byte_or_zero(p, 1) != 0 || pct_charging(p[0]),
        }))
    }
}

/// Noise mode reported by an AA 34 payload: an explicit mode byte 00 / 02, or
/// 01 followed by a level byte that is 0 or at least 0x10; otherwise the last
/// commanded mode (none for an empty payload).
pub open spec fn anc_ack(p: Seq<u8>, last: Option<AncMode>) -> Option<AncMode> {
    if p.len() == 0 {
        None
    } else if p[0] == 0x00 {
        Some(AncMode::Off)
    } else if p[0] == 0x02 {
        Some(AncMode::Transparency)
    } else if p[0] == 0x01 && p.len() >= 2 && (p[1] >= 0x10 || p[1] == 0x00) {
        Some(AncMode::Anc)
    } else {
        last
    }
}

/// Decoding of an AA frame body (command byte and payload) other than AA 02.
pub open spec fn frame_result(cmd: u8, p: Seq<u8>, last: Option<AncMode>) -> Result<DeviceEvent, DecodeError> {
    if cmd == 0x23 {
        Ok(DeviceEvent::GameMode(byte_or_zero(p, 0) != 0))
    } else if cmd == 0x27 {
        case_result(p)
    } else if cmd == 0x34 {
        match anc_ack(p, last) {
            Some(m) => Ok(DeviceEvent::Anc(m)),
            None => Err(DecodeError::UnknownOpcode(0x34)),
        }
    } else if cmd == 0x42 || cmd == 0x43 {
        Ok(DeviceEvent::Eq(
            match eq_preset_from_byte(byte_or_zero(p, 0)) {
                Some(e) => e,
                None => EqPreset::Balanced,
            },
        ))
    } else {
        Err(DecodeError::UnknownOpcode(cmd))
    }
}

/// The full decoder contract for a frame with command byte `cmd` and payload `p`.
pub open spec fn decodes_to(cmd: u8, p: Seq<u8>, last: Option<AncMode>, r: Result<DeviceEvent, DecodeError>) -> bool {
    if cmd == 0x02 {
        &&& (r is Ok <==> exists|i: int| lr_window(p, i))
        &&& forall|i: int| first_lr_window(p, i) ==> r == Ok::<DeviceEvent, DecodeError>(DeviceEvent::Battery(lr_battery(p, i)))
        &&& (r is Err ==> r == Err::<DeviceEvent, DecodeError>(battery_error(p)))
    } else {
        r == frame_result(cmd, p, last)
    }
}

// ---------------------------------------------------------------------------
// Decoder
// ---------------------------------------------------------------------------

impl Bp1ProAnc {
    /// Decode a notification frame into a high-level event.
    pub fn decode_frame(frame: &Frame, last_anc: Option<AncMode>) -> (r: Result<DeviceEvent, DecodeError>)
        ensures
            decodes_to(frame.cmd, frame.payload@, last_anc, r),
    {
        let p = frame.payload.as_slice();
        match frame.cmd {
            // Battery L/R: AA 02 [L%] 00 [R%] 01
            0x02 => Self::decode_battery(p),
            // Game mode state: AA 23 [00|01]
            0x23 => {
                let on = if p.len() > 0 { p[0] != 0 } else { false };
                Ok(DeviceEvent::GameMode(on))
            },
            // Case battery: AA 27 [case%] [charging]
            0x27 => Self::decode_case(p),
            // 0x32 / 0x33 are deliberately not read as ANC: those opcodes belong
            // to other features and produced false mode changes.
            // ANC set/query reply: AA 34 [mode] [level?]
            0x34 => match Self::resolve_anc_ack(p, last_anc) {
                Some(mode) => Ok(DeviceEvent::Anc(mode)),
                None => Err(DecodeError::UnknownOpcode(0x34)),
            },
            // EQ query response / set ack
            0x42 | 0x43 => {
                let byte = if p.len() > 0 { p[0] } else { 0 };
                let preset = match EqPreset::from_byte(byte) {
                    Some(e) => e,
                    None => EqPreset::Balanced,
                };
                Ok(DeviceEvent::Eq(preset))
            },
            // Keepalive / identity / case event and everything else
            other => Err(DecodeError::UnknownOpcode(other)),
        }
    }

    /// Resolve an AA 34 noise-mode notify.
    ///
    /// The official write is `BA 34 <mode> <level>` with mode `00|01|02`; many
    /// firmwares echo it, some answer a bare `01` ("ok"). An unsure answer never
    /// turns into ANC: it keeps the last commanded mode.
    pub fn resolve_anc_ack(payload: &[u8], last_commanded: Option<AncMode>) -> (r: Option<AncMode>)
        ensures
            r == anc_ack(payload@, last_commanded),
    {
        if payload.len() == 0 {
            return None;
        }
        let b0 = payload[0];
        match b0 {
            0x00 => Some(AncMode::Off),
            0x02 => Some(AncMode::Transparency),
            0x01 => {
                if payload.len() >= 2 {
                    let lvl = payload[1];
                    if lvl >= 0x10 || lvl == 0x00 {
                        return Some(AncMode::Anc);
                    }
                }
                last_commanded
            },
            _ => last_commanded,
        }
    }

    /// Some firmwares encode charging as the high bit (0x80 | pct).
    fn pct_and_charge(b: u8) -> (r: (u8, bool))
        ensures
            r.0 == pct_value(b),
            r.1 == pct_charging(b),
    {
        if b > 100 {
            let low = b & 0x7F;
            assert(b & 0x7F == b % 128) by (bit_vector);
            assert((b & 0x80 != 0) == (b >= 128)) by (bit_vector);
            (if low > 100 { 100 } else { low }, b & 0x80 != 0)
        } else {
            (b, false)
        }
    }

    /// True if the byte is a plausible battery % (0–100 or 0x80|pct).
    fn is_pct_byte(b: u8) -> (r: bool)
        ensures
            r == is_pct_byte(b),
    {
        assert(b & 0x7F == b % 128) by (bit_vector);
        b <= 100 || (b & 0x7F) <= 100
    }

    /// Whether the window at `i` is an L/R battery window.
    fn lr_window_at(payload: &[u8], i: usize) -> (r: bool)
        requires
            i + 3 < payload.len(),
        ensures
            r == lr_window(payload@, i as int),
    {
        if payload[i + 1] == 0x00 && payload[i + 3] == 0x01 {
            if Self::is_pct_byte(payload[i]) && Self::is_pct_byte(payload[i + 2]) {
                let (left, _lc) = Self::pct_and_charge(payload[i]);
                let (right, _rc) = Self::pct_and_charge(payload[i + 2]);
                return left >= 5 && right >= 5;
            }
        }
        false
    }

    /// The battery event of the window at `i`.
    fn lr_event(payload: &[u8], i: usize) -> (r: DeviceEvent)
        requires
            i + 3 < payload.len(),
        ensures
            r == DeviceEvent::Battery(lr_battery(payload@, i as int)),
    {
        let (left, lc) = Self::pct_and_charge(payload[i]);
        let (right, rc) = Self::pct_and_charge(payload[i + 2]);
        DeviceEvent::Battery(BatteryState {
            left,
            right,
            case: 0,
            left_charging: lc,
            right_charging: rc,
            case_charging: false,
        })
    }

    /// AA 02 payload. Only the official shape `LL 00 RR 01` is accepted (first at
    /// offset 0, otherwise salvaged from the first such window further in); both
    /// sides must read at least 5 % because mode ACKs forge tiny values.
    fn decode_battery(payload: &[u8]) -> (r: Result<DeviceEvent, DecodeError>)
        ensures
            decodes_to(0x02, payload@, None, r),
    {
        if payload.len() >= 4 && Self::lr_window_at(payload, 0) {
            let ev = Self::lr_event(payload, 0);
            proof {
                assert forall|i: int| first_lr_window(payload@, i) implies i == 0 by {
                    if i > 0 {
                        assert(!lr_window(payload@, 0));
                    }
                }
            }
            return Ok(ev);
        }
        match Self::scan_lr_pattern(payload) {
            Some(ev) => Ok(ev),
            None => Err(DecodeError::PayloadTooShort { opcode: 0x02, need: 4, got: payload.len() }),
        }
    }

    /// Find the first exact `LL 00 RR 01` window with both sides plausible and ≥ 5 %.
    fn scan_lr_pattern(payload: &[u8]) -> (r: Option<DeviceEvent>)
        ensures
            r is Some <==> exists|i: int| lr_window(payload@, i),
            forall|i: int| first_lr_window(payload@, i) ==> r == Some(DeviceEvent::Battery(lr_battery(payload@, i))),
    {
        if payload.len() < 4 {
            assert forall|i: int| !lr_window(payload@, i) by {}
            return None;
        }
        let n = payload.len() - 3;
        let mut i: usize = 0;
        while i < n
            invariant
                n == payload@.len() - 3,
                i <= n,
                forall|j: int| 0 <= j < i ==> !lr_window(payload@, j),
            decreases n - i,
        {
            if Self::lr_window_at(payload, i) {
                let ev = Self::lr_event(payload, i);
                proof {
                    assert forall|k: int| first_lr_window(payload@, k) implies k == i by {
                        if k < i {
                        } else if k > i {
                            assert(!lr_window(payload@, i as int));
                        }
                    }
                }
                return Some(ev);
            }
            i = i + 1;
        }
        assert forall|j: int| !lr_window(payload@, j) by {
            if 0 <= j < n {
            }
        }
        None
    }

    /// AA 27 payload: first byte is the case %, second (optional) a charging flag.
    fn decode_case(payload: &[u8]) -> (r: Result<DeviceEvent, DecodeError>)
        ensures
            r == case_result(payload@),
    {
        if payload.len() == 0 {
            return Err(DecodeError::PayloadTooShort { opcode: 0x27, need: 1, got: 0 });
        }
        if !Self::is_pct_byte(payload[0]) {
            return Err(DecodeError::PayloadTooShort { opcode: 0x27, need: 1, got: payload.len() });
        }
        let (case, ch_hi) = Self::pct_and_charge(payload[0]);
        let second = if payload.len() > 1 { payload[1] } else { 0 };
        // Ignore case = 0 unless charging: avoids wiping the case on a junk AA 27.
        if case == 0 && !ch_hi && second == 0 {
            return Err(DecodeError::PayloadTooShort { opcode: 0x27, need: 1, got: payload.len() });
        }
        let case_charging = second != 0 || ch_hi;
        Ok(DeviceEvent::Battery(BatteryState {
            left: 0,
            right: 0,
            case,
            left_charging: false,
            right_charging: false,
            case_charging,
        }))
    }
}

} // verus!

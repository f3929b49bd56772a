//! Logical command encoding and notification decoding.

use vstd::prelude::*;
use super::bp1_pro::{decodes_to, Bp1ProAnc};
use super::framing::{decode_notify_err, decode_notify_ok, write_bytes, Frame};
use super::types::{
    anc_level_from_percent, anc_mode_byte, eq_preset_byte, spatial_mode_byte, AncMode, Command,
    DecodeError, DeviceEvent, EqPreset,
};

verus! {

pub open spec fn flag_byte(b: bool) -> u8 {
    if b { 0x01 } else { 0x00 }
}

/// Opcode and payload of each logical command (the bytes after the BA magic).
pub open spec fn command_body(cmd: Command) -> (u8, Seq<u8>) {
    match cmd {
        Command::SetAnc { mode, level } => (0x34, seq![anc_mode_byte(mode), level]),
        Command::SetNoise { mode, parameter } => (0x34, seq![anc_mode_byte(mode), parameter]),
        Command::SetEq(p) => (0x43, seq![eq_preset_byte(p)]),
        Command::SetEqIndex(i) => (0x43, seq![i]),
        Command::QueryEq => (0x42, seq![]),
        Command::QueryBattery => (0x02, seq![]),
        Command::SetGameMode(on) => (0x24, seq![flag_byte(on)]),
        Command::SetSpatial(m) => (0x43, seq![spatial_mode_byte(m)]),
        Command::SetBassBoost(level) => (0x54, seq![flag_byte(level != 0), level]),
        Command::SetLdac(on) => (0x75, seq![flag_byte(on)]),
        Command::QueryLdac => (0x74, seq![]),
        Command::SetHearingProtection { enabled, level } => (0x94, seq![flag_byte(enabled), level]),
        Command::QueryHearingProtection => (0x93, seq![]),
        Command::FindBuds(start) => (0x10, seq![0x02, flag_byte(start)]),
    }
}

/// Bytes written for a logical command: `BA <opcode> <payload...>`.
pub open spec fn command_bytes(cmd: Command) -> Seq<u8> {
    write_bytes(command_body(cmd).0, command_body(cmd).1)
}

/// Encode a command for writing to the GATT write characteristic.
pub fn encode_command(cmd: Command) -> (out: Vec<u8>)
    ensures
        out@ == command_bytes(cmd),
{
    let (op, payload): (u8, Vec<u8>) = match cmd {
        Command::SetAnc { mode, level } => (0x34, vec![mode.to_byte(), level]),
        Command::SetNoise { mode, parameter } => (0x34, vec![mode.to_byte(), parameter]),
        Command::SetEq(preset) => (0x43, vec![preset.to_byte()]),
        Command::SetEqIndex(index) => (0x43, vec![index]),
        Command::QueryEq => (0x42, vec![]),
        Command::QueryBattery => (0x02, vec![]),
        Command::SetGameMode(on) => (0x24, vec![if on { 0x01 } else { 0x00 }]),
        Command::SetSpatial(mode) => (0x43, vec![mode.to_byte()]),
        Command::SetBassBoost(level) => (0x54, vec![if level != 0 { 0x01 } else { 0x00 }, level]),
        Command::SetLdac(on) => (0x75, vec![if on { 0x01 } else { 0x00 }]),
        Command::QueryLdac => (0x74, vec![]),
        Command::SetHearingProtection { enabled, level } => (0x94, vec![if enabled { 0x01 } else { 0x00 }, level]),
        Command::QueryHearingProtection => (0x93, vec![]),
        Command::FindBuds(start) => (0x10, vec![0x02, if start { 0x01 } else { 0x00 }]),
    };
    assert(payload@ =~= command_body(cmd).1);
    Frame::write(op, payload.as_slice()).encode_write()
}

/// Result of decoding a notification buffer with the bare AA/BA framing.
pub open spec fn notification_decodes_to(data: Seq<u8>, last: Option<AncMode>, r: Result<DeviceEvent, DecodeError>) -> bool {
    if decode_notify_ok(data) {
        decodes_to(data[1], data.subrange(2, data.len() as int), last, r)
    } else {
        r == Err::<DeviceEvent, DecodeError>(DecodeError::Frame(decode_notify_err(data)))
    }
}

/// Decode a notification payload from the device.
pub fn decode_notification(data: &[u8], last_anc: Option<AncMode>) -> (r: Result<DeviceEvent, DecodeError>)
    ensures
        notification_decodes_to(data@, last_anc, r),
{
    let frame = match Frame::decode_notify(data) {
        Ok(f) => f,
        Err(e) => return Err(DecodeError::Frame(e)),
    };
    Bp1ProAnc::decode_frame(&frame, last_anc)
}

// ---------------------------------------------------------------------------
// Command builders of the BP1 family
// ---------------------------------------------------------------------------

impl Bp1ProAnc {
    pub fn cmd_set_anc(mode: AncMode, strength_pct: u8) -> (out: Vec<u8>)
        ensures
            out@ == command_bytes(Command::SetAnc { mode, level: anc_level_from_percent(mode, strength_pct) }),
    {
        let level = mode.level_from_percent(strength_pct);
        encode_command(Command::SetAnc { mode, level })
    }

    pub fn cmd_set_noise(mode: AncMode, parameter: u8) -> (out: Vec<u8>)
        ensures
            out@ == command_bytes(Command::SetNoise { mode, parameter }),
    {
        encode_command(Command::SetNoise { mode, parameter })
    }

    pub fn cmd_set_eq(preset: EqPreset) -> (out: Vec<u8>)
        ensures
            out@ == command_bytes(Command::SetEq(preset)),
    {
        encode_command(Command::SetEq(preset))
    }

    pub fn cmd_query_eq() -> (out: Vec<u8>)
        ensures
            out@ == command_bytes(Command::QueryEq),
    {
        encode_command(Command::QueryEq)
    }

    pub fn cmd_set_game_mode(on: bool) -> (out: Vec<u8>)
        ensures
            out@ == command_bytes(Command::SetGameMode(on)),
    {
        encode_command(Command::SetGameMode(on))
    }

    /// Start (`true`) or stop (`false`) the find tone on both buds.
    pub fn cmd_find_buds(start: bool) -> (out: Vec<u8>)
        ensures
            out@ == command_bytes(Command::FindBuds(start)),
    {
        encode_command(Command::FindBuds(start))
    }
}

} // verus!

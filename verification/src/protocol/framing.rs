//! Frame encode / decode.
//!
//! Notify magic = 0xAA, write magic = 0xBA; no length field, no CRC on the
//! bare BLE path.

use vstd::prelude::*;
use super::types::FrameError;

verus! {

pub const MAGIC_NOTIFY: u8 = 0xAA;
pub const MAGIC_WRITE: u8 = 0xBA;

/// Raw frame: [magic, cmd, payload...]
#[derive(Debug, Clone, PartialEq, Eq)]
pub struct Frame {
    pub magic: u8,
    pub cmd: u8,
    pub payload: Vec<u8>,
}

/// What decoding a notification buffer gives: at least two bytes, and a magic of
/// 0xAA or 0xBA (both are accepted on the notify path).
pub open spec fn decode_notify_ok(buf: Seq<u8>) -> bool {
    buf.len() >= 2 && (buf[0] == MAGIC_NOTIFY || buf[0] == MAGIC_WRITE)
}

/// The error reported for a buffer that `decode_notify_ok` rejects.
pub open spec fn decode_notify_err(buf: Seq<u8>) -> FrameError {
    if buf.len() < 2 {
        FrameError::TooShort { need: 2, got: buf.len() as usize }
    } else {
        FrameError::BadMagic { got: buf[0] }
    }
}

/// Bytes written for a frame: the write magic, the command byte, the payload.
pub open spec fn write_bytes(cmd: u8, payload: Seq<u8>) -> Seq<u8> {
    seq![MAGIC_WRITE, cmd] + payload
}

impl Frame {
    pub const MAGIC_NOTIFY: u8 = 0xAA;
    pub const MAGIC_WRITE: u8 = 0xBA;

    /// Parse a GATT notification (device → app).
    pub fn decode_notify(buf: &[u8]) -> (r: Result<Self, FrameError>)
        ensures
            decode_notify_ok(buf@) ==> (r matches Ok(f) && f.magic == buf@[0] && f.cmd == buf@[1]
                && f.payload@ == buf@.subrange(2, buf@.len() as int)),
            !decode_notify_ok(buf@) ==> r == Err::<Self, FrameError>(decode_notify_err(buf@)),
    {
        Self::decode_with_magic(buf, MAGIC_NOTIFY)
    }

    /// Parse with an expected magic; the other known magic is tolerated because
    /// some firmwares echo it on both paths.
    fn decode_with_magic(buf: &[u8], expected: u8) -> (r: Result<Self, FrameError>)
        requires
            expected == MAGIC_NOTIFY || expected == MAGIC_WRITE,
        ensures
            decode_notify_ok(buf@) ==> (r matches Ok(f) && f.magic == buf@[0] && f.cmd == buf@[1]
                && f.payload@ == buf@.subrange(2, buf@.len() as int)),
            !decode_notify_ok(buf@) ==> r == Err::<Self, FrameError>(decode_notify_err(buf@)),
    {
        if buf.len() < 2 {
            return Err(FrameError::TooShort { need: 2, got: buf.len() });
        }
        if buf[0] != expected {
            if buf[0] != MAGIC_NOTIFY && buf[0] != MAGIC_WRITE {
                return Err(FrameError::BadMagic { got: buf[0] });
            }
        }
        let rest = vstd::slice::slice_subrange(buf, 2, buf.len());
        Ok(Self { magic: buf[0], cmd: buf[1], payload: vstd::slice::slice_to_vec(rest) })
    }

    /// Build a write frame (app → device).
    pub fn write(cmd: u8, payload: &[u8]) -> (f: Self)
        ensures
            f.magic == MAGIC_WRITE,
            f.cmd == cmd,
            f.payload@ == payload@,
    {
        Self { magic: MAGIC_WRITE, cmd, payload: vstd::slice::slice_to_vec(payload) }
    }

    /// Encode for the GATT write characteristic (always with the write magic).
    pub fn encode_write(&self) -> (out: Vec<u8>)
        ensures
            out@ == write_bytes(self.cmd, self.payload@),
    {
        let mut out: Vec<u8> = Vec::new();
        out.push(MAGIC_WRITE);
        out.push(self.cmd);
        let mut i: usize = 0;
        while i < self.payload.len()
            invariant
                i <= self.payload.len(),
                out@ == seq![MAGIC_WRITE, self.cmd] + self.payload@.take(i as int),
            decreases self.payload.len() - i,
        {
            out.push(self.payload[i]);
            assert(self.payload@.take(i + 1) =~= self.payload@.take(i as int).push(self.payload@[i as int]));
            i = i + 1;
        }
        assert(self.payload@.take(self.payload.len() as int) =~= self.payload@);
        out
    }
}

/// Decoding what `encode_write` produced gives back the command byte and the
/// payload (the write magic is accepted on the notify path).
pub proof fn lemma_write_then_decode(cmd: u8, payload: Seq<u8>)
    ensures
        decode_notify_ok(write_bytes(cmd, payload)),
        write_bytes(cmd, payload)[0] == MAGIC_WRITE,
        write_bytes(cmd, payload)[1] == cmd,
        write_bytes(cmd, payload).subrange(2, write_bytes(cmd, payload).len() as int) == payload,
{
    assert(write_bytes(cmd, payload).subrange(2, write_bytes(cmd, payload).len() as int) =~= payload);
}

} // verus!

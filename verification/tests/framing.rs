use baseus_desktop::protocol::framing::Frame;
use baseus_desktop::protocol::types::{DecodeError, FrameError};

#[test]
fn decode_battery() {
    let f = Frame::decode_notify(&[0xAA, 0x02, 0x64, 0x00, 0x64, 0x01]).unwrap();
    assert_eq!(f.cmd, 0x02);
    assert_eq!(f.payload, vec![0x64, 0x00, 0x64, 0x01]);
}

#[test]
fn encode_anc_write() {
    let f = Frame::write(0x34, &[0x01, 0x68]);
    assert_eq!(f.encode_write(), vec![0xBA, 0x34, 0x01, 0x68]);
}

#[test]
fn reject_bad_magic() {
    assert!(matches!(
        Frame::decode_notify(&[0x00, 0x30]),
        Err(FrameError::BadMagic { got: 0x00 })
    ));
}

#[test]
fn reject_short_buffer() {
    assert!(matches!(
        Frame::decode_notify(&[0xAA]),
        Err(FrameError::TooShort { need: 2, got: 1 })
    ));
}

#[test]
fn write_magic_accepted_on_notify_path() {
    let f = Frame::decode_notify(&[0xBA, 0x34, 0x01]).unwrap();
    assert_eq!(f.magic, 0xBA);
    assert_eq!(f.cmd, 0x34);
    assert_eq!(f.payload, vec![0x01]);
}

#[test]
fn error_texts() {
    assert_eq!(
        FrameError::TooShort { need: 2, got: 1 }.message(),
        "buffer too short: need at least 2 bytes, got 1"
    );
    assert_eq!(FrameError::BadMagic { got: 0x0f }.message(), "bad magic: expected 0xAA or 0xBA, got 0x0f");
    assert_eq!(DecodeError::UnknownOpcode(0x3B).message(), "unknown opcode 0x3B");
    assert_eq!(
        DecodeError::PayloadTooShort { opcode: 0x27, need: 1, got: 0 }.message(),
        "payload too short for opcode 0x27: need 1, got 0"
    );
    assert_eq!(
        DecodeError::Frame(FrameError::BadMagic { got: 0 }).message(),
        "bad magic: expected 0xAA or 0xBA, got 0x00"
    );
}

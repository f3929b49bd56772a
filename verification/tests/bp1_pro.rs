use baseus_desktop::protocol::bp1_pro::Bp1ProAnc;
use baseus_desktop::protocol::codec::{decode_notification, encode_command};
use baseus_desktop::protocol::framing::Frame;
use baseus_desktop::protocol::types::{AncMode, Command, DecodeError, DeviceEvent, EqPreset, SpatialMode};

fn dec(raw: &[u8]) -> Result<DeviceEvent, DecodeError> {
    let f = Frame::decode_notify(raw).unwrap();
    Bp1ProAnc::decode_frame(&f, None)
}

#[test]
fn battery_100_100() {
    let ev = dec(&[0xAA, 0x02, 0x64, 0x00, 0x64, 0x01]).unwrap();
    match ev {
        DeviceEvent::Battery(b) => {
            assert_eq!(b.left, 100);
            assert_eq!(b.right, 100);
        }
        _ => panic!("expected battery"),
    }
}

#[test]
fn battery_salvage_wrapped_junk_prefix() {
    let ev = dec(&[0xAA, 0x02, 0x01, 0x05, 0x02, 0x64, 0x00, 0x50, 0x01]).unwrap();
    match ev {
        DeviceEvent::Battery(b) => {
            assert_eq!(b.left, 100);
            assert_eq!(b.right, 80);
        }
        _ => panic!("expected battery"),
    }
}

#[test]
fn battery_reject_mode_ack_noise() {
    assert!(dec(&[0xAA, 0x02, 0x01, 0x00, 0x00, 0x01]).is_err());
    assert!(dec(&[0xAA, 0x02, 0x03, 0x01]).is_err());
}

#[test]
fn case_50_not_charging() {
    let ev = dec(&[0xAA, 0x27, 0x32, 0x00]).unwrap();
    match ev {
        DeviceEvent::Battery(b) => {
            assert_eq!(b.case, 50);
            assert!(!b.case_charging);
        }
        _ => panic!("expected case battery"),
    }
}

#[test]
fn game_mode_on() {
    assert_eq!(dec(&[0xAA, 0x23, 0x01]).unwrap(), DeviceEvent::GameMode(true));
}

#[test]
fn eq_bass() {
    assert_eq!(dec(&[0xAA, 0x43, 0x01]).unwrap(), DeviceEvent::Eq(EqPreset::BassBoost));
}

#[test]
fn anc_write_bytes() {
    let bytes = Bp1ProAnc::cmd_set_anc(AncMode::Anc, 70);
    assert_eq!(bytes[0], 0xBA);
    assert_eq!(bytes[1], 0x34);
    assert_eq!(bytes[2], 0x01);
}

#[test]
fn anc_ack_explicit_modes() {
    assert_eq!(Bp1ProAnc::resolve_anc_ack(&[0x00, 0xFF], None), Some(AncMode::Off));
    assert_eq!(Bp1ProAnc::resolve_anc_ack(&[0x02, 0xFF], None), Some(AncMode::Transparency));
    assert_eq!(Bp1ProAnc::resolve_anc_ack(&[0x01, 0x68], None), Some(AncMode::Anc));
}

#[test]
fn anc_ack_generic_ok_keeps_last_not_default_anc() {
    assert_eq!(Bp1ProAnc::resolve_anc_ack(&[0x01], Some(AncMode::Off)), Some(AncMode::Off));
    assert_eq!(
        Bp1ProAnc::resolve_anc_ack(&[0x01], Some(AncMode::Transparency)),
        Some(AncMode::Transparency)
    );
    assert_eq!(Bp1ProAnc::resolve_anc_ack(&[0x01], None), None);
}

#[test]
fn anc_no_false_aa33() {
    assert!(dec(&[0xAA, 0x33]).is_err());
    assert!(dec(&[0xAA, 0x32]).is_err());
}

#[test]
fn readme_packet_table() {
    assert_eq!(Bp1ProAnc::cmd_set_anc(AncMode::Off, 0), vec![0xBA, 0x34, 0x00, 0xFF]);
    assert_eq!(Bp1ProAnc::cmd_set_anc(AncMode::Transparency, 0), vec![0xBA, 0x34, 0x02, 0xFF]);
    assert_eq!(Bp1ProAnc::cmd_set_eq(EqPreset::BassBoost), vec![0xBA, 0x43, 0x01]);
    assert_eq!(Bp1ProAnc::cmd_set_game_mode(true), vec![0xBA, 0x24, 0x01]);
    assert_eq!(Bp1ProAnc::cmd_query_eq(), vec![0xBA, 0x42]);
}

#[test]
fn anc_strength_maps_to_level_byte() {
    let bytes = Bp1ProAnc::cmd_set_anc(AncMode::Anc, 100);
    assert_eq!(bytes.len(), 4);
    assert_eq!(&bytes[..3], &[0xBA, 0x34, 0x01]);
}

#[test]
fn encoder_opcodes() {
    assert_eq!(encode_command(Command::QueryBattery), vec![0xBA, 0x02]);
    assert_eq!(encode_command(Command::SetBassBoost(0)), vec![0xBA, 0x54, 0x00, 0x00]);
    assert_eq!(encode_command(Command::SetLdac(true)), vec![0xBA, 0x75, 0x01]);
    assert_eq!(encode_command(Command::QueryLdac), vec![0xBA, 0x74]);
    assert_eq!(encode_command(Command::SetSpatial(SpatialMode::Cinema)), vec![0xBA, 0x43, 0x02]);
    assert_eq!(encode_command(Command::FindBuds(false)), vec![0xBA, 0x10, 0x02, 0x00]);
    assert_eq!(
        encode_command(Command::SetHearingProtection { enabled: true, level: 3 }),
        vec![0xBA, 0x94, 0x01, 0x03]
    );
}

#[test]
fn decode_errors() {
    assert!(matches!(
        decode_notification(&[0xAA, 0x27], None),
        Err(DecodeError::PayloadTooShort { opcode: 0x27, need: 1, got: 0 })
    ));
    assert!(matches!(decode_notification(&[0xAA, 0x99, 0x01], None), Err(DecodeError::UnknownOpcode(0x99))));
    assert!(matches!(decode_notification(&[0x11, 0x02], None), Err(DecodeError::Frame(_))));
}

#[test]
fn charging_bit_and_case_charging() {
    let ev = decode_notification(&[0xAA, 0x02, 0xE4, 0x00, 0x50, 0x01], None).unwrap();
    match ev {
        DeviceEvent::Battery(b) => {
            assert_eq!(b.left, 100);
            assert!(b.left_charging);
            assert_eq!(b.right, 80);
            assert!(!b.right_charging);
        }
        _ => panic!("expected battery"),
    }
    match decode_notification(&[0xAA, 0x27, 0x40, 0x01], None).unwrap() {
        DeviceEvent::Battery(b) => {
            assert_eq!(b.case, 64);
            assert!(b.case_charging);
        }
        _ => panic!("expected case battery"),
    }
}

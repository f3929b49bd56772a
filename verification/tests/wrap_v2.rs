use baseus_desktop::protocol::wrap_v2::{battery_query_frame, crc16, needs_v2_wrap, unwrap_notify, wrap_ba_command};

#[test]
fn wrap_anc() {
    let w = wrap_ba_command(&[0xBA, 0x34, 0x01, 0x68]).unwrap();
    assert_eq!(w[0], 0x78);
    assert_eq!(w[1], 0x9C);
    assert_eq!(&w[0..10], &[0x78, 0x9C, 0x00, 0x0C, 0x02, 0x03, 0x03, 0x34, 0x01, 0x68]);
    assert_eq!(w.len(), 12);
    assert_eq!(&w[10..], &[0xD6, 0xC2]);
}

#[test]
fn wrap_handshake() {
    let w = wrap_ba_command(&[0xBA, 0x05, 0x00]).unwrap();
    assert_eq!(w, vec![0x78, 0x9C, 0x00, 0x09, 0x02, 0x05, 0x00, 0x97, 0x5F]);
}

#[test]
fn wrap_eq() {
    let w = wrap_ba_command(&[0xBA, 0x43, 0x00]).unwrap();
    assert_eq!(w, vec![0x78, 0x9C, 0x00, 0x09, 0x02, 0x43, 0x00, 0xF7, 0x6D]);
}

#[test]
fn wrap_ba02_query() {
    let w = wrap_ba_command(&[0xBA, 0x02]).unwrap();
    assert_eq!(&w[0..8], &[0x78, 0x9C, 0x00, 0x0A, 0x02, 0x01, 0x01, 0x02]);
    assert_eq!(w.len(), 10);
}

#[test]
fn bp1_ultra_battery_poll_uses_one_wrapped_query() {
    let frame = battery_query_frame();
    assert_eq!(frame[..2], [0x78, 0x9C]);
    assert_eq!(frame[5..8], [0x02, 0x01, 0x01]);
}

#[test]
fn unwrap_bare_aa02() {
    let frames = unwrap_notify(&[0xAA, 0x02, 0x64, 0x00, 0x64, 0x01]);
    assert_eq!(frames.len(), 1);
    assert_eq!(frames[0], vec![0xAA, 0x02, 0x64, 0x00, 0x64, 0x01]);
}

#[test]
fn unwrap_789c_battery_like_official() {
    let mut body = vec![
        0x78, 0x9C, 0x00, 0x0E, 0x02, 0x01, 0x05, 0x02, 0x64, 0x00, 0x64, 0x01,
    ];
    let total = (body.len() + 2) as u16;
    body[2] = (total >> 8) as u8;
    body[3] = (total & 0xFF) as u8;
    let c = crc16(&body);
    body.push((c >> 8) as u8);
    body.push((c & 0xFF) as u8);

    let frames = unwrap_notify(&body);
    assert!(
        frames.iter().any(|f| f == &vec![0xAA, 0x02, 0x64, 0x00, 0x64, 0x01]),
        "expected AA0264006401, got {:02X?}",
        frames
    );
}

#[test]
fn wrap_rejects_non_write_frames() {
    assert!(wrap_ba_command(&[0xAA, 0x34, 0x01]).is_none());
    assert!(wrap_ba_command(&[0xBA]).is_none());
}

#[test]
fn crc_matches_modbus_check_value() {
    assert_eq!(crc16(b"123456789"), 0x4B37);
}

#[test]
fn ultra_models_need_the_wrapped_transport() {
    assert!(needs_v2_wrap(None, Some("Baseus Bass BP1 Ultra"), None));
    assert!(!needs_v2_wrap(Some("bass-bp1-pro"), Some("Baseus Bass BP1 Pro"), None));
}

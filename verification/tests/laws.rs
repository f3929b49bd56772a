use baseus_desktop::ble::devices::BleDevice;
use baseus_desktop::ble::hex::parse_hex;
use baseus_desktop::ble::link::{merge_battery_reading, BleState};
use baseus_desktop::protocol::bp1_pro::Bp1ProAnc;
use baseus_desktop::protocol::codec::decode_notification;
use baseus_desktop::protocol::models::ProtocolFamily;
use baseus_desktop::protocol::profile::profile_for;
use baseus_desktop::protocol::router::{encode_feature, encode_listening, FeatureCommand, ListeningCommand};
use baseus_desktop::protocol::types::{AncMode, BatteryState, DeviceEvent, EqPreset, SpatialMode};
use baseus_desktop::protocol::wrap_v2::{unwrap_notify, wrap_ba_command};
use baseus_desktop::text::hex_encode;
use baseus_desktop::ui::is_remote_newer;

#[test]
fn unknown_family_refuses_everything() {
    let p = profile_for(None, Some("Random Earbuds"), None);
    assert_eq!(p.protocol, ProtocolFamily::Unknown);
    for f in [
        FeatureCommand::SetEq(EqPreset::Voice),
        FeatureCommand::SetEqIndex(2),
        FeatureCommand::SetGameMode(false),
        FeatureCommand::SetSpatial(SpatialMode::Music),
        FeatureCommand::SetBassBoost(1),
        FeatureCommand::SetLdac(true),
        FeatureCommand::SetHearingProtection { enabled: true, level: 1 },
        FeatureCommand::FindBuds(true),
    ] {
        assert!(encode_feature(&p, f).is_err());
    }
    for l in [ListeningCommand::Normal, ListeningCommand::TransparencyFull, ListeningCommand::CustomLevel(1)] {
        assert!(encode_listening(&p, l).is_err());
    }
}

#[test]
fn eq_presets_roundtrip_through_their_byte() {
    for p in [EqPreset::Balanced, EqPreset::BassBoost, EqPreset::Voice, EqPreset::Clear] {
        assert_eq!(EqPreset::from_byte(p.to_byte()), Some(p));
    }
    assert_eq!(EqPreset::from_byte(4), None);
}

#[test]
fn anc_echo_reports_the_mode() {
    assert_eq!(Bp1ProAnc::resolve_anc_ack(&[0x00, 0x00], Some(AncMode::Anc)), Some(AncMode::Off));
    assert_eq!(Bp1ProAnc::resolve_anc_ack(&[0x02, 0x37], None), Some(AncMode::Transparency));
    assert_eq!(Bp1ProAnc::resolve_anc_ack(&[0x01, 0x10], Some(AncMode::Off)), Some(AncMode::Anc));
    assert_eq!(Bp1ProAnc::resolve_anc_ack(&[0x01, 0x00], None), Some(AncMode::Anc));
}

#[test]
fn battery_and_case_notifications() {
    assert_eq!(
        decode_notification(&[0xAA, 0x02, 0x05, 0x00, 0x64, 0x01], None).unwrap(),
        DeviceEvent::Battery(BatteryState {
            left: 5,
            right: 100,
            case: 0,
            left_charging: false,
            right_charging: false,
            case_charging: false
        })
    );
    assert_eq!(
        decode_notification(&[0xAA, 0x27, 0x00, 0x01], None).unwrap(),
        DeviceEvent::Battery(BatteryState {
            left: 0,
            right: 0,
            case: 0,
            left_charging: false,
            right_charging: false,
            case_charging: true
        })
    );
}

#[test]
fn merging_a_reading_twice_changes_nothing_more() {
    let cur = BatteryState { left: 1, right: 2, case: 3, left_charging: false, right_charging: true, case_charging: false };
    for p in [
        BatteryState { left: 50, right: 0, case: 0, left_charging: false, right_charging: false, case_charging: true },
        BatteryState { left: 0, right: 0, case: 44, left_charging: false, right_charging: false, case_charging: false },
        BatteryState { left: 9, right: 8, case: 0, left_charging: true, right_charging: false, case_charging: false },
    ] {
        let once = merge_battery_reading(cur, p);
        assert_eq!(merge_battery_reading(once, p), once);
    }
}

#[test]
fn versions_compare_strictly() {
    for (a, b) in [("1.2.3", "1.2.4"), ("v2", "1.9"), ("1.0", "1"), ("0.1.0-rc1", "0.1.0")] {
        assert!(!is_remote_newer(a, a));
        assert!(!(is_remote_newer(a, b) && is_remote_newer(b, a)));
    }
}

#[test]
fn stored_device_is_found_again() {
    let mut st = BleState::new();
    let d = |rssi: i16| BleDevice {
        id: "id-1".into(),
        name: "n".into(),
        address: "a".into(),
        rssi,
        is_baseus: true,
        connected: false,
        model_id: None,
        model_name: None,
        support: None,
    };
    st.add_device(d(-10));
    st.add_device(d(-20));
    let status = st.scan_status();
    assert_eq!(status.devices.len(), 1);
    assert_eq!(status.devices[0].rssi, -20);
}

#[test]
fn logged_hex_parses_back_to_the_frame() {
    for frame in [vec![], vec![0x00], vec![0xBA, 0x34, 0x01, 0x68], (0..=255u8).collect::<Vec<u8>>()] {
        assert_eq!(parse_hex(&hex_encode(&frame)), Ok(frame.clone()));
    }
}

#[test]
fn profiles_follow_models() {
    let verified = profile_for(Some("bass-bp1-pro"), None, None);
    assert!(verified.verified);
    assert_eq!(verified.protocol, ProtocolFamily::Bp1Pro);
    let experimental = profile_for(Some("bowie-ma10"), None, None);
    assert!(!experimental.verified);
    assert_eq!(experimental.protocol, ProtocolFamily::BaseusAaBaExperimental);
    let none = profile_for(None, None, None);
    assert!(!none.verified);
    assert_eq!(none.protocol, ProtocolFamily::Unknown);
}

#[test]
fn unwrapping_a_wrapped_command_gives_it_back() {
    let w = wrap_ba_command(&[0xBA, 0x34, 0x01, 0x68]).unwrap();
    assert!(!w.contains(&0xAA));
    assert_eq!(unwrap_notify(&w), vec![vec![0xAA, 0x34, 0x01, 0x68]]);
}

#[test]
fn readings_of_one_side_keep_the_other() {
    let cur = BatteryState { left: 40, right: 41, case: 42, left_charging: true, right_charging: false, case_charging: true };
    let case_only = BatteryState { left: 0, right: 0, case: 77, left_charging: false, right_charging: false, case_charging: false };
    let m = merge_battery_reading(cur, case_only);
    assert_eq!((m.left, m.right, m.left_charging, m.case, m.case_charging), (40, 41, true, 77, false));
    let buds_only = BatteryState { left: 90, right: 91, case: 0, left_charging: false, right_charging: false, case_charging: false };
    let m = merge_battery_reading(cur, buds_only);
    assert_eq!((m.case, m.case_charging, m.left, m.right), (42, true, 90, 91));
}

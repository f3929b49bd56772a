use baseus_desktop::ble::devices::{
    fallback_device, is_likely_baseus, listed, mock_devices, model_fields, scanned_device, BleDevice,
};
use baseus_desktop::ble::gatt::{build_gatt_map, pick_notify, pick_write, property_names, CharInfo};
use baseus_desktop::ble::hex::{parse_hex, raw_write_payload};
use baseus_desktop::ble::link::{anc_ack_frame, eq_ack_frame, game_ack_frame, merge_battery_reading, BleState};
use baseus_desktop::ble::order::sort_devices;
use baseus_desktop::protocol::types::{AncMode, BatteryState, DeviceEvent, EqPreset};

fn battery(left: u8, right: u8, case: u8, lc: bool, rc: bool, cc: bool) -> BatteryState {
    BatteryState { left, right, case, left_charging: lc, right_charging: rc, case_charging: cc }
}

fn dev(id: &str, baseus: bool, rssi: i16) -> BleDevice {
    BleDevice {
        id: id.into(),
        name: id.into(),
        address: String::new(),
        rssi,
        is_baseus: baseus,
        connected: false,
        model_id: None,
        model_name: None,
        support: None,
    }
}

#[test]
fn model_fields_for_catalog_baseus_and_other_names() {
    let (b, id, name, support) = model_fields("Baseus Bass BP1 Pro");
    assert!(b);
    assert_eq!(id.as_deref(), Some("bass-bp1-pro"));
    assert_eq!(name.as_deref(), Some("Baseus Bass BP1 Pro"));
    assert_eq!(support.as_deref(), Some("verified"));
    let (b, id, _, support) = model_fields("Baseus Bowie MA10");
    assert!(b);
    assert_eq!(id.as_deref(), Some("bowie-ma10"));
    assert_eq!(support.as_deref(), Some("experimental"));
    let (b, id, name, support) = model_fields("Random Speaker");
    assert!(!b);
    assert!(id.is_none() && name.is_none() && support.is_none());
    assert!(is_likely_baseus("Baseus Bass BP1 Pro"));
    assert!(!is_likely_baseus("Random Speaker"));
}

#[test]
fn unknown_baseus_name_is_scan_only() {
    let (b, id, _, support) = model_fields("Baseus Something New");
    assert!(b);
    assert!(id.is_none());
    assert_eq!(support.as_deref(), Some("scanOnly"));
}

#[test]
fn hex_parsing() {
    assert_eq!(parse_hex("BA 34 01 68"), Ok(vec![0xBA, 0x34, 0x01, 0x68]));
    assert_eq!(parse_hex("ba:3401-6g8"), Ok(vec![0xBA, 0x34, 0x01, 0x68]));
    assert_eq!(parse_hex("ABC"), Err("Hex string must have even length".to_string()));
    assert_eq!(parse_hex(""), Ok(vec![]));
    assert_eq!(raw_write_payload("  "), Err("Empty payload".to_string()));
    assert_eq!(raw_write_payload("aa02"), Ok(vec![0xAA, 0x02]));
    assert_eq!(raw_write_payload("a"), Err("Hex string must have even length".to_string()));
}

#[test]
fn battery_merge_rules() {
    let cur = battery(10, 20, 30, false, false, true);
    assert_eq!(merge_battery_reading(cur, battery(80, 90, 0, true, false, false)), battery(80, 90, 30, true, false, true));
    assert_eq!(merge_battery_reading(cur, battery(0, 0, 55, false, false, false)), battery(10, 20, 55, false, false, false));
    assert_eq!(merge_battery_reading(cur, battery(0, 0, 0, false, false, false)), battery(10, 20, 0, false, false, false));
    assert_eq!(merge_battery_reading(cur, battery(70, 0, 40, false, false, false)), battery(70, 0, 40, false, false, true));
}

#[test]
fn mock_acks() {
    assert_eq!(anc_ack_frame(AncMode::Transparency), vec![0xAA, 0x34, 0x02]);
    assert_eq!(eq_ack_frame(EqPreset::Clear), vec![0xAA, 0x43, 0x03]);
    assert_eq!(game_ack_frame(true), vec![0xAA, 0x23, 0x01]);
    assert_eq!(game_ack_frame(false), vec![0xAA, 0x23, 0x00]);
}

#[test]
fn mock_scan_lists_six_devices() {
    let devices = mock_devices();
    assert_eq!(devices.len(), 6);
    assert_eq!(devices[0].id, "mock-bp1");
    assert_eq!(devices[0].address, "AA:BB:CC:DD:EE:2A");
    assert_eq!(devices[0].rssi, -42);
    assert!(devices[0].is_baseus);
    assert_eq!(devices[0].model_id.as_deref(), Some("bass-bp1-pro"));
    assert_eq!(devices[5].address, "AA:BB:CC:DD:EE:30");
    assert!(devices.iter().all(|d| !d.connected));
}

#[test]
fn scanned_devices() {
    assert!(scanned_device("p1".into(), String::new(), "00".into(), Some(-50)).is_none());
    let d = scanned_device("p1".into(), "Baseus Bass BP1 Pro".into(), "00".into(), None).unwrap();
    assert_eq!(d.rssi, -100);
    assert!(d.is_baseus);
    assert!(!d.connected);
    let f = fallback_device("x".into());
    assert_eq!(f.name, "Baseus");
    assert_eq!(f.support.as_deref(), Some("experimental"));
    assert!(f.connected);
    let l = listed("a".into(), "Random".into(), "addr".into(), -3);
    assert!(!l.is_baseus);
}

#[test]
fn sorting_puts_baseus_first_then_strongest() {
    let sorted = sort_devices(vec![dev("a", false, -10), dev("b", true, -80), dev("c", true, -40), dev("d", false, -5)]);
    let ids: Vec<&str> = sorted.iter().map(|d| d.id.as_str()).collect();
    assert_eq!(ids, vec!["c", "b", "d", "a"]);
}

#[test]
fn state_scan_connect_disconnect() {
    let mut st = BleState::new();
    assert!(st.begin_scan());
    assert!(!st.begin_scan());
    st.add_device(dev("x", true, -50));
    st.add_device(dev("y", false, -20));
    st.add_device(dev("x", true, -30));
    let status = st.scan_status();
    assert!(status.scanning);
    assert_eq!(status.devices.len(), 2);
    assert_eq!(status.devices[0].id, "x");
    assert_eq!(status.devices[0].rssi, -30);

    st.begin_connect();
    let d = st.on_connected("x".into());
    assert!(d.connected);
    assert_eq!(d.id, "x");
    let conn = st.connection_state();
    assert!(conn.connected);
    assert_eq!(conn.device.unwrap().id, "x");
    assert_eq!(st.write_target(), Ok("x".to_string()));

    st.apply_event(&DeviceEvent::Battery(battery(50, 60, 0, false, false, false)));
    assert_eq!(st.battery().left, 50);
    st.apply_event(&DeviceEvent::Anc(AncMode::Off));
    assert_eq!(st.last_anc(), Some(AncMode::Off));

    assert!(st.end_scan());
    assert!(st.begin_scan());
    assert_eq!(st.scan_status().devices.len(), 1);

    assert_eq!(st.disconnect(), Some("x".to_string()));
    assert_eq!(st.battery(), battery(0, 0, 0, false, false, false));
    assert_eq!(st.last_anc(), None);
    assert!(!st.connection_state().connected);
    assert_eq!(st.write_target(), Err("Not connected".to_string()));
    assert_eq!(st.disconnect(), None);
}

#[test]
fn unknown_connected_device_is_generic() {
    let mut st = BleState::new();
    let d = st.on_connected("ghost".into());
    assert_eq!(d.name, "Baseus");
    assert!(st.connection_state().device.is_none());
}

#[test]
fn mock_connect_and_disconnect_event() {
    let mut st = BleState::new();
    st.begin_mock_scan();
    for d in mock_devices() {
        assert!(st.add_mock_device(d));
    }
    assert_eq!(st.mock_connect("nope".into()).unwrap_err(), "Mock device not found");
    let d = st.mock_connect("mock-e3".into()).unwrap();
    assert!(d.connected);
    assert_eq!(st.battery(), battery(87, 92, 64, false, false, true));
    assert!(st.is_mock());
    assert_eq!(st.write_target(), Err("MOCK".to_string()));
    st.on_device_disconnected("mock-e3");
    assert!(st.connected_id().is_none());
    assert_eq!(st.battery(), battery(0, 0, 0, false, false, false));
    st.end_scan();
    assert!(!st.add_mock_device(dev("late", true, 0)));
}

fn ch(uuid: &str, write: bool, nr: bool, notify: bool) -> CharInfo {
    CharInfo {
        uuid: uuid.into(),
        service_uuid: "svc".into(),
        read: true,
        write,
        write_without_response: nr,
        notify,
        indicate: false,
    }
}

#[test]
fn gatt_map_and_characteristic_choice() {
    let chars = vec![ch("a", false, false, true), ch("b", true, false, false), ch("c", false, true, true)];
    assert_eq!(property_names(&chars[2]), vec!["READ", "WRITE_NR", "NOTIFY"]);
    let map = build_gatt_map(&chars);
    assert_eq!(map.len(), 3);
    assert_eq!(map[1].properties, vec!["READ", "WRITE"]);
    assert_eq!(pick_notify(&chars, "c"), Some(2));
    assert_eq!(pick_notify(&chars, "zz"), Some(0));
    assert_eq!(pick_write(&chars, "c"), Some((2, true)));
    assert_eq!(pick_write(&chars, "zz"), Some((1, false)));
    let none = vec![ch("a", false, false, false)];
    assert_eq!(pick_notify(&none, "zz"), None);
    assert_eq!(pick_write(&none, "zz"), None);
}

use baseus_desktop::capture::hint::hint_decode;
use baseus_desktop::capture::steps::default_guided_steps;
use baseus_desktop::capture::store::CaptureStore;
use baseus_desktop::capture::types::{Direction, GattChar};

fn hint(data: &[u8]) -> Option<String> {
    hint_decode(data)
}

#[test]
fn hints_for_known_opcodes() {
    assert_eq!(hint(&[0xAA]), None);
    assert_eq!(hint(&[0xAA, 0x02, 0x64, 0x00, 0x50, 0x01]).as_deref(), Some("RX Battery L=100% R=80%"));
    assert_eq!(hint(&[0xBA, 0x24, 0x01]).as_deref(), Some("TX GameMode cmd ON"));
    assert_eq!(hint(&[0xAA, 0x23]).as_deref(), Some("RX GameMode OFF"));
    assert_eq!(hint(&[0xAA, 0x27, 0x32, 0x01]).as_deref(), Some("RX Case 50% chg=1"));
    assert_eq!(hint(&[0xAA, 0x27, 0x32]).as_deref(), Some("RX Case 50% chg=0"));
    assert_eq!(hint(&[0xBA, 0x34, 0x01, 0x68]).as_deref(), Some("TX ANC ANC level=0x68"));
    assert_eq!(hint(&[0xBA, 0x34, 0x00, 0xFF]).as_deref(), Some("TX ANC Off level=0xff"));
    assert_eq!(hint(&[0xAA, 0x34, 0x01]).as_deref(), Some("RX ANC ack"));
    assert_eq!(hint(&[0xAA, 0x42, 0x03]).as_deref(), Some("RX EQ query resp 3"));
    assert_eq!(hint(&[0xBA, 0x43, 0x01]).as_deref(), Some("TX EQ Bass"));
    assert_eq!(hint(&[0xBA, 0x43, 0x09]).as_deref(), Some("TX EQ ?"));
    assert_eq!(hint(&[0xAA, 0x12]).as_deref(), Some("RX Identity"));
    assert_eq!(hint(&[0xAA, 0x92]).as_deref(), Some("RX Find/Gesture?"));
    assert_eq!(hint(&[0xAA, 0x5A]).as_deref(), Some("RX cmd=0x5a"));
    assert_eq!(hint(&[0x78, 0x9C]).as_deref(), Some("raw magic=0x78"));
    assert_eq!(hint(&[0xAA, 0x02, 0x64]).as_deref(), Some("RX cmd=0x02"));
}

#[test]
fn default_steps_in_order() {
    let steps = default_guided_steps();
    let ids: Vec<&str> = steps.iter().map(|s| s.id.as_str()).collect();
    assert_eq!(
        ids,
        vec!["connect", "battery", "anc_off", "anc_on", "transparency", "eq", "game", "find", "disconnect"]
    );
    assert_eq!(steps[0].title, "1. Connect");
    assert!(steps.iter().all(|s| !s.done && s.entry_ids.is_empty()));
}

#[test]
fn inactive_capture_records_nothing() {
    let mut store = CaptureStore::new();
    assert!(!store.is_active());
    assert!(!store.record(Direction::Rx, &[0xAA, 0x02], None, None, 5));
    assert!(store.session().entries.is_empty());
}

#[test]
fn start_record_stop() {
    let mut store = CaptureStore::new();
    store.start(Some("BP1".to_string()), Some("AA:BB".to_string()), 100);
    assert!(store.is_active());
    let s = store.session();
    assert_eq!(s.started_at_ms, Some(100));
    assert_eq!(s.current_step_id.as_deref(), Some("connect"));
    assert_eq!(s.entries.len(), 1);
    assert_eq!(s.entries[0].direction, Direction::Info);
    assert_eq!(s.entries[0].label.as_deref(), Some("Capture started"));
    assert_eq!(s.entries[0].id, 1);

    assert!(store.record(Direction::Rx, &[0xAA, 0x02, 0x64], Some("uuid".into()), Some("hint".into()), 101));
    let s = store.session();
    let e = &s.entries[1];
    assert_eq!(e.id, 2);
    assert_eq!(e.hex, "AA 02 64");
    assert_eq!(e.raw, vec![0xAA, 0x02, 0x64]);
    assert_eq!(e.label.as_deref(), Some("1. Connect"));
    assert_eq!(e.decoded.as_deref(), Some("hint"));
    assert_eq!(e.char_uuid.as_deref(), Some("uuid"));
    assert_eq!(s.steps[0].entry_ids, vec![2]);

    store.stop(102);
    let s = store.session();
    assert!(!s.active);
    assert_eq!(s.entries.last().unwrap().label.as_deref(), Some("Capture stopped — 2 frames"));
    assert!(!store.record(Direction::Tx, &[0xBA, 0x02], None, None, 103));
    assert_eq!(store.session().entries.len(), 3);
}

#[test]
fn steps_annotations_and_notes() {
    let mut store = CaptureStore::new();
    store.start(None, None, 1);
    assert_eq!(store.set_current_step("nope".to_string(), 2), Err("Unknown step: nope".to_string()));
    assert_eq!(store.set_current_step("eq".to_string(), 3), Ok(()));
    assert_eq!(store.session().entries.last().unwrap().label.as_deref(), Some("Step → eq"));
    store.record(Direction::Tx, &[0xBA, 0x43, 0x01], None, None, 4);
    let last = store.session().entries.last().unwrap();
    assert_eq!(last.label.as_deref(), Some("6. EQ presets"));
    let id = last.id;
    assert_eq!(store.session().steps[5].entry_ids, vec![id]);

    assert_eq!(store.annotate(id, "bass".to_string()), Ok(()));
    assert_eq!(store.session().entries.last().unwrap().label.as_deref(), Some("bass"));
    assert_eq!(store.annotate(9999, "x".to_string()), Err("Entry not found".to_string()));

    assert_eq!(store.mark_step_done("eq", true), Ok(()));
    assert!(store.session().steps[5].done);
    assert_eq!(store.mark_step_done("zzz", true), Err("Step not found".to_string()));

    store.add_note("hello".to_string(), 9);
    let last = store.session().entries.last().unwrap();
    assert_eq!(last.direction, Direction::Info);
    assert_eq!(last.label.as_deref(), Some("hello"));
    assert_eq!(last.hex, "");

    store.clear();
    assert!(store.session().entries.is_empty());
    assert!(store.session().steps.iter().all(|s| !s.done && s.entry_ids.is_empty()));
    assert_eq!(store.session().steps[5].id, "eq");
}

#[test]
fn device_info_and_gatt_map() {
    let mut store = CaptureStore::new();
    store.set_device_info(Some("Buds".into()), None);
    store.set_device_info(None, Some("11:22".into()));
    assert_eq!(store.session().device_name.as_deref(), Some("Buds"));
    assert_eq!(store.session().device_address.as_deref(), Some("11:22"));
    store.set_gatt_map(vec![GattChar {
        uuid: "c1".into(),
        properties: vec!["READ".into(), "NOTIFY".into()],
        service_uuid: "s1".into(),
    }]);
    assert_eq!(store.session().gatt_map.len(), 1);
}

#[test]
fn markdown_export() {
    let mut store = CaptureStore::new();
    store.start(Some("BP1".into()), None, 10);
    store.set_gatt_map(vec![GattChar {
        uuid: "c1".into(),
        properties: vec!["READ".into(), "NOTIFY".into()],
        service_uuid: "s1".into(),
    }]);
    store.record(Direction::Tx, &[0xBA, 0x34, 0x01, 0x68], None, Some("TX ANC".into()), 11);
    let md = store.export_markdown(12345).unwrap();
    assert!(md.starts_with("# Capture Bundle\n\n- **Device:** BP1\n- **Address:** —\n- **Frames:** 2\n- **Exported:** 12345\n\n"));
    assert!(md.contains("## GATT map\n\n| Service | Characteristic | Properties |\n|---------|----------------|------------|\n| `s1` | `c1` | READ, NOTIFY |\n\n"));
    assert!(md.contains("| 1 | INFO | — | Capture started | |\n"));
    assert!(md.contains("| 2 | TX | `BA 34 01 68` | 1. Connect | TX ANC |\n"));
    assert!(md.contains("- [ ] **1. Connect** — Pair and connect the earbuds. Watch for identity / handshake frames. (1 frames)\n"));
    assert!(md.ends_with("\n---\n*Generated by Baseus Desktop Capture Studio*\n"));
}

#[test]
fn markdown_without_device_or_gatt() {
    let store = CaptureStore::new();
    let md = store.export_markdown(0).unwrap();
    assert!(md.starts_with("# Capture Bundle\n\n- **Device:** Unknown\n"));
    assert!(!md.contains("GATT map"));
    assert!(md.contains("- **Frames:** 0\n"));
}

#[test]
fn snapshot_and_bundle_copy_the_journal() {
    let mut store = CaptureStore::new();
    store.start(Some("BP1".into()), Some("AA".into()), 1);
    store.record(Direction::Rx, &[0xAA, 0x23, 0x01], None, None, 2);
    let snap = store.snapshot();
    assert_eq!(snap.entries.len(), 2);
    assert_eq!(snap.entries[1].hex, "AA 23 01");
    assert_eq!(snap.steps.len(), 9);
    let bundle = store.export_bundle(None, 77).unwrap();
    assert_eq!(bundle.version, 1);
    assert_eq!(bundle.exported_at_ms, 77);
    assert_eq!(bundle.notes, "");
    assert_eq!(bundle.device_name.as_deref(), Some("BP1"));
    assert_eq!(bundle.entries.len(), 2);
    let bundle = store.export_bundle(Some("n".into()), 78).unwrap();
    assert_eq!(bundle.notes, "n");
}

#[test]
fn journal_keeps_its_newest_entries() {
    let mut store = CaptureStore::new();
    store.start(None, None, 0);
    for i in 0..5001u64 {
        store.record(Direction::Rx, &[0xAA, 0x30], None, None, i);
    }
    let s = store.session();
    assert_eq!(s.entries.len(), 5000);
    assert_eq!(s.entries[0].id, 3);
    assert_eq!(s.entries.last().unwrap().id, 5002);
    assert_eq!(s.steps[0].entry_ids.len(), 5001);
}

#[test]
fn active_flag_follows_the_last_start_or_stop() {
    let mut store = CaptureStore::new();
    assert!(!store.is_active());
    store.add_note("before".into(), 1);
    store.clear();
    assert!(!store.is_active());
    store.start(None, None, 2);
    store.record(Direction::Tx, &[0xBA, 0x02], None, None, 3);
    store.clear();
    let _ = store.mark_step_done("eq", true);
    assert!(store.is_active());
    store.stop(4);
    store.set_device_info(Some("x".into()), None);
    assert!(!store.is_active());
    store.start(None, None, 5);
    assert!(store.is_active());
}

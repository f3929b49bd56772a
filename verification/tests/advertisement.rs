use baseus_desktop::protocol::advertisement::{
    canonical_serial, has_required_service, parse_advertisement, BASEUS_SERVICE_UUID,
};
use baseus_desktop::protocol::models::{identify, ModelInfo};

#[test]
fn parses_ad_structures_and_service_uuids() {
    let data = [3, 0x03, 0x68, 0x56, 3, 0x03, 0xAA, 0xBB, 4, 0xFF, 0x01, 0x02, 0x03];
    let parsed = parse_advertisement(&data);
    assert_eq!(parsed.service_uuids, vec!["5668", "BBAA"], "UUIDs are normalized to advertised bytes");
    assert_eq!(parsed.manufacturer_data, vec![0x01, 0x02, 0x03]);
}

#[test]
fn derives_canonical_serial_from_two_six_byte_values() {
    let manufacturer = [0x01, 0x02, 0x03, 0x04, 0x05, 0x06, 0x10, 0x11, 0x12, 0x13, 0x14, 0x15];
    let serial = canonical_serial(&manufacturer, false).unwrap();
    assert_eq!(serial, "010203040506_101112131415");
}

#[test]
fn reverses_model_specific_serial_byte_order() {
    let manufacturer = [0x01, 0x02, 0x03, 0x04, 0x05, 0x06, 0x10, 0x11, 0x12, 0x13, 0x14, 0x15];
    let serial = canonical_serial(&manufacturer, true).unwrap();
    assert_eq!(serial, "060504030201_151413121110");
}

#[test]
fn rejects_required_service_uuid_when_missing() {
    assert!(!has_required_service(&["0000180F-0000-1000-8000-00805F9B34FB"], true));
    assert!(has_required_service(&[BASEUS_SERVICE_UUID], true));
    assert!(has_required_service(&[], false));
}

#[test]
fn keeps_model_catalog_fields_for_product_presentation() {
    let model: ModelInfo = identify("Baseus Bass BP1 Pro").unwrap();
    assert_eq!(model.image_provenance, "fallback");
    assert!(model.capabilities.bass_boost);
    assert_eq!(model.transport.service_uuid.as_deref(), Some(BASEUS_SERVICE_UUID));
}

#[test]
fn short_manufacturer_data_has_no_serial() {
    assert_eq!(canonical_serial(&[0x01, 0x02, 0x03], false), None);
}

#[test]
fn service_match_ignores_case() {
    assert!(has_required_service(&["53527aa4-29f7-ae11-4e74-997334782568"], true));
}

#[test]
fn parses_name_and_long_uuid() {
    let mut data = vec![5, 0x09, b'B', b'P', b'1', b'!'];
    data.push(17);
    data.push(0x07);
    let uuid_le = [
        0x68, 0x25, 0x78, 0x34, 0x73, 0x99, 0x74, 0x4E, 0x11, 0xAE, 0xF7, 0x29, 0xA4, 0x7A, 0x52, 0x53,
    ];
    data.extend_from_slice(&uuid_le);
    let parsed = parse_advertisement(&data);
    assert_eq!(parsed.local_name.as_deref(), Some("BP1!"));
    assert_eq!(parsed.service_uuids.len(), 1);
    assert_eq!(parsed.service_uuids[0].len(), 36);
}

#[test]
fn zero_length_structures_are_skipped_and_truncated_ones_stop() {
    let parsed = parse_advertisement(&[0, 0, 3, 0x03, 0x0F, 0x18, 9, 0xFF, 0x01]);
    assert_eq!(parsed.service_uuids, vec!["180F"]);
    assert!(parsed.manufacturer_data.is_empty());
}

use baseus_desktop::device::initialization::{command_for, plan_for, StartupQuery};
use baseus_desktop::device::registry::{DeviceIdentity, DeviceRegistry, ResolutionSource};
use baseus_desktop::protocol::models::{catalog_json, identify, ProtocolFamily, SupportLevel};
use baseus_desktop::protocol::profile::profile_for;
use baseus_desktop::protocol::types::Command;

fn identity(name: &str) -> DeviceIdentity {
    DeviceIdentity {
        address: "AA:BB:CC:DD:EE:FF".into(),
        name: name.into(),
        advertised_service: None,
        manufacturer_data: Vec::new(),
    }
}

#[test]
fn resolves_bp1_as_verified_profile() {
    let resolved = DeviceRegistry::resolve(identity("Baseus Bass BP1 Pro"));

    assert_eq!(resolved.source, ResolutionSource::CatalogName);
    assert_eq!(resolved.profile.protocol, ProtocolFamily::Bp1Pro);
    assert!(resolved.profile.verified);
    assert_eq!(resolved.model.as_ref().unwrap().support, SupportLevel::Verified);
}

#[test]
fn resolves_other_catalog_model_without_claiming_bp1_support() {
    let resolved = DeviceRegistry::resolve(identity("Baseus Bowie MA10"));

    assert_eq!(resolved.source, ResolutionSource::CatalogName);
    assert!(!resolved.profile.verified);
    assert_eq!(resolved.model.as_ref().unwrap().support, SupportLevel::Experimental);
}

#[test]
fn unknown_model_has_no_protocol_fallback() {
    let resolved = DeviceRegistry::resolve(identity("Random Earbuds"));

    assert_eq!(resolved.source, ResolutionSource::Unknown);
    assert!(resolved.model.is_none());
    assert_eq!(resolved.profile.protocol, ProtocolFamily::Unknown);
    assert!(!resolved.profile.verified);
}

#[test]
fn explicit_catalog_model_overrides_ambiguous_bluetooth_name() {
    let resolved = DeviceRegistry::resolve_with_model(identity("Wireless Audio"), "bass-bp1-pro");

    assert_eq!(resolved.source, ResolutionSource::ExplicitModel);
    assert_eq!(resolved.model.as_ref().unwrap().id, "bass-bp1-pro");
    assert!(resolved.profile.verified);
}

#[test]
fn unknown_explicit_model_resolves_as_unknown() {
    let resolved = DeviceRegistry::resolve_with_model(identity("Wireless Audio"), "no-such-model");
    assert_eq!(resolved.source, ResolutionSource::Unknown);
    assert!(resolved.model.is_none());
    assert_eq!(resolved.profile.protocol, ProtocolFamily::Unknown);
}

#[test]
fn verified_bp1_queries_declared_capabilities() {
    let model = catalog_json().into_iter().find(|m| m.id == "bass-bp1-pro").unwrap();
    let profile = profile_for(Some(&model.id), None, None);
    assert_eq!(plan_for(Some(&model), &profile), vec![StartupQuery::Battery, StartupQuery::Eq]);
}

#[test]
fn unknown_device_only_gets_safe_battery_query() {
    let profile = profile_for(None, None, None);
    assert_eq!(plan_for(None, &profile), vec![StartupQuery::Battery]);
}

#[test]
fn query_maps_to_existing_wire_command() {
    assert!(matches!(command_for(StartupQuery::Eq), Some(Command::QueryEq)));
}

#[test]
fn every_startup_query_has_a_command() {
    assert!(matches!(command_for(StartupQuery::Battery), Some(Command::QueryBattery)));
    assert!(matches!(command_for(StartupQuery::Ldac), Some(Command::QueryLdac)));
    assert!(matches!(
        command_for(StartupQuery::HearingProtection),
        Some(Command::QueryHearingProtection)
    ));
}

#[test]
fn identification_prefers_the_longest_pattern() {
    assert_eq!(identify("BASEUS BASS BP1 PRO").unwrap().id, "bass-bp1-pro");
    assert_eq!(identify("Baseus Bowie MA10s").unwrap().id, "bowie-ma10s");
    assert!(identify("Generic Speaker").is_none());
}

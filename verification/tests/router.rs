use baseus_desktop::protocol::profile::profile_for;
use baseus_desktop::protocol::router::{encode_feature, encode_listening, FeatureCommand, ListeningCommand};
use baseus_desktop::protocol::types::EqPreset;

#[test]
fn bp1_profile_routes_apk_semantics_to_ba34() {
    let profile = profile_for(Some("bass-bp1-pro"), None, None);
    assert_eq!(encode_listening(&profile, ListeningCommand::Normal).unwrap(), vec![0xBA, 0x34, 0x00, 0xFF]);
    assert_eq!(
        encode_listening(&profile, ListeningCommand::AdaptiveEnvironment(108)).unwrap(),
        vec![0xBA, 0x34, 0x01, 0x6C]
    );
}

#[test]
fn lite_profile_rejects_level_four() {
    let profile = profile_for(Some("eh10-nc-lite"), None, None);
    assert!(encode_listening(&profile, ListeningCommand::CustomLevel(4)).is_err());
}

#[test]
fn unknown_profile_never_falls_back_to_bp1() {
    let profile = profile_for(Some("unknown"), None, None);
    assert!(encode_listening(&profile, ListeningCommand::Normal).is_err());
}

#[test]
fn bp1_profile_routes_common_feature_commands() {
    let profile = profile_for(Some("bass-bp1-pro"), None, None);
    assert_eq!(encode_feature(&profile, FeatureCommand::SetBassBoost(2)).unwrap(), vec![0xBA, 0x54, 0x01, 0x02]);
    assert_eq!(encode_feature(&profile, FeatureCommand::FindBuds(true)).unwrap(), vec![0xBA, 0x10, 0x02, 0x01]);
}

#[test]
fn unknown_profile_rejects_common_feature_commands() {
    let profile = profile_for(Some("unknown"), None, None);
    assert!(encode_feature(&profile, FeatureCommand::SetEq(EqPreset::BassBoost)).is_err());
}

#[test]
fn refusal_texts() {
    let unknown = profile_for(Some("unknown"), None, None);
    assert_eq!(
        encode_feature(&unknown, FeatureCommand::SetGameMode(true)).unwrap_err(),
        "No protocol is verified for this model"
    );
    let lite = profile_for(Some("eh10-nc-lite"), None, None);
    assert_eq!(
        encode_listening(&lite, ListeningCommand::CustomLevel(4)).unwrap_err(),
        "Custom ANC level 4 is not supported by this model"
    );
    assert_eq!(
        encode_listening(&lite, ListeningCommand::TransparencyVoice).unwrap_err(),
        "Transparency voice mode is not supported by this model"
    );
    assert_eq!(
        encode_listening(&lite, ListeningCommand::AdaptiveEnvironment(101)).unwrap_err(),
        "Adaptive environment 101 is not supported by this model"
    );
    assert_eq!(encode_listening(&lite, ListeningCommand::CustomLevel(3)).unwrap(), vec![0xBA, 0x34, 0x01, 0x03]);
}

#[test]
fn verified_profile_allows_voice_transparency() {
    let profile = profile_for(Some("bass-bp1-pro"), None, None);
    assert_eq!(
        encode_listening(&profile, ListeningCommand::TransparencyVoice).unwrap(),
        vec![0xBA, 0x34, 0x02, 0x01]
    );
    assert_eq!(
        encode_listening(&profile, ListeningCommand::TransparencyFull).unwrap(),
        vec![0xBA, 0x34, 0x02, 0xFF]
    );
}

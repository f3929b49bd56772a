use baseus_desktop::protocol::types::{AncMode, SpatialMode};
use baseus_desktop::ui::{
    anc_request, from_latest_release, from_updater, is_remote_newer, mock_id, parse_version, spatial_request,
    tag_version, UpdateInfo,
};

#[test]
fn ui_mode_names() {
    assert_eq!(anc_request("OFF", None), (AncMode::Off, 70));
    assert_eq!(anc_request("Ambient", Some(30)), (AncMode::Transparency, 30));
    assert_eq!(anc_request("transparency", None).0, AncMode::Transparency);
    assert_eq!(anc_request("whatever", None).0, AncMode::Anc);
    assert_eq!(spatial_request("Music"), SpatialMode::Music);
    assert_eq!(spatial_request("02"), SpatialMode::Cinema);
    assert_eq!(spatial_request("MOVIE"), SpatialMode::Cinema);
    assert_eq!(spatial_request("game"), SpatialMode::Game);
    assert_eq!(spatial_request("none"), SpatialMode::Off);
    assert!(mock_id("mock-bp1"));
    assert!(!mock_id("moc"));
    assert!(!mock_id("real-mock-1"));
}

#[test]
fn version_numbers_and_comparison() {
    assert_eq!(parse_version("v1.2.3"), vec![1, 2, 3]);
    assert_eq!(parse_version("1.10.0-beta.2"), vec![1, 10, 0, 2]);
    assert_eq!(parse_version("99999999999999999999999.1"), vec![1]);
    assert!(is_remote_newer("v1.2.4", "1.2.3"));
    assert!(is_remote_newer("1.10.0", "1.9.9"));
    assert!(!is_remote_newer("1.2.3", "1.2.3"));
    assert!(!is_remote_newer("1.2", "1.2.0"));
    assert!(is_remote_newer("1.2.0.1", "1.2"));
    assert!(!is_remote_newer("1.2.3", "1.3"));
    assert_eq!(tag_version("vv0.3.1"), "0.3.1");
    assert_eq!(tag_version("0.3.1"), "0.3.1");
}

#[test]
fn update_results() {
    let r = from_updater(
        "0.1.0".into(),
        Some(UpdateInfo { version: "0.2.0".into(), body: Some("notes".into()), date: None }),
    );
    assert!(r.available);
    assert_eq!(r.version.as_deref(), Some("0.2.0"));
    assert_eq!(r.body.as_deref(), Some("notes"));
    let r = from_updater("0.1.0".into(), None);
    assert!(!r.available && r.version.is_none() && r.error.is_none());
    let r = from_latest_release("0.1.0".into(), Ok("0.2.0".into()));
    assert!(r.available);
    assert_eq!(r.body.as_deref(), Some("Tải bản cài từ GitHub Releases (updater ký chưa sẵn sàng)."));
    let r = from_latest_release("0.2.0".into(), Ok("0.2.0".into()));
    assert!(!r.available && r.body.is_none());
    assert_eq!(r.version.as_deref(), Some("0.2.0"));
    let r = from_latest_release("0.2.0".into(), Err("GitHub: offline".into()));
    assert!(!r.available);
    assert_eq!(r.error.as_deref(), Some("GitHub: offline"));
}

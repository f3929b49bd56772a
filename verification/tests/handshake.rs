use baseus_desktop::device::handshake::{BindAction, Handshake, InitState, Phase};

#[test]
fn moves_through_notify_and_init_state_phases() {
    let mut flow = Handshake::new(30_000);
    assert_eq!(flow.phase(), Phase::Connecting);
    flow.on_connected();
    flow.on_services_discovered();
    flow.on_notifications_enabled();
    assert_eq!(flow.init_payload(), b"#InitState:");
    assert_eq!(flow.phase(), Phase::AwaitingInitState);
    flow.on_init_state(InitState::AlreadyConfigured);
    assert_eq!(flow.phase(), Phase::Ready);
    assert_eq!(flow.bind_action(), Some(BindAction::PreserveExisting));
}

#[test]
fn initial_state_requests_relieve_bind() {
    let mut flow = Handshake::new(30_000);
    flow.on_connected();
    flow.on_services_discovered();
    flow.on_notifications_enabled();
    flow.on_init_state(InitState::Initial);
    assert_eq!(flow.phase(), Phase::Ready);
    assert_eq!(flow.bind_action(), Some(BindAction::RelieveBind));
}

#[test]
fn timeout_is_recoverable_until_ready() {
    let mut flow = Handshake::new(30_000);
    flow.on_connected();
    flow.on_services_discovered();
    flow.on_notifications_enabled();
    assert_eq!(flow.on_elapsed(30_001), Phase::TimedOut);
    assert_eq!(flow.bind_action(), None);
}

#[test]
fn ready_flow_ignores_elapsed_time() {
    let mut flow = Handshake::new(100);
    flow.on_connected();
    flow.on_services_discovered();
    flow.on_notifications_enabled();
    flow.on_init_state(InitState::Initial);
    assert_eq!(flow.on_elapsed(1_000), Phase::Ready);
    assert_eq!(flow.bind_action(), Some(BindAction::RelieveBind));
}

#[test]
fn events_out_of_order_are_ignored() {
    let mut flow = Handshake::new(30_000);
    flow.on_notifications_enabled();
    assert_eq!(flow.phase(), Phase::Connecting);
    flow.on_init_state(InitState::Initial);
    assert_eq!(flow.phase(), Phase::Connecting);
    assert_eq!(flow.bind_action(), None);
}

#[test]
fn elapsed_times_add_up_to_the_timeout() {
    let mut flow = Handshake::new(30_000);
    flow.on_connected();
    assert_eq!(flow.on_elapsed(20_000), Phase::DiscoveringServices);
    assert_eq!(flow.on_elapsed(9_999), Phase::DiscoveringServices);
    assert_eq!(flow.on_elapsed(1), Phase::TimedOut);
    flow.on_services_discovered();
    assert_eq!(flow.phase(), Phase::TimedOut);
    assert_eq!(flow.on_elapsed(u64::MAX), Phase::TimedOut);
}

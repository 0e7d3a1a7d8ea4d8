use firmware_core::wifi::{
    ap_gateway, bring_up_plan, dhcp_next, is_ready, observe_link, AddressConfig, DhcpAction,
    DhcpEvent, Ipv4Address, LinkState, RadioConfig, Supervisor, SupervisorAction,
    SupervisorEvent, SupervisorState, WifiMode, AP_PREFIX_LEN, DHCP_SERVER_PORT,
    RETRY_BACKOFF_MS,
};

#[test]
fn access_point_uses_fixed_subnet() {
    let p = bring_up_plan(WifiMode::Ap);
    let gw = Ipv4Address { a: 192, b: 168, c: 1, d: 1 };
    assert_eq!(ap_gateway(), gw);
    assert_eq!(p.address, AddressConfig::Static { address: gw, prefix_len: 28, gateway: gw });
    assert_eq!(AP_PREFIX_LEN, 28);
    assert!(p.start_dhcp_server);
    assert!(!p.client_mode);
    assert_eq!(DHCP_SERVER_PORT, 67);
}

#[test]
fn client_uses_dhcp_and_no_server() {
    let p = bring_up_plan(WifiMode::Sta);
    assert_eq!(p.address, AddressConfig::Dhcp);
    assert!(!p.start_dhcp_server);
    assert!(p.client_mode);
}

#[test]
fn client_loop_connects_and_retries() {
    let mut s = Supervisor::new(WifiMode::Sta, b"HomeNet".to_vec(), b"secret123".to_vec());
    assert_eq!(s.state, SupervisorState::Idle);
    assert_eq!(s.step(SupervisorEvent::Boot), SupervisorAction::QueryStarted);
    assert_eq!(s.step(SupervisorEvent::RadioStopped), SupervisorAction::Configure);
    match s.radio_config() {
        RadioConfig::Client { ssid, password } => {
            assert_eq!(ssid, b"HomeNet".to_vec());
            assert_eq!(password, b"secret123".to_vec());
        }
        RadioConfig::AccessPoint { .. } => panic!("client expected"),
    }
    assert_eq!(s.step(SupervisorEvent::StartSucceeded), SupervisorAction::Connect);
    assert_eq!(s.step(SupervisorEvent::ConnectFailed), SupervisorAction::Sleep(5000));
    assert_eq!(s.state, SupervisorState::Backoff);
    assert_eq!(s.step(SupervisorEvent::BackoffElapsed), SupervisorAction::QueryStarted);
    assert_eq!(s.step(SupervisorEvent::RadioStarted), SupervisorAction::Connect);
    assert_eq!(s.step(SupervisorEvent::Connected), SupervisorAction::AwaitDisconnect);
    assert_eq!(s.state, SupervisorState::Connected);
    assert_eq!(s.step(SupervisorEvent::Disconnected), SupervisorAction::Sleep(RETRY_BACKOFF_MS));
    assert_eq!(s.mode, WifiMode::Sta);
}

#[test]
fn start_failures_back_off() {
    let mut s = Supervisor::new(WifiMode::Sta, b"a".to_vec(), b"b".to_vec());
    s.step(SupervisorEvent::Boot);
    assert_eq!(s.step(SupervisorEvent::QueryFailed), SupervisorAction::Sleep(5000));
    s.step(SupervisorEvent::BackoffElapsed);
    s.step(SupervisorEvent::RadioStopped);
    assert_eq!(s.step(SupervisorEvent::StartFailed), SupervisorAction::Sleep(5000));
    // a report that does not fit the state is handled as a failure
    assert_eq!(s.step(SupervisorEvent::Connected), SupervisorAction::Sleep(5000));
}

#[test]
fn access_point_loop_never_connects() {
    let mut s = Supervisor::new(WifiMode::Ap, Vec::new(), Vec::new());
    s.step(SupervisorEvent::Boot);
    assert_eq!(s.step(SupervisorEvent::RadioStopped), SupervisorAction::Configure);
    match s.radio_config() {
        RadioConfig::AccessPoint { ssid } => assert_eq!(ssid, b"esp-wifi".to_vec()),
        RadioConfig::Client { .. } => panic!("access point expected"),
    }
    assert_eq!(s.step(SupervisorEvent::StartSucceeded), SupervisorAction::AwaitApStop);
    assert_eq!(s.state, SupervisorState::ApActive);
    assert_eq!(s.step(SupervisorEvent::ApStopped), SupervisorAction::Sleep(5000));
    s.step(SupervisorEvent::BackoffElapsed);
    assert_eq!(s.step(SupervisorEvent::RadioStarted), SupervisorAction::AwaitApStop);
}

#[test]
fn readiness_waits_for_link_then_address() {
    let s = observe_link(LinkState::Down, false, true);
    assert_eq!(s, LinkState::Down);
    let s = observe_link(s, true, false);
    assert_eq!(s, LinkState::LinkUp);
    assert!(!is_ready(s));
    let s = observe_link(s, false, true);
    assert_eq!(s, LinkState::AddressAcquired);
    assert!(is_ready(s));
    assert_eq!(observe_link(LinkState::Down, true, true), LinkState::AddressAcquired);
    assert_eq!(observe_link(LinkState::AddressAcquired, false, false), LinkState::AddressAcquired);
}

#[test]
fn dhcp_server_policy() {
    assert_eq!(dhcp_next(DhcpEvent::BindFailed), DhcpAction::Stop);
    assert_eq!(dhcp_next(DhcpEvent::ServeFailed), DhcpAction::RunAgainAfter(500));
    assert_eq!(dhcp_next(DhcpEvent::ServeEnded), DhcpAction::RunAgainAfter(500));
}

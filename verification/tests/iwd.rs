//! The iwd service, from the first word of the bus to the last.

use vibepanel::iwd::{
    CancelReason, IwdEffect, IwdService, IwdUpdate, StationProps, IFACE_ADAPTER, IFACE_NETWORK,
    IFACE_STATION,
};
use vibepanel::iwd_events::{failure_ssid, ConnectError, ManagedObject};
use vibepanel::network::{
    SecurityType, StationState, WifiNetwork, AUTH_FAILURE_REASON, CONNECTION_FAILURE_REASON,
};

fn net(ssid: &str) -> WifiNetwork {
    WifiNetwork {
        ssid: ssid.to_string(),
        strength: 60,
        security: SecurityType::Secured,
        active: false,
        known: false,
        known_network_path: None,
        path: Some(format!("/net/{ssid}")),
    }
}

fn props(state: &str, scanning: bool, network: Option<&str>) -> StationProps {
    StationProps {
        state: Some(state.to_string()),
        scanning: Some(scanning),
        connected_network: network.map(|n| n.to_string()),
    }
}

fn idle_props() -> StationProps {
    props("disconnected", false, None)
}

/// Short names of effects, for comparing whole lists.
fn names(effects: &[IwdEffect]) -> Vec<String> {
    effects
        .iter()
        .map(|e| match e {
            IwdEffect::Notify(_) => "notify".to_string(),
            IwdEffect::RefuseAuth { token, reason } => format!("refuse {token}: {}", reason.message()),
            IwdEffect::AnswerAuth { token, passphrase } => format!("answer {token}: {passphrase}"),
            IwdEffect::StartRefresh { delay_ms, generation } => format!("refresh {delay_ms} {generation}"),
            other => format!("{other:?}"),
        })
        .collect()
}

/// A service with an adapter, a station and two networks.
fn running() -> IwdService {
    let mut s = IwdService::new();
    s.on_bus();
    s.on_watcher(Some(true));
    let objects = vec![
        ManagedObject { path: "/phy0".to_string(), interfaces: vec![IFACE_ADAPTER.to_string()] },
        ManagedObject { path: "/phy0/1".to_string(), interfaces: vec![IFACE_STATION.to_string()] },
    ];
    s.process_managed_objects(Some(&objects));
    s.on_adapter_proxy_made(Some(true));
    s.on_station_proxy_made(&idle_props());
    let generation = s.generation;
    s.apply_update(
        IwdUpdate::NetworksRefreshed { networks: vec![net("Home"), net("Cafe")], generation },
        &idle_props(),
    );
    s
}

#[test]
fn discovery_takes_up_the_first_adapter_and_station() {
    let mut s = IwdService::new();
    assert_eq!(names(&s.on_bus()), vec!["SubscribeSignals", "CreateWatcher"]);
    assert_eq!(names(&s.on_watcher(Some(true))), vec!["Discover"]);
    let objects = vec![
        ManagedObject { path: "/a".to_string(), interfaces: vec![IFACE_ADAPTER.to_string(), "x".to_string()] },
        ManagedObject { path: "/b".to_string(), interfaces: vec![IFACE_ADAPTER.to_string()] },
        ManagedObject { path: "/a/1".to_string(), interfaces: vec![IFACE_STATION.to_string()] },
    ];
    let e = s.process_managed_objects(Some(&objects));
    assert_eq!(
        names(&e),
        vec!["notify", "SetupAdapterProxy(\"/a\")", "ExportAgent", "SetupStationProxy(\"/a/1\")"]
    );
    assert!(s.snapshot.available);
    // Found again: nothing changes.
    assert!(s.process_managed_objects(Some(&objects)).is_empty());
}

#[test]
fn without_a_daemon_the_service_is_unavailable() {
    let mut s = running();
    assert_eq!(names(&s.on_watcher(Some(false))), vec!["notify"]);
    assert!(!s.snapshot.available);
    assert!(s.process_managed_objects(None).is_empty());
    assert_eq!(names(&s.on_name_owner(true)), vec!["Discover"]);
    let mut s = IwdService::new();
    assert!(s.on_watcher(None).is_empty());
    let mut s = running();
    s.agent_exported = true;
    assert_eq!(names(&s.on_name_owner(false)), vec!["UnexportAgent", "notify"]);
    assert!(s.adapter_path.is_none() && s.station_path.is_none());
}

#[test]
fn interfaces_come_and_go() {
    let mut s = running();
    let added = vec![IFACE_NETWORK.to_string(), IFACE_STATION.to_string()];
    assert_eq!(names(&s.handle_interfaces_added(&"/x".to_string(), &added)), vec!["ScheduleRefresh"]);
    assert!(s.handle_interfaces_added(&"/x".to_string(), &added).is_empty());
    assert_eq!(names(&s.on_refresh_timer()), vec!["refresh 0 0"]);
    // The station of another device does not matter.
    assert!(s
        .handle_interfaces_removed(&"/other".to_string(), &vec![IFACE_STATION.to_string()], Some(false))
        .is_empty());
    let e = s.handle_interfaces_removed(
        &"/phy0/1".to_string(),
        &vec![IFACE_STATION.to_string()],
        Some(false),
    );
    assert_eq!(names(&e), vec!["notify", "notify"]);
    assert_eq!(s.snapshot.wifi_enabled, Some(false));
    assert!(s.snapshot.available && s.adapter_path.is_some());
    assert!(s.snapshot.networks.is_empty());
    let e = s.handle_interfaces_removed(
        &"/phy0".to_string(),
        &vec![IFACE_ADAPTER.to_string()],
        None,
    );
    assert_eq!(names(&e), vec!["notify"]);
    assert!(!s.snapshot.available);
}

#[test]
fn connecting_shows_at_once_and_ends_with_the_name() {
    let mut s = running();
    let e = s.connect_to_network("/net/Home");
    assert_eq!(s.snapshot.state, Some(StationState::Connecting));
    assert_eq!(s.snapshot.ssid.as_deref(), Some("Home"));
    match &e[1] {
        IwdEffect::CallConnect { path, cached_ssid, generation } => {
            assert_eq!(path, "/net/Home");
            assert_eq!(cached_ssid.as_deref(), Some("Home"));
            assert_eq!(*generation, s.generation);
        }
        other => panic!("{other:?}"),
    }
    let e = s.update_station_state(&props("connected", false, Some("/net/Home")));
    assert_eq!(names(&e), vec!["notify", "refresh 0 0"]);
    assert!(s.snapshot.connected());
    assert!(s.connecting_network.is_none());
}

#[test]
fn an_unknown_name_is_looked_for_a_few_times() {
    let mut s = running();
    let mut delays = Vec::new();
    for _ in 0..6 {
        let e = s.update_station_state(&props("connected", false, Some("/net/New")));
        for effect in &e {
            if let IwdEffect::StartRefresh { delay_ms, .. } = effect {
                delays.push(*delay_ms);
            }
        }
        let generation = s.generation;
        let e = s.apply_update(IwdUpdate::RefreshFailed { generation }, &idle_props());
        assert!(e.is_empty());
    }
    assert_eq!(delays, vec![200, 400, 600]);
}

#[test]
fn a_wrong_password_is_told_from_our_own_refusal() {
    let mut s = running();
    s.connect_to_network("/net/Home");
    let generation = s.generation;
    let e = s.on_connect_failed(Some("net.connman.iwd.Agent.Error.Canceled"), "Home".to_string(), generation);
    assert_eq!(names(&e), vec!["notify"]);
    assert_eq!(s.snapshot.failed_reason.as_deref(), Some(AUTH_FAILURE_REASON));
    assert_eq!(s.snapshot.state, Some(StationState::Disconnected));

    let mut s = running();
    s.connect_to_network("/net/Home");
    s.handle_request_passphrase(1, Some("/net/Home"));
    s.cancel_auth();
    let e = s.on_connect_failed(Some("net.connman.iwd.Agent.Error.Canceled"), "Home".to_string(), generation);
    assert!(e.is_empty());
    assert!(s.snapshot.failed_reason.is_none());
}

#[test]
fn errors_have_reasons() {
    let reason = |name: &str| ConnectError::from_name(name).reason();
    assert_eq!(reason("net.connman.iwd.NotFound"), "Network not found");
    assert_eq!(reason("net.connman.iwd.NotSupported"), "Not supported");
    assert_eq!(reason("net.connman.iwd.NotConfigured"), "Not configured");
    assert_eq!(reason("net.connman.iwd.PermissionDenied"), "Permission denied");
    assert_eq!(reason("net.connman.iwd.NotConnected"), "Not connected");
    assert_eq!(reason("net.connman.iwd.Failed"), CONNECTION_FAILURE_REASON);
    assert_eq!(reason("net.connman.iwd.Aborted"), CONNECTION_FAILURE_REASON);
    assert_eq!(reason("something.else"), CONNECTION_FAILURE_REASON);
    assert_eq!(ConnectError::from_name("net.connman.iwd.InProgress"), ConnectError::InProgress);
    assert_eq!(ConnectError::from_name("net.connman.iwd.Agent.Error.X"), ConnectError::Agent);

    let mut s = running();
    s.connect_to_network("/net/Home");
    let generation = s.generation;
    assert!(s.on_connect_failed(Some("net.connman.iwd.InProgress"), "Home".to_string(), generation).is_empty());
    s.on_connect_failed(Some("net.connman.iwd.NotFound"), "Home".to_string(), generation);
    assert_eq!(s.snapshot.failed_reason.as_deref(), Some("Network not found"));
    // What is specific stands.
    s.on_connect_failed(Some("net.connman.iwd.Failed"), "Home".to_string(), generation);
    assert_eq!(s.snapshot.failed_reason.as_deref(), Some("Network not found"));
    assert_eq!(failure_ssid(None, Some("Cached".to_string())), "Cached");
    assert_eq!(failure_ssid(Some("Read".to_string()), Some("Cached".to_string())), "Read");
    assert_eq!(failure_ssid(None, None), "Unknown network");
}

#[test]
fn the_user_is_asked_for_a_password() {
    let mut s = running();
    s.connect_to_network("/net/Home");
    let e = s.handle_request_passphrase(5, Some("/net/Home"));
    assert_eq!(s.snapshot.auth_request.as_ref().map(|a| a.ssid.as_str()), Some("Home"));
    assert!(names(&e).contains(&"StartAuthTimer(5)".to_string()));
    let e = s.submit_passphrase("secret");
    assert!(names(&e).contains(&"answer 5: secret".to_string()));
    assert!(s.pending_auth.is_none() && s.snapshot.auth_request.is_none());
}

#[test]
fn a_kept_password_is_given_without_asking() {
    let mut s = running();
    s.connect_to_network("/net/Home");
    s.set_pending_password(Some("kept"));
    let e = s.handle_request_passphrase(6, Some("/net/Home"));
    assert_eq!(names(&e), vec!["StartAuthTimer(6)", "answer 6: kept"]);
    assert!(s.pending_password.is_none());
    // Only once.
    let e = s.handle_request_passphrase(7, Some("/net/Home"));
    assert!(names(&e).contains(&"StartAuthTimer(7)".to_string()));
}

#[test]
fn requests_for_other_networks_are_refused() {
    let mut s = running();
    s.connect_to_network("/net/Home");
    assert_eq!(names(&s.handle_request_passphrase(8, Some("/net/Cafe"))), vec!["refuse 8: Unexpected network"]);
    assert_eq!(names(&s.handle_request_passphrase(9, None)), vec!["ReplyMissingPath(9)"]);
}

#[test]
fn every_end_of_a_waiting_request_refuses_it() {
    let waiting = || {
        let mut s = running();
        s.connect_to_network("/net/Home");
        s.handle_request_passphrase(5, Some("/net/Home"));
        assert_eq!(s.pending_auth, Some(5));
        s
    };
    let refused = |effects: &[IwdEffect], reason: CancelReason| {
        names(effects).contains(&format!("refuse 5: {}", reason.message()))
    };
    let mut s = waiting();
    assert!(refused(&s.clear_proxies(), CancelReason::ServiceUnavailable));
    let mut s = waiting();
    assert!(refused(&s.clear_station(), CancelReason::PoweredOff));
    let mut s = waiting();
    assert!(refused(&s.cancel_auth(), CancelReason::UserCanceled));
    let mut s = waiting();
    assert!(refused(&s.on_auth_timeout(), CancelReason::TimedOut));
    let mut s = waiting();
    assert!(refused(&s.handle_request_passphrase(6, Some("/net/Home")), CancelReason::Superseded));
    let mut s = waiting();
    assert!(refused(&s.handle_agent_method(9, "Cancel", None, "user-canceled"), CancelReason::Canceled));
    let mut s = waiting();
    assert!(refused(&s.shutdown(), CancelReason::ShuttingDown));
}

#[test]
fn the_agent_answers_the_daemon() {
    let mut s = running();
    s.connect_to_network("/net/Home");
    let e = s.handle_agent_method(1, "Cancel", None, "out-of-range");
    assert_eq!(names(&e).last().map(String::as_str), Some("Reply(1)"));
    assert_eq!(s.snapshot.failed_reason.as_deref(), Some("Network out of range"));
    assert!(s.connecting_network.is_none());

    let mut s = running();
    s.agent_registered = true;
    assert_eq!(names(&s.handle_agent_method(2, "Release", None, "")), vec!["Reply(2)"]);
    assert!(!s.agent_registered);
    let e = s.handle_agent_method(3, "RequestUserPassword", Some("/net/Cafe"), "");
    assert!(names(&e).contains(&"refuse 3: Enterprise authentication not supported".to_string()));
    assert_eq!(s.snapshot.failed_ssid.as_deref(), Some("Cafe"));
    assert_eq!(s.snapshot.failed_reason.as_deref(), Some("Enterprise WiFi not supported"));
    assert_eq!(
        names(&s.handle_agent_method(4, "Dance", None, "")),
        vec!["ReplyUnknownMethod(4, \"Dance\")"]
    );
}

#[test]
fn stale_results_are_dropped() {
    let mut s = running();
    let before = s.generation;
    s.clear_station();
    let e = s.apply_update(
        IwdUpdate::NetworksRefreshed { networks: vec![net("Old")], generation: before },
        &idle_props(),
    );
    assert!(e.is_empty());
    assert!(s.snapshot.networks.is_empty());
    let e = s.apply_update(
        IwdUpdate::ConnectionFailed { ssid: "Old".to_string(), reason: "x".to_string(), generation: before },
        &idle_props(),
    );
    assert!(e.is_empty());
}

#[test]
fn a_refresh_asked_for_meanwhile_follows() {
    let mut s = running();
    assert_eq!(names(&s.refresh_networks_async(false)), vec!["refresh 0 0"]);
    assert!(s.refresh_networks_async(false).is_empty());
    let generation = s.generation;
    let e = s.apply_update(IwdUpdate::RefreshFailed { generation }, &idle_props());
    assert_eq!(names(&e), vec!["refresh 0 0"]);
}

#[test]
fn scans_do_not_overlap() {
    let mut s = running();
    assert_eq!(names(&s.scan_networks()), vec!["notify", "CallScan"]);
    assert!(s.snapshot.scanning);
    assert!(s.scan_networks().is_empty());
    s.on_scan_returned();
    assert_eq!(names(&s.scan_networks()), vec!["CallScan"]);
}

#[test]
fn power_goes_to_the_adapter() {
    assert!(IwdService::new().set_wifi_enabled(true).is_empty());
    let mut s = running();
    assert_eq!(names(&s.set_wifi_enabled(false)), vec!["SetPowered(false)"]);
    assert_eq!(names(&s.update_adapter_state(Some(false))), vec!["notify"]);
    assert!(s.update_adapter_state(Some(false)).is_empty());
    assert_eq!(s.snapshot.state, None);
}

#[test]
fn leaving_and_forgetting() {
    let mut s = running();
    assert!(names(&s.disconnect()).contains(&"CallDisconnect".to_string()));
    assert_eq!(names(&s.forget_network("/known/1")), vec!["CallForget(\"/known/1\")"]);
    assert!(s.on_forgotten(false).is_empty());
    assert_eq!(names(&s.on_forgotten(true)), vec!["refresh 0 0"]);
}

#[test]
fn the_agent_is_registered_and_registered_again() {
    let mut s = running();
    assert_eq!(names(&s.register_agent()), vec!["ExportAgent"]);
    assert_eq!(names(&s.on_agent_exported(true)), vec!["RegisterAgent { is_retry: false }"]);
    assert!(s.on_agent_registered(false, None).is_empty());
    assert!(s.agent_registered);
    assert!(s.register_agent().is_empty());
}

#[test]
fn listeners_are_told_on_joining_and_while_they_stay() {
    let mut s = running();
    let (first, snapshot) = s.connect();
    assert!(snapshot.available);
    let (second, _) = s.connect();
    assert_ne!(first, second);
    assert_eq!(s.callbacks.all(), vec![first, second]);
    s.unsubscribe(first);
    assert_eq!(s.callbacks.all(), vec![second]);
    let (third, _) = s.connect();
    assert!(third != first && third != second);
}

#[test]
fn failures_can_be_set_and_cleared() {
    let mut s = running();
    assert_eq!(names(&s.set_failed_ssid("Home", "Because")), vec!["notify"]);
    assert_eq!(s.snapshot.failed_ssid.as_deref(), Some("Home"));
    assert_eq!(names(&s.clear_failed_state()), vec!["notify"]);
    assert!(s.clear_failed_state().is_empty());
}

#[test]
fn property_changes_are_read_by_interface() {
    let mut s = running();
    assert_eq!(s.snapshot().wifi_enabled, Some(true));
    assert!(s.on_properties_changed(None, Some(false), &idle_props()).is_empty());
    assert!(s.on_properties_changed(Some(IFACE_NETWORK), Some(false), &idle_props()).is_empty());
    assert_eq!(names(&s.on_properties_changed(Some(IFACE_ADAPTER), Some(false), &idle_props())), ["notify"]);
    assert_eq!(s.snapshot().wifi_enabled, Some(false));
    assert_eq!(s.snapshot().state, None);
    s.on_properties_changed(Some(IFACE_STATION), Some(false), &props("connecting", false, None));
    assert_eq!(s.snapshot().state, Some(StationState::Connecting));
}

#[test]
fn lost_proxies_make_the_service_unavailable_together() {
    let mut s = running();
    assert_eq!(names(&s.on_adapter_proxy_lost()), ["notify"]);
    assert!(s.adapter_path.is_none());
    assert!(s.snapshot().available);
    assert_eq!(names(&s.on_station_proxy_lost()), ["notify"]);
    assert!(s.station_path.is_none());
    assert!(!s.snapshot().available);
}

#[test]
fn a_due_retry_registers_only_with_a_bus() {
    let s = IwdService::new();
    assert!(s.on_register_retry().is_empty());
    assert_eq!(names(&running().on_register_retry()), ["RegisterAgent { is_retry: true }"]);
}

#[test]
fn there_is_one_service() {
    let fresh = IwdService::global(None);
    assert!(!fresh.bus && !fresh.snapshot().available);
    let kept = IwdService::global(Some(running()));
    assert!(kept.bus && kept.snapshot().available);
}

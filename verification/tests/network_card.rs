//! The network card: icons, subtitle, rows.

use vibepanel::network::{
    IwdSnapshot, MobileState, NetworkSnapshot, NmSnapshot, StationState, WifiState, WiredState,
};
use vibepanel::network_card::{
    cellular_signal_icon_name, get_network_subtitle_text, is_network_subtitle_active,
    network_icon_name, wifi_strength_icon, NetworkIconContext,
};

/// Default icon context for tests: available Wi-Fi system, nothing connected.
/// Tests override only the fields relevant to the scenario being tested.
fn test_icon_ctx() -> NetworkIconContext {
    NetworkIconContext {
        available: true,
        connected: false,
        wifi_enabled: true,
        wired_connected: false,
        has_wifi_device: true,
        mobile_is_primary: false,
        has_modem_device: false,
        mobile_signal_quality: None,
    }
}

#[test]
fn test_network_icon_name_connected() {
    assert_eq!(
        network_icon_name(&NetworkIconContext {
            connected: true,
            ..test_icon_ctx()
        }),
        "network-wireless-signal-excellent-symbolic"
    );
}

#[test]
fn test_network_icon_name_disconnected() {
    assert_eq!(
        network_icon_name(&test_icon_ctx()),
        "network-wireless-offline-symbolic"
    );
}

#[test]
fn test_network_icon_name_disabled() {
    assert_eq!(
        network_icon_name(&NetworkIconContext {
            connected: true,
            wifi_enabled: false,
            ..test_icon_ctx()
        }),
        "network-wireless-offline-symbolic"
    );
    assert_eq!(
        network_icon_name(&NetworkIconContext {
            wifi_enabled: false,
            ..test_icon_ctx()
        }),
        "network-wireless-offline-symbolic"
    );
}

#[test]
fn test_network_icon_name_wired_connected() {
    // Wired connected takes precedence regardless of Wi-Fi state
    assert_eq!(
        network_icon_name(&NetworkIconContext {
            wifi_enabled: false,
            wired_connected: true,
            ..test_icon_ctx()
        }),
        "network-wired-symbolic"
    );
    assert_eq!(
        network_icon_name(&NetworkIconContext {
            connected: true,
            wired_connected: true,
            ..test_icon_ctx()
        }),
        "network-wired-symbolic"
    );
    assert_eq!(
        network_icon_name(&NetworkIconContext {
            wifi_enabled: false,
            wired_connected: true,
            has_wifi_device: false,
            ..test_icon_ctx()
        }),
        "network-wired-symbolic"
    );
}

#[test]
fn test_network_icon_name_ethernet_only_disconnected() {
    // Ethernet-only system (no Wi-Fi device), not connected - shows lan icon (grayed)
    assert_eq!(
        network_icon_name(&NetworkIconContext {
            wifi_enabled: false,
            has_wifi_device: false,
            ..test_icon_ctx()
        }),
        "network-wired-symbolic"
    );
}

#[test]
fn test_network_icon_name_service_unavailable() {
    // Service unavailable - always shows wireless offline icon regardless of other state
    assert_eq!(
        network_icon_name(&NetworkIconContext {
            available: false,
            wifi_enabled: false,
            has_wifi_device: false,
            ..test_icon_ctx()
        }),
        "network-wireless-offline-symbolic"
    );
    assert_eq!(
        network_icon_name(&NetworkIconContext {
            available: false,
            connected: true,
            ..test_icon_ctx()
        }),
        "network-wireless-offline-symbolic"
    );
    assert_eq!(
        network_icon_name(&NetworkIconContext {
            available: false,
            wifi_enabled: false,
            wired_connected: true,
            has_wifi_device: false,
            ..test_icon_ctx()
        }),
        "network-wireless-offline-symbolic"
    );
}

#[test]
fn test_wifi_strength_icon_excellent() {
    assert_eq!(
        wifi_strength_icon(100),
        "network-wireless-signal-excellent-symbolic"
    );
    assert_eq!(
        wifi_strength_icon(80),
        "network-wireless-signal-excellent-symbolic"
    );
    assert_eq!(
        wifi_strength_icon(70),
        "network-wireless-signal-excellent-symbolic"
    );
}

#[test]
fn test_wifi_strength_icon_good() {
    assert_eq!(
        wifi_strength_icon(69),
        "network-wireless-signal-good-symbolic"
    );
    assert_eq!(
        wifi_strength_icon(60),
        "network-wireless-signal-good-symbolic"
    );
}

#[test]
fn test_wifi_strength_icon_ok() {
    assert_eq!(
        wifi_strength_icon(59),
        "network-wireless-signal-ok-symbolic"
    );
    assert_eq!(
        wifi_strength_icon(40),
        "network-wireless-signal-ok-symbolic"
    );
}

#[test]
fn test_wifi_strength_icon_weak() {
    assert_eq!(
        wifi_strength_icon(39),
        "network-wireless-signal-weak-symbolic"
    );
    assert_eq!(
        wifi_strength_icon(20),
        "network-wireless-signal-weak-symbolic"
    );
}

#[test]
fn test_wifi_strength_icon_none() {
    assert_eq!(
        wifi_strength_icon(19),
        "network-wireless-signal-none-symbolic"
    );
    assert_eq!(
        wifi_strength_icon(0),
        "network-wireless-signal-none-symbolic"
    );
}

// Helper to create a base snapshot for testing
fn test_snapshot() -> NmSnapshot {
    NmSnapshot {
        available: true,
        wifi: WifiState {
            enabled: Some(true),
            connected: false,
            has_device: true,
            ssid: None,
            strength: 0,
            scanning: false,
            is_ready: true,
            networks: Vec::new(),
            connecting_ssid: None,
            failed_ssid: None,
            device_state: None,
        },
        wired: WiredState {
            connected: false,
            has_device: false,
            iface: None,
            name: None,
            speed: None,
        },
        mobile: MobileState {
            is_primary: false,
            active: false,
            connecting: false,
            supported: false,
            enabled: Some(true),
            has_device: false,
            name: None,
            operator: None,
            access_technology: None,
            signal_quality: None,
            failed: false,
        },
        primary_connection_type: None,
    }
}

// Tests for get_network_subtitle_text()

#[test]
fn test_subtitle_wired_only() {
    let mut snapshot = test_snapshot();
    snapshot.wired.connected = true;
    let wrapped = NetworkSnapshot::NetworkManager(snapshot);
    assert_eq!(get_network_subtitle_text(&wrapped), "Ethernet");
}

#[test]
fn test_subtitle_wired_and_wifi_connected() {
    let mut snapshot = test_snapshot();
    snapshot.wired.connected = true;
    snapshot.wifi.ssid = Some("MyNetwork".to_string());
    let wrapped = NetworkSnapshot::NetworkManager(snapshot);
    assert_eq!(
        get_network_subtitle_text(&wrapped),
        "Ethernet \u{2022} MyNetwork"
    );
}

#[test]
fn test_subtitle_wired_and_wifi_connecting() {
    let mut snapshot = test_snapshot();
    snapshot.wired.connected = true;
    snapshot.wifi.connecting_ssid = Some("MyNetwork".to_string());
    let wrapped = NetworkSnapshot::NetworkManager(snapshot);
    assert_eq!(
        get_network_subtitle_text(&wrapped),
        "Ethernet \u{2022} Connecting to MyNetwork"
    );
}

#[test]
fn test_subtitle_wifi_connected() {
    let mut snapshot = test_snapshot();
    snapshot.wifi.ssid = Some("HomeWifi".to_string());
    let wrapped = NetworkSnapshot::NetworkManager(snapshot);
    assert_eq!(get_network_subtitle_text(&wrapped), "HomeWifi");
}

#[test]
fn test_subtitle_wifi_connecting() {
    let mut snapshot = test_snapshot();
    snapshot.wifi.connecting_ssid = Some("HomeWifi".to_string());
    let wrapped = NetworkSnapshot::NetworkManager(snapshot);
    assert_eq!(
        get_network_subtitle_text(&wrapped),
        "Connecting to HomeWifi"
    );
}

#[test]
fn test_subtitle_wifi_disconnected() {
    let snapshot = test_snapshot();
    let wrapped = NetworkSnapshot::NetworkManager(snapshot);
    assert_eq!(get_network_subtitle_text(&wrapped), "Disconnected");
}

#[test]
fn test_subtitle_wifi_disabled() {
    let mut snapshot = test_snapshot();
    snapshot.wifi.enabled = Some(false);
    let wrapped = NetworkSnapshot::NetworkManager(snapshot);
    assert_eq!(get_network_subtitle_text(&wrapped), "Off");
}

#[test]
fn test_subtitle_ethernet_only_system_disconnected() {
    let mut snapshot = test_snapshot();
    snapshot.wifi.has_device = false;
    snapshot.wired.has_device = true;
    snapshot.wifi.enabled = None;
    let wrapped = NetworkSnapshot::NetworkManager(snapshot);
    assert_eq!(get_network_subtitle_text(&wrapped), "Disconnected");
}

#[test]
fn test_subtitle_service_unavailable() {
    let mut snapshot = test_snapshot();
    snapshot.available = false;
    let wrapped = NetworkSnapshot::NetworkManager(snapshot);
    assert_eq!(get_network_subtitle_text(&wrapped), "Unavailable");
}

// Tests for is_network_subtitle_active()

#[test]
fn test_subtitle_active_when_wired_connected() {
    let mut snapshot = test_snapshot();
    snapshot.wired.connected = true;
    let wrapped = NetworkSnapshot::NetworkManager(snapshot);
    assert!(is_network_subtitle_active(&wrapped));
}

#[test]
fn test_subtitle_active_when_wifi_connected() {
    let mut snapshot = test_snapshot();
    snapshot.wifi.connected = true;
    snapshot.wifi.ssid = Some("Network".to_string());
    let wrapped = NetworkSnapshot::NetworkManager(snapshot);
    assert!(is_network_subtitle_active(&wrapped));
}

#[test]
fn test_subtitle_active_when_both_connected() {
    let mut snapshot = test_snapshot();
    snapshot.wired.connected = true;
    snapshot.wifi.ssid = Some("Network".to_string());
    let wrapped = NetworkSnapshot::NetworkManager(snapshot);
    assert!(is_network_subtitle_active(&wrapped));
}

#[test]
fn test_subtitle_not_active_when_connecting() {
    let mut snapshot = test_snapshot();
    snapshot.wifi.connecting_ssid = Some("Network".to_string());
    let wrapped = NetworkSnapshot::NetworkManager(snapshot);
    assert!(!is_network_subtitle_active(&wrapped));
}

#[test]
fn test_subtitle_not_active_when_disconnected() {
    let snapshot = test_snapshot();
    let wrapped = NetworkSnapshot::NetworkManager(snapshot);
    assert!(!is_network_subtitle_active(&wrapped));
}

#[test]
fn test_subtitle_not_active_wired_but_wifi_connecting() {
    let mut snapshot = test_snapshot();
    snapshot.wired.connected = true;
    snapshot.wifi.connecting_ssid = Some("Network".to_string());
    let wrapped = NetworkSnapshot::NetworkManager(snapshot);
    // Even though wired is connected, we're in a "connecting" state for Wi-Fi
    // so subtitle should not be fully active (shows connecting animation)
    assert!(!is_network_subtitle_active(&wrapped));
}

// --- IWD-specific tests ---

/// Create a base IWD snapshot for testing.
fn iwd_snapshot() -> IwdSnapshot {
    IwdSnapshot {
        available: true,
        ssid: None,
        state: None,
        wifi_enabled: Some(true),
        scanning: false,
        networks: Vec::new(),
        auth_request: None,
        failed_ssid: None,
        failed_reason: None,
        initial_scan_complete: true,
    }
}

#[test]
fn test_iwd_subtitle_connected() {
    let mut snap = iwd_snapshot();
    snap.state = Some(StationState::Connected);
    snap.ssid = Some("HomeWifi".to_string());
    let wrapped = NetworkSnapshot::Iwd(snap);
    assert_eq!(get_network_subtitle_text(&wrapped), "HomeWifi");
}

#[test]
fn test_iwd_subtitle_connecting() {
    let mut snap = iwd_snapshot();
    snap.state = Some(StationState::Connecting);
    snap.ssid = Some("HomeWifi".to_string());
    let wrapped = NetworkSnapshot::Iwd(snap);
    assert_eq!(
        get_network_subtitle_text(&wrapped),
        "Connecting to HomeWifi"
    );
}

#[test]
fn test_iwd_subtitle_disconnected() {
    let snap = iwd_snapshot();
    let wrapped = NetworkSnapshot::Iwd(snap);
    assert_eq!(get_network_subtitle_text(&wrapped), "Disconnected");
}

#[test]
fn test_iwd_subtitle_disabled() {
    let mut snap = iwd_snapshot();
    snap.wifi_enabled = Some(false);
    let wrapped = NetworkSnapshot::Iwd(snap);
    assert_eq!(get_network_subtitle_text(&wrapped), "Off");
}

#[test]
fn test_iwd_subtitle_unavailable() {
    let mut snap = iwd_snapshot();
    snap.available = false;
    let wrapped = NetworkSnapshot::Iwd(snap);
    assert_eq!(get_network_subtitle_text(&wrapped), "Unavailable");
}

#[test]
fn test_iwd_subtitle_active_when_connected() {
    let mut snap = iwd_snapshot();
    snap.state = Some(StationState::Connected);
    snap.ssid = Some("Network".to_string());
    let wrapped = NetworkSnapshot::Iwd(snap);
    assert!(is_network_subtitle_active(&wrapped));
}

#[test]
fn test_iwd_subtitle_not_active_when_connecting() {
    let mut snap = iwd_snapshot();
    snap.state = Some(StationState::Connecting);
    snap.ssid = Some("Network".to_string());
    let wrapped = NetworkSnapshot::Iwd(snap);
    assert!(!is_network_subtitle_active(&wrapped));
}

#[test]
fn test_iwd_subtitle_not_active_when_disconnected() {
    let snap = iwd_snapshot();
    let wrapped = NetworkSnapshot::Iwd(snap);
    assert!(!is_network_subtitle_active(&wrapped));
}

#[test]
fn test_iwd_subtitle_roaming() {
    let mut snap = iwd_snapshot();
    snap.state = Some(StationState::Roaming);
    snap.ssid = Some("RoamNet".to_string());
    let wrapped = NetworkSnapshot::Iwd(snap);
    // Roaming is considered connected
    assert_eq!(get_network_subtitle_text(&wrapped), "RoamNet");
    assert!(is_network_subtitle_active(&wrapped));
}

// ---- cellular_signal_icon_name tests ----

#[test]
fn test_cellular_signal_excellent() {
    assert_eq!(
        cellular_signal_icon_name(75),
        "network-cellular-signal-excellent-symbolic"
    );
    assert_eq!(
        cellular_signal_icon_name(100),
        "network-cellular-signal-excellent-symbolic"
    );
}

#[test]
fn test_cellular_signal_good() {
    assert_eq!(
        cellular_signal_icon_name(55),
        "network-cellular-signal-good-symbolic"
    );
    assert_eq!(
        cellular_signal_icon_name(74),
        "network-cellular-signal-good-symbolic"
    );
}

#[test]
fn test_cellular_signal_ok() {
    assert_eq!(
        cellular_signal_icon_name(35),
        "network-cellular-signal-ok-symbolic"
    );
    assert_eq!(
        cellular_signal_icon_name(54),
        "network-cellular-signal-ok-symbolic"
    );
}

#[test]
fn test_cellular_signal_weak() {
    assert_eq!(
        cellular_signal_icon_name(15),
        "network-cellular-signal-weak-symbolic"
    );
    assert_eq!(
        cellular_signal_icon_name(34),
        "network-cellular-signal-weak-symbolic"
    );
}

#[test]
fn test_cellular_signal_none() {
    assert_eq!(
        cellular_signal_icon_name(14),
        "network-cellular-signal-none-symbolic"
    );
    assert_eq!(
        cellular_signal_icon_name(0),
        "network-cellular-signal-none-symbolic"
    );
}

// ---- Mobile subtitle text tests ----

#[test]
fn test_subtitle_mobile_connected_with_operator() {
    let mut snapshot = test_snapshot();
    snapshot.mobile.is_primary = true;
    snapshot.mobile.active = true;
    snapshot.mobile.operator = Some("MyCarrier".to_string());
    let wrapped = NetworkSnapshot::NetworkManager(snapshot);
    assert_eq!(get_network_subtitle_text(&wrapped), "MyCarrier");
}

#[test]
fn test_subtitle_mobile_connected_with_name_only() {
    let mut snapshot = test_snapshot();
    snapshot.mobile.is_primary = true;
    snapshot.mobile.active = true;
    snapshot.mobile.name = Some("My SIM".to_string());
    let wrapped = NetworkSnapshot::NetworkManager(snapshot);
    assert_eq!(get_network_subtitle_text(&wrapped), "My SIM");
}

#[test]
fn test_subtitle_mobile_connected_no_name() {
    let mut snapshot = test_snapshot();
    snapshot.mobile.is_primary = true;
    snapshot.mobile.active = true;
    let wrapped = NetworkSnapshot::NetworkManager(snapshot);
    assert_eq!(get_network_subtitle_text(&wrapped), "Mobile");
}

#[test]
fn test_subtitle_mobile_connecting() {
    let mut snapshot = test_snapshot();
    snapshot.mobile.connecting = true;
    let wrapped = NetworkSnapshot::NetworkManager(snapshot);
    assert_eq!(
        get_network_subtitle_text(&wrapped),
        "Mobile \u{2022} Connecting..."
    );
}

#[test]
fn test_subtitle_mobile_connected_and_wifi_connecting() {
    let mut snapshot = test_snapshot();
    snapshot.mobile.is_primary = true;
    snapshot.mobile.active = true;
    snapshot.wifi.connecting_ssid = Some("HomeWifi".to_string());
    let wrapped = NetworkSnapshot::NetworkManager(snapshot);
    assert_eq!(
        get_network_subtitle_text(&wrapped),
        "Mobile \u{2022} Connecting to HomeWifi"
    );
}

#[test]
fn test_subtitle_mobile_connected_and_wifi_connected() {
    let mut snapshot = test_snapshot();
    snapshot.mobile.is_primary = true;
    snapshot.mobile.active = true;
    snapshot.wifi.ssid = Some("HomeWifi".to_string());
    let wrapped = NetworkSnapshot::NetworkManager(snapshot);
    assert_eq!(
        get_network_subtitle_text(&wrapped),
        "HomeWifi \u{2022} Mobile"
    );
}

#[test]
fn test_subtitle_active_mobile_connected() {
    let mut snapshot = test_snapshot();
    snapshot.mobile.is_primary = true;
    snapshot.mobile.active = true;
    let wrapped = NetworkSnapshot::NetworkManager(snapshot);
    assert!(is_network_subtitle_active(&wrapped));
}

#[test]
fn test_subtitle_not_active_mobile_connecting() {
    let mut snapshot = test_snapshot();
    snapshot.mobile.connecting = true;
    let wrapped = NetworkSnapshot::NetworkManager(snapshot);
    assert!(!is_network_subtitle_active(&wrapped));
}

// ---- Mobile subtitle: active (not just primary) ----

#[test]
fn test_subtitle_mobile_active_not_primary_with_operator() {
    let mut snapshot = test_snapshot();
    snapshot.mobile.active = true;
    snapshot.mobile.operator = Some("Vodafone".to_string());
    let wrapped = NetworkSnapshot::NetworkManager(snapshot);
    assert_eq!(get_network_subtitle_text(&wrapped), "Vodafone");
}

#[test]
fn test_subtitle_wired_and_mobile_active() {
    let mut snapshot = test_snapshot();
    snapshot.wired.connected = true;
    snapshot.mobile.active = true;
    snapshot.mobile.operator = Some("MyCarrier".to_string());
    let wrapped = NetworkSnapshot::NetworkManager(snapshot);
    assert_eq!(
        get_network_subtitle_text(&wrapped),
        "Ethernet \u{2022} MyCarrier"
    );
}

#[test]
fn test_subtitle_wired_wifi_and_mobile_active() {
    let mut snapshot = test_snapshot();
    snapshot.wired.connected = true;
    snapshot.wifi.ssid = Some("HomeWifi".to_string());
    snapshot.mobile.active = true;
    snapshot.mobile.operator = Some("MyCarrier".to_string());
    let wrapped = NetworkSnapshot::NetworkManager(snapshot);
    assert_eq!(
        get_network_subtitle_text(&wrapped),
        "Ethernet \u{2022} HomeWifi \u{2022} MyCarrier"
    );
}

#[test]
fn test_subtitle_mobile_connecting_with_operator() {
    let mut snapshot = test_snapshot();
    snapshot.mobile.connecting = true;
    snapshot.mobile.operator = Some("AT&T".to_string());
    let wrapped = NetworkSnapshot::NetworkManager(snapshot);
    assert_eq!(
        get_network_subtitle_text(&wrapped),
        "AT&T \u{2022} Connecting..."
    );
}

#[test]
fn test_subtitle_active_mobile_active_not_primary() {
    let mut snapshot = test_snapshot();
    snapshot.mobile.active = true;
    let wrapped = NetworkSnapshot::NetworkManager(snapshot);
    assert!(is_network_subtitle_active(&wrapped));
}

// ---- network_icon_name with mobile ----

#[test]
fn test_wifi_icon_mobile_connected_with_signal() {
    assert_eq!(
        network_icon_name(&NetworkIconContext {
            mobile_is_primary: true,
            has_modem_device: true,
            mobile_signal_quality: Some(80),
            ..test_icon_ctx()
        }),
        "network-cellular-signal-excellent-symbolic"
    );
}

#[test]
fn test_wifi_icon_mobile_connected_no_signal() {
    assert_eq!(
        network_icon_name(&NetworkIconContext {
            mobile_is_primary: true,
            has_modem_device: true,
            ..test_icon_ctx()
        }),
        "network-cellular-signal-none-symbolic"
    );
}

#[test]
fn test_wifi_icon_modem_only_no_wifi() {
    // Modem-only system without mobile connection shows cellular none icon
    assert_eq!(
        network_icon_name(&NetworkIconContext {
            wifi_enabled: false,
            has_wifi_device: false,
            has_modem_device: true,
            ..test_icon_ctx()
        }),
        "network-cellular-signal-none-symbolic"
    );
}

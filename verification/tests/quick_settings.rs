//! The Quick Settings panel and its widget in the bar.

use vibepanel::bar_widget::{
    audio_indicator, bluetooth_indicator, initial_audio, initial_bluetooth, initial_mobile,
    initial_network, initial_vpn, mobile_indicator, network_indicator, on_widget_click,
    plan_indicators, vpn_indicator, AudioSnapshot, BluetoothDevice, BluetoothSnapshot,
    IndicatorKind, QuickSettingsCardsConfig, QuickSettingsConfig, ToggleAt,
};
use vibepanel::config::{OptionValue, WidgetEntry};
use vibepanel::layer_shell_popover::{AfterMap, AnimDirection, BarGeometry, Tick};
use vibepanel::names::NameMap;
use vibepanel::network::{MobileState, NetworkSnapshot, NmSnapshot, WifiState, WiredState};
use vibepanel::password_dialog::{DialogEffect, PasswordDialog};
use vibepanel::quick_settings::{
    build_audio_section, build_bluetooth_card, build_brightness_section, build_content,
    build_idle_inhibitor_card, build_mic_section, build_network_card, build_vpn_card,
    get_anchor_info, power_subtitle, reveal_duration, slider_request, subscribe_to_services,
    update_position, vpn_toggle_request, CardKind, ContentItem, HidePanel, MicSnapshot, PanelUi,
    QuickSettingsWindow, QuickSettingsWindowHandle, Subscription, Surroundings, TogglePanel,
};
use vibepanel::vpn_card::{
    on_vpn_changed, populate_vpn_list, vpn_card, AuthChange, KeyboardAction, VpnAuthDialog, VpnAuthField,
    VpnAuthRequest, VpnConnection, VpnItem, VpnKeyboardState, VpnList, VpnSnapshot, VpnState,
};

fn entry(options: Vec<(&str, OptionValue)>) -> WidgetEntry {
    let mut m = NameMap::new();
    for (k, v) in options {
        m.insert(k.to_string(), v);
    }
    WidgetEntry { name: "quick_settings".to_string(), options: m }
}

fn around() -> Surroundings {
    Surroundings { vpn_available: true, brightness_available: true, power_expands: true }
}

fn nm() -> NmSnapshot {
    NmSnapshot {
        available: true,
        wifi: WifiState {
            enabled: Some(true),
            connected: false,
            has_device: true,
            ssid: None,
            strength: 0,
            scanning: false,
            is_ready: true,
            networks: Vec::new(),
            connecting_ssid: None,
            failed_ssid: None,
            device_state: None,
        },
        wired: WiredState { connected: false, has_device: false, iface: None, name: None, speed: None },
        mobile: MobileState {
            is_primary: false,
            active: false,
            connecting: false,
            supported: false,
            enabled: Some(true),
            has_device: false,
            name: None,
            operator: None,
            access_technology: None,
            signal_quality: None,
            failed: false,
        },
        primary_connection_type: None,
    }
}

fn conn(uuid: &str, state: VpnState) -> VpnConnection {
    VpnConnection {
        uuid: uuid.to_string(),
        name: format!("Name of {uuid}"),
        vpn_type: "wireguard".to_string(),
        state,
        active: state == VpnState::Activated,
        autoconnect: false,
    }
}

fn vpn(connections: Vec<VpnConnection>) -> VpnSnapshot {
    let any_active = connections.iter().any(|c| c.active);
    VpnSnapshot {
        available: true,
        is_ready: true,
        primary: if connections.is_empty() { None } else { Some(0) },
        connections,
        any_active,
        legacy_auth_dialog_active: false,
        auth_request: None,
    }
}

// ----- options -----

#[test]
fn everything_is_shown_by_default() {
    let c = QuickSettingsConfig::from_entry(&entry(vec![]));
    assert_eq!(c, QuickSettingsConfig::default());
    assert_eq!(c.cards, QuickSettingsCardsConfig::default());
    assert_eq!(c.audio_scroll_percentage, 5);
}

#[test]
fn options_switch_cards_off() {
    let c = QuickSettingsConfig::from_entry(&entry(vec![
        ("vpn", OptionValue::Boolean(false)),
        ("idle_inhibitor", OptionValue::Boolean(false)),
        ("mic", OptionValue::Text("no".to_string())),
        ("vpn_close_on_connect", OptionValue::Boolean(false)),
    ]));
    assert!(!c.cards.vpn && !c.cards.idle_inhibitor && !c.cards.vpn_close_on_connect);
    assert!(c.cards.mic && c.cards.network && c.cards.power);
}

#[test]
fn the_scroll_step_is_kept_within_bounds() {
    let step = |n: i64| {
        QuickSettingsConfig::from_entry(&entry(vec![(
            "audio_scroll_percentage",
            OptionValue::Integer(n),
        )]))
        .audio_scroll_percentage
    };
    assert_eq!(step(10), 10);
    assert_eq!(step(0), 1);
    assert_eq!(step(-3), 1);
    assert_eq!(step(26), 25);
    assert_eq!(step(1 << 32), 1);
    assert_eq!(step((1 << 32) + 7), 7);
    assert_eq!(step(1 << 31), 1);
}

// ----- icons of the bar -----

#[test]
fn icons_stand_in_a_fixed_order() {
    let all = QuickSettingsCardsConfig::default();
    assert_eq!(
        plan_indicators(&all),
        vec![
            IndicatorKind::Audio,
            IndicatorKind::Bluetooth,
            IndicatorKind::Network,
            IndicatorKind::Mobile,
            IndicatorKind::Vpn,
        ]
    );
    let few = QuickSettingsCardsConfig { network: false, audio: false, ..all };
    assert_eq!(plan_indicators(&few), vec![IndicatorKind::Bluetooth, IndicatorKind::Vpn]);
}

#[test]
fn the_audio_icon_tells_the_volume() {
    let s = AudioSnapshot { available: true, control_available: true, volume: 42, muted: false };
    let i = audio_indicator(&s, "audio-volume-medium-symbolic");
    assert_eq!(i.icon.as_deref(), Some("audio-volume-medium-symbolic"));
    assert_eq!(i.tooltip.as_deref(), Some("Volume: 42%"));
    assert_eq!(i.unavailable, Some(false));
    let i = audio_indicator(&AudioSnapshot { muted: true, ..s }, "x");
    assert_eq!(i.tooltip.as_deref(), Some("Muted"));
    let i = audio_indicator(&AudioSnapshot { control_available: false, ..s }, "x");
    assert_eq!(i.icon.as_deref(), Some("audio-volume-muted-symbolic"));
    assert_eq!(i.tooltip.as_deref(), Some("Volume control unavailable"));
    let i = audio_indicator(&AudioSnapshot { available: false, ..s }, "x");
    assert_eq!(i.tooltip.as_deref(), Some("Audio: Service unavailable"));
    assert_eq!(i.unavailable, Some(true));
    assert_eq!(initial_audio("x").icon.as_deref(), Some("x"));
    assert!(initial_audio("x").tooltip.is_none());
}

fn bluetooth(connected_devices: usize, powered: bool) -> BluetoothSnapshot {
    BluetoothSnapshot {
        has_adapter: true,
        is_ready: true,
        powered,
        connected_devices,
        devices: vec![
            BluetoothDevice { name: "Mouse".to_string(), connected: false },
            BluetoothDevice { name: "Headset".to_string(), connected: connected_devices > 0 },
            BluetoothDevice { name: "Keyboard".to_string(), connected: connected_devices > 1 },
        ],
    }
}

#[test]
fn the_bluetooth_icon_names_what_is_connected() {
    let i = bluetooth_indicator(&bluetooth(2, true), "bt");
    assert_eq!(i.tooltip.as_deref(), Some("Headset\nKeyboard"));
    assert_eq!((i.active, i.disabled), (Some(true), Some(false)));
    let i = bluetooth_indicator(&bluetooth(0, true), "bt");
    assert_eq!(i.tooltip.as_deref(), Some("Bluetooth On"));
    let i = bluetooth_indicator(&bluetooth(0, false), "bt");
    assert_eq!(i.tooltip.as_deref(), Some("Bluetooth Off"));
    assert_eq!(i.disabled, Some(true));
    let mut s = bluetooth(1, true);
    s.devices.clear();
    assert_eq!(bluetooth_indicator(&s, "bt").tooltip.as_deref(), Some("Bluetooth On"));
    s.has_adapter = false;
    let i = bluetooth_indicator(&s, "bt");
    assert_eq!(i.icon.as_deref(), Some("bluetooth-disabled-symbolic"));
    assert_eq!((i.unavailable, i.active, i.disabled), (Some(true), Some(false), None));
    let i = initial_bluetooth(&s, "bt");
    assert_eq!((i.icon.as_deref(), i.active), (Some("bt"), Some(true)));
}

#[test]
fn the_network_icon_tells_the_connection() {
    let tip = |s: NmSnapshot| {
        network_indicator(&NetworkSnapshot::NetworkManager(s)).tooltip.expect("a tooltip")
    };
    let mut s = nm();
    s.wifi.connected = true;
    s.wifi.ssid = Some("Home".to_string());
    s.wifi.strength = 70;
    assert_eq!(tip(s), "Home\nSignal: 70%");
    let mut s = nm();
    s.wifi.connected = true;
    assert_eq!(tip(s), "Connected");
    let mut s = nm();
    s.wired.connected = true;
    assert_eq!(tip(s), "Ethernet connected");
    let mut s = nm();
    s.wifi.connecting_ssid = Some("Home".to_string());
    assert_eq!(tip(s), "Connecting to Home");
    let mut s = nm();
    s.wifi.enabled = Some(false);
    assert_eq!(tip(s), "Wi-Fi Off");
    let mut s = nm();
    s.wifi.scanning = true;
    assert_eq!(tip(s), "Wi-Fi: Scanning...");
    assert_eq!(tip(nm()), "Disconnected");
    let mut s = nm();
    s.available = false;
    s.wifi.enabled = Some(false);
    let n = NetworkSnapshot::NetworkManager(s);
    let i = network_indicator(&n);
    assert_eq!(i.tooltip.as_deref(), Some("Wi-Fi: Service unavailable"));
    assert_eq!((i.unavailable, i.disabled, i.spinning), (Some(true), Some(false), Some(false)));
    assert_eq!(initial_network(&n).disabled, Some(true));
}

#[test]
fn the_mobile_icon_tells_the_carrier() {
    let mut s = nm();
    s.mobile.supported = true;
    s.mobile.active = true;
    s.mobile.operator = Some("Carrier".to_string());
    s.mobile.signal_quality = Some(80);
    s.mobile.access_technology = Some("LTE".to_string());
    let n = NetworkSnapshot::NetworkManager(s);
    let i = mobile_indicator(&n);
    assert_eq!(i.tooltip.as_deref(), Some("Carrier\nSignal: 80%\nLTE"));
    assert_eq!((i.visible, i.active, i.disabled), (Some(true), Some(true), Some(false)));
    assert!(initial_mobile(&n).tooltip.is_none());
    assert_eq!(initial_mobile(&n).icon, i.icon);
    let tip = |s: NmSnapshot| {
        mobile_indicator(&NetworkSnapshot::NetworkManager(s)).tooltip.expect("a tooltip")
    };
    assert_eq!(tip(nm()), "Mobile\nDisconnected");
    let mut s = nm();
    s.mobile.enabled = None;
    assert_eq!(tip(s), "Mobile\nOff");
    let mut s = nm();
    s.mobile.connecting = true;
    assert_eq!(tip(s), "Mobile\nConnecting...");
    let mut s = nm();
    s.mobile.failed = true;
    s.mobile.active = true;
    assert_eq!(tip(s), "Mobile\nConnection failed");
}

#[test]
fn the_vpn_icon_names_what_is_up() {
    let s = vpn(vec![conn("a", VpnState::Activated), conn("b", VpnState::Deactivated), conn("c", VpnState::Activated)]);
    let i = vpn_indicator(&s);
    assert_eq!(i.tooltip.as_deref(), Some("Name of a\nName of c"));
    assert_eq!((i.visible, i.active), (Some(true), Some(true)));
    assert_eq!(initial_vpn(&s).active, Some(true));
    assert_eq!(vpn_indicator(&vpn(vec![])).tooltip.as_deref(), Some("VPN Disconnected"));
    let mut s = vpn(vec![]);
    s.any_active = true;
    assert_eq!(vpn_indicator(&s).tooltip.as_deref(), Some("VPN Connected"));
    s.available = false;
    let i = vpn_indicator(&s);
    assert_eq!((i.visible, i.tooltip), (Some(false), None));
    assert_eq!(initial_vpn(&s).active, Some(false));
}

#[test]
fn only_the_primary_button_toggles() {
    assert_eq!(on_widget_click(1, Some(100), 8), Some(ToggleAt { x: 108, on_monitor: true }));
    assert_eq!(on_widget_click(1, None, 8), Some(ToggleAt { x: 0, on_monitor: false }));
    assert_eq!(on_widget_click(3, Some(100), 8), None);
    assert_eq!(get_anchor_info(Some(5), 2), ToggleAt { x: 7, on_monitor: true });
    assert_eq!(get_anchor_info(None, 2), ToggleAt { x: 0, on_monitor: false });
}

// ----- the content -----

#[test]
fn cards_stand_two_in_a_row_over_their_details() {
    let cfg = QuickSettingsCardsConfig { updates: false, mic: false, ..QuickSettingsCardsConfig::default() };
    let content = build_content(&cfg, &around());
    assert_eq!(
        content,
        vec![
            ContentItem::Row { left: CardKind::Network, right: Some(CardKind::Bluetooth), margin_top: 0 },
            ContentItem::Details(CardKind::Network),
            ContentItem::Details(CardKind::Bluetooth),
            ContentItem::Row { left: CardKind::Vpn, right: Some(CardKind::IdleInhibitor), margin_top: 8 },
            ContentItem::Details(CardKind::Vpn),
            ContentItem::Row { left: CardKind::Power, right: None, margin_top: 8 },
            ContentItem::Details(CardKind::Power),
            ContentItem::AudioRow { margin_top: 12 },
            ContentItem::AudioHint,
            ContentItem::AudioDetails,
            ContentItem::BrightnessRow,
        ]
    );
}

#[test]
fn what_is_not_there_is_left_out() {
    let cfg = QuickSettingsCardsConfig::default();
    let bare = Surroundings { vpn_available: false, brightness_available: false, power_expands: false };
    let content = build_content(&cfg, &bare);
    assert!(!content.contains(&ContentItem::Details(CardKind::Vpn)));
    assert!(!content.contains(&ContentItem::Details(CardKind::Power)));
    assert!(!content.contains(&ContentItem::BrightnessRow));
    assert!(content.contains(&ContentItem::Row {
        left: CardKind::IdleInhibitor,
        right: Some(CardKind::Updates),
        margin_top: 8
    }));
}

#[test]
fn every_choice_of_cards_places_each_card_once() {
    for mask in 0u32..64 {
        let cfg = QuickSettingsCardsConfig {
            network: mask & 1 != 0,
            bluetooth: mask & 2 != 0,
            vpn: mask & 4 != 0,
            idle_inhibitor: mask & 8 != 0,
            updates: mask & 16 != 0,
            power: mask & 32 != 0,
            ..QuickSettingsCardsConfig::default()
        };
        let mut cards = Vec::new();
        for item in build_content(&cfg, &around()) {
            if let ContentItem::Row { left, right, .. } = item {
                cards.push(left);
                cards.extend(right);
            }
        }
        assert_eq!(cards.len(), mask.count_ones() as usize);
        cards.dedup();
        assert_eq!(cards.len(), mask.count_ones() as usize);
    }
}

#[test]
fn the_panel_listens_for_what_it_shows() {
    let cfg = QuickSettingsCardsConfig { bluetooth: false, audio: false, ..QuickSettingsCardsConfig::default() };
    assert_eq!(
        subscribe_to_services(&cfg),
        vec![
            Subscription::Network,
            Subscription::Vpn,
            Subscription::IdleInhibitor,
            Subscription::AudioMic,
            Subscription::Brightness,
            Subscription::Updates,
        ]
    );
}

#[test]
fn details_unfold_in_their_time() {
    assert_eq!(reveal_duration(ContentItem::Details(CardKind::Vpn), true), Some(250));
    assert_eq!(reveal_duration(ContentItem::AudioDetails, true), Some(200));
    assert_eq!(reveal_duration(ContentItem::MicDetails, false), Some(0));
    assert_eq!(reveal_duration(ContentItem::MicRow, true), None);
    assert_eq!(power_subtitle(true), "Hold to confirm");
    assert_eq!(power_subtitle(false), "Hold to shut down");
    assert_eq!(slider_request(true, 5), None);
    assert_eq!(slider_request(false, 5), Some(5));
}

#[test]
fn cards_are_built_from_what_services_say() {
    let mut s = nm();
    s.wifi.enabled = Some(false);
    s.wifi.has_device = false;
    let c = build_network_card(&NetworkSnapshot::NetworkManager(s), false);
    assert!(!c.toggle_active && !c.toggle_sensitive && c.disabled && !c.spinning);
    assert_eq!(c.title, "Wi-Fi");
    let mut s = nm();
    s.wired.has_device = true;
    s.mobile.connecting = true;
    let c = build_network_card(&NetworkSnapshot::NetworkManager(s), false);
    assert_eq!(c.title, "Network");
    assert!(c.spinning && c.toggle_active && c.toggle_sensitive);

    assert_eq!(build_bluetooth_card(&bluetooth(2, true)).subtitle, "2 connected");
    assert_eq!(build_bluetooth_card(&bluetooth(1, true)).subtitle, "Headset");
    assert_eq!(build_bluetooth_card(&bluetooth(0, true)).subtitle, "Enabled");
    assert_eq!(build_bluetooth_card(&bluetooth(0, false)).subtitle, "Disabled");
    let mut b = bluetooth(1, true);
    b.devices.clear();
    assert_eq!(build_bluetooth_card(&b).subtitle, "Bluetooth");
    b.is_ready = false;
    assert_eq!(build_bluetooth_card(&b).subtitle, "Bluetooth");
    b.has_adapter = false;
    let c = build_bluetooth_card(&b);
    assert_eq!(c.subtitle, "Unavailable");
    assert!(!c.toggle_active && !c.toggle_sensitive);

    assert_eq!(build_idle_inhibitor_card(true, false).subtitle, "Enabled");
    assert!(!build_idle_inhibitor_card(true, false).toggle_sensitive);

    let a = AudioSnapshot { available: true, control_available: false, volume: 9, muted: true };
    let row = build_audio_section(&a);
    assert!(row.muted && !row.sensitive && row.hint_visible);
    let m = MicSnapshot { available: true, mic_control_available: true, mic_volume: None, mic_muted: None };
    let row = build_mic_section(&m);
    assert_eq!((row.value, row.muted, row.sensitive, row.hint_visible), (0, false, true, false));
    assert_eq!(build_brightness_section(true, 30).value, Some(30));
    assert_eq!(build_brightness_section(false, 30).value, None);
}

// ----- place -----

const BAR: BarGeometry = BarGeometry {
    size: 32,
    padding: 4,
    has_background: true,
    screen_margin: 6,
    popover_offset: 10,
};

#[test]
fn the_panel_is_placed_under_its_widget() {
    let p = update_position(&BAR, 960, 1920, 1080, 0, 0, 4);
    // 320 + 32 + 2 * 4 wide.
    assert_eq!(p.right, 1920 - 960 - 180);
    assert_eq!(p.bar_margin, 6);
    assert_eq!(p.max_height, Some(1080 - 62 - 6 - 24 - 8));
    assert_eq!(p.cached_width, 0);
    let p = update_position(&BAR, 960, 1920, 1080, 400, 0, 4);
    assert_eq!((p.right, p.cached_width), (760, 400));
    let p = update_position(&BAR, 960, 1920, 1080, 0, 400, 4);
    assert_eq!((p.right, p.cached_width), (760, 400));
    let p = update_position(&BAR, 0, 1920, 1080, 500, 400, 4);
    assert_eq!((p.right, p.cached_width), (8, 400));
    let p = update_position(&BAR, 960, 1920, 200, 0, 0, 4);
    assert_eq!(p.max_height, None);
}

// ----- opening and closing -----

#[test]
fn a_panel_opens_closes_and_opens_again() {
    let mut w = QuickSettingsWindow::new(QuickSettingsConfig::default());
    let show = w.show_panel();
    assert!(show.first && show.create_catcher);
    let mapped = w.on_mapped(show.generation, show.first, true);
    assert_eq!(mapped.after, AfterMap::Animate);
    assert!(mapped.place_and_uncover && mapped.deliver_network);
    assert!(w.start_animation(AnimDirection::Opening, show.generation, 1).need_tick);
    assert_eq!(w.on_tick(show.generation, true), Tick::Opened);
    let HidePanel::Animate(g) = w.hide_panel(true) else {
        panic!("it fades out");
    };
    assert_eq!(w.hide_panel(true), HidePanel::Nothing);
    w.start_animation(AnimDirection::Closing, g, 2);
    assert_eq!(w.on_tick(g, true), Tick::Closed);
    assert!(!w.is_animating_out && !w.logically_open);
    let again = w.show_panel();
    assert!(!again.first && !again.create_catcher);
    let mapped = w.on_mapped(show.generation, show.first, true);
    assert_eq!(mapped.after, AfterMap::Stale);
    assert!(!mapped.place_and_uncover && !mapped.deliver_network);
    let mapped = w.on_mapped(again.generation, again.first, false);
    assert_eq!(mapped.after, AfterMap::Snap);
    assert!(!mapped.place_and_uncover && mapped.deliver_network);
    assert_eq!(w.hide_panel(false), HidePanel::Snap);
    assert!(!w.is_animating_out);
}

#[test]
fn the_panel_awaits_the_first_key_that_moves_the_focus_once() {
    let mut w = QuickSettingsWindow::new(QuickSettingsConfig::default());
    assert!(!w.awaits_keynav);
    let show = w.show_panel();
    assert!(w.awaits_keynav);
    w.on_first_keynav();
    assert!(!w.awaits_keynav && w.logically_open);
    assert_eq!(w.generation, show.generation);
    w.hide_panel(false);
    w.show_panel();
    assert!(w.awaits_keynav);
}

#[test]
fn a_panel_shown_while_it_fades_stays_open() {
    let mut w = QuickSettingsWindow::new(QuickSettingsConfig::default());
    w.show_panel();
    let HidePanel::Animate(g) = w.hide_panel(true) else {
        panic!("it fades out");
    };
    w.start_animation(AnimDirection::Closing, g, 2);
    w.show_panel();
    assert_eq!(w.on_tick(g, true), Tick::Stale);
    assert!(w.logically_open && !w.is_animating_out);
}

#[test]
fn the_handle_makes_the_panel_once_and_toggles_it() {
    let mut h = QuickSettingsWindowHandle::new(QuickSettingsConfig::default());
    assert!(!h.ipc_is_visible() && h.ipc_show());
    assert_eq!(h.dismiss(true), None);
    assert_eq!(h.toggle_at(true), TogglePanel::DismissOthers);
    assert!(h.open_at(100).create);
    h.on_registered(3);
    assert!(h.ipc_is_visible() && !h.ipc_show());
    assert_eq!(h.window.expect("a panel").anchor_x, 100);
    let TogglePanel::Close(c) = h.toggle_at(true) else {
        panic!("it closes");
    };
    assert_eq!(c.clear, Some(3));
    assert!(matches!(c.hide_panel, HidePanel::Animate(_)));
    assert!(!h.ipc_is_visible());
    assert_eq!(h.ipc_hide(true), None);
    assert_eq!(h.toggle_at(true), TogglePanel::DismissOthers);
    assert!(!h.open_at(50).create);
    assert!(h.ipc_hide(false).is_some());
    h.open_at(50);
    h.on_registered(9);
    assert_eq!(h.destroy(), Some(9));
    assert!(h.window.is_none() && h.tracker_id.is_none());
}

#[test]
fn a_vpn_that_comes_up_closes_the_panel_where_wanted() {
    let mut config = QuickSettingsConfig::default();
    assert!(QuickSettingsWindow::new(config).closes_on_vpn(true));
    assert!(!QuickSettingsWindow::new(config).closes_on_vpn(false));
    config.cards.vpn_close_on_connect = false;
    assert!(!QuickSettingsWindow::new(config).closes_on_vpn(true));
}

// ----- VPN -----

#[test]
fn pending_connects_are_watched_while_the_keyboard_is_free() {
    let mut k = VpnKeyboardState::new();
    k.track_toggle_action("a", true);
    k.track_toggle_action("a", true);
    assert_eq!(k.pending_connects.len(), 1);
    let mut s = vpn(vec![conn("a", VpnState::Activating)]);
    s.legacy_auth_dialog_active = true;
    let (actions, done) = k.on_vpn_changed(&s);
    assert_eq!((actions, done), (vec![KeyboardAction::Release], false));
    assert!(k.keyboard_released);
    let s = vpn(vec![conn("a", VpnState::Activated)]);
    let (actions, done) = k.on_vpn_changed(&s);
    assert_eq!((actions, done), (vec![KeyboardAction::Restore], true));
    assert!(k.pending_connects.is_empty() && !k.keyboard_released);
}

#[test]
fn a_connect_completes_once_whoever_has_the_keyboard() {
    let mut k = VpnKeyboardState::new();
    k.track_toggle_action("a", true);
    let (actions, done) = k.on_vpn_changed(&vpn(vec![conn("a", VpnState::Activating)]));
    assert!(actions.is_empty() && !done);
    let up = vpn(vec![conn("a", VpnState::Activated)]);
    let (actions, done) = k.on_vpn_changed(&up);
    assert!(actions.is_empty() && done);
    assert!(k.pending_connects.is_empty());
    let (actions, done) = k.on_vpn_changed(&up);
    assert!(actions.is_empty() && !done);
}

#[test]
fn connects_that_fail_give_the_keyboard_back() {
    let mut k = VpnKeyboardState::new();
    k.keyboard_released = true;
    k.track_toggle_action("gone", true);
    k.track_toggle_action("b", false);
    let s = vpn(vec![conn("b", VpnState::Deactivating)]);
    let (actions, done) = k.on_vpn_changed(&s);
    assert_eq!((actions, done), (vec![KeyboardAction::Restore], false));
    assert_eq!(k.pending_disconnects, vec!["b".to_string()]);
    let (completed, over) = k.check_pending(&vec![conn("b", VpnState::Deactivated)]);
    assert!(!completed && !over && k.pending_disconnects.is_empty());
}

#[test]
fn clearing_forgets_what_is_pending() {
    let mut k = VpnKeyboardState::new();
    k.track_toggle_action("a", true);
    assert!(!k.clear());
    assert!(k.pending_connects.is_empty());
    k.keyboard_released = true;
    assert!(k.clear());
    assert!(!k.restore_if_released());
}

#[test]
fn the_vpn_card_shows_the_main_connection() {
    let c = vpn_card(&vpn(vec![conn("a", VpnState::Activated)]));
    assert_eq!(c.subtitle, "Name of a");
    assert_eq!(c.icon, "network-vpn");
    assert!(c.toggle_active && c.toggle_sensitive && c.icon_active);
    assert_eq!(vpn_card(&vpn(vec![conn("a", VpnState::Deactivated)])).subtitle, "Disconnected");
    assert_eq!(vpn_card(&vpn(vec![])).subtitle, "No connections");
    let mut s = vpn(vec![]);
    s.is_ready = false;
    assert_eq!(vpn_card(&s).subtitle, "VPN");
    assert_eq!(build_vpn_card(&s).subtitle, "VPN");
    s.available = false;
    assert_eq!(vpn_card(&s).subtitle, "Unavailable");
    assert!(vpn_card(&s).unavailable);
    let s = vpn(vec![conn("a", VpnState::Activated)]);
    assert_eq!(build_vpn_card(&s).subtitle, "Name of a");
    assert_eq!(vpn_toggle_request(&s, false, false), Some(("a".to_string(), false)));
    assert_eq!(vpn_toggle_request(&s, true, false), None);
    assert_eq!(vpn_toggle_request(&vpn(vec![]), false, true), None);
}

fn shape(list: &VpnList) -> Vec<String> {
    match list {
        VpnList::Placeholder(t) => vec![format!("- {t}")],
        VpnList::Items(items) => items
            .iter()
            .map(|i| match i {
                VpnItem::Connection(r) => format!(
                    "{} | {} | {}",
                    r.title,
                    r.subtitle.as_deref().unwrap_or("Active"),
                    r.action
                ),
                VpnItem::Auth => "prompt".to_string(),
            })
            .collect(),
    }
}

#[test]
fn the_list_of_connections_holds_the_prompt() {
    let mut a = conn("a", VpnState::Activated);
    a.autoconnect = true;
    let mut b = conn("b", VpnState::Deactivated);
    b.vpn_type = "vpn".to_string();
    b.autoconnect = true;
    let mut c = conn("c", VpnState::Deactivated);
    c.vpn_type = "other".to_string();
    let s = vpn(vec![a, b, c]);
    assert_eq!(
        shape(&populate_vpn_list(&s, &Some("b".to_string()))),
        vec![
            "Name of a | Active | Disconnect",
            "Name of b | Inactive \u{2022} Autoconnect \u{2022} OpenVPN | Connect",
            "prompt",
            "Name of c | Inactive | Connect",
        ]
    );
    assert_eq!(shape(&populate_vpn_list(&s, &Some("zz".to_string()))).last().unwrap(), "prompt");
    assert_eq!(shape(&populate_vpn_list(&s, &None)).len(), 3);
    assert_eq!(shape(&populate_vpn_list(&s, &Some(String::new()))).len(), 3);
    assert_eq!(shape(&populate_vpn_list(&vpn(vec![]), &None)), vec!["- No VPN connections"]);
    let mut s = vpn(vec![]);
    s.is_ready = false;
    assert_eq!(shape(&populate_vpn_list(&s, &None)), vec!["- Loading VPN state..."]);
    match populate_vpn_list(&vpn(vec![conn("a", VpnState::Activated)]), &None) {
        VpnList::Items(items) => match &items[0] {
            VpnItem::Connection(r) => {
                assert_eq!(r.extras, vec!["WireGuard".to_string()]);
                assert!(r.accent);
            }
            VpnItem::Auth => panic!("no prompt"),
        },
        VpnList::Placeholder(t) => panic!("{t}"),
    }
}

fn request(is_retry: bool, description: Option<&str>) -> Option<VpnAuthRequest> {
    Some(VpnAuthRequest {
        uuid: "a".to_string(),
        name: "Office".to_string(),
        description: description.map(|d| d.to_string()),
        is_retry,
        fields: vec![
            VpnAuthField { key: "user".to_string(), label: "User".to_string(), value: Some("me".to_string()) },
            VpnAuthField { key: "pass".to_string(), label: "Password".to_string(), value: None },
        ],
    })
}

#[test]
fn secrets_are_asked_for_once() {
    let mut d = VpnAuthDialog::new();
    assert!(matches!(d.on_auth_request(&None), AuthChange::Keep));
    match d.on_auth_request(&request(false, None)) {
        AuthChange::Show(p) => {
            assert_eq!(p.label, "Enter credentials for Office");
            assert_eq!((p.status, p.status_error), ("", false));
            assert_eq!(p.entries.len(), 2);
            assert_eq!((p.entries[0].text.as_str(), p.entries[0].focus), ("me", true));
            assert_eq!((p.entries[1].placeholder.as_str(), p.entries[1].focus), ("Password", false));
            assert_eq!((p.entries[1].key.as_str(), p.entries[1].text.as_str()), ("pass", ""));
        }
        other => panic!("{:?}", other),
    }
    assert!(matches!(d.on_auth_request(&request(false, None)), AuthChange::Keep));
    assert!(matches!(d.on_auth_request(&None), AuthChange::Conceal));
    match d.on_auth_request(&request(true, None)) {
        AuthChange::Show(p) => {
            assert_eq!(p.label, "Re-enter credentials for Office");
            assert_eq!((p.status, p.status_error), ("Wrong password", true));
        }
        other => panic!("{:?}", other),
    }
    assert_eq!(d.on_vpn_auth_connect_clicked(Vec::new()), None);
    assert!(d.target.is_some());
    let secrets = vec![("user".to_string(), "me".to_string()), ("pass".to_string(), "x".to_string())];
    assert_eq!(d.on_vpn_auth_connect_clicked(secrets.clone()), Some(secrets));
    assert!(d.target.is_none());
    match d.on_auth_request(&request(true, Some("Token"))) {
        AuthChange::Show(p) => assert_eq!(p.label, "Token"),
        other => panic!("{:?}", other),
    }
    d.on_vpn_auth_cancel_clicked();
    assert!(d.target.is_none());
}

#[test]
fn a_closed_panel_is_folded_up_and_asks_nothing() {
    let mut password = PasswordDialog::new();
    password.show_password_dialog("Cafe");
    assert_eq!(password.target.as_deref(), Some("Cafe"));
    let mut ui = PanelUi {
        network: true,
        bluetooth: false,
        vpn: true,
        updates: true,
        power: Some(true),
        audio: true,
        mic: true,
        password,
        vpn_auth: VpnAuthDialog { target: Some("uuid".to_string()) },
    };
    let plan = ui.reset_ui_state();
    assert!(!ui.network && !ui.bluetooth && !ui.vpn && !ui.updates && !ui.audio && !ui.mic);
    assert_eq!(ui.power, Some(false));
    assert_eq!(plan.power_subtitle, Some("Hold to shut down"));
    assert!(ui.password.target.is_none());
    assert!(ui.vpn_auth.target.is_none());
    assert!(matches!(
        plan.password.as_slice(),
        [DialogEffect::ClearEntry, DialogEffect::Conceal, DialogEffect::Repopulate]
    ));

    ui.power = None;
    assert_eq!(ui.reset_ui_state().power_subtitle, None);
    assert_eq!(ui.power, None);
}

#[test]
fn a_change_of_the_vpns_reaches_card_list_and_prompt() {
    let mut keyboard = VpnKeyboardState::new();
    let mut auth = VpnAuthDialog::new();
    keyboard.track_toggle_action("a", true);
    let mut s = vpn(vec![conn("a", VpnState::Activating), conn("b", VpnState::Deactivated)]);
    s.auth_request = request(false, None);
    s.legacy_auth_dialog_active = true;
    let r = on_vpn_changed(&mut keyboard, &mut auth, &s);
    assert_eq!(r.keyboard, [KeyboardAction::Release]);
    assert!(!r.connect_completed);
    assert!(matches!(r.auth, AuthChange::Show(_)));
    assert_eq!(shape(&r.list)[1], "prompt");
    assert!(r.card.toggle_sensitive);

    let s = vpn(vec![conn("a", VpnState::Activated), conn("b", VpnState::Deactivated)]);
    let r = on_vpn_changed(&mut keyboard, &mut auth, &s);
    assert!(r.connect_completed);
    assert_eq!(r.keyboard, [KeyboardAction::Restore]);
    assert!(matches!(r.auth, AuthChange::Conceal));
    assert_eq!(shape(&r.list).len(), 2);
    assert!(!on_vpn_changed(&mut keyboard, &mut auth, &s).connect_completed);
}

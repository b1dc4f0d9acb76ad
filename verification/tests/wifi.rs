//! The list of Wi-Fi networks and the prompt for a password.

use vibepanel::iwd_networks::{
    join_networks, network_properties, read_network_props, InterfaceProps, ObjectProps,
    OrderedNetwork, PropValue,
};
use vibepanel::network::{
    IwdAuthRequest, IwdSnapshot, MobileState, NetworkSnapshot, NmSnapshot, SecurityType,
    StationState, WifiNetwork, WifiState, WiredState, AUTH_FAILURE_REASON,
    CONNECTION_FAILURE_REASON,
};
use vibepanel::network_card::{
    build_ethernet_subtitle, build_mobile_row, build_wifi_details, ethernet_subtitle_key,
    mobile_button_request, mobile_subtitle, mobile_switch_request, network_card,
    resolve_material_network_icon, update_mobile_row, update_scan_ui, wifi_switch_request,
    EthernetRow, IconColor, MobileRequest, MobileSubtitle,
};
use vibepanel::network_state::NetworkCardState;
use vibepanel::password_dialog::{DialogEffect, PasswordDialog};
use vibepanel::wifi_list::{
    activate_row, create_network_action_widget, populate_wifi_list, press_connect, press_forget,
    press_menu, ListItem, NetworkCommand, RowAction, RowSubtitle, WifiList,
};

fn net(ssid: &str, secured: bool, known: bool, active: bool) -> WifiNetwork {
    WifiNetwork {
        ssid: ssid.to_string(),
        strength: 65,
        security: if secured { SecurityType::Secured } else { SecurityType::Open },
        active,
        known,
        known_network_path: if known { Some(format!("/known/{ssid}")) } else { None },
        path: Some(format!("/net/{ssid}")),
    }
}

fn iwd(networks: Vec<WifiNetwork>) -> IwdSnapshot {
    IwdSnapshot {
        available: true,
        ssid: None,
        state: Some(StationState::Disconnected),
        wifi_enabled: Some(true),
        scanning: false,
        networks,
        auth_request: None,
        failed_ssid: None,
        failed_reason: None,
        initial_scan_complete: true,
    }
}

fn nm() -> NmSnapshot {
    NmSnapshot {
        available: true,
        wifi: WifiState {
            enabled: Some(true),
            connected: false,
            has_device: true,
            ssid: None,
            strength: 0,
            scanning: false,
            is_ready: true,
            networks: Vec::new(),
            connecting_ssid: None,
            failed_ssid: None,
            device_state: None,
        },
        wired: WiredState { connected: false, has_device: false, iface: None, name: None, speed: None },
        mobile: MobileState {
            is_primary: false,
            active: false,
            connecting: false,
            supported: true,
            enabled: Some(true),
            has_device: true,
            name: None,
            operator: Some("Carrier".to_string()),
            access_technology: None,
            signal_quality: Some(40),
            failed: false,
        },
        primary_connection_type: None,
    }
}

// ----- rows and buttons -----

#[test]
fn rows_connect_or_ask() {
    assert!(matches!(
        activate_row(&net("Open", false, false, false)),
        NetworkCommand::Connect { ssid, path: Some(p) } if ssid == "Open" && p == "/net/Open"
    ));
    assert!(matches!(activate_row(&net("Known", true, true, false)), NetworkCommand::Connect { .. }));
    assert!(!matches!(activate_row(&net("Open", false, false, false)), NetworkCommand::AskPassword { .. }));
    // NetworkManager needs the password first; iwd asks for it itself.
    assert!(matches!(
        press_connect(&net("New", true, false, false), false),
        NetworkCommand::AskPassword { ssid } if ssid == "New"
    ));
    assert!(matches!(press_connect(&net("New", true, false, false), true), NetworkCommand::Connect { .. }));
    assert!(matches!(press_connect(&net("Open", false, false, false), false), NetworkCommand::Connect { .. }));
    // A secured network that is not known is left to its button.
    assert!(matches!(activate_row(&net("New", true, false, false)), NetworkCommand::Nothing));
    assert!(matches!(activate_row(&net("Known", true, true, true)), NetworkCommand::Disconnect));
}

#[test]
fn rows_have_a_button_or_a_menu() {
    assert_eq!(create_network_action_widget(&net("New", true, false, false)), RowAction::ConnectButton);
    assert_eq!(
        create_network_action_widget(&net("Known", true, true, true)),
        RowAction::Menu { disconnect: true, forget: true }
    );
    assert!(matches!(press_menu(&net("Known", true, true, true)), NetworkCommand::Disconnect));
    assert!(matches!(
        press_forget(&net("Known", true, true, false)),
        NetworkCommand::Forget { ssid, path: Some(p) } if ssid == "Known" && p == "/known/Known"
    ));
}

fn shape(list: &WifiList) -> Vec<String> {
    match list {
        WifiList::Blank => vec![],
        WifiList::Disabled { icon, text } => vec![format!("{icon}: {text}")],
        WifiList::Placeholder(t) => vec![t.to_string()],
        WifiList::Items(items) => items
            .iter()
            .map(|i| match i {
                ListItem::Password => "prompt".to_string(),
                ListItem::Network(r) => match &r.subtitle {
                    RowSubtitle::Connected => format!("{} | connected | {:?}", r.title, r.action),
                    RowSubtitle::Failed(t) => format!("{} | failed: {t}", r.title),
                    RowSubtitle::Plain(t) => format!("{} | {t}", r.title),
                },
            })
            .collect(),
    }
}

#[test]
fn networks_are_listed_with_what_is_known_of_them() {
    let mut s = iwd(vec![
        net("Home", true, true, true),
        net("Cafe", false, false, false),
        net("Office", true, true, false),
    ]);
    s.state = Some(StationState::Connected);
    s.ssid = Some("Home".to_string());
    s.failed_ssid = Some("Office".to_string());
    let list = populate_wifi_list(&NetworkSnapshot::Iwd(s), Some("Cafe"), false);
    assert_eq!(
        shape(&list),
        vec![
            "Home | connected | Menu { disconnect: true, forget: true }".to_string(),
            "Cafe | 65%".to_string(),
            "prompt".to_string(),
            format!("Office | failed: {CONNECTION_FAILURE_REASON}"),
        ]
    );
}

#[test]
fn a_prompt_for_an_unlisted_network_stands_at_the_end() {
    let s = NetworkSnapshot::Iwd(iwd(vec![net("Home", true, false, false)]));
    assert_eq!(
        shape(&populate_wifi_list(&s, Some("Gone"), false)),
        vec!["Home | Secured \u{2022} 65%", "prompt"]
    );
    assert_eq!(shape(&populate_wifi_list(&s, None, false)).len(), 1);
    assert_eq!(shape(&populate_wifi_list(&s, Some(""), false)).len(), 1);
}

#[test]
fn a_network_being_connected_to_waits() {
    let mut s = iwd(vec![net("Home", true, true, false)]);
    s.state = Some(StationState::Connecting);
    s.ssid = Some("Home".to_string());
    match populate_wifi_list(&NetworkSnapshot::Iwd(s), None, true) {
        WifiList::Items(items) => match &items[0] {
            ListItem::Network(r) => {
                assert!(r.connecting && r.accent && !r.activatable && !r.overlay);
                assert_eq!(r.action, RowAction::Waiting);
                assert_eq!(r.extras, vec!["Connecting...", "Secured", "65%"]);
            }
            ListItem::Password => panic!("no prompt"),
        },
        other => panic!("{other:?}"),
    }
}

#[test]
fn lists_without_networks_say_why() {
    let mut s = iwd(vec![]);
    assert_eq!(shape(&populate_wifi_list(&NetworkSnapshot::Iwd(iwd(vec![])), None, false)), vec!["No networks found"]);
    s.initial_scan_complete = false;
    assert_eq!(shape(&populate_wifi_list(&NetworkSnapshot::Iwd(s), None, false)), vec!["Scanning for networks..."]);
    let mut s = nm();
    s.wifi.enabled = Some(false);
    assert_eq!(
        shape(&populate_wifi_list(&NetworkSnapshot::NetworkManager(s), None, false)),
        vec!["network-wireless-offline-symbolic: Wi-Fi is disabled"]
    );
    let mut s = nm();
    s.wifi.has_device = false;
    assert_eq!(
        shape(&populate_wifi_list(&NetworkSnapshot::NetworkManager(s), None, false)),
        vec!["network-offline-symbolic: No network connections"]
    );
    let mut s = nm();
    s.wifi.has_device = false;
    s.wired.connected = true;
    assert!(matches!(populate_wifi_list(&NetworkSnapshot::NetworkManager(s), None, false), WifiList::Blank));
}

// ----- the prompt -----

fn kinds(effects: &[DialogEffect]) -> Vec<String> {
    effects.iter().map(|e| format!("{e:?}")).collect()
}

#[test]
fn the_prompt_opens_connects_and_goes() {
    let mut d = PasswordDialog::new();
    assert!(d.show_password_dialog("   ").is_empty());
    assert!(!d.wants_focus());
    assert_eq!(kinds(&d.show_password_dialog(" Home ")), vec!["ClearEntry", "Repopulate"]);
    assert_eq!(d.label, "Enter password for Home");
    assert!(d.wants_focus());
    let s = NetworkSnapshot::Iwd(iwd(vec![net("Home", true, false, false)]));
    let e = d.on_password_connect_clicked("secret", &s);
    assert_eq!(
        kinds(&e),
        vec!["Connect { ssid: \"Home\", password: \"secret\", path: Some(\"/net/Home\") }"]
    );
    assert!(d.animating && !d.inputs_enabled);
    assert_eq!(d.status, "Connecting");
    let mut seen = Vec::new();
    for _ in 0..5 {
        d.on_connect_anim();
        seen.push(d.status.clone());
    }
    assert_eq!(seen, vec!["Connecting.", "Connecting..", "Connecting...", "Connecting", "Connecting."]);
    let mut up = iwd(vec![net("Home", true, true, true)]);
    up.state = Some(StationState::Connected);
    up.ssid = Some("Home".to_string());
    let e = d.on_network_changed(&NetworkSnapshot::Iwd(up), true);
    assert_eq!(kinds(&e), vec!["ClearEntry", "Conceal", "Repopulate"]);
    assert!(d.target.is_none() && d.inputs_enabled && !d.animating);
}

#[test]
fn a_waiting_request_gets_the_password() {
    let mut d = PasswordDialog::new();
    let mut s = iwd(vec![net("Home", true, false, false)]);
    s.auth_request = Some(IwdAuthRequest { ssid: "Home".to_string() });
    let s = NetworkSnapshot::Iwd(s);
    assert!(d.on_network_changed(&s, false).is_empty());
    assert_eq!(kinds(&d.on_network_changed(&s, true)), vec!["ClearEntry", "Repopulate"]);
    assert_eq!(
        kinds(&d.on_password_connect_clicked("secret", &s)),
        vec!["SubmitPassword(\"secret\")"]
    );
}

#[test]
fn failures_are_shown_in_the_prompt() {
    let mut d = PasswordDialog::new();
    d.show_password_dialog("Home");
    let mut s = iwd(vec![]);
    s.failed_ssid = Some("Home".to_string());
    s.failed_reason = Some("Because".to_string());
    let e = d.on_network_changed(&NetworkSnapshot::Iwd(s), true);
    assert_eq!(kinds(&e), vec!["Repopulate", "ClearFailed"]);
    assert_eq!(d.status, "Because");
    assert!(d.status_error);

    let mut d = PasswordDialog::new();
    let wrong = || {
        let mut s = iwd(vec![]);
        s.failed_ssid = Some("Home".to_string());
        s.failed_reason = Some(AUTH_FAILURE_REASON.to_string());
        NetworkSnapshot::Iwd(s)
    };
    assert_eq!(kinds(&d.on_network_changed(&wrong(), false)), vec!["ClearFailed"]);
    d.on_network_changed(&wrong(), true);
    assert_eq!(d.target.as_deref(), Some("Home"));
    assert_eq!(d.status, AUTH_FAILURE_REASON);

    let mut d = PasswordDialog::new();
    let mut s = iwd(vec![]);
    s.failed_ssid = Some("Home".to_string());
    assert_eq!(kinds(&d.on_network_changed(&NetworkSnapshot::Iwd(s), true)), vec!["ScheduleClearFailed"]);
}

#[test]
fn canceling_gives_up_the_attempt() {
    let mut d = PasswordDialog::new();
    d.show_password_dialog("Home");
    let mut s = iwd(vec![]);
    s.state = Some(StationState::Connecting);
    s.ssid = Some("Home".to_string());
    let e = d.on_password_cancel_clicked(&NetworkSnapshot::Iwd(s));
    assert_eq!(
        kinds(&e),
        vec!["ClearEntry", "Conceal", "Repopulate", "CancelAuth", "Disconnect", "ClearFailed"]
    );
    assert!(d.target.is_none());
}

// ----- iwd's lists -----

#[test]
fn properties_are_read_with_their_defaults() {
    let p = read_network_props(&vec![]);
    assert_eq!((p.name.as_str(), p.net_type.as_str(), p.connected), ("", "open", false));
    let p = read_network_props(&vec![
        ("Name".to_string(), PropValue::Text("Home".to_string())),
        ("Type".to_string(), PropValue::Text("psk".to_string())),
        ("Connected".to_string(), PropValue::Flag(true)),
        ("KnownNetwork".to_string(), PropValue::Path("/".to_string())),
        ("Other".to_string(), PropValue::Other),
    ]);
    assert_eq!((p.name.as_str(), p.net_type.as_str(), p.connected), ("Home", "psk", true));
    assert!(p.known_network_path.is_none());
    let p = read_network_props(&vec![("Type".to_string(), PropValue::Other)]);
    assert_eq!(p.net_type, "open");
}

#[test]
fn lists_are_joined_with_properties() {
    let objects = vec![ObjectProps {
        path: "/n/1".to_string(),
        interfaces: vec![InterfaceProps {
            name: "net.connman.iwd.Network".to_string(),
            props: vec![
                ("Name".to_string(), PropValue::Text("Home".to_string())),
                ("Type".to_string(), PropValue::Text("psk".to_string())),
                ("KnownNetwork".to_string(), PropValue::Path("/known/1".to_string())),
            ],
        }],
    }];
    let props = network_properties(&objects);
    let ordered = vec![
        OrderedNetwork { path: "/n/9".to_string(), signal: Some(-5000) },
        OrderedNetwork { path: "/n/1".to_string(), signal: Some(-7500) },
    ];
    let nets = join_networks(&ordered, &props);
    assert_eq!(nets.len(), 1);
    assert_eq!(nets[0].ssid, "Home");
    assert_eq!(nets[0].strength, 50);
    assert_eq!(nets[0].security, SecurityType::Secured);
    assert!(nets[0].known && !nets[0].active);
    assert_eq!(nets[0].path.as_deref(), Some("/n/1"));
    let ordered = vec![OrderedNetwork { path: "/n/1".to_string(), signal: None }];
    assert_eq!(join_networks(&ordered, &props)[0].strength, 0);
}

// ----- the rest of the network card -----

#[test]
fn the_ethernet_row_changes_only_what_changed() {
    let mut s = nm();
    s.wired.connected = true;
    s.wired.iface = Some("eth0".to_string());
    s.wired.speed = Some(1000);
    let snap = NetworkSnapshot::NetworkManager(s);
    let mut row = EthernetRow::build(&snap);
    let u = row.update_ethernet_row(&snap, "1.0");
    assert!(u.visible && u.title.is_none() && u.parts.is_none());
    assert!(!ethernet_subtitle_key(&snap).is_empty());
    assert!(build_ethernet_subtitle(&snap, "1.0").iter().any(|p| p.contains("eth0")));
    let u = row.update_ethernet_row(&NetworkSnapshot::NetworkManager(nm()), "1.0");
    assert!(!u.visible && u.parts.is_none());
}

#[test]
fn the_mobile_row_follows_the_modem() {
    let row = build_mobile_row(&NetworkSnapshot::NetworkManager(nm()));
    assert!(row.visible && row.switch_active && row.switch_sensitive && !row.spinning);
    assert_eq!((row.title.as_str(), row.action), ("Carrier", "Connect"));
    assert_eq!(row.color, IconColor::Primary);
    let mut s = nm();
    s.mobile.connecting = true;
    let row = update_mobile_row(&NetworkSnapshot::NetworkManager(s));
    assert!(row.spinning && !row.action_sensitive);
    assert_eq!(row.color, IconColor::Accent);
    let mut s = nm();
    s.mobile.enabled = Some(false);
    let row = update_mobile_row(&NetworkSnapshot::NetworkManager(s));
    assert_eq!(row.color, IconColor::Muted);
    assert_eq!(row.icon, "network-cellular-offline-symbolic");
    assert_eq!(mobile_switch_request(true, true), None);
    assert_eq!(mobile_switch_request(false, true), Some(true));
    assert_eq!(wifi_switch_request(true, false), None);
    assert_eq!(wifi_switch_request(false, false), Some(false));
    let mut s = nm();
    s.mobile.active = true;
    assert_eq!(
        mobile_button_request(&NetworkSnapshot::NetworkManager(s)),
        MobileRequest::Disconnect
    );
    assert_eq!(
        mobile_button_request(&NetworkSnapshot::NetworkManager(nm())),
        MobileRequest::Connect
    );
    let mut s = nm();
    s.mobile.active = true;
    s.mobile.access_technology = Some("LTE".to_string());
    assert!(matches!(
        mobile_subtitle(&NetworkSnapshot::NetworkManager(s)),
        MobileSubtitle::Connected { details: Some(t) } if t == " \u{2022} LTE \u{2022} 40%"
    ));
    let mut s = nm();
    s.mobile.failed = true;
    assert!(matches!(
        mobile_subtitle(&NetworkSnapshot::NetworkManager(s)),
        MobileSubtitle::Status { text: CONNECTION_FAILURE_REASON, error: true }
    ));
    assert!(matches!(
        mobile_subtitle(&NetworkSnapshot::NetworkManager(nm())),
        MobileSubtitle::Status { text: "Disconnected", error: false }
    ));
}

#[test]
fn the_card_is_put_together() {
    let snap = NetworkSnapshot::NetworkManager(nm());
    let card = network_card(&snap, false, false);
    assert_eq!(card.title, "Network");
    assert!(card.toggle_active && !card.toggle_sensitive && card.wifi_switch_visible);
    assert_eq!(card.scan, update_scan_ui(&snap));
    assert!(card.scan.visible && card.scan.sensitive && !card.scan.scanning);
    assert_eq!(card.icon.name, resolve_material_network_icon(&snap, false));
    let d = build_wifi_details(&snap, None, false, "");
    assert!(d.wifi_switch_active && d.wifi_switch_visible && !d.ethernet_visible);
    assert!(!d.mobile.spinning);
    assert_eq!(d.ethernet_parts, build_ethernet_subtitle(&snap, ""));
    assert_eq!(format!("{:?}", d.list), format!("{:?}", populate_wifi_list(&snap, None, false)));
    let mut s = nm();
    s.available = false;
    s.mobile.connecting = true;
    let card = network_card(&NetworkSnapshot::NetworkManager(s), true, false);
    assert!(card.icon.unavailable && !card.icon.spinning);
    assert_eq!(card.icon.name, "network-wireless-offline-symbolic");
    let mut s = nm();
    s.mobile.connecting = true;
    let snap = NetworkSnapshot::NetworkManager(s);
    assert!(network_card(&snap, false, false).icon.spinning);
    assert!(!network_card(&snap, false, true).icon.spinning);
}

#[test]
fn the_list_is_left_alone_while_a_password_is_typed() {
    let list = || vec![net("Home", true, false, false), net("Cafe", false, false, false)];
    let quiet = NetworkSnapshot::Iwd(iwd(list()));
    let mut card = NetworkCardState::new(&quiet);
    let r = card.on_network_changed(&quiet, true, false, false, "");
    assert!(r.dialog.is_empty());
    assert_eq!(r.card.title, "Wi-Fi");
    assert!(!r.ethernet.visible && !r.mobile.visible);
    assert_eq!(shape(&r.list.expect("a list")).len(), 2);

    let mut asking = iwd(list());
    asking.auth_request = Some(IwdAuthRequest { ssid: "Home".to_string() });
    let r = card.on_network_changed(&NetworkSnapshot::Iwd(asking), true, false, false, "");
    assert_eq!(kinds(&r.dialog), ["ClearEntry", "Repopulate"]);
    assert!(card.prompt_visible);
    assert!(r.list.is_none());

    // News that do not concern the prompt change nothing around it.
    let mut scanning = iwd(list());
    scanning.scanning = true;
    let r = card.on_network_changed(&NetworkSnapshot::Iwd(scanning), true, false, true, "");
    assert!(r.dialog.is_empty() && r.list.is_none());
    assert!(r.card.scan.scanning);

    let mut up = iwd(list());
    up.state = Some(StationState::Connected);
    up.ssid = Some("Home".to_string());
    let r = card.on_network_changed(&NetworkSnapshot::Iwd(up), true, false, false, "");
    assert_eq!(kinds(&r.dialog), ["ClearEntry", "Conceal", "Repopulate"]);
    assert!(!card.prompt_visible && card.password.target.is_none());
    assert_eq!(shape(&r.list.expect("a list")).len(), 2);
}

#[test]
fn a_prompt_from_a_row_is_seen_until_it_is_closed() {
    let snap = NetworkSnapshot::Iwd(iwd(vec![net("Home", true, false, false)]));
    let mut card = NetworkCardState::new(&snap);
    assert!(card.show_password_dialog("  ", &snap, false).is_empty());
    assert!(!card.prompt_visible);
    assert_eq!(kinds(&card.show_password_dialog("Home", &snap, false)), ["ClearEntry", "Repopulate"]);
    assert!(card.prompt_visible);
    assert_eq!(card.on_password_connect_clicked("secret", &snap, false).len(), 1);
    assert!(card.prompt_visible);
    // The list is left alone while the prompt is in it.
    assert!(card.on_network_changed(&snap, true, false, false, "").list.is_none());
    assert_eq!(
        kinds(&card.on_password_cancel_clicked(&snap, false)),
        ["ClearEntry", "Conceal", "Repopulate", "CancelAuth", "ClearFailed"]
    );
    assert!(!card.prompt_visible && card.password.target.is_none());
    assert!(card.on_network_changed(&snap, true, false, false, "").list.is_some());
    card.show_password_dialog("Home", &snap, false);
    assert_eq!(
        kinds(&card.hide_password_dialog(&snap, false)),
        ["ClearEntry", "Conceal", "Repopulate"]
    );
    assert!(!card.prompt_visible);
}

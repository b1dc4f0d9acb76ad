//! The Quick Settings widget of the bar: its options, its icons, its click.

use vstd::prelude::*;
use vstd::string::*;

use crate::base::BUTTON_PRIMARY;
use crate::config;
use crate::config::WidgetEntry;
use crate::network;
use crate::network::{NetworkSnapshot, NetworkView};
use crate::network_card;
use crate::network_card::{NetworkIconContext, WIFI_OFFLINE};
use crate::text;
use crate::vpn_card;
use crate::vpn_card::{VpnConnView, VpnConnection, VpnSnapshot};

verus! {

pub const AUDIO_MUTED_ICON: &'static str = "audio-volume-muted-symbolic";

pub const BLUETOOTH_DISABLED_ICON: &'static str = "bluetooth-disabled-symbolic";

pub const MIN_SCROLL_PERCENTAGE: i32 = 1;

pub const MAX_SCROLL_PERCENTAGE: i32 = 25;

// ---------------------------------------------------------------------------
// Options
// ---------------------------------------------------------------------------

/// Which cards are shown.
#[derive(Debug, Clone, Copy, PartialEq, Eq, Structural)]
pub struct QuickSettingsCardsConfig {
    /// The network card, and the Wi-Fi and mobile icons of the bar.
    pub network: bool,
    pub bluetooth: bool,
    pub vpn: bool,
    pub idle_inhibitor: bool,
    pub updates: bool,
    pub audio: bool,
    pub mic: bool,
    pub brightness: bool,
    pub power: bool,
    /// The panel closes when a VPN connection comes up.
    pub vpn_close_on_connect: bool,
}

impl QuickSettingsCardsConfig {
    /// Everything is shown.
    pub open spec fn all() -> Self {
        QuickSettingsCardsConfig {
            network: true,
            bluetooth: true,
            vpn: true,
            idle_inhibitor: true,
            updates: true,
            audio: true,
            mic: true,
            brightness: true,
            power: true,
            vpn_close_on_connect: true,
        }
    }
}

impl Default for QuickSettingsCardsConfig {
    fn default() -> (c: Self)
        ensures
            c == QuickSettingsCardsConfig::all(),
    {
        QuickSettingsCardsConfig {
            network: true,
            bluetooth: true,
            vpn: true,
            idle_inhibitor: true,
            updates: true,
            audio: true,
            mic: true,
            brightness: true,
            power: true,
            vpn_close_on_connect: true,
        }
    }
}

#[derive(Debug, Clone, Copy, PartialEq, Eq, Structural)]
pub struct QuickSettingsConfig {
    pub cards: QuickSettingsCardsConfig,
    /// The change of volume for a tick of the wheel, in percentage points.
    pub audio_scroll_percentage: i32,
}

pub const DEFAULT_AUDIO_SCROLL_PERCENTAGE: i32 = 5;

impl Default for QuickSettingsConfig {
    fn default() -> (c: Self)
        ensures
            c.cards == QuickSettingsCardsConfig::all(),
            c.audio_scroll_percentage == DEFAULT_AUDIO_SCROLL_PERCENTAGE,
    {
        QuickSettingsConfig {
            cards: QuickSettingsCardsConfig::default(),
            audio_scroll_percentage: DEFAULT_AUDIO_SCROLL_PERCENTAGE,
        }
    }
}

/// A step within its bounds.
pub open spec fn clamped_step(n: i32) -> i32 {
    if n < MIN_SCROLL_PERCENTAGE {
        MIN_SCROLL_PERCENTAGE
    } else if n > MAX_SCROLL_PERCENTAGE {
        MAX_SCROLL_PERCENTAGE
    } else {
        n
    }
}

/// The step that an option asks for: its low 32 bits, within the bounds.
pub open spec fn scroll_step(option: Option<i64>) -> i32 {
    match option {
        Some(n) => clamped_step(n as i32),
        None => DEFAULT_AUDIO_SCROLL_PERCENTAGE,
    }
}

impl QuickSettingsConfig {
    /// Cards are shown unless an option says otherwise.
    pub fn from_entry(entry: &WidgetEntry) -> (c: Self)
        ensures
            c.cards.network == config::boolean_or(entry.options@, "network"@, true),
            c.cards.bluetooth == config::boolean_or(entry.options@, "bluetooth"@, true),
            c.cards.vpn == config::boolean_or(entry.options@, "vpn"@, true),
            c.cards.idle_inhibitor == config::boolean_or(entry.options@, "idle_inhibitor"@, true),
            c.cards.updates == config::boolean_or(entry.options@, "updates"@, true),
            c.cards.audio == config::boolean_or(entry.options@, "audio"@, true),
            c.cards.mic == config::boolean_or(entry.options@, "mic"@, true),
            c.cards.brightness == config::boolean_or(entry.options@, "brightness"@, true),
            c.cards.power == config::boolean_or(entry.options@, "power"@, true),
            c.cards.vpn_close_on_connect == config::boolean_or(
                entry.options@,
                "vpn_close_on_connect"@,
                true,
            ),
            c.audio_scroll_percentage == scroll_step(
                config::integer_option(entry.options@, "audio_scroll_percentage"@),
            ),
            MIN_SCROLL_PERCENTAGE <= c.audio_scroll_percentage <= MAX_SCROLL_PERCENTAGE,
    {
        let audio_scroll_percentage: i32 = match entry.integer("audio_scroll_percentage") {
            Some(n) => {
                let step: i32 = #[verifier::truncate]
                (n as i32);
                if step < MIN_SCROLL_PERCENTAGE {
                    MIN_SCROLL_PERCENTAGE
                } else if step > MAX_SCROLL_PERCENTAGE {
                    MAX_SCROLL_PERCENTAGE
                } else {
                    step
                }
            },
            None => DEFAULT_AUDIO_SCROLL_PERCENTAGE,
        };
        QuickSettingsConfig {
            cards: QuickSettingsCardsConfig {
                network: entry.boolean_or("network", true),
                bluetooth: entry.boolean_or("bluetooth", true),
                vpn: entry.boolean_or("vpn", true),
                idle_inhibitor: entry.boolean_or("idle_inhibitor", true),
                updates: entry.boolean_or("updates", true),
                audio: entry.boolean_or("audio", true),
                mic: entry.boolean_or("mic", true),
                brightness: entry.boolean_or("brightness", true),
                power: entry.boolean_or("power", true),
                vpn_close_on_connect: entry.boolean_or("vpn_close_on_connect", true),
            },
            audio_scroll_percentage,
        }
    }
}

// ---------------------------------------------------------------------------
// The icons
// ---------------------------------------------------------------------------

#[derive(Debug, Clone, Copy, PartialEq, Eq, Structural)]
pub enum IndicatorKind {
    Audio,
    Bluetooth,
    /// Ethernet or Wi-Fi.
    Network,
    Mobile,
    Vpn,
}

/// Whether the widget has an icon.
pub open spec fn has_indicator(cards: QuickSettingsCardsConfig, kind: IndicatorKind) -> bool {
    match kind {
        IndicatorKind::Audio => cards.audio,
        IndicatorKind::Bluetooth => cards.bluetooth,
        IndicatorKind::Network => cards.network,
        IndicatorKind::Mobile => cards.network,
        IndicatorKind::Vpn => cards.vpn,
    }
}

/// All icons, from left to right.
pub open spec fn indicator_order() -> Seq<IndicatorKind> {
    seq![
        IndicatorKind::Audio,
        IndicatorKind::Bluetooth,
        IndicatorKind::Network,
        IndicatorKind::Mobile,
        IndicatorKind::Vpn,
    ]
}

pub open spec fn indicators_of(cards: QuickSettingsCardsConfig) -> Seq<IndicatorKind> {
    indicator_order().filter(|k: IndicatorKind| has_indicator(cards, k))
}

fn has_icon(cards: &QuickSettingsCardsConfig, kind: IndicatorKind) -> (r: bool)
    ensures
        r == has_indicator(*cards, kind),
{
    match kind {
        IndicatorKind::Audio => cards.audio,
        IndicatorKind::Bluetooth => cards.bluetooth,
        IndicatorKind::Network => cards.network,
        IndicatorKind::Mobile => cards.network,
        IndicatorKind::Vpn => cards.vpn,
    }
}

/// The icons of the widget, from left to right.
pub fn plan_indicators(cards: &QuickSettingsCardsConfig) -> (r: Vec<IndicatorKind>)
    ensures
        r@ == indicators_of(*cards),
{
    let order: Vec<IndicatorKind> = vec![
        IndicatorKind::Audio,
        IndicatorKind::Bluetooth,
        IndicatorKind::Network,
        IndicatorKind::Mobile,
        IndicatorKind::Vpn,
    ];
    let ghost shown = |k: IndicatorKind| has_indicator(*cards, k);
    assert(order@ =~= indicator_order());
    let mut r: Vec<IndicatorKind> = Vec::new();
    let mut i: usize = 0;
    proof {
        reveal_with_fuel(Seq::filter, 1);
        assert(order@.take(0) =~= Seq::<IndicatorKind>::empty());
    }
    while i < order.len()
        invariant
            i <= order.len(),
            shown == (|k: IndicatorKind| has_indicator(*cards, k)),
            r@ == order@.take(i as int).filter(shown),
        decreases order.len() - i,
    {
        proof {
            reveal_with_fuel(Seq::filter, 1);
            assert(order@.take(i + 1).drop_last() =~= order@.take(i as int));
        }
        if has_icon(cards, order[i]) {
            r.push(order[i]);
        }
        i += 1;
    }
    assert(order@.take(i as int) =~= order@);
    r
}

/// What an update sets. What is absent stays as it is.
#[derive(Debug)]
pub struct Indicator {
    pub visible: Option<bool>,
    pub icon: Option<String>,
    pub spinning: Option<bool>,
    /// The service is not there.
    pub unavailable: Option<bool>,
    pub active: Option<bool>,
    /// Shown as switched off.
    pub disabled: Option<bool>,
    pub tooltip: Option<String>,
}

#[verifier::ext_equal]
pub struct IndicatorView {
    pub visible: Option<bool>,
    pub icon: Option<Seq<char>>,
    pub spinning: Option<bool>,
    pub unavailable: Option<bool>,
    pub active: Option<bool>,
    pub disabled: Option<bool>,
    pub tooltip: Option<Seq<char>>,
}

impl View for Indicator {
    type V = IndicatorView;

    open spec fn view(&self) -> IndicatorView {
        IndicatorView {
            visible: self.visible,
            icon: text::opt_string_view(self.icon),
            spinning: self.spinning,
            unavailable: self.unavailable,
            active: self.active,
            disabled: self.disabled,
            tooltip: text::opt_string_view(self.tooltip),
        }
    }
}

pub open spec fn unchanged() -> IndicatorView {
    IndicatorView {
        visible: None,
        icon: None,
        spinning: None,
        unavailable: None,
        active: None,
        disabled: None,
        tooltip: None,
    }
}

/// What the audio service says.
#[derive(Debug, Clone, Copy)]
pub struct AudioSnapshot {
    pub available: bool,
    /// The volume can be set.
    pub control_available: bool,
    pub volume: u32,
    pub muted: bool,
}

/// The audio icon. `icon` is the one for the volume.
pub open spec fn audio_indicator_of(s: AudioSnapshot, icon: Seq<char>) -> IndicatorView {
    if !s.available {
        IndicatorView {
            unavailable: Some(true),
            icon: Some(AUDIO_MUTED_ICON@),
            tooltip: Some("Audio: Service unavailable"@),
            ..unchanged()
        }
    } else if !s.control_available {
        IndicatorView {
            unavailable: Some(true),
            icon: Some(AUDIO_MUTED_ICON@),
            tooltip: Some("Volume control unavailable"@),
            ..unchanged()
        }
    } else {
        IndicatorView {
            unavailable: Some(false),
            icon: Some(icon),
            tooltip: Some(
                if s.muted {
                    "Muted"@
                } else {
                    "Volume: "@ + text::dec(s.volume as nat) + "%"@
                },
            ),
            ..unchanged()
        }
    }
}

/// The audio icon. `icon` is the one for the volume.
pub fn audio_indicator(s: &AudioSnapshot, icon: &str) -> (r: Indicator)
    ensures
        r@ == audio_indicator_of(*s, icon@),
{
    let controlled = s.available && s.control_available;
    let name = if controlled {
        icon.to_string()
    } else {
        AUDIO_MUTED_ICON.to_string()
    };
    let tooltip = if !s.available {
        "Audio: Service unavailable".to_string()
    } else if !s.control_available {
        "Volume control unavailable".to_string()
    } else if s.muted {
        "Muted".to_string()
    } else {
        let mut t = "Volume: ".to_string();
        t.append(text::decimal(s.volume as u64).as_str());
        t.append("%");
        t
    };
    Indicator {
        visible: None,
        icon: Some(name),
        spinning: None,
        unavailable: Some(!controlled),
        active: None,
        disabled: None,
        tooltip: Some(tooltip),
    }
}

#[derive(Debug)]
pub struct BluetoothDevice {
    pub name: String,
    pub connected: bool,
}

/// What the Bluetooth service says.
#[derive(Debug)]
pub struct BluetoothSnapshot {
    pub has_adapter: bool,
    pub is_ready: bool,
    pub powered: bool,
    pub connected_devices: usize,
    pub devices: Vec<BluetoothDevice>,
}

/// The names of the connected devices, in order.
pub open spec fn connected_names(devices: Seq<BluetoothDevice>) -> Seq<Seq<char>>
    decreases devices.len(),
{
    if devices.len() == 0 {
        Seq::empty()
    } else {
        let rest = connected_names(devices.drop_last());
        if devices.last().connected {
            rest.push(devices.last().name@)
        } else {
            rest
        }
    }
}

pub open spec fn bluetooth_tooltip(s: BluetoothSnapshot) -> Seq<char> {
    if s.connected_devices > 0 {
        let names = connected_names(s.devices@);
        if names.len() == 0 {
            "Bluetooth On"@
        } else {
            text::join_spec(names, "\n"@)
        }
    } else if s.powered {
        "Bluetooth On"@
    } else {
        "Bluetooth Off"@
    }
}

/// The Bluetooth icon. `icon` is the one for the adapter's state.
pub open spec fn bluetooth_indicator_of(s: BluetoothSnapshot, icon: Seq<char>) -> IndicatorView {
    if !s.has_adapter && s.is_ready {
        IndicatorView {
            unavailable: Some(true),
            active: Some(false),
            icon: Some(BLUETOOTH_DISABLED_ICON@),
            tooltip: Some("Bluetooth: No adapter found"@),
            ..unchanged()
        }
    } else {
        IndicatorView {
            unavailable: Some(false),
            icon: Some(icon),
            active: Some(s.connected_devices > 0),
            disabled: Some(!s.powered),
            tooltip: Some(bluetooth_tooltip(s)),
            ..unchanged()
        }
    }
}

fn names_of_connected(devices: &Vec<BluetoothDevice>) -> (r: Vec<String>)
    ensures
        text::string_views(r@) == connected_names(devices@),
{
    let mut r: Vec<String> = Vec::new();
    let mut i: usize = 0;
    assert(text::string_views(r@) =~= connected_names(devices@.take(0)));
    while i < devices.len()
        invariant
            i <= devices.len(),
            text::string_views(r@) == connected_names(devices@.take(i as int)),
        decreases devices.len() - i,
    {
        let ghost before = r@;
        assert(devices@.take(i + 1).drop_last() =~= devices@.take(i as int));
        if devices[i].connected {
            r.push(devices[i].name.clone());
            assert(text::string_views(r@) =~= text::string_views(before).push(
                devices@[i as int].name@,
            ));
        }
        i += 1;
    }
    assert(devices@.take(i as int) =~= devices@);
    r
}

fn bluetooth_tip(s: &BluetoothSnapshot) -> (r: String)
    ensures
        r@ == bluetooth_tooltip(*s),
{
    if s.connected_devices > 0 {
        let names = names_of_connected(&s.devices);
        assert(text::string_views(names@).len() == names@.len());
        if names.len() == 0 {
            "Bluetooth On".to_string()
        } else {
            text::join(&names, "\n")
        }
    } else if s.powered {
        "Bluetooth On".to_string()
    } else {
        "Bluetooth Off".to_string()
    }
}

/// The Bluetooth icon. `icon` is the one for the adapter's state.
pub fn bluetooth_indicator(s: &BluetoothSnapshot, icon: &str) -> (r: Indicator)
    ensures
        r@ == bluetooth_indicator_of(*s, icon@),
{
    if !s.has_adapter && s.is_ready {
        return Indicator {
            visible: None,
            icon: Some(BLUETOOTH_DISABLED_ICON.to_string()),
            spinning: None,
            unavailable: Some(true),
            active: Some(false),
            disabled: None,
            tooltip: Some("Bluetooth: No adapter found".to_string()),
        };
    }
    Indicator {
        visible: None,
        icon: Some(icon.to_string()),
        spinning: None,
        unavailable: Some(false),
        active: Some(s.connected_devices > 0),
        disabled: Some(!s.powered),
        tooltip: Some(bluetooth_tip(s)),
    }
}

pub open spec fn network_tooltip(v: NetworkView) -> Seq<char> {
    if v.wired_connected {
        "Ethernet connected"@
    } else if v.connected {
        let ssid = match v.active_ssid {
            Some(s) => s,
            None => "Connected"@,
        };
        if v.active_strength > 0 {
            ssid + "\nSignal: "@ + text::dec_int(v.active_strength as int) + "%"@
        } else {
            ssid
        }
    } else {
        match v.connecting_ssid {
            Some(s) => "Connecting to "@ + s,
            None => if v.wifi_device_connecting {
                "Connecting..."@
            } else if v.wifi_enabled == Some(false) {
                "Wi-Fi Off"@
            } else if v.scanning {
                "Wi-Fi: Scanning..."@
            } else {
                "Disconnected"@
            },
        }
    }
}

/// The icon of Ethernet and Wi-Fi.
pub open spec fn network_indicator_of(v: NetworkView) -> IndicatorView {
    if !v.available {
        IndicatorView {
            unavailable: Some(true),
            disabled: Some(false),
            active: Some(false),
            spinning: Some(false),
            icon: Some(WIFI_OFFLINE@),
            tooltip: Some("Wi-Fi: Service unavailable"@),
            ..unchanged()
        }
    } else {
        let connecting = network::wifi_connecting_of(v);
        IndicatorView {
            unavailable: Some(false),
            icon: Some(network_card::network_icon(network_card::bar_context_of(v))),
            spinning: Some(connecting),
            disabled: Some(!network_card::wifi_on(v) && !v.wired_connected),
            active: Some(
                (network_card::wifi_on(v) && v.connected) || v.wired_connected || connecting,
            ),
            tooltip: Some(network_tooltip(v)),
            ..unchanged()
        }
    }
}

fn network_tip(snapshot: &NetworkSnapshot) -> (r: String)
    ensures
        r@ == network_tooltip(snapshot@),
{
    if snapshot.wired_connected() {
        return "Ethernet connected".to_string();
    }
    if snapshot.connected() {
        let mut t = match snapshot.active_ssid() {
            Some(s) => s.to_string(),
            None => "Connected".to_string(),
        };
        let strength: i32 = snapshot.active_strength();
        if strength > 0 {
            t.append("\nSignal: ");
            t.append(text::decimal_signed(strength).as_str());
            t.append("%");
        }
        return t;
    }
    match snapshot.connecting_ssid() {
        Some(s) => {
            let mut t = "Connecting to ".to_string();
            t.append(s);
            t
        },
        None => {
            let off = match snapshot.wifi_enabled() {
                Some(on) => !on,
                None => false,
            };
            if snapshot.wifi_device_connecting() {
                "Connecting...".to_string()
            } else if off {
                "Wi-Fi Off".to_string()
            } else if snapshot.scanning() {
                "Wi-Fi: Scanning...".to_string()
            } else {
                "Disconnected".to_string()
            }
        },
    }
}

/// The icon of Ethernet and Wi-Fi.
pub fn network_indicator(snapshot: &NetworkSnapshot) -> (r: Indicator)
    ensures
        r@ == network_indicator_of(snapshot@),
{
    if !snapshot.available() {
        return Indicator {
            visible: None,
            icon: Some(WIFI_OFFLINE.to_string()),
            spinning: Some(false),
            unavailable: Some(true),
            active: Some(false),
            disabled: Some(false),
            tooltip: Some("Wi-Fi: Service unavailable".to_string()),
        };
    }
    let enabled = match snapshot.wifi_enabled() {
        Some(on) => on,
        None => false,
    };
    let wired = snapshot.wired_connected();
    let connecting = snapshot.wifi_connecting();
    let ctx = NetworkIconContext::for_bar(snapshot);
    Indicator {
        visible: None,
        icon: Some(network_card::network_icon_name(&ctx).to_string()),
        spinning: Some(connecting),
        unavailable: Some(false),
        active: Some((enabled && snapshot.connected()) || wired || connecting),
        disabled: Some(!enabled && !wired),
        tooltip: Some(network_tip(snapshot)),
    }
}

pub open spec fn mobile_tooltip(v: NetworkView) -> Seq<char> {
    v.mobile_name + if !network_card::mobile_on(v) {
        "\nOff"@
    } else if v.mobile_connecting {
        "\nConnecting..."@
    } else if v.mobile_failed {
        "\nConnection failed"@
    } else if v.mobile_active {
        let signal = "\nSignal: "@ + text::dec(
            network_card::quality_or_zero(v.mobile_signal_quality) as nat,
        ) + "%"@;
        match v.mobile_access_technology {
            Some(t) => signal + "\n"@ + t,
            None => signal,
        }
    } else {
        "\nDisconnected"@
    }
}

/// The icon of the modem.
pub open spec fn mobile_indicator_of(v: NetworkView) -> IndicatorView {
    IndicatorView {
        visible: Some(v.mobile_supported),
        icon: Some(
            network_card::mobile_icon(
                network_card::mobile_on(v),
                v.mobile_active,
                network_card::quality_or_zero(v.mobile_signal_quality) as int,
            ),
        ),
        spinning: Some(v.mobile_connecting),
        active: Some(v.mobile_active || v.mobile_connecting),
        disabled: Some(!network_card::mobile_on(v)),
        tooltip: Some(mobile_tooltip(v)),
        ..unchanged()
    }
}

/// The icon of the modem.
pub fn mobile_indicator(snapshot: &NetworkSnapshot) -> (r: Indicator)
    ensures
        r@ == mobile_indicator_of(snapshot@),
{
    let quality: u32 = match snapshot.mobile_signal_quality() {
        Some(q) => q,
        None => 0,
    };
    let enabled = match snapshot.mobile_enabled() {
        Some(on) => on,
        None => false,
    };
    let active = snapshot.mobile_active();
    let connecting = snapshot.mobile_connecting();
    let mut tooltip = snapshot.mobile_display_name().to_string();
    let ghost name = tooltip@;
    if !enabled {
        tooltip.append("\nOff");
    } else if connecting {
        tooltip.append("\nConnecting...");
    } else if snapshot.mobile_failed() {
        tooltip.append("\nConnection failed");
    } else if active {
        tooltip.append("\nSignal: ");
        tooltip.append(text::decimal(quality as u64).as_str());
        tooltip.append("%");
        if let Some(tech) = snapshot.mobile_access_technology() {
            tooltip.append("\n");
            tooltip.append(tech);
        }
    } else {
        tooltip.append("\nDisconnected");
    }
    assert(tooltip@ =~= mobile_tooltip(snapshot@));
    Indicator {
        visible: Some(snapshot.mobile_supported()),
        icon: Some(network_card::mobile_state_icon_name(enabled, active, quality).to_string()),
        spinning: Some(connecting),
        unavailable: None,
        active: Some(active || connecting),
        disabled: Some(!enabled),
        tooltip: Some(tooltip),
    }
}

/// The names of the active connections, in order.
pub open spec fn active_names(conns: Seq<VpnConnView>) -> Seq<Seq<char>>
    decreases conns.len(),
{
    if conns.len() == 0 {
        Seq::empty()
    } else {
        let rest = active_names(conns.drop_last());
        if conns.last().active {
            rest.push(conns.last().name)
        } else {
            rest
        }
    }
}

pub open spec fn vpn_tooltip(any_active: bool, conns: Seq<VpnConnView>) -> Seq<char> {
    if !any_active {
        "VPN Disconnected"@
    } else if active_names(conns).len() == 0 {
        "VPN Connected"@
    } else {
        text::join_spec(active_names(conns), "\n"@)
    }
}

/// The VPN icon.
pub open spec fn vpn_indicator_of(s: VpnSnapshot) -> IndicatorView {
    if !s.available {
        IndicatorView { visible: Some(false), ..unchanged() }
    } else {
        IndicatorView {
            visible: Some(true),
            icon: Some(vpn_card::vpn_icon()),
            active: Some(s.any_active),
            tooltip: Some(vpn_tooltip(s.any_active, vpn_card::conn_views(s.connections@))),
            ..unchanged()
        }
    }
}

fn names_of_active(conns: &Vec<VpnConnection>) -> (r: Vec<String>)
    ensures
        text::string_views(r@) == active_names(vpn_card::conn_views(conns@)),
{
    let ghost views = vpn_card::conn_views(conns@);
    let mut r: Vec<String> = Vec::new();
    let mut i: usize = 0;
    assert(text::string_views(r@) =~= active_names(views.take(0)));
    while i < conns.len()
        invariant
            i <= conns.len(),
            views == vpn_card::conn_views(conns@),
            text::string_views(r@) == active_names(views.take(i as int)),
        decreases conns.len() - i,
    {
        let ghost before = r@;
        assert(views.take(i + 1).drop_last() =~= views.take(i as int));
        assert(views.take(i + 1).last() == conns@[i as int]@);
        if conns[i].active {
            r.push(conns[i].name.clone());
            assert(text::string_views(r@) =~= text::string_views(before).push(
                conns@[i as int].name@,
            ));
        }
        i += 1;
    }
    assert(views.take(i as int) =~= views);
    r
}

/// The VPN icon.
pub fn vpn_indicator(s: &VpnSnapshot) -> (r: Indicator)
    ensures
        r@ == vpn_indicator_of(*s),
{
    if !s.available {
        return Indicator {
            visible: Some(false),
            icon: None,
            spinning: None,
            unavailable: None,
            active: None,
            disabled: None,
            tooltip: None,
        };
    }
    let tooltip = if s.any_active {
        let names = names_of_active(&s.connections);
        assert(text::string_views(names@).len() == names@.len());
        if names.len() == 0 {
            "VPN Connected".to_string()
        } else {
            text::join(&names, "\n")
        }
    } else {
        "VPN Disconnected".to_string()
    };
    Indicator {
        visible: Some(true),
        icon: Some(vpn_card::vpn_icon_name().to_string()),
        spinning: None,
        unavailable: None,
        active: Some(s.any_active),
        disabled: None,
        tooltip: Some(tooltip),
    }
}

// ---------------------------------------------------------------------------
// The icons as they are built
// ---------------------------------------------------------------------------

/// The audio icon as it is built, whatever the state of the service.
pub fn initial_audio(icon: &str) -> (r: Indicator)
    ensures
        r@ == (IndicatorView { icon: Some(icon@), ..unchanged() }),
{
    Indicator {
        visible: None,
        icon: Some(icon.to_string()),
        spinning: None,
        unavailable: None,
        active: None,
        disabled: None,
        tooltip: None,
    }
}

/// The Bluetooth icon as it is built, whether or not there is an adapter.
pub fn initial_bluetooth(s: &BluetoothSnapshot, icon: &str) -> (r: Indicator)
    ensures
        r@ == (IndicatorView {
            icon: Some(icon@),
            active: Some(s.connected_devices > 0),
            disabled: Some(!s.powered),
            ..unchanged()
        }),
{
    Indicator {
        visible: None,
        icon: Some(icon.to_string()),
        spinning: None,
        unavailable: None,
        active: Some(s.connected_devices > 0),
        disabled: Some(!s.powered),
        tooltip: None,
    }
}

/// The icon of Ethernet and Wi-Fi as it is built.
pub fn initial_network(snapshot: &NetworkSnapshot) -> (r: Indicator)
    ensures
        ({
            let v = snapshot@;
            let connecting = network::wifi_connecting_of(v);
            r@ == (IndicatorView {
                icon: Some(network_card::network_icon(network_card::bar_context_of(v))),
                spinning: Some(connecting),
                disabled: Some(!network_card::wifi_on(v) && !v.wired_connected),
                active: Some(
                    (network_card::wifi_on(v) && v.connected) || v.wired_connected || connecting,
                ),
                ..unchanged()
            })
        }),
{
    let enabled = match snapshot.wifi_enabled() {
        Some(on) => on,
        None => false,
    };
    let wired = snapshot.wired_connected();
    let connecting = snapshot.wifi_connecting();
    let ctx = NetworkIconContext::for_bar(snapshot);
    Indicator {
        visible: None,
        icon: Some(network_card::network_icon_name(&ctx).to_string()),
        spinning: Some(connecting),
        unavailable: None,
        active: Some((enabled && snapshot.connected()) || wired || connecting),
        disabled: Some(!enabled && !wired),
        tooltip: None,
    }
}

/// The icon of the modem as it is built.
pub fn initial_mobile(snapshot: &NetworkSnapshot) -> (r: Indicator)
    ensures
        r@ == (IndicatorView { tooltip: None, ..mobile_indicator_of(snapshot@) }),
{
    let r = mobile_indicator(snapshot);
    Indicator { tooltip: None, ..r }
}

/// The VPN icon as it is built.
pub fn initial_vpn(s: &VpnSnapshot) -> (r: Indicator)
    ensures
        r@ == (IndicatorView {
            visible: Some(s.available),
            icon: Some(vpn_card::vpn_icon()),
            active: Some(s.available && s.any_active),
            ..unchanged()
        }),
{
    Indicator {
        visible: Some(s.available),
        icon: Some(vpn_card::vpn_icon_name().to_string()),
        spinning: None,
        unavailable: None,
        active: Some(s.available && s.any_active),
        disabled: None,
        tooltip: None,
    }
}

// ---------------------------------------------------------------------------
// The click
// ---------------------------------------------------------------------------

/// Where the panel is toggled.
#[derive(Debug, Clone, Copy, PartialEq, Eq, Structural)]
pub struct ToggleAt {
    pub x: i32,
    /// On the monitor of the bar; otherwise on any.
    pub on_monitor: bool,
}

/// What a click on the widget does. `center` is the middle of the widget within
/// the bar's window, where it is known.
pub open spec fn click_target(button: u32, center: Option<i32>, screen_margin: int) -> Option<
    ToggleAt,
> {
    if button != BUTTON_PRIMARY {
        None
    } else {
        match center {
            Some(c) => Some(ToggleAt { x: (c + screen_margin) as i32, on_monitor: true }),
            None => Some(ToggleAt { x: 0, on_monitor: false }),
        }
    }
}

/// What a click on the widget does. `center` is the middle of the widget within
/// the bar's window, where it is known.
pub fn on_widget_click(button: u32, center: Option<i32>, screen_margin: i32) -> (r: Option<
    ToggleAt,
>)
    requires
        center matches Some(c) ==> i32::MIN <= c + screen_margin <= i32::MAX,
    ensures
        r == click_target(button, center, screen_margin as int),
{
    if button != BUTTON_PRIMARY {
        return None;
    }
    match center {
        Some(c) => Some(ToggleAt { x: c + screen_margin, on_monitor: true }),
        None => Some(ToggleAt { x: 0, on_monitor: false }),
    }
}

} // verus!

//! The network card: icons, subtitles, and the Ethernet and mobile rows.

use vstd::prelude::*;
use vstd::string::*;

use crate::network;
use crate::network::{
    NetworkConnectionState, NetworkSnapshot, NetworkView, CONNECTION_FAILURE_REASON,
};
use crate::text;
use crate::wifi_list;
use crate::wifi_list::WifiList;

verus! {

/// What stands between two parts of a subtitle.
pub const BULLET: &'static str = " \u{2022} ";

pub const WIFI_OFFLINE: &'static str = "network-wireless-offline-symbolic";

pub const WIFI_EXCELLENT: &'static str = "network-wireless-signal-excellent-symbolic";

pub const WIRED_ICON: &'static str = "network-wired-symbolic";

pub const CELLULAR_NONE: &'static str = "network-cellular-signal-none-symbolic";

pub const CELLULAR_OFFLINE: &'static str = "network-cellular-offline-symbolic";

pub const WIFI_AND_CELLULAR: &'static str = "network-wifi-cellular-symbolic";

// ---------------------------------------------------------------------------
// Icons
// ---------------------------------------------------------------------------

/// What decides the icon of the network.
#[derive(Debug, Clone, Copy, PartialEq, Eq, Structural)]
pub struct NetworkIconContext {
    pub available: bool,
    pub connected: bool,
    pub wifi_enabled: bool,
    pub wired_connected: bool,
    pub has_wifi_device: bool,
    pub mobile_is_primary: bool,
    pub has_modem_device: bool,
    pub mobile_signal_quality: Option<u32>,
}

pub open spec fn wifi_on(v: NetworkView) -> bool {
    v.wifi_enabled == Some(true)
}

pub open spec fn context_of(v: NetworkView) -> NetworkIconContext {
    NetworkIconContext {
        available: v.available,
        connected: v.connected,
        wifi_enabled: wifi_on(v),
        wired_connected: v.wired_connected,
        has_wifi_device: v.has_wifi_device,
        mobile_is_primary: v.mobile_is_primary,
        has_modem_device: v.has_modem_device,
        mobile_signal_quality: v.mobile_signal_quality,
    }
}

/// The bar has an icon of its own for the modem, so its network icon leaves the
/// modem out.
pub open spec fn bar_context_of(v: NetworkView) -> NetworkIconContext {
    NetworkIconContext {
        mobile_is_primary: false,
        has_modem_device: false,
        mobile_signal_quality: None,
        ..context_of(v)
    }
}

fn is_wifi_on(snapshot: &NetworkSnapshot) -> (r: bool)
    ensures
        r == wifi_on(snapshot@),
{
    match snapshot.wifi_enabled() {
        Some(b) => b,
        None => false,
    }
}

impl NetworkIconContext {
    pub fn from_snapshot(snapshot: &NetworkSnapshot) -> (c: Self)
        ensures
            c == context_of(snapshot@),
    {
        NetworkIconContext {
            available: snapshot.available(),
            connected: snapshot.connected(),
            wifi_enabled: is_wifi_on(snapshot),
            wired_connected: snapshot.wired_connected(),
            has_wifi_device: snapshot.has_wifi_device(),
            mobile_is_primary: snapshot.mobile_is_primary(),
            has_modem_device: snapshot.has_modem_device(),
            mobile_signal_quality: snapshot.mobile_signal_quality(),
        }
    }

    pub fn for_bar(snapshot: &NetworkSnapshot) -> (c: Self)
        ensures
            c == bar_context_of(snapshot@),
    {
        NetworkIconContext {
            available: snapshot.available(),
            connected: snapshot.connected(),
            wifi_enabled: is_wifi_on(snapshot),
            wired_connected: snapshot.wired_connected(),
            has_wifi_device: snapshot.has_wifi_device(),
            mobile_is_primary: false,
            has_modem_device: false,
            mobile_signal_quality: None,
        }
    }
}

/// The Wi-Fi icon for a strength in percent.
pub open spec fn wifi_icon(level: int) -> Seq<char> {
    if level >= 70 {
        "network-wireless-signal-excellent-symbolic"@
    } else if level >= 60 {
        "network-wireless-signal-good-symbolic"@
    } else if level >= 40 {
        "network-wireless-signal-ok-symbolic"@
    } else if level >= 20 {
        "network-wireless-signal-weak-symbolic"@
    } else {
        "network-wireless-signal-none-symbolic"@
    }
}

/// The Wi-Fi icon for a strength in percent.
pub fn wifi_strength_icon(level: i32) -> (r: &'static str)
    ensures
        r@ == wifi_icon(level as int),
{
    if level >= 70 {
        "network-wireless-signal-excellent-symbolic"
    } else if level >= 60 {
        "network-wireless-signal-good-symbolic"
    } else if level >= 40 {
        "network-wireless-signal-ok-symbolic"
    } else if level >= 20 {
        "network-wireless-signal-weak-symbolic"
    } else {
        "network-wireless-signal-none-symbolic"
    }
}

/// The modem's icon for a quality in percent. The thresholds are higher than
/// for Wi-Fi: modems report coarser values.
pub open spec fn cellular_icon(quality: int) -> Seq<char> {
    if quality >= 75 {
        "network-cellular-signal-excellent-symbolic"@
    } else if quality >= 55 {
        "network-cellular-signal-good-symbolic"@
    } else if quality >= 35 {
        "network-cellular-signal-ok-symbolic"@
    } else if quality >= 15 {
        "network-cellular-signal-weak-symbolic"@
    } else {
        "network-cellular-signal-none-symbolic"@
    }
}

/// The modem's icon for a quality in percent.
pub fn cellular_signal_icon_name(quality: u32) -> (r: &'static str)
    ensures
        r@ == cellular_icon(quality as int),
{
    if quality >= 75 {
        "network-cellular-signal-excellent-symbolic"
    } else if quality >= 55 {
        "network-cellular-signal-good-symbolic"
    } else if quality >= 35 {
        "network-cellular-signal-ok-symbolic"
    } else if quality >= 15 {
        "network-cellular-signal-weak-symbolic"
    } else {
        "network-cellular-signal-none-symbolic"
    }
}

pub open spec fn quality_or_zero(q: Option<u32>) -> u32 {
    match q {
        Some(n) => n,
        None => 0,
    }
}

fn or_zero(q: Option<u32>) -> (r: u32)
    ensures
        r == quality_or_zero(q),
{
    match q {
        Some(n) => n,
        None => 0,
    }
}

/// The modem's icon for its state.
pub open spec fn mobile_icon(enabled: bool, active: bool, quality: int) -> Seq<char> {
    if !enabled {
        CELLULAR_OFFLINE@
    } else if active {
        cellular_icon(quality)
    } else {
        CELLULAR_NONE@
    }
}

/// The modem's icon for its state.
pub fn mobile_state_icon_name(enabled: bool, active: bool, signal_quality: u32) -> (r:
    &'static str)
    ensures
        r@ == mobile_icon(enabled, active, signal_quality as int),
{
    if !enabled {
        CELLULAR_OFFLINE
    } else if active {
        cellular_signal_icon_name(signal_quality)
    } else {
        CELLULAR_NONE
    }
}

/// The icon of the network. An unavailable service goes first, then the wire,
/// then a modem that carries the traffic, then the lack of a Wi-Fi device, then
/// Wi-Fi.
pub open spec fn network_icon(ctx: NetworkIconContext) -> Seq<char> {
    if !ctx.available {
        WIFI_OFFLINE@
    } else if ctx.wired_connected {
        WIRED_ICON@
    } else if ctx.mobile_is_primary {
        cellular_icon(quality_or_zero(ctx.mobile_signal_quality) as int)
    } else if !ctx.has_wifi_device {
        if ctx.has_modem_device {
            CELLULAR_NONE@
        } else {
            WIRED_ICON@
        }
    } else if ctx.wifi_enabled && ctx.connected {
        WIFI_EXCELLENT@
    } else {
        WIFI_OFFLINE@
    }
}

/// The icon of the network.
pub fn network_icon_name(ctx: &NetworkIconContext) -> (r: &'static str)
    ensures
        r@ == network_icon(*ctx),
{
    if !ctx.available {
        return WIFI_OFFLINE;
    }
    if ctx.wired_connected {
        WIRED_ICON
    } else if ctx.mobile_is_primary {
        cellular_signal_icon_name(or_zero(ctx.mobile_signal_quality))
    } else if !ctx.has_wifi_device {
        if ctx.has_modem_device {
            CELLULAR_NONE
        } else {
            WIRED_ICON
        }
    } else if ctx.wifi_enabled && ctx.connected {
        WIFI_EXCELLENT
    } else {
        WIFI_OFFLINE
    }
}

/// Whether one icon stands for Wi-Fi and modem together.
pub open spec fn unified(v: NetworkView, uses_material: bool) -> bool {
    v.mobile_supported && uses_material
}

/// Whether one icon stands for Wi-Fi and modem together.
pub fn is_material_unified(snapshot: &NetworkSnapshot, uses_material: bool) -> (r: bool)
    ensures
        r == unified(snapshot@, uses_material),
{
    snapshot.mobile_supported() && uses_material
}

/// The card's icon. In unified mode an offline Wi-Fi keeps its full shape; it
/// is dimmed by its style instead.
pub open spec fn card_icon(v: NetworkView, uses_material: bool) -> Seq<char> {
    let one = unified(v, uses_material);
    if one && v.mobile_active && (v.connected || v.wired_connected) {
        WIFI_AND_CELLULAR@
    } else if one && v.mobile_active {
        cellular_icon(quality_or_zero(v.mobile_signal_quality) as int)
    } else {
        let name = network_icon(context_of(v));
        if one && name == WIFI_OFFLINE@ {
            WIFI_EXCELLENT@
        } else {
            name
        }
    }
}

/// The card's icon.
pub fn resolve_material_network_icon(snapshot: &NetworkSnapshot, uses_material: bool) -> (r:
    &'static str)
    ensures
        r@ == card_icon(snapshot@, uses_material),
{
    let one = is_material_unified(snapshot, uses_material);
    let wifi_or_wired = snapshot.connected() || snapshot.wired_connected();
    if one && snapshot.mobile_active() && wifi_or_wired {
        WIFI_AND_CELLULAR
    } else if one && snapshot.mobile_active() {
        cellular_signal_icon_name(or_zero(snapshot.mobile_signal_quality()))
    } else {
        let ctx = NetworkIconContext::from_snapshot(snapshot);
        let name = network_icon_name(&ctx);
        if one && text::str_eq(name, WIFI_OFFLINE) {
            WIFI_EXCELLENT
        } else {
            name
        }
    }
}

// ---------------------------------------------------------------------------
// The subtitle of the card
// ---------------------------------------------------------------------------

pub open spec fn is_connecting(v: NetworkView) -> bool {
    network::connection_state_of(v) == NetworkConnectionState::Connecting
}

/// What is said of Wi-Fi: the network's name, or that it is being connected to.
pub open spec fn wifi_part(v: NetworkView) -> Option<Seq<char>> {
    match v.active_ssid {
        Some(s) => if is_connecting(v) {
            Some("Connecting to "@ + s)
        } else {
            Some(s)
        },
        None => None,
    }
}

/// The parts of the subtitle while the wire is connected.
pub open spec fn wired_parts(v: NetworkView) -> Seq<Seq<char>> {
    seq!["Ethernet"@] + (match wifi_part(v) {
        Some(p) => seq![p],
        None => Seq::empty(),
    }) + (if v.mobile_active {
        seq![v.mobile_name]
    } else {
        Seq::empty()
    })
}

/// The subtitle of the card.
pub open spec fn subtitle_text(v: NetworkView) -> Seq<char> {
    if !v.available {
        "Unavailable"@
    } else if v.wired_connected {
        text::join_spec(wired_parts(v), BULLET@)
    } else if v.mobile_active {
        match wifi_part(v) {
            Some(p) => if is_connecting(v) {
                v.mobile_name + BULLET@ + p
            } else {
                p + BULLET@ + v.mobile_name
            },
            None => v.mobile_name,
        }
    } else {
        match wifi_part(v) {
            Some(p) => p,
            None => if is_connecting(v) {
                "Connecting..."@
            } else if v.mobile_connecting {
                v.mobile_name + BULLET@ + "Connecting..."@
            } else if !v.has_wifi_device || wifi_on(v) {
                "Disconnected"@
            } else {
                "Off"@
            },
        }
    }
}

fn connecting_now(snapshot: &NetworkSnapshot) -> (r: bool)
    ensures
        r == is_connecting(snapshot@),
{
    match snapshot.connection_state() {
        NetworkConnectionState::Connecting => true,
        _ => false,
    }
}

fn wifi_text(snapshot: &NetworkSnapshot) -> (r: Option<String>)
    ensures
        text::opt_string_view(r) == wifi_part(snapshot@),
{
    match snapshot.active_ssid() {
        Some(s) => if connecting_now(snapshot) {
            let mut t = "Connecting to ".to_string();
            t.append(s);
            Some(t)
        } else {
            Some(s.to_string())
        },
        None => None,
    }
}

fn wired_text(snapshot: &NetworkSnapshot) -> (r: String)
    ensures
        r@ == text::join_spec(wired_parts(snapshot@), BULLET@),
{
    let ghost v = snapshot@;
    let mut parts: Vec<String> = Vec::new();
    parts.push("Ethernet".to_string());
    assert(text::string_views(parts@) =~= seq!["Ethernet"@]);
    let ghost first = text::string_views(parts@);
    match wifi_text(snapshot) {
        Some(p) => {
            let ghost pv = p@;
            parts.push(p);
            assert(text::string_views(parts@) =~= first + seq![pv]);
        },
        None => {
            assert(text::string_views(parts@) =~= first + Seq::<Seq<char>>::empty());
        },
    }
    let ghost second = text::string_views(parts@);
    if snapshot.mobile_active() {
        parts.push(snapshot.mobile_display_name().to_string());
        assert(text::string_views(parts@) =~= second + seq![v.mobile_name]);
    } else {
        assert(text::string_views(parts@) =~= second + Seq::<Seq<char>>::empty());
    }
    text::join(&parts, BULLET)
}

fn two_parts(a: &str, b: &str) -> (r: String)
    ensures
        r@ == a@ + BULLET@ + b@,
{
    let mut r = a.to_string();
    r.append(BULLET);
    r.append(b);
    r
}

/// The subtitle of the card.
pub fn get_network_subtitle_text(snapshot: &NetworkSnapshot) -> (r: String)
    ensures
        r@ == subtitle_text(snapshot@),
{
    if !snapshot.available() {
        return "Unavailable".to_string();
    }
    if snapshot.wired_connected() {
        return wired_text(snapshot);
    }
    let connecting = connecting_now(snapshot);
    let wifi = wifi_text(snapshot);
    let carrier = snapshot.mobile_display_name();
    if snapshot.mobile_active() {
        return match wifi {
            Some(p) => if connecting {
                two_parts(carrier, p.as_str())
            } else {
                two_parts(p.as_str(), carrier)
            },
            None => carrier.to_string(),
        };
    }
    match wifi {
        Some(p) => p,
        None => if connecting {
            "Connecting...".to_string()
        } else if snapshot.mobile_connecting() {
            two_parts(carrier, "Connecting...")
        } else if !snapshot.has_wifi_device() || is_wifi_on(snapshot) {
            "Disconnected".to_string()
        } else {
            "Off".to_string()
        },
    }
}

/// Whether the subtitle stands for a connection that is up.
pub open spec fn subtitle_active(v: NetworkView) -> bool {
    (v.wired_connected || v.mobile_active || network::connection_state_of(v)
        == NetworkConnectionState::Connected) && !is_connecting(v)
}

/// Whether the subtitle stands for a connection that is up.
pub fn is_network_subtitle_active(snapshot: &NetworkSnapshot) -> (r: bool)
    ensures
        r == subtitle_active(snapshot@),
{
    match snapshot.connection_state() {
        NetworkConnectionState::Connecting => false,
        NetworkConnectionState::Connected => true,
        NetworkConnectionState::Disconnected => snapshot.wired_connected()
            || snapshot.mobile_active(),
    }
}

/// While something connects over Wi-Fi, or only over the modem, the subtitle is
/// not marked as up.
pub proof fn law_connecting_is_not_active(v: NetworkView)
    ensures
        is_connecting(v) ==> !subtitle_active(v),
        v.mobile_connecting && !v.wired_connected && !v.mobile_active && !v.connected
            ==> !subtitle_active(v),
{
}

// ---------------------------------------------------------------------------
// The Ethernet row
// ---------------------------------------------------------------------------

/// The title of the Ethernet row.
pub open spec fn ethernet_title_of(v: NetworkView) -> Seq<char> {
    match (v.wired_name, v.wired_iface) {
        (Some(n), _) => n,
        (None, Some(i)) => i,
        (None, None) => "Wired Connection"@,
    }
}

/// A speed in megabits per second as it is shown. `gbps` is the speed in
/// gigabits with one decimal, for speeds that are no whole number of them.
pub open spec fn speed_text(speed: nat, gbps: Seq<char>) -> Seq<char> {
    if speed < 1000 {
        text::dec(speed) + " Mbps"@
    } else if speed % 1000 == 0 {
        text::dec(speed / 1000) + " Gbps"@
    } else {
        gbps + " Gbps"@
    }
}

/// What stands behind `Connected` in the Ethernet row.
pub open spec fn ethernet_parts_of(v: NetworkView, gbps: Seq<char>) -> Seq<Seq<char>> {
    (match v.wired_iface {
        Some(i) => seq![i],
        None => Seq::empty(),
    }) + (match v.wired_speed {
        Some(s) => seq![speed_text(s as nat, gbps)],
        None => Seq::empty(),
    })
}

/// Tells subtitles apart: the interface and the speed.
pub open spec fn ethernet_key_of(v: NetworkView) -> Seq<char> {
    (match v.wired_iface {
        Some(i) => i,
        None => Seq::empty(),
    }) + ":"@ + text::dec(quality_or_zero(v.wired_speed) as nat)
}

fn ethernet_title(snapshot: &NetworkSnapshot) -> (r: String)
    ensures
        r@ == ethernet_title_of(snapshot@),
{
    match snapshot.wired_name() {
        Some(n) => n.to_string(),
        None => match snapshot.wired_iface() {
            Some(i) => i.to_string(),
            None => "Wired Connection".to_string(),
        },
    }
}

/// What stands behind `Connected` in the Ethernet row.
pub fn build_ethernet_subtitle(snapshot: &NetworkSnapshot, gbps: &str) -> (r: Vec<String>)
    ensures
        text::string_views(r@) == ethernet_parts_of(snapshot@, gbps@),
{
    let mut parts: Vec<String> = Vec::new();
    assert(text::string_views(parts@) =~= Seq::<Seq<char>>::empty());
    if let Some(i) = snapshot.wired_iface() {
        parts.push(i.to_string());
        assert(text::string_views(parts@) =~= seq![i@]);
    }
    let ghost first = text::string_views(parts@);
    match snapshot.wired_speed() {
        Some(speed) => {
            let (number, unit): (String, &str) = if speed < 1000 {
                (text::decimal(speed as u64), " Mbps")
            } else if speed % 1000 == 0 {
                (text::decimal((speed / 1000) as u64), " Gbps")
            } else {
                (gbps.to_string(), " Gbps")
            };
            let mut t = number;
            t.append(unit);
            let ghost tv = t@;
            parts.push(t);
            assert(text::string_views(parts@) =~= first + seq![tv]);
        },
        None => {
            assert(first + Seq::<Seq<char>>::empty() =~= first);
        },
    }
    parts
}

/// A speed of whole gigabits is shown as their number, and one below a gigabit as
/// its number of megabits. Any other speed is shown in gigabits with the decimal
/// that was worked out for it.
pub proof fn law_speeds_are_shown_in_their_unit(
    v: NetworkView,
    n: nat,
    gbps: Seq<char>,
)
    requires
        v.wired_speed is Some,
    ensures
        ({
            let parts = ethernet_parts_of(v, gbps);
            let speed = v.wired_speed->0;
            &&& parts.len() > 0
            &&& n > 0 && speed == 1000 * n ==> parts.last() == text::dec(n) + " Gbps"@
            &&& speed < 1000 ==> parts.last() == text::dec(speed as nat) + " Mbps"@
            &&& 1000 * n < speed < 1000 * (n + 1) && n > 0 ==> parts.last() == gbps + " Gbps"@
        }),
{
    let speed = v.wired_speed->0;
    if n > 0 && speed == 1000 * n {
        assert(speed as nat / 1000 == n);
        assert(speed as nat % 1000 == 0);
    }
}

/// The interface stands before the speed, and what is not known is left out.
pub proof fn law_interface_stands_before_the_speed(v: NetworkView, gbps: Seq<char>)
    ensures
        ({
            let parts = ethernet_parts_of(v, gbps);
            &&& parts.len() == (if v.wired_iface is Some { 1int } else { 0 }) + (
            if v.wired_speed is Some { 1int } else { 0 })
            &&& v.wired_iface matches Some(i) ==> parts[0] == i
        }),
{
}

/// Tells subtitles apart.
pub fn ethernet_subtitle_key(snapshot: &NetworkSnapshot) -> (r: String)
    ensures
        r@ == ethernet_key_of(snapshot@),
{
    let mut r = match snapshot.wired_iface() {
        Some(i) => i.to_string(),
        None => {
            let s = String::new();
            assert(s@ =~= Seq::<char>::empty());
            s
        },
    };
    r.append(":");
    r.append(text::decimal(or_zero(snapshot.wired_speed()) as u64).as_str());
    r
}

/// The Ethernet row as it stands.
#[derive(Debug)]
pub struct EthernetRow {
    pub title: String,
    pub subtitle_key: String,
}

/// What changes in the Ethernet row.
#[derive(Debug)]
pub struct EthernetUpdate {
    pub visible: bool,
    /// The new title, where it changed.
    pub title: Option<String>,
    /// The new parts of the subtitle, where they changed.
    pub parts: Option<Vec<String>>,
}

/// How the row follows a change: it is shown while the wire is up, and what did
/// not change stays as it is.
pub open spec fn ethernet_follows(
    before: EthernetRow,
    after: EthernetRow,
    r: EthernetUpdate,
    v: NetworkView,
    gbps: Seq<char>,
) -> bool {
    &&& r.visible == v.wired_connected
    &&& !v.wired_connected ==> r.title is None && r.parts is None && after == before
    &&& v.wired_connected ==> {
        &&& after.title@ == ethernet_title_of(v)
        &&& after.subtitle_key@ == ethernet_key_of(v)
        &&& text::opt_string_view(r.title) == if before.title@ == ethernet_title_of(v) {
            None
        } else {
            Some(ethernet_title_of(v))
        }
        &&& match r.parts {
            Some(p) => before.subtitle_key@ != ethernet_key_of(v) && text::string_views(p@)
                == ethernet_parts_of(v, gbps),
            None => before.subtitle_key@ == ethernet_key_of(v),
        }
    }
}

impl EthernetRow {
    /// The row as it is built.
    pub fn build(snapshot: &NetworkSnapshot) -> (r: Self)
        ensures
            r.title@ == ethernet_title_of(snapshot@),
            r.subtitle_key@ == ethernet_key_of(snapshot@),
    {
        EthernetRow {
            title: ethernet_title(snapshot),
            subtitle_key: ethernet_subtitle_key(snapshot),
        }
    }

    /// Brings the row up to date. A hidden row is left as it is.
    pub fn update_ethernet_row(&mut self, snapshot: &NetworkSnapshot, gbps: &str) -> (r:
        EthernetUpdate)
        ensures
            ethernet_follows(*old(self), *final(self), r, snapshot@, gbps@),
    {
        if !snapshot.wired_connected() {
            return EthernetUpdate { visible: false, title: None, parts: None };
        }
        let new_title = ethernet_title(snapshot);
        let same_title = text::str_eq(self.title.as_str(), new_title.as_str());
        let title = if same_title {
            None
        } else {
            Some(new_title.clone())
        };
        let key = ethernet_subtitle_key(snapshot);
        let parts = if text::str_eq(self.subtitle_key.as_str(), key.as_str()) {
            None
        } else {
            Some(build_ethernet_subtitle(snapshot, gbps))
        };
        self.title = new_title;
        self.subtitle_key = key;
        EthernetUpdate { visible: true, title, parts }
    }
}

// ---------------------------------------------------------------------------
// The mobile row
// ---------------------------------------------------------------------------

/// The colour of a row's icon.
#[derive(Debug, Clone, Copy, PartialEq, Eq, Structural)]
pub enum IconColor {
    Muted,
    Accent,
    Primary,
}

/// The subtitle of the mobile row.
#[derive(Debug)]
pub enum MobileSubtitle {
    Status { text: &'static str, error: bool },
    /// `Connected` with details behind it.
    Connected { details: Option<String> },
}

pub enum MobileSubtitleView {
    Status { text: Seq<char>, error: bool },
    Connected { details: Option<Seq<char>> },
}

impl View for MobileSubtitle {
    type V = MobileSubtitleView;

    open spec fn view(&self) -> MobileSubtitleView {
        match self {
            MobileSubtitle::Status { text, error } => MobileSubtitleView::Status {
                text: text@,
                error: *error,
            },
            MobileSubtitle::Connected { details } => MobileSubtitleView::Connected {
                details: text::opt_string_view(*details),
            },
        }
    }
}

pub open spec fn mobile_on(v: NetworkView) -> bool {
    v.mobile_enabled == Some(true)
}

/// The details of a mobile connection: its technology and its signal, as far as
/// they are known.
pub open spec fn mobile_parts(v: NetworkView) -> Seq<Seq<char>> {
    let signal = quality_or_zero(v.mobile_signal_quality);
    (match v.mobile_access_technology {
        Some(t) => if t.len() > 0 {
            seq![t]
        } else {
            Seq::empty()
        },
        None => Seq::empty(),
    }) + (if signal > 0 {
        seq![text::dec(signal as nat) + "%"@]
    } else {
        Seq::empty()
    })
}

pub open spec fn mobile_details(v: NetworkView) -> Option<Seq<char>> {
    if mobile_parts(v).len() == 0 {
        None
    } else {
        Some(BULLET@ + text::join_spec(mobile_parts(v), BULLET@))
    }
}

/// The subtitle of the mobile row.
pub open spec fn mobile_subtitle_of(v: NetworkView) -> MobileSubtitleView {
    if !mobile_on(v) {
        MobileSubtitleView::Status { text: "Off"@, error: false }
    } else if v.mobile_connecting {
        MobileSubtitleView::Status { text: "Connecting..."@, error: false }
    } else if v.mobile_active {
        MobileSubtitleView::Connected { details: mobile_details(v) }
    } else if v.mobile_failed {
        MobileSubtitleView::Status { text: CONNECTION_FAILURE_REASON@, error: true }
    } else {
        MobileSubtitleView::Status { text: "Disconnected"@, error: false }
    }
}

fn is_mobile_on(snapshot: &NetworkSnapshot) -> (r: bool)
    ensures
        r == mobile_on(snapshot@),
{
    match snapshot.mobile_enabled() {
        Some(b) => b,
        None => false,
    }
}

fn mobile_detail_text(snapshot: &NetworkSnapshot) -> (r: Option<String>)
    ensures
        text::opt_string_view(r) == mobile_details(snapshot@),
{
    let ghost v = snapshot@;
    let mut parts: Vec<String> = Vec::new();
    assert(text::string_views(parts@) =~= Seq::<Seq<char>>::empty());
    if let Some(t) = snapshot.mobile_access_technology() {
        if t.unicode_len() > 0 {
            parts.push(t.to_string());
            assert(text::string_views(parts@) =~= seq![t@]);
        }
    }
    let ghost first = text::string_views(parts@);
    let signal: u32 = or_zero(snapshot.mobile_signal_quality());
    if signal > 0 {
        let mut t = text::decimal(signal as u64);
        t.append("%");
        let ghost tv = t@;
        parts.push(t);
        assert(text::string_views(parts@) =~= first + seq![tv]);
    } else {
        assert(first + Seq::<Seq<char>>::empty() =~= first);
    }
    assert(text::string_views(parts@) == mobile_parts(v));
    if parts.len() == 0 {
        None
    } else {
        let mut r = BULLET.to_string();
        r.append(text::join(&parts, BULLET).as_str());
        Some(r)
    }
}

/// The subtitle of the mobile row.
pub fn mobile_subtitle(snapshot: &NetworkSnapshot) -> (r: MobileSubtitle)
    ensures
        r@ == mobile_subtitle_of(snapshot@),
{
    if !is_mobile_on(snapshot) {
        MobileSubtitle::Status { text: "Off", error: false }
    } else if snapshot.mobile_connecting() {
        MobileSubtitle::Status { text: "Connecting...", error: false }
    } else if snapshot.mobile_active() {
        MobileSubtitle::Connected { details: mobile_detail_text(snapshot) }
    } else if snapshot.mobile_failed() {
        MobileSubtitle::Status { text: CONNECTION_FAILURE_REASON, error: true }
    } else {
        MobileSubtitle::Status { text: "Disconnected", error: false }
    }
}

/// What the mobile row shows.
#[derive(Debug)]
pub struct MobileRow {
    pub visible: bool,
    pub title: String,
    /// The row below the switch.
    pub connection_visible: bool,
    pub switch_active: bool,
    pub switch_sensitive: bool,
    pub action: &'static str,
    pub action_sensitive: bool,
    pub subtitle: MobileSubtitle,
    pub icon: &'static str,
    pub spinning: bool,
    pub color: IconColor,
}

impl MobileRow {
    /// What holds of the row whenever it is shown.
    pub open spec fn shows(self, v: NetworkView) -> bool {
        &&& self.visible == v.mobile_supported
        &&& self.title@ == v.mobile_name
        &&& self.connection_visible == mobile_on(v)
        &&& self.switch_active == mobile_on(v)
        &&& self.switch_sensitive == (v.available && v.has_modem_device)
        &&& self.action@ == if v.mobile_active {
            "Disconnect"@
        } else {
            "Connect"@
        }
        &&& self.action_sensitive == (!v.mobile_connecting && mobile_on(v))
        &&& self.subtitle@ == mobile_subtitle_of(v)
        &&& self.icon@ == mobile_icon(
            mobile_on(v),
            v.mobile_active,
            quality_or_zero(v.mobile_signal_quality) as int,
        )
    }
}

/// The colour of the modem's icon.
pub open spec fn mobile_color(enabled: bool, up: bool) -> IconColor {
    if !enabled {
        IconColor::Muted
    } else if up {
        IconColor::Accent
    } else {
        IconColor::Primary
    }
}

fn mobile_row(snapshot: &NetworkSnapshot, spinning: bool, up: bool) -> (r: MobileRow)
    ensures
        r.shows(snapshot@),
        r.spinning == spinning,
        r.color == mobile_color(mobile_on(snapshot@), up),
{
    let enabled = is_mobile_on(snapshot);
    let active = snapshot.mobile_active();
    let signal: u32 = or_zero(snapshot.mobile_signal_quality());
    let color = if !enabled {
        IconColor::Muted
    } else if up {
        IconColor::Accent
    } else {
        IconColor::Primary
    };
    MobileRow {
        visible: snapshot.mobile_supported(),
        title: snapshot.mobile_display_name().to_string(),
        connection_visible: enabled,
        switch_active: enabled,
        switch_sensitive: snapshot.available() && snapshot.has_modem_device(),
        action: if active {
            "Disconnect"
        } else {
            "Connect"
        },
        action_sensitive: !snapshot.mobile_connecting() && enabled,
        subtitle: mobile_subtitle(snapshot),
        icon: mobile_state_icon_name(enabled, active, signal),
        spinning,
        color,
    }
}

/// The mobile row as it is built: nothing spins yet.
pub fn build_mobile_row(snapshot: &NetworkSnapshot) -> (r: MobileRow)
    ensures
        r.shows(snapshot@),
        !r.spinning,
        r.color == mobile_color(mobile_on(snapshot@), snapshot@.mobile_active),
{
    mobile_row(snapshot, false, snapshot.mobile_active())
}

/// The mobile row after a change.
pub fn update_mobile_row(snapshot: &NetworkSnapshot) -> (r: MobileRow)
    ensures
        r.shows(snapshot@),
        r.spinning == snapshot@.mobile_connecting,
        r.color == mobile_color(
            mobile_on(snapshot@),
            snapshot@.mobile_connecting || snapshot@.mobile_active,
        ),
{
    mobile_row(
        snapshot,
        snapshot.mobile_connecting(),
        snapshot.mobile_connecting() || snapshot.mobile_active(),
    )
}

/// What a switch asks for: nothing while it is only brought in line with the
/// device.
pub open spec fn switch_request(updating: bool, is_active: bool) -> Option<bool> {
    if updating {
        None
    } else {
        Some(is_active)
    }
}

/// What the user's switch of the modem leads to: nothing while the switch is
/// only brought in line with the modem.
pub fn mobile_switch_request(updating: bool, is_active: bool) -> (r: Option<bool>)
    ensures
        r == switch_request(updating, is_active),
{
    if updating {
        None
    } else {
        Some(is_active)
    }
}

/// What the toggle of the card and the switch in its details lead to: whether
/// Wi-Fi is to be on, and nothing while they are only brought in line with it.
pub fn wifi_switch_request(updating: bool, is_active: bool) -> (r: Option<bool>)
    ensures
        r == switch_request(updating, is_active),
{
    if updating {
        None
    } else {
        Some(is_active)
    }
}

/// What the button of the mobile row asks of the modem.
#[derive(Debug, Clone, Copy, PartialEq, Eq, Structural)]
pub enum MobileRequest {
    Connect,
    Disconnect,
}

/// What the button of the mobile row asks for: an active connection is ended,
/// otherwise one is made.
pub fn mobile_button_request(snapshot: &NetworkSnapshot) -> (r: MobileRequest)
    ensures
        r == if snapshot@.mobile_active {
            MobileRequest::Disconnect
        } else {
            MobileRequest::Connect
        },
{
    if snapshot.mobile_active() {
        MobileRequest::Disconnect
    } else {
        MobileRequest::Connect
    }
}

// ---------------------------------------------------------------------------
// The details
// ---------------------------------------------------------------------------

/// What the card unfolds to, as it is built.
#[derive(Debug)]
pub struct WifiDetails {
    pub ethernet: EthernetRow,
    /// What stands behind `Connected` in the Ethernet row.
    pub ethernet_parts: Vec<String>,
    pub ethernet_visible: bool,
    pub mobile: MobileRow,
    pub wifi_switch_active: bool,
    /// The label and switch of Wi-Fi.
    pub wifi_switch_visible: bool,
    pub list: WifiList,
}

/// What the card unfolds to, as it is built. The switch of Wi-Fi is there only
/// beside other devices. `target` is the network that a password is asked for,
/// and `gbps` the wired speed in gigabits with one decimal place.
pub fn build_wifi_details(
    snapshot: &NetworkSnapshot,
    target: Option<&str>,
    uses_material: bool,
    gbps: &str,
) -> (r: WifiDetails)
    ensures
        r.ethernet.title@ == ethernet_title_of(snapshot@),
        r.ethernet.subtitle_key@ == ethernet_key_of(snapshot@),
        text::string_views(r.ethernet_parts@) == ethernet_parts_of(snapshot@, gbps@),
        r.ethernet_visible == snapshot@.wired_connected,
        r.mobile.shows(snapshot@),
        !r.mobile.spinning,
        r.mobile.color == mobile_color(mobile_on(snapshot@), snapshot@.mobile_active),
        r.wifi_switch_active == wifi_on(snapshot@),
        r.wifi_switch_visible == network::has_other_device(snapshot@),
        r.list@ == wifi_list::wifi_list(snapshot@, text::opt_view(target), uses_material),
{
    WifiDetails {
        ethernet: EthernetRow::build(snapshot),
        ethernet_parts: build_ethernet_subtitle(snapshot, gbps),
        ethernet_visible: snapshot.wired_connected(),
        mobile: build_mobile_row(snapshot),
        wifi_switch_active: is_wifi_on(snapshot),
        wifi_switch_visible: snapshot.has_non_wifi_device(),
        list: wifi_list::populate_wifi_list(snapshot, target, uses_material),
    }
}

/// The button that scans for networks.
#[derive(Debug, Clone, Copy, PartialEq, Eq, Structural)]
pub struct ScanUi {
    pub visible: bool,
    pub sensitive: bool,
    pub scanning: bool,
}

pub open spec fn scan_ui_of(v: NetworkView) -> ScanUi {
    ScanUi { visible: wifi_on(v), sensitive: !v.scanning, scanning: v.scanning }
}

/// The button that scans for networks.
pub fn update_scan_ui(snapshot: &NetworkSnapshot) -> (r: ScanUi)
    ensures
        r == scan_ui_of(snapshot@),
{
    ScanUi {
        visible: is_wifi_on(snapshot),
        sensitive: !snapshot.scanning(),
        scanning: snapshot.scanning(),
    }
}

// ---------------------------------------------------------------------------
// The card itself
// ---------------------------------------------------------------------------

/// The icon of the card and how it is shown.
#[derive(Debug, Clone, Copy)]
pub struct CardIcon {
    pub name: &'static str,
    pub spinning: bool,
    /// The service is not there.
    pub unavailable: bool,
    pub active: bool,
    /// Shown as switched off.
    pub disabled: bool,
}

/// What the card shows.
#[derive(Debug)]
pub struct NetworkCard {
    pub toggle_active: bool,
    pub toggle_sensitive: bool,
    /// The label and switch of Wi-Fi in the details.
    pub wifi_switch_visible: bool,
    pub wifi_switch_sensitive: bool,
    pub title: &'static str,
    pub icon: CardIcon,
    pub subtitle: String,
    pub subtitle_active: bool,
    pub scan: ScanUi,
    /// A failure of the modem is shown and is to be forgotten in a while.
    pub forget_mobile_failure: bool,
}

/// Whether the card's icon spins: something connects, and no row of the
/// expanded card shows it.
pub open spec fn card_spinning(v: NetworkView, expanded: bool) -> bool {
    (network::wifi_connecting_of(v) || v.mobile_connecting) && !expanded
}

/// Whether the card's icon stands for something that is up.
pub open spec fn card_active(v: NetworkView) -> bool {
    (wifi_on(v) && v.connected) || v.wired_connected || v.mobile_active
}

/// Whether the card's icon is dimmed: it is a Wi-Fi icon, and Wi-Fi is off.
pub open spec fn card_disabled(v: NetworkView, uses_material: bool) -> bool {
    (!unified(v, uses_material) || (!v.mobile_active && !v.mobile_connecting)) && !wifi_on(v)
        && !v.wired_connected
}

impl CardIcon {
    pub open spec fn shows(self, v: NetworkView, uses_material: bool, expanded: bool) -> bool {
        if !v.available {
            &&& self.name@ == WIFI_OFFLINE@
            &&& self.unavailable
            &&& !self.spinning
            &&& !self.active
            &&& !self.disabled
        } else {
            &&& self.name@ == card_icon(v, uses_material)
            &&& !self.unavailable
            &&& self.spinning == card_spinning(v, expanded)
            &&& self.active == card_active(v)
            &&& self.disabled == card_disabled(v, uses_material)
        }
    }
}

/// The icon of the card.
pub fn network_card_icon(snapshot: &NetworkSnapshot, uses_material: bool, expanded: bool) -> (r:
    CardIcon)
    ensures
        r.shows(snapshot@, uses_material, expanded),
{
    if !snapshot.available() {
        return CardIcon {
            name: WIFI_OFFLINE,
            spinning: false,
            unavailable: true,
            active: false,
            disabled: false,
        };
    }
    let one = is_material_unified(snapshot, uses_material);
    let enabled = is_wifi_on(snapshot);
    let connecting = snapshot.wifi_connecting() || snapshot.mobile_connecting();
    let showing_wifi = !one || (!snapshot.mobile_active() && !snapshot.mobile_connecting());
    CardIcon {
        name: resolve_material_network_icon(snapshot, uses_material),
        spinning: connecting && !expanded,
        unavailable: false,
        active: (enabled && snapshot.connected()) || snapshot.wired_connected()
            || snapshot.mobile_active(),
        disabled: showing_wifi && !enabled && !snapshot.wired_connected(),
    }
}

impl NetworkCard {
    pub open spec fn shows(self, v: NetworkView, uses_material: bool, expanded: bool) -> bool {
        &&& self.toggle_active == wifi_on(v)
        &&& self.toggle_sensitive == (v.available && v.has_wifi_device && !v.has_ethernet_device
            && !v.mobile_supported)
        &&& self.wifi_switch_visible == network::has_other_device(v)
        &&& self.wifi_switch_sensitive == (v.available && v.has_wifi_device)
        &&& self.title@ == if network::has_other_device(v) {
            "Network"@
        } else {
            "Wi-Fi"@
        }
        &&& self.icon.shows(v, uses_material, expanded)
        &&& self.subtitle@ == subtitle_text(v)
        &&& self.subtitle_active == subtitle_active(v)
        &&& self.scan == scan_ui_of(v)
        &&& self.forget_mobile_failure == v.mobile_failed
    }
}

/// What the card shows.
pub fn network_card(snapshot: &NetworkSnapshot, uses_material: bool, expanded: bool) -> (r:
    NetworkCard)
    ensures
        r.shows(snapshot@, uses_material, expanded),
{
    let enabled = is_wifi_on(snapshot);
    let other = snapshot.has_non_wifi_device();
    NetworkCard {
        toggle_active: enabled,
        toggle_sensitive: snapshot.available() && snapshot.has_wifi_device()
            && !snapshot.has_ethernet_device() && !snapshot.mobile_supported(),
        wifi_switch_visible: other,
        wifi_switch_sensitive: snapshot.available() && snapshot.has_wifi_device(),
        title: if other {
            "Network"
        } else {
            "Wi-Fi"
        },
        icon: network_card_icon(snapshot, uses_material, expanded),
        subtitle: get_network_subtitle_text(snapshot),
        subtitle_active: is_network_subtitle_active(snapshot),
        scan: update_scan_ui(snapshot),
        forget_mobile_failure: snapshot.mobile_failed(),
    }
}

} // verus!

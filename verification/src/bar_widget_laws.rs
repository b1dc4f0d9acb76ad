//! What holds of the icons of the Quick Settings widget, whatever the services
//! say.

use vstd::prelude::*;
use vstd::string::*;

use crate::bar_widget;
use crate::bar_widget::{
    AudioSnapshot, BluetoothDevice, BluetoothSnapshot, Indicator, IndicatorKind,
    QuickSettingsCardsConfig, QuickSettingsConfig, ToggleAt,
};
use crate::config;
use crate::config::WidgetEntry;
use crate::network::{NetworkSnapshot, NetworkView};
use crate::network_card;
use crate::text;
use crate::vpn_card;
use crate::vpn_card::{VpnConnView, VpnSnapshot};

verus! {

// ---------------------------------------------------------------------------
// Options
// ---------------------------------------------------------------------------

/// A card is hidden only where its own option says so.
pub proof fn law_cards_are_shown_unless_switched_off(entry: WidgetEntry, c: QuickSettingsConfig)
    requires
        call_ensures(QuickSettingsConfig::from_entry, (&entry,), c),
    ensures
        ({
            let m = entry.options@;
            &&& !c.cards.network <==> config::boolean_option(m, "network"@) == Some(false)
            &&& !c.cards.bluetooth <==> config::boolean_option(m, "bluetooth"@) == Some(false)
            &&& !c.cards.vpn <==> config::boolean_option(m, "vpn"@) == Some(false)
            &&& !c.cards.idle_inhibitor <==> config::boolean_option(m, "idle_inhibitor"@) == Some(
                false,
            )
            &&& !c.cards.updates <==> config::boolean_option(m, "updates"@) == Some(false)
            &&& !c.cards.audio <==> config::boolean_option(m, "audio"@) == Some(false)
            &&& !c.cards.mic <==> config::boolean_option(m, "mic"@) == Some(false)
            &&& !c.cards.brightness <==> config::boolean_option(m, "brightness"@) == Some(false)
            &&& !c.cards.power <==> config::boolean_option(m, "power"@) == Some(false)
            &&& !c.cards.vpn_close_on_connect <==> config::boolean_option(
                m,
                "vpn_close_on_connect"@,
            ) == Some(false)
        }),
{
}

/// The step of the wheel is the one asked for, as far as it lies between 1 and 25
/// percentage points, and 5 where none is asked for.
pub proof fn law_wheel_step_is_kept_in_bounds(entry: WidgetEntry, c: QuickSettingsConfig)
    requires
        call_ensures(QuickSettingsConfig::from_entry, (&entry,), c),
    ensures
        1 <= c.audio_scroll_percentage <= 25,
        config::integer_option(entry.options@, "audio_scroll_percentage"@) is None
            ==> c.audio_scroll_percentage == 5,
        config::integer_option(entry.options@, "audio_scroll_percentage"@) matches Some(n) ==> {
            &&& 1 <= n <= 25 ==> c.audio_scroll_percentage == n
            &&& 25 < n <= i32::MAX ==> c.audio_scroll_percentage == 25
            &&& i32::MIN <= n < 1 ==> c.audio_scroll_percentage == 1
        },
{
}

// ---------------------------------------------------------------------------
// The icons
// ---------------------------------------------------------------------------

/// The widget has an icon for each card that is shown and has one, and one for
/// the modem with the network.
pub proof fn law_icons_follow_the_cards(cards: QuickSettingsCardsConfig)
    ensures
        ({
            let icons = bar_widget::indicators_of(cards);
            &&& icons.contains(IndicatorKind::Audio) <==> cards.audio
            &&& icons.contains(IndicatorKind::Bluetooth) <==> cards.bluetooth
            &&& icons.contains(IndicatorKind::Network) <==> cards.network
            &&& icons.contains(IndicatorKind::Mobile) <==> cards.network
            &&& icons.contains(IndicatorKind::Vpn) <==> cards.vpn
        }),
{
    let shown = |k: IndicatorKind| bar_widget::has_indicator(cards, k);
    let order = bar_widget::indicator_order();
    let icons = order.filter(shown);
    lemma_filter_keeps(order, shown);
    assert(order[0] == IndicatorKind::Audio);
    assert(order[1] == IndicatorKind::Bluetooth);
    assert(order[2] == IndicatorKind::Network);
    assert(order[3] == IndicatorKind::Mobile);
    assert(order[4] == IndicatorKind::Vpn);
    assert(order.contains(IndicatorKind::Audio));
    assert(order.contains(IndicatorKind::Bluetooth));
    assert(order.contains(IndicatorKind::Network));
    assert(order.contains(IndicatorKind::Mobile));
    assert(order.contains(IndicatorKind::Vpn));
}

proof fn lemma_filter_keeps(s: Seq<IndicatorKind>, f: spec_fn(IndicatorKind) -> bool)
    ensures
        forall|k: IndicatorKind| #[trigger]
            s.filter(f).contains(k) <==> s.contains(k) && f(k),
    decreases s.len(),
{
    reveal_with_fuel(Seq::filter, 1);
    if s.len() > 0 {
        let rest = s.drop_last();
        lemma_filter_keeps(rest, f);
        assert forall|k: IndicatorKind| #[trigger]
            s.filter(f).contains(k) <==> s.contains(k) && f(k) by {
            let kept = rest.filter(f);
            assert(s =~= rest.push(s.last()));
            assert(s.contains(k) <==> rest.contains(k) || k == s.last()) by {
                if rest.contains(k) {
                    let i = choose|i: int| 0 <= i < rest.len() && rest[i] == k;
                    assert(s[i] == k);
                }
                if k == s.last() {
                    assert(s[s.len() - 1] == k);
                }
            }
            if f(s.last()) {
                assert(s.filter(f) == kept.push(s.last()));
                if kept.contains(k) {
                    let i = choose|i: int| 0 <= i < kept.len() && kept[i] == k;
                    assert(kept.push(s.last())[i] == k);
                }
                assert(kept.push(s.last())[kept.len() as int] == s.last());
            }
        }
    }
}

/// With every card shown, the icons stand in one order: audio, Bluetooth,
/// network, modem, VPN.
pub proof fn law_icons_stand_in_order(cards: QuickSettingsCardsConfig)
    requires
        cards.audio,
        cards.bluetooth,
        cards.network,
        cards.vpn,
    ensures
        bar_widget::indicators_of(cards) == seq![
            IndicatorKind::Audio,
            IndicatorKind::Bluetooth,
            IndicatorKind::Network,
            IndicatorKind::Mobile,
            IndicatorKind::Vpn,
        ],
{
    let shown = |k: IndicatorKind| bar_widget::has_indicator(cards, k);
    lemma_filter_all(bar_widget::indicator_order(), shown);
}

proof fn lemma_filter_all(s: Seq<IndicatorKind>, f: spec_fn(IndicatorKind) -> bool)
    requires
        forall|i: int| 0 <= i < s.len() ==> f(#[trigger] s[i]),
    ensures
        s.filter(f) == s,
    decreases s.len(),
{
    reveal_with_fuel(Seq::filter, 1);
    if s.len() > 0 {
        lemma_filter_all(s.drop_last(), f);
        assert(f(s[s.len() - 1]));
        assert(s =~= s.drop_last().push(s.last()));
    }
}

/// The audio icon is the one for the volume exactly while the volume can be set,
/// and its tooltip gives the volume unless it is muted.
pub proof fn law_audio_icon_gives_the_volume(s: AudioSnapshot, icon: &str, r: Indicator)
    requires
        call_ensures(bar_widget::audio_indicator, (&s, icon), r),
    ensures
        r.unavailable == Some(!(s.available && s.control_available)),
        r.visible is None && r.spinning is None && r.active is None && r.disabled is None,
        r.icon is Some && r.tooltip is Some,
        s.available && s.control_available ==> r.icon->0@ == icon@,
        !(s.available && s.control_available) ==> r.icon->0@ == "audio-volume-muted-symbolic"@,
        !s.available ==> r.tooltip->0@ == "Audio: Service unavailable"@,
        s.available && !s.control_available ==> r.tooltip->0@ == "Volume control unavailable"@,
        s.available && s.control_available && s.muted ==> r.tooltip->0@ == "Muted"@,
        s.available && s.control_available && !s.muted ==> r.tooltip->0@ == "Volume: "@ + text::dec(
            s.volume as nat,
        ) + "%"@,
{
    assert(r@ == bar_widget::audio_indicator_of(s, icon@));
}

/// One device more at the end of the list adds its name at the end where it is
/// connected, and nothing otherwise.
pub proof fn law_connected_devices_are_named(
    devices: Seq<BluetoothDevice>,
    d: BluetoothDevice,
)
    ensures
        d.connected ==> bar_widget::connected_names(devices.push(d))
            == bar_widget::connected_names(devices).push(d.name@),
        !d.connected ==> bar_widget::connected_names(devices.push(d))
            == bar_widget::connected_names(devices),
        bar_widget::connected_names(Seq::empty()).len() == 0,
{
    assert(devices.push(d).drop_last() =~= devices);
}

/// The Bluetooth icon is lit by a connected device and dimmed while the adapter
/// is off. Without an adapter it is marked as unavailable.
pub proof fn law_bluetooth_icon_follows_the_adapter(s: BluetoothSnapshot, icon: &str, r: Indicator)
    requires
        call_ensures(bar_widget::bluetooth_indicator, (&s, icon), r),
    ensures
        r.unavailable == Some(!s.has_adapter && s.is_ready),
        r.icon is Some && r.tooltip is Some && r.visible is None && r.spinning is None,
        !s.has_adapter && s.is_ready ==> {
            &&& r.icon->0@ == "bluetooth-disabled-symbolic"@
            &&& r.active == Some(false)
            &&& r.disabled is None
            &&& r.tooltip->0@ == "Bluetooth: No adapter found"@
        },
        s.has_adapter || !s.is_ready ==> {
            &&& r.icon->0@ == icon@
            &&& r.active == Some(s.connected_devices > 0)
            &&& r.disabled == Some(!s.powered)
            &&& s.connected_devices == 0 && s.powered ==> r.tooltip->0@ == "Bluetooth On"@
            &&& s.connected_devices == 0 && !s.powered ==> r.tooltip->0@ == "Bluetooth Off"@
            &&& s.connected_devices > 0 && bar_widget::connected_names(s.devices@).len() > 0
                ==> r.tooltip->0@ == text::join_spec(
                bar_widget::connected_names(s.devices@),
                "\n"@,
            )
            &&& s.connected_devices > 0 && bar_widget::connected_names(s.devices@).len() == 0
                ==> r.tooltip->0@ == "Bluetooth On"@
        },
{
    assert(r@ == bar_widget::bluetooth_indicator_of(s, icon@));
}

/// The network icon spins while Wi-Fi connects, is lit by a wire, by Wi-Fi that is
/// on and connected and while it connects, and is dimmed while Wi-Fi is off and
/// there is no wire.
pub proof fn law_network_icon_follows_the_network(s: NetworkSnapshot, r: Indicator)
    requires
        call_ensures(bar_widget::network_indicator, (&s,), r),
    ensures
        ({
            let v = s@;
            let on = v.wifi_enabled == Some(true);
            let joining = v.connecting_ssid is Some || v.wifi_device_connecting;
            &&& r.unavailable == Some(!v.available)
            &&& r.spinning == Some(v.available && joining)
            &&& r.active == Some(
                v.available && (v.wired_connected || joining || (on && v.connected)),
            )
            &&& r.disabled == Some(v.available && !on && !v.wired_connected)
            &&& r.icon is Some && r.tooltip is Some && r.visible is None
            &&& !v.available ==> r.icon->0@ == "network-wireless-offline-symbolic"@
                && r.tooltip->0@ == "Wi-Fi: Service unavailable"@
            &&& v.available && v.wired_connected ==> r.icon->0@ == "network-wired-symbolic"@
            &&& v.available && !v.wired_connected && v.has_wifi_device && on && v.connected
                ==> r.icon->0@ == "network-wireless-signal-excellent-symbolic"@
            &&& v.available && !v.wired_connected && v.has_wifi_device && !(on && v.connected)
                ==> r.icon->0@ == "network-wireless-offline-symbolic"@
            &&& v.available && !v.wired_connected && !v.has_wifi_device ==> r.icon->0@
                == "network-wired-symbolic"@
        }),
{
    assert(r@ == bar_widget::network_indicator_of(s@));
}

/// The tooltip names the wire before anything else, then the network in use with
/// its signal where one is known.
pub proof fn law_network_tooltip_names_the_connection(v: NetworkView)
    ensures
        v.wired_connected ==> bar_widget::network_tooltip(v) == "Ethernet connected"@,
        !v.wired_connected && v.connected && v.active_ssid is Some && v.active_strength > 0
            ==> bar_widget::network_tooltip(v) == v.active_ssid->0 + "\nSignal: "@ + text::dec(
            v.active_strength as nat,
        ) + "%"@,
        !v.wired_connected && v.connected && v.active_ssid is Some && v.active_strength <= 0
            ==> bar_widget::network_tooltip(v) == v.active_ssid->0,
        !v.wired_connected && v.connected && v.active_ssid is None && v.active_strength <= 0
            ==> bar_widget::network_tooltip(v) == "Connected"@,
{
}

/// Without a connection the tooltip says what goes on: the network being
/// connected to, then that Wi-Fi connects, is off, or is scanned for.
pub proof fn law_network_tooltip_says_what_goes_on(v: NetworkView)
    requires
        !v.wired_connected,
        !v.connected,
    ensures
        v.connecting_ssid matches Some(t) ==> bar_widget::network_tooltip(v) == "Connecting to "@
            + t,
        v.connecting_ssid is None && v.wifi_device_connecting ==> bar_widget::network_tooltip(v)
            == "Connecting..."@,
        v.connecting_ssid is None && !v.wifi_device_connecting ==> {
            &&& v.wifi_enabled == Some(false) ==> bar_widget::network_tooltip(v) == "Wi-Fi Off"@
            &&& v.wifi_enabled != Some(false) && v.scanning ==> bar_widget::network_tooltip(v)
                == "Wi-Fi: Scanning..."@
            &&& v.wifi_enabled != Some(false) && !v.scanning ==> bar_widget::network_tooltip(v)
                == "Disconnected"@
        },
{
}

/// The icon of the modem is there for a modem that can be used, spins while it
/// connects, and is dimmed while it is off.
pub proof fn law_modem_icon_follows_the_modem(s: NetworkSnapshot, r: Indicator)
    requires
        call_ensures(bar_widget::mobile_indicator, (&s,), r),
    ensures
        ({
            let v = s@;
            let on = v.mobile_enabled == Some(true);
            &&& r.visible == Some(v.mobile_supported)
            &&& r.spinning == Some(v.mobile_connecting)
            &&& r.active == Some(v.mobile_active || v.mobile_connecting)
            &&& r.disabled == Some(!on)
            &&& r.unavailable is None
            &&& r.icon is Some && r.tooltip is Some
            &&& !on ==> r.icon->0@ == "network-cellular-offline-symbolic"@
            &&& on && !v.mobile_active ==> r.icon->0@ == "network-cellular-signal-none-symbolic"@
            &&& on && v.mobile_active && v.mobile_signal_quality is Some ==> r.icon->0@
                == network_card::cellular_icon(v.mobile_signal_quality->0 as int)
        }),
{
    assert(r@ == bar_widget::mobile_indicator_of(s@));
}

/// The tooltip of the modem has its name on the first line and its state below:
/// off, connecting, failed, connected with its signal and technology, or not.
pub proof fn law_modem_tooltip_says_how_it_stands(v: NetworkView)
    ensures
        ({
            let on = v.mobile_enabled == Some(true);
            let t = bar_widget::mobile_tooltip(v);
            &&& !on ==> t == v.mobile_name + "\nOff"@
            &&& on && v.mobile_connecting ==> t == v.mobile_name + "\nConnecting..."@
            &&& on && !v.mobile_connecting && v.mobile_failed ==> t == v.mobile_name
                + "\nConnection failed"@
            &&& on && !v.mobile_connecting && !v.mobile_failed && !v.mobile_active ==> t
                == v.mobile_name + "\nDisconnected"@
            &&& on && !v.mobile_connecting && !v.mobile_failed && v.mobile_active
                && v.mobile_signal_quality is Some && v.mobile_access_technology is None ==> t
                == v.mobile_name + ("\nSignal: "@ + text::dec(v.mobile_signal_quality->0 as nat)
                + "%"@)
            &&& on && !v.mobile_connecting && !v.mobile_failed && v.mobile_active
                && v.mobile_signal_quality is Some && v.mobile_access_technology is Some ==> t
                == v.mobile_name + ("\nSignal: "@ + text::dec(v.mobile_signal_quality->0 as nat)
                + "%"@ + "\n"@ + v.mobile_access_technology->0)
        }),
{
}

/// One connection more at the end of the list adds its name at the end where it
/// is active, and nothing otherwise.
pub proof fn law_active_connections_are_named(conns: Seq<VpnConnView>, c: VpnConnView)
    ensures
        c.active ==> bar_widget::active_names(conns.push(c)) == bar_widget::active_names(
            conns,
        ).push(c.name),
        !c.active ==> bar_widget::active_names(conns.push(c)) == bar_widget::active_names(conns),
        bar_widget::active_names(Seq::empty()).len() == 0,
{
    assert(conns.push(c).drop_last() =~= conns);
}

/// The VPN icon is there while the service is, and lit while a connection is up.
/// Its tooltip then names the connections, one to a line.
pub proof fn law_vpn_icon_follows_the_connections(s: VpnSnapshot, r: Indicator)
    requires
        call_ensures(bar_widget::vpn_indicator, (&s,), r),
    ensures
        r.visible == Some(s.available),
        !s.available ==> r.icon is None && r.active is None && r.tooltip is None,
        s.available ==> {
            let names = bar_widget::active_names(vpn_card::conn_views(s.connections@));
            &&& r.icon is Some && r.icon->0@ == "network-vpn"@
            &&& r.active == Some(s.any_active)
            &&& r.tooltip is Some
            &&& !s.any_active ==> r.tooltip->0@ == "VPN Disconnected"@
            &&& s.any_active && names.len() == 0 ==> r.tooltip->0@ == "VPN Connected"@
            &&& s.any_active && names.len() > 0 ==> r.tooltip->0@ == text::join_spec(names, "\n"@)
        },
{
    assert(r@ == bar_widget::vpn_indicator_of(s));
}

/// An icon is built as its first update shows it, but for what only an update
/// says.
pub proof fn law_icons_are_built_as_they_are_shown(
    s: NetworkSnapshot,
    net: Indicator,
    modem: Indicator,
)
    requires
        call_ensures(bar_widget::initial_network, (&s,), net),
        call_ensures(bar_widget::initial_mobile, (&s,), modem),
    ensures
        ({
            let n = bar_widget::network_indicator_of(s@);
            let m = bar_widget::mobile_indicator_of(s@);
            &&& s@.available ==> net@.icon == n.icon && net@.spinning == n.spinning && net@.active
                == n.active && net@.disabled == n.disabled
            &&& net.tooltip is None && net.unavailable is None && net.visible is None
            &&& modem@.visible == m.visible && modem@.icon == m.icon && modem@.spinning
                == m.spinning && modem@.active == m.active && modem@.disabled == m.disabled
            &&& modem.tooltip is None
        }),
{
    assert(net@.tooltip is None);
    assert(modem@.tooltip is None);
}

/// The audio, Bluetooth and VPN icons are built with the icon that is given, and
/// lit by what is connected.
pub proof fn law_icons_are_built_from_the_services(
    b: BluetoothSnapshot,
    v: VpnSnapshot,
    icon: &str,
    audio: Indicator,
    bluetooth: Indicator,
    vpn: Indicator,
)
    requires
        call_ensures(bar_widget::initial_audio, (icon,), audio),
        call_ensures(bar_widget::initial_bluetooth, (&b, icon), bluetooth),
        call_ensures(bar_widget::initial_vpn, (&v,), vpn),
    ensures
        audio@.icon == Some(icon@),
        audio.unavailable is None && audio.active is None && audio.tooltip is None,
        bluetooth@.icon == Some(icon@),
        bluetooth.active == Some(b.connected_devices > 0),
        bluetooth.disabled == Some(!b.powered),
        bluetooth.unavailable is None && bluetooth.tooltip is None,
        vpn@.icon == Some("network-vpn"@),
        vpn.visible == Some(v.available),
        vpn.active == Some(v.available && v.any_active),
        vpn.tooltip is None,
{
    assert(audio@.active is None && audio@.unavailable is None && audio@.tooltip is None);
    assert(bluetooth@.unavailable is None && bluetooth@.tooltip is None);
    assert(bluetooth@.active == bluetooth.active && bluetooth@.disabled == bluetooth.disabled);
    assert(vpn@.visible == vpn.visible && vpn@.active == vpn.active && vpn@.tooltip is None);
}

// ---------------------------------------------------------------------------
// The click
// ---------------------------------------------------------------------------

/// Only the primary button toggles the panel, below the middle of the widget
/// where that is known.
pub proof fn law_primary_button_toggles_the_panel(
    button: u32,
    center: Option<i32>,
    margin: i32,
    r: Option<ToggleAt>,
)
    requires
        center matches Some(c) ==> i32::MIN <= c + margin <= i32::MAX,
        call_ensures(bar_widget::on_widget_click, (button, center, margin), r),
    ensures
        r is Some <==> button == 1,
        r matches Some(t) ==> t.on_monitor == (center is Some),
        r matches Some(t) ==> (center is Some ==> t.x == center->0 + margin),
        r matches Some(t) ==> (center is None ==> t.x == 0),
{
}

} // verus!

//! What holds of the network card, whatever the network is doing.

use vstd::prelude::*;
use vstd::string::*;

use crate::network;
use crate::network::{
    IwdSnapshot, NetView, NetworkConnectionState, NetworkSnapshot, NetworkView, NmSnapshot,
    StationState,
};
use crate::network_card;
use crate::network_card::{
    EthernetRow, EthernetUpdate, IconColor, MobileRow, MobileSubtitleView, NetworkCard,
    NetworkIconContext,
};
use crate::text;
use crate::text_laws;

verus! {

// ---------------------------------------------------------------------------
// What is known of the network
// ---------------------------------------------------------------------------

/// NetworkManager's facts are those that the card speaks of: each is read from
/// its own place.
pub proof fn law_network_manager_is_read(s: NmSnapshot)
    ensures
        ({
            let v = NetworkSnapshot::NetworkManager(s)@;
            &&& !v.is_iwd
            &&& v.available == s.available
            &&& v.connected == s.wifi.connected
            &&& v.wifi_enabled == s.wifi.enabled
            &&& v.has_wifi_device == s.wifi.has_device
            &&& v.active_strength == s.wifi.strength
            &&& v.scanning == s.wifi.scanning
            &&& v.is_ready == s.wifi.is_ready
            &&& v.networks.len() == s.wifi.networks@.len()
            &&& forall|i: int|
                0 <= i < v.networks.len() ==> #[trigger] v.networks[i] == s.wifi.networks@[i]@
            &&& v.failed_ssid is Some == s.wifi.failed_ssid is Some
            &&& v.failed_ssid is Some ==> v.failed_ssid->0 == s.wifi.failed_ssid->0@
            &&& v.failed_reason is None
            &&& v.auth_request_ssid is None
            &&& v.connecting_ssid is Some == s.wifi.connecting_ssid is Some
            &&& v.connecting_ssid is Some ==> v.connecting_ssid->0 == s.wifi.connecting_ssid->0@
            &&& v.wired_connected == s.wired.connected
            &&& v.has_ethernet_device == s.wired.has_device
            &&& v.wired_iface is Some == s.wired.iface is Some
            &&& v.wired_iface is Some ==> v.wired_iface->0 == s.wired.iface->0@
            &&& v.wired_name is Some == s.wired.name is Some
            &&& v.wired_name is Some ==> v.wired_name->0 == s.wired.name->0@
            &&& v.wired_speed == s.wired.speed
            &&& v.mobile_is_primary == s.mobile.is_primary
            &&& v.mobile_active == s.mobile.active
            &&& v.mobile_connecting == s.mobile.connecting
            &&& v.mobile_supported == s.mobile.supported
            &&& v.mobile_enabled == s.mobile.enabled
            &&& v.has_modem_device == s.mobile.has_device
            &&& v.mobile_access_technology is Some == s.mobile.access_technology is Some
            &&& v.mobile_access_technology is Some ==> v.mobile_access_technology->0
                == s.mobile.access_technology->0@
            &&& v.mobile_signal_quality == s.mobile.signal_quality
            &&& v.mobile_failed == s.mobile.failed
        }),
{
}

/// Under NetworkManager the name shown is that of the network being connected
/// to, where there is one, and otherwise that of the network in use.
pub proof fn law_network_being_joined_is_named(s: NmSnapshot)
    ensures
        s.wifi.connecting_ssid matches Some(c) ==> NetworkSnapshot::NetworkManager(s)@.active_ssid
            == Some(c@),
        s.wifi.connecting_ssid is None ==> {
            &&& s.wifi.ssid matches Some(w) ==> NetworkSnapshot::NetworkManager(s)@.active_ssid
                == Some(w@)
            &&& s.wifi.ssid is None ==> NetworkSnapshot::NetworkManager(s)@.active_ssid is None
        },
{
}

/// NetworkManager's device is connecting exactly in the states numbered 40 to 90.
pub proof fn law_device_states_of_connecting(s: NmSnapshot)
    ensures
        NetworkSnapshot::NetworkManager(s)@.wifi_device_connecting <==> (s.wifi.device_state
            matches Some(n) && n >= 40 && n <= 90),
{
}

/// The mobile network goes by its operator, whatever its profile is called; by
/// its profile where no operator is known; and by a plain word otherwise.
pub proof fn law_mobile_network_has_a_name(s: NmSnapshot)
    ensures
        s.mobile.operator matches Some(o) ==> NetworkSnapshot::NetworkManager(s)@.mobile_name == o@,
        s.mobile.operator is None && s.mobile.name is Some ==> NetworkSnapshot::NetworkManager(
            s,
        )@.mobile_name == s.mobile.name->0@,
        s.mobile.operator is None && s.mobile.name is None ==> NetworkSnapshot::NetworkManager(
            s,
        )@.mobile_name == "Mobile"@,
{
}

/// iwd knows of Wi-Fi only: there is always a device for it, and never a wire or
/// a modem.
pub proof fn law_iwd_is_read(s: IwdSnapshot)
    ensures
        ({
            let v = NetworkSnapshot::Iwd(s)@;
            &&& v.is_iwd
            &&& v.available == s.available
            &&& v.wifi_enabled == s.wifi_enabled
            &&& v.has_wifi_device
            &&& v.scanning == s.scanning
            &&& v.is_ready == s.initial_scan_complete
            &&& v.networks.len() == s.networks@.len()
            &&& forall|i: int|
                0 <= i < v.networks.len() ==> #[trigger] v.networks[i] == s.networks@[i]@
            &&& v.active_ssid is Some == s.ssid is Some
            &&& v.active_ssid is Some ==> v.active_ssid->0 == s.ssid->0@
            &&& v.failed_ssid is Some == s.failed_ssid is Some
            &&& v.failed_ssid is Some ==> v.failed_ssid->0 == s.failed_ssid->0@
            &&& v.failed_reason is Some == s.failed_reason is Some
            &&& v.failed_reason is Some ==> v.failed_reason->0 == s.failed_reason->0@
            &&& v.auth_request_ssid is Some == s.auth_request is Some
            &&& v.auth_request_ssid is Some ==> v.auth_request_ssid->0 == s.auth_request->0.ssid@
            &&& !v.wired_connected && !v.has_ethernet_device
            &&& v.wired_iface is None && v.wired_name is None && v.wired_speed is None
            &&& !v.mobile_is_primary && !v.mobile_active && !v.mobile_connecting
            &&& !v.mobile_supported && !v.has_modem_device && !v.mobile_failed
            &&& v.mobile_enabled is None && v.mobile_signal_quality is None
            &&& v.mobile_access_technology is None
        }),
{
}

/// iwd's station is connected while it is on a network or moves between its
/// access points, is connecting while it is on its way to one, and only then is
/// the network being connected to known.
pub proof fn law_station_decides(s: IwdSnapshot)
    ensures
        ({
            let v = NetworkSnapshot::Iwd(s)@;
            &&& v.connected <==> s.state == Some(StationState::Connected) || s.state == Some(
                StationState::Roaming,
            )
            &&& v.wifi_device_connecting <==> s.state == Some(StationState::Connecting)
            &&& v.connecting_ssid is Some <==> s.state == Some(StationState::Connecting)
                && s.ssid is Some
            &&& v.connecting_ssid is Some ==> v.connecting_ssid == v.active_ssid
        }),
{
}

/// Under iwd the strength shown is that of the first network in use, and 0 while
/// none is.
pub proof fn law_strength_is_that_of_the_network_in_use(nets: Seq<NetView>, k: int)
    requires
        0 <= k <= nets.len(),
        forall|i: int| 0 <= i < k ==> !(#[trigger] nets[i]).active,
        k < nets.len() ==> nets[k].active,
    ensures
        network::strength_in_use(nets) == if k < nets.len() {
            nets[k].strength
        } else {
            0
        },
    decreases nets.len(),
{
    if k > 0 {
        let rest = nets.drop_first();
        assert(!nets[0].active);
        assert forall|i: int| 0 <= i < k - 1 implies !(#[trigger] rest[i]).active by {
            assert(rest[i] == nets[i + 1]);
        }
        law_strength_is_that_of_the_network_in_use(rest, k - 1);
    }
}

/// A network is named by the first entry of the list that has the path.
pub proof fn law_names_are_found_by_path(nets: Seq<NetView>, path: Seq<char>, k: int)
    requires
        0 <= k <= nets.len(),
        forall|i: int| 0 <= i < k ==> (#[trigger] nets[i]).path != Some(path),
        k < nets.len() ==> nets[k].path == Some(path),
    ensures
        network::ssid_at(nets, path) == if k < nets.len() {
            Some(nets[k].ssid)
        } else {
            None
        },
{
    lemma_first_path(nets, path, k);
}

proof fn lemma_first_path(nets: Seq<NetView>, path: Seq<char>, k: int)
    requires
        0 <= k <= nets.len(),
        forall|i: int| 0 <= i < k ==> (#[trigger] nets[i]).path != Some(path),
        k < nets.len() ==> nets[k].path == Some(path),
    ensures
        network::network_index(nets, path) == k,
    decreases nets.len(),
{
    if k > 0 {
        let rest = nets.drop_first();
        assert(nets[0].path != Some(path));
        assert forall|i: int| 0 <= i < k - 1 implies (#[trigger] rest[i]).path != Some(path) by {
            assert(rest[i] == nets[i + 1]);
        }
        lemma_first_path(rest, path, k - 1);
    }
}

/// A network's path is that of the first entry of the list that has the name.
pub proof fn law_paths_are_found_by_name(nets: Seq<NetView>, ssid: Seq<char>, k: int)
    requires
        0 <= k <= nets.len(),
        forall|i: int| 0 <= i < k ==> (#[trigger] nets[i]).ssid != ssid,
        k < nets.len() ==> nets[k].ssid == ssid,
    ensures
        network::path_of_ssid(nets, ssid) == if k < nets.len() {
            nets[k].path
        } else {
            None
        },
{
    lemma_first_name(nets, ssid, k);
}

proof fn lemma_first_name(nets: Seq<NetView>, ssid: Seq<char>, k: int)
    requires
        0 <= k <= nets.len(),
        forall|i: int| 0 <= i < k ==> (#[trigger] nets[i]).ssid != ssid,
        k < nets.len() ==> nets[k].ssid == ssid,
    ensures
        network::named_index(nets, ssid) == k,
    decreases nets.len(),
{
    if k > 0 {
        let rest = nets.drop_first();
        assert(nets[0].ssid != ssid);
        assert forall|i: int| 0 <= i < k - 1 implies (#[trigger] rest[i]).ssid != ssid by {
            assert(rest[i] == nets[i + 1]);
        }
        lemma_first_name(rest, ssid, k - 1);
    }
}

/// iwd's words for the state of its station are told apart, and no other word
/// stands for a connection.
pub proof fn law_station_words(s: Seq<char>)
    ensures
        network::station_state_of(s) == StationState::Connecting <==> s == "connecting"@,
        network::station_state_of(s) == StationState::Connected <==> s == "connected"@,
        network::station_state_of(s) == StationState::Roaming <==> s == "roaming"@,
{
    reveal_strlit("connecting");
    reveal_strlit("connected");
    reveal_strlit("roaming");
    assert("connecting"@.len() == 10);
    assert("connected"@.len() == 9);
    assert("roaming"@.len() == 7);
}

/// Under NetworkManager Wi-Fi is connecting while a network to connect to is
/// known, and then not connected. Otherwise it is connected exactly where the
/// device is.
pub proof fn law_state_under_network_manager(s: NmSnapshot)
    ensures
        ({
            let state = network::connection_state_of(NetworkSnapshot::NetworkManager(s)@);
            &&& s.wifi.connecting_ssid is Some <==> state == NetworkConnectionState::Connecting
            &&& state == NetworkConnectionState::Connected <==> s.wifi.connecting_ssid is None
                && s.wifi.connected
        }),
{
}

/// Under iwd the state of Wi-Fi is that of the station.
pub proof fn law_state_under_iwd(s: IwdSnapshot)
    ensures
        ({
            let state = network::connection_state_of(NetworkSnapshot::Iwd(s)@);
            &&& state == NetworkConnectionState::Connecting <==> s.state == Some(
                StationState::Connecting,
            )
            &&& state == NetworkConnectionState::Connected <==> s.state == Some(
                StationState::Connected,
            ) || s.state == Some(StationState::Roaming)
        }),
{
}

// ---------------------------------------------------------------------------
// Icons
// ---------------------------------------------------------------------------

/// The Wi-Fi icon has five steps, at 20, 40, 60 and 70 percent.
pub proof fn law_wifi_icon_has_five_steps(level: int)
    ensures
        level < 20 ==> network_card::wifi_icon(level) == "network-wireless-signal-none-symbolic"@,
        20 <= level < 40 ==> network_card::wifi_icon(level)
            == "network-wireless-signal-weak-symbolic"@,
        40 <= level < 60 ==> network_card::wifi_icon(level)
            == "network-wireless-signal-ok-symbolic"@,
        60 <= level < 70 ==> network_card::wifi_icon(level)
            == "network-wireless-signal-good-symbolic"@,
        70 <= level ==> network_card::wifi_icon(level)
            == "network-wireless-signal-excellent-symbolic"@,
{
}

/// The icon of the modem has five steps, at 15, 35, 55 and 75 percent.
pub proof fn law_cellular_icon_has_five_steps(quality: int)
    ensures
        quality < 15 ==> network_card::cellular_icon(quality)
            == "network-cellular-signal-none-symbolic"@,
        15 <= quality < 35 ==> network_card::cellular_icon(quality)
            == "network-cellular-signal-weak-symbolic"@,
        35 <= quality < 55 ==> network_card::cellular_icon(quality)
            == "network-cellular-signal-ok-symbolic"@,
        55 <= quality < 75 ==> network_card::cellular_icon(quality)
            == "network-cellular-signal-good-symbolic"@,
        75 <= quality ==> network_card::cellular_icon(quality)
            == "network-cellular-signal-excellent-symbolic"@,
{
}

/// A modem that is off is shown as offline, whatever its signal. One that is on
/// and idle shows no signal. One in use shows its signal.
pub proof fn law_modem_icon_follows_its_state(active: bool, quality: int)
    ensures
        network_card::mobile_icon(false, active, quality) == "network-cellular-offline-symbolic"@,
        network_card::mobile_icon(true, false, quality) == network_card::cellular_icon(0),
        network_card::mobile_icon(true, true, quality) == network_card::cellular_icon(quality),
{
}

/// The network icon is that of the wire wherever one carries the traffic, and
/// never while the service is gone.
pub proof fn law_wire_goes_first(ctx: NetworkIconContext)
    ensures
        !ctx.available ==> network_card::network_icon(ctx) == "network-wireless-offline-symbolic"@,
        ctx.available && ctx.wired_connected ==> network_card::network_icon(ctx)
            == "network-wired-symbolic"@,
{
}

/// Without a wire, a modem that carries the traffic shows its signal, whether or
/// not Wi-Fi is there. A signal that is not known counts as none.
pub proof fn law_modem_in_use_shows_its_signal(ctx: NetworkIconContext)
    requires
        ctx.available,
        !ctx.wired_connected,
        ctx.mobile_is_primary,
    ensures
        ctx.mobile_signal_quality matches Some(q) ==> network_card::network_icon(ctx)
            == network_card::cellular_icon(q as int),
        ctx.mobile_signal_quality is None ==> network_card::network_icon(ctx)
            == "network-cellular-signal-none-symbolic"@,
{
}

/// Where neither wire nor modem carries the traffic, Wi-Fi is shown as up only
/// where it is on and connected, and a machine without it shows its modem, or
/// else its port.
pub proof fn law_wifi_shows_whether_it_is_up(ctx: NetworkIconContext)
    requires
        ctx.available,
        !ctx.wired_connected,
        !ctx.mobile_is_primary,
    ensures
        ctx.has_wifi_device && ctx.wifi_enabled && ctx.connected ==> network_card::network_icon(ctx)
            == "network-wireless-signal-excellent-symbolic"@,
        ctx.has_wifi_device && !(ctx.wifi_enabled && ctx.connected) ==> network_card::network_icon(
            ctx,
        ) == "network-wireless-offline-symbolic"@,
        !ctx.has_wifi_device && ctx.has_modem_device ==> network_card::network_icon(ctx)
            == "network-cellular-signal-none-symbolic"@,
        !ctx.has_wifi_device && !ctx.has_modem_device ==> network_card::network_icon(ctx)
            == "network-wired-symbolic"@,
{
}

/// What decides the icon is what is known of the network, fact by fact. Wi-Fi
/// counts as on only where it is known to be.
pub proof fn law_icon_is_decided_by_the_network(v: NetworkView)
    ensures
        ({
            let c = network_card::context_of(v);
            &&& c.available == v.available
            &&& c.connected == v.connected
            &&& c.wifi_enabled <==> v.wifi_enabled == Some(true)
            &&& c.wired_connected == v.wired_connected
            &&& c.has_wifi_device == v.has_wifi_device
            &&& c.mobile_is_primary == v.mobile_is_primary
            &&& c.has_modem_device == v.has_modem_device
            &&& c.mobile_signal_quality == v.mobile_signal_quality
        }),
{
}

/// The network icon of the bar does not depend on the modem: two networks that
/// differ in nothing else have the same.
pub proof fn law_bar_icon_leaves_the_modem_out(v: NetworkView, w: NetworkView)
    requires
        v.available == w.available,
        v.connected == w.connected,
        v.wifi_enabled == w.wifi_enabled,
        v.wired_connected == w.wired_connected,
        v.has_wifi_device == w.has_wifi_device,
    ensures
        network_card::bar_context_of(v) == network_card::bar_context_of(w),
        !v.mobile_is_primary && !v.has_modem_device && v.mobile_signal_quality is None
            ==> network_card::bar_context_of(v) == network_card::context_of(v),
{
}

/// Where one icon stands for Wi-Fi and modem, an active modem is always in it:
/// with the other connection where there is one, alone otherwise.
pub proof fn law_unified_icon_shows_an_active_modem(v: NetworkView)
    requires
        v.mobile_supported,
        v.mobile_active,
    ensures
        v.connected || v.wired_connected ==> network_card::card_icon(v, true)
            == "network-wifi-cellular-symbolic"@,
        !v.connected && !v.wired_connected && v.mobile_signal_quality is Some
            ==> network_card::card_icon(v, true) == network_card::cellular_icon(
            v.mobile_signal_quality->0 as int,
        ),
        !v.connected && !v.wired_connected && v.mobile_signal_quality is None
            ==> network_card::card_icon(v, true) == "network-cellular-signal-none-symbolic"@,
{
}

/// Where one icon stands for Wi-Fi and modem, it never has the shape of an
/// offline Wi-Fi.
pub proof fn law_unified_icon_keeps_its_shape(v: NetworkView)
    requires
        v.mobile_supported,
    ensures
        network_card::card_icon(v, true) != "network-wireless-offline-symbolic"@,
        !v.mobile_active && network_card::network_icon(network_card::context_of(v))
            == "network-wireless-offline-symbolic"@ ==> network_card::card_icon(v, true)
            == "network-wireless-signal-excellent-symbolic"@,
{
    reveal_strlit("network-wireless-offline-symbolic");
    reveal_strlit("network-wireless-signal-excellent-symbolic");
    reveal_strlit("network-wifi-cellular-symbolic");
    reveal_strlit("network-cellular-signal-excellent-symbolic");
    reveal_strlit("network-cellular-signal-good-symbolic");
    reveal_strlit("network-cellular-signal-ok-symbolic");
    reveal_strlit("network-cellular-signal-weak-symbolic");
    reveal_strlit("network-cellular-signal-none-symbolic");
    assert("network-wireless-offline-symbolic"@.len() == 33);
    assert("network-wireless-signal-excellent-symbolic"@.len() == 42);
    assert("network-wifi-cellular-symbolic"@.len() == 30);
    assert("network-cellular-signal-excellent-symbolic"@.len() == 42);
    assert("network-cellular-signal-good-symbolic"@.len() == 37);
    assert("network-cellular-signal-ok-symbolic"@.len() == 35);
    assert("network-cellular-signal-weak-symbolic"@.len() == 37);
    assert("network-cellular-signal-none-symbolic"@.len() == 37);
}

/// Where the icons are apart, the card shows the network icon.
pub proof fn law_separate_icon_is_the_network_icon(v: NetworkView, uses_material: bool)
    requires
        !uses_material || !v.mobile_supported,
    ensures
        network_card::card_icon(v, uses_material) == network_card::network_icon(
            network_card::context_of(v),
        ),
{
}

// ---------------------------------------------------------------------------
// The card
// ---------------------------------------------------------------------------

/// The card's toggle stands for Wi-Fi, and can be used exactly where Wi-Fi is
/// the only network there is. The card is named after it then.
pub proof fn law_card_toggles_wifi(c: NetworkCard, v: NetworkView, uses_material: bool, e: bool)
    requires
        c.shows(v, uses_material, e),
    ensures
        c.toggle_active <==> v.wifi_enabled == Some(true),
        c.toggle_sensitive <==> v.available && v.has_wifi_device && !v.has_ethernet_device
            && !v.mobile_supported,
        c.title@ == "Network"@ <==> v.has_ethernet_device || v.has_modem_device,
        c.title@ == "Wi-Fi"@ <==> !v.has_ethernet_device && !v.has_modem_device,
        c.wifi_switch_visible <==> v.has_ethernet_device || v.has_modem_device,
        c.wifi_switch_sensitive <==> v.available && v.has_wifi_device,
        c.toggle_sensitive ==> c.wifi_switch_sensitive,
{
    reveal_strlit("Network");
    reveal_strlit("Wi-Fi");
    assert("Network"@.len() == 7);
    assert("Wi-Fi"@.len() == 5);
}

/// The card offers a scan exactly while Wi-Fi is on, and not a second one while
/// one runs.
pub proof fn law_card_offers_scans(c: NetworkCard, v: NetworkView, uses_material: bool, e: bool)
    requires
        c.shows(v, uses_material, e),
    ensures
        c.scan.visible <==> v.wifi_enabled == Some(true),
        c.scan.scanning <==> v.scanning,
        c.scan.sensitive <==> !v.scanning,
        c.forget_mobile_failure <==> v.mobile_failed,
{
}

/// The card's icon is lit by any connection: a wire, a modem, or Wi-Fi that is
/// on. Without the service it is marked as unavailable, and neither lit nor
/// dimmed nor spinning.
pub proof fn law_card_icon_is_lit_by_a_connection(
    c: NetworkCard,
    v: NetworkView,
    uses_material: bool,
    e: bool,
)
    requires
        c.shows(v, uses_material, e),
    ensures
        c.icon.unavailable <==> !v.available,
        c.icon.active <==> v.available && (v.wired_connected || v.mobile_active || (v.connected
            && v.wifi_enabled == Some(true))),
        c.icon.unavailable ==> !c.icon.disabled && !c.icon.spinning && c.icon.name@
            == "network-wireless-offline-symbolic"@,
        v.available ==> c.icon.name@ == network_card::card_icon(v, uses_material),
{
}

/// The card's icon spins while anything is being connected, and only while the
/// card is folded.
pub proof fn law_card_icon_spins_while_connecting(
    c: NetworkCard,
    v: NetworkView,
    uses_material: bool,
    e: bool,
)
    requires
        c.shows(v, uses_material, e),
        v.available,
    ensures
        e ==> !c.icon.spinning,
        !e ==> (c.icon.spinning <==> v.connecting_ssid is Some || v.wifi_device_connecting
            || v.mobile_connecting),
{
}

/// The card's icon is dimmed only while Wi-Fi is off and no wire is up. With
/// separate icons it is then dimmed always; with one icon for both, a modem that
/// is up or on its way keeps it bright.
pub proof fn law_card_icon_is_dimmed_while_wifi_is_off(
    c: NetworkCard,
    v: NetworkView,
    uses_material: bool,
    e: bool,
)
    requires
        c.shows(v, uses_material, e),
        v.available,
    ensures
        v.wifi_enabled == Some(true) || v.wired_connected ==> !c.icon.disabled,
        v.wifi_enabled != Some(true) && !v.wired_connected ==> (c.icon.disabled <==> !(uses_material
            && v.mobile_supported && (v.mobile_active || v.mobile_connecting))),
{
}

/// The subtitle is marked as up by any connection while Wi-Fi is not on its way
/// to another.
pub proof fn law_subtitle_is_marked_by_a_connection(
    c: NetworkCard,
    v: NetworkView,
    uses_material: bool,
    e: bool,
)
    requires
        c.shows(v, uses_material, e),
    ensures
        c.subtitle_active ==> v.wired_connected || v.mobile_active || v.connected,
        v.connecting_ssid is Some ==> !c.subtitle_active,
        v.connecting_ssid is None && !(v.is_iwd && v.wifi_device_connecting) ==> (c.subtitle_active
            <==> v.wired_connected || v.mobile_active || v.connected),
{
}

/// A switch that the user moves asks for where it was moved to, and one that
/// only follows the device asks for nothing.
pub proof fn law_switches_ask_for_where_they_stand(on: bool)
    ensures
        network_card::switch_request(false, on) == Some(on),
        network_card::switch_request(true, on) is None,
{
}

// ---------------------------------------------------------------------------
// The subtitle
// ---------------------------------------------------------------------------

/// Without the service the subtitle says so, whatever else is known.
pub proof fn law_subtitle_without_a_service(v: NetworkView)
    requires
        !v.available,
    ensures
        network_card::subtitle_text(v) == "Unavailable"@,
{
}

/// With nothing but a network in use, the subtitle is its name. While it is being
/// connected to, the subtitle says so and names it.
pub proof fn law_subtitle_names_the_network(v: NetworkView, ssid: Seq<char>)
    requires
        v.available,
        !v.wired_connected,
        !v.mobile_active,
        v.active_ssid == Some(ssid),
    ensures
        v.connecting_ssid is Some ==> network_card::subtitle_text(v) == "Connecting to "@ + ssid,
        v.connecting_ssid is None && !(v.is_iwd && v.wifi_device_connecting)
            ==> network_card::subtitle_text(v) == ssid,
{
}

/// Beside the modem the network in use goes first, and the network being
/// connected to goes last.
pub proof fn law_subtitle_names_network_and_modem(v: NetworkView, ssid: Seq<char>)
    requires
        v.available,
        !v.wired_connected,
        v.mobile_active,
        v.active_ssid == Some(ssid),
    ensures
        v.connecting_ssid is Some ==> network_card::subtitle_text(v) == v.mobile_name
            + " \u{2022} "@ + ("Connecting to "@ + ssid),
        v.connecting_ssid is None && !(v.is_iwd && v.wifi_device_connecting)
            ==> network_card::subtitle_text(v) == ssid + " \u{2022} "@ + v.mobile_name,
{
}

/// An active modem alone is named alone.
pub proof fn law_subtitle_names_the_modem(v: NetworkView)
    requires
        v.available,
        !v.wired_connected,
        v.mobile_active,
        v.active_ssid is None,
    ensures
        network_card::subtitle_text(v) == v.mobile_name,
{
}

/// With no connection the subtitle says what is on its way, and otherwise
/// whether Wi-Fi is off.
pub proof fn law_subtitle_without_a_connection(v: NetworkView)
    requires
        v.available,
        !v.wired_connected,
        !v.mobile_active,
        v.active_ssid is None,
        v.connecting_ssid is None,
    ensures
        v.is_iwd && v.wifi_device_connecting ==> network_card::subtitle_text(v)
            == "Connecting..."@,
        !(v.is_iwd && v.wifi_device_connecting) ==> {
            &&& v.mobile_connecting ==> network_card::subtitle_text(v) == v.mobile_name
                + " \u{2022} "@ + "Connecting..."@
            &&& !v.mobile_connecting && v.has_wifi_device && v.wifi_enabled != Some(true)
                ==> network_card::subtitle_text(v) == "Off"@
            &&& !v.mobile_connecting && (!v.has_wifi_device || v.wifi_enabled == Some(true))
                ==> network_card::subtitle_text(v) == "Disconnected"@
        },
{
}

/// With a wire the subtitle begins with it, and Wi-Fi and then the modem follow
/// where they are up.
pub proof fn law_subtitle_with_a_wire(v: NetworkView)
    requires
        v.available,
        v.wired_connected,
        v.connecting_ssid is None,
        !(v.is_iwd && v.wifi_device_connecting),
    ensures
        v.active_ssid is None && !v.mobile_active ==> network_card::subtitle_text(v)
            == "Ethernet"@,
        v.active_ssid is Some && !v.mobile_active ==> network_card::subtitle_text(v)
            == "Ethernet"@ + " \u{2022} "@ + v.active_ssid->0,
        v.active_ssid is None && v.mobile_active ==> network_card::subtitle_text(v)
            == "Ethernet"@ + " \u{2022} "@ + v.mobile_name,
        v.active_ssid is Some && v.mobile_active ==> network_card::subtitle_text(v)
            == "Ethernet"@ + " \u{2022} "@ + v.active_ssid->0 + " \u{2022} "@ + v.mobile_name,
{
    reveal_with_fuel(text::join_spec, 3);
    let parts = network_card::wired_parts(v);
    if v.active_ssid is Some && v.mobile_active {
        assert(parts =~= seq!["Ethernet"@, v.active_ssid->0, v.mobile_name]);
        assert(parts.drop_last() =~= seq!["Ethernet"@, v.active_ssid->0]);
        assert(parts.drop_last().drop_last() =~= seq!["Ethernet"@]);
    } else if v.active_ssid is Some {
        assert(parts =~= seq!["Ethernet"@, v.active_ssid->0]);
        assert(parts.drop_last() =~= seq!["Ethernet"@]);
    } else if v.mobile_active {
        assert(parts =~= seq!["Ethernet"@, v.mobile_name]);
        assert(parts.drop_last() =~= seq!["Ethernet"@]);
    } else {
        assert(parts =~= seq!["Ethernet"@]);
    }
}

/// With a wire, a network being connected to is named behind it as such.
pub proof fn law_subtitle_with_a_wire_while_connecting(v: NetworkView, ssid: Seq<char>)
    requires
        v.available,
        v.wired_connected,
        v.connecting_ssid is Some,
        v.active_ssid == Some(ssid),
        !v.mobile_active,
    ensures
        network_card::subtitle_text(v) == "Ethernet"@ + " \u{2022} "@ + ("Connecting to "@ + ssid),
{
    reveal_with_fuel(text::join_spec, 2);
    let parts = network_card::wired_parts(v);
    assert(parts =~= seq!["Ethernet"@, "Connecting to "@ + ssid]);
    assert(parts.drop_last() =~= seq!["Ethernet"@]);
}

// ---------------------------------------------------------------------------
// The rows
// ---------------------------------------------------------------------------

/// The Ethernet row goes by the name of the connection, whatever its interface;
/// by the interface where there is no name; and by plain words otherwise.
pub proof fn law_ethernet_row_has_a_title(v: NetworkView)
    ensures
        v.wired_name matches Some(n) ==> network_card::ethernet_title_of(v) == n,
        v.wired_name is None && v.wired_iface is Some ==> network_card::ethernet_title_of(v)
            == v.wired_iface->0,
        v.wired_name is None && v.wired_iface is None ==> network_card::ethernet_title_of(v)
            == "Wired Connection"@,
{
}

/// Two networks whose interfaces have no colon have the same key only where
/// interface and speed are the same, so no change of either goes unseen.
pub proof fn law_ethernet_key_tells_apart(v: NetworkView, w: NetworkView, i: Seq<char>, j: Seq<char>)
    requires
        v.wired_iface == Some(i),
        w.wired_iface == Some(j),
        v.wired_speed is Some,
        w.wired_speed is Some,
        !i.contains(':'),
        !j.contains(':'),
        network_card::ethernet_key_of(v) == network_card::ethernet_key_of(w),
    ensures
        i == j,
        v.wired_speed == w.wired_speed,
{
    reveal_strlit(":");
    let a = text::dec(v.wired_speed->0 as nat);
    let b = text::dec(w.wired_speed->0 as nat);
    let s = network_card::ethernet_key_of(v);
    assert(s =~= i + seq![':'] + a);
    assert(s =~= j + seq![':'] + b);
    assert(s[i.len() as int] == ':');
    assert(s[j.len() as int] == ':');
    if i.len() < j.len() {
        assert(j[i.len() as int] == ':');
        assert(false);
    }
    if j.len() < i.len() {
        assert(i[j.len() as int] == ':');
        assert(false);
    }
    assert(i =~= s.take(i.len() as int));
    assert(j =~= s.take(j.len() as int));
    assert(a =~= s.skip(i.len() as int + 1));
    assert(b =~= s.skip(j.len() as int + 1));
    text_laws::law_decimal_digits_tell_apart(v.wired_speed->0 as nat, w.wired_speed->0 as nat);
}

/// The Ethernet row is shown exactly while the wire is up. It is left alone while
/// it is hidden, and a second update with nothing new in between changes nothing.
pub proof fn law_ethernet_row_settles(
    before: EthernetRow,
    after: EthernetRow,
    again: EthernetRow,
    first: EthernetUpdate,
    second: EthernetUpdate,
    v: NetworkView,
    gbps: Seq<char>,
)
    requires
        network_card::ethernet_follows(before, after, first, v, gbps),
        network_card::ethernet_follows(after, again, second, v, gbps),
    ensures
        first.visible <==> v.wired_connected,
        second.visible <==> v.wired_connected,
        second.title is None,
        second.parts is None,
        again.title@ == after.title@,
        again.subtitle_key@ == after.subtitle_key@,
        v.wired_connected && before.title@ != after.title@ ==> first.title is Some
            && first.title->0@ == after.title@,
        v.wired_connected && before.subtitle_key@ != after.subtitle_key@ ==> first.parts is Some,
        !v.wired_connected ==> after == before,
{
}

/// The mobile row is there for a modem that can be used. Its switch shows whether
/// the modem is on, and can be moved only where there is one to switch. Its
/// button ends an active connection and is blocked while one is being made.
pub proof fn law_mobile_row_offers_what_is_possible(r: MobileRow, v: NetworkView)
    requires
        r.shows(v),
    ensures
        r.visible <==> v.mobile_supported,
        r.title@ == v.mobile_name,
        r.switch_active <==> v.mobile_enabled == Some(true),
        r.connection_visible <==> v.mobile_enabled == Some(true),
        r.switch_sensitive <==> v.available && v.has_modem_device,
        v.mobile_active ==> r.action@ == "Disconnect"@,
        !v.mobile_active ==> r.action@ == "Connect"@,
        r.action_sensitive <==> v.mobile_enabled == Some(true) && !v.mobile_connecting,
        v.mobile_enabled != Some(true) ==> r.icon@ == "network-cellular-offline-symbolic"@,
        v.mobile_enabled == Some(true) && !v.mobile_active ==> r.icon@
            == "network-cellular-signal-none-symbolic"@,
        v.mobile_enabled == Some(true) && v.mobile_active && v.mobile_signal_quality is Some
            ==> r.icon@ == network_card::cellular_icon(v.mobile_signal_quality->0 as int),
{
}

/// A modem that is off is muted, one that is up stands out, and one that is idle
/// is plain.
pub proof fn law_mobile_icon_has_a_colour(up: bool)
    ensures
        network_card::mobile_color(false, up) == IconColor::Muted,
        network_card::mobile_color(true, true) == IconColor::Accent,
        network_card::mobile_color(true, false) == IconColor::Primary,
{
}

/// What is said of the modem: that it is off, before anything else; that it
/// connects; that it is connected; that it failed; and otherwise that it is not
/// connected. Only a failure is marked as an error.
pub proof fn law_mobile_subtitle_says_what_goes_on(v: NetworkView)
    ensures
        v.mobile_enabled != Some(true) ==> network_card::mobile_subtitle_of(v)
            == (MobileSubtitleView::Status { text: "Off"@, error: false }),
        v.mobile_enabled == Some(true) && v.mobile_connecting
            ==> network_card::mobile_subtitle_of(v) == (MobileSubtitleView::Status {
            text: "Connecting..."@,
            error: false,
        }),
        network_card::mobile_subtitle_of(v) is Connected <==> v.mobile_enabled == Some(true)
            && !v.mobile_connecting && v.mobile_active,
        (network_card::mobile_subtitle_of(v) matches MobileSubtitleView::Status { text: t, error }
            && error) <==> v.mobile_enabled == Some(true) && !v.mobile_connecting
            && !v.mobile_active && v.mobile_failed,
        v.mobile_enabled == Some(true) && !v.mobile_connecting && !v.mobile_active
            && !v.mobile_failed ==> network_card::mobile_subtitle_of(v)
            == (MobileSubtitleView::Status { text: "Disconnected"@, error: false }),
        v.mobile_enabled == Some(true) && !v.mobile_connecting && !v.mobile_active
            && v.mobile_failed ==> network_card::mobile_subtitle_of(v)
            == (MobileSubtitleView::Status { text: "Connection failed"@, error: true }),
{
}

/// Behind a mobile connection stand its technology and its signal in percent, in
/// this order, and each only where it is known.
pub proof fn law_mobile_details_name_what_is_known(v: NetworkView)
    requires
        v.mobile_enabled == Some(true),
        !v.mobile_connecting,
        v.mobile_active,
    ensures
        ({
            let tech = v.mobile_access_technology;
            let named = tech is Some && tech->0.len() > 0;
            let signal = v.mobile_signal_quality;
            let heard = signal is Some && signal->0 > 0;
            let percent = text::dec(signal->0 as nat) + "%"@;
            let shown = network_card::mobile_subtitle_of(v);
            &&& !named && !heard ==> shown == (MobileSubtitleView::Connected { details: None })
            &&& named && !heard ==> shown == (MobileSubtitleView::Connected {
                details: Some(" \u{2022} "@ + tech->0),
            })
            &&& !named && heard ==> shown == (MobileSubtitleView::Connected {
                details: Some(" \u{2022} "@ + percent),
            })
            &&& named && heard ==> shown == (MobileSubtitleView::Connected {
                details: Some(" \u{2022} "@ + (tech->0 + " \u{2022} "@ + percent)),
            })
        }),
{
    reveal_with_fuel(text::join_spec, 2);
    let tech = v.mobile_access_technology;
    let signal = v.mobile_signal_quality;
    let parts = network_card::mobile_parts(v);
    let percent = text::dec(signal->0 as nat) + "%"@;
    let named = tech is Some && tech->0.len() > 0;
    let heard = signal is Some && signal->0 > 0;
    if named && heard {
        assert(parts =~= seq![tech->0, percent]);
        assert(parts.drop_last() =~= seq![tech->0]);
    } else if named {
        assert(parts =~= seq![tech->0]);
    } else if heard {
        assert(parts =~= seq![percent]);
    } else {
        assert(parts =~= Seq::<Seq<char>>::empty());
    }
}

} // verus!

//! What the accessors of a snapshot give back, in terms of what the service that
//! manages the network said.

use vstd::prelude::*;
use vstd::string::*;

use crate::network;
use crate::network::{
    IwdSnapshot, NetworkSnapshot, NmSnapshot, SecurityType, StationState, WifiNetwork,
};
use crate::network_card;
use crate::network_card::ScanUi;
use crate::network_card_laws;
use crate::text;

verus! {

/// Wi-Fi under NetworkManager is as its own state says.
pub proof fn law_wifi_under_network_manager(
    s: NmSnapshot,
    n: NetworkSnapshot,
    iwd: bool,
    available: bool,
    connected: bool,
    enabled: Option<bool>,
    device: bool,
    strength: i32,
    scanning: bool,
    ready: bool,
)
    requires
        n == NetworkSnapshot::NetworkManager(s),
        call_ensures(NetworkSnapshot::is_iwd, (&n,), iwd),
        call_ensures(NetworkSnapshot::available, (&n,), available),
        call_ensures(NetworkSnapshot::connected, (&n,), connected),
        call_ensures(NetworkSnapshot::wifi_enabled, (&n,), enabled),
        call_ensures(NetworkSnapshot::has_wifi_device, (&n,), device),
        call_ensures(NetworkSnapshot::active_strength, (&n,), strength),
        call_ensures(NetworkSnapshot::scanning, (&n,), scanning),
        call_ensures(NetworkSnapshot::is_ready, (&n,), ready),
    ensures
        !iwd,
        available == s.available,
        connected == s.wifi.connected,
        enabled == s.wifi.enabled,
        device == s.wifi.has_device,
        strength == s.wifi.strength,
        scanning == s.wifi.scanning,
        ready == s.wifi.is_ready,
{
}

/// The network being connected to goes before the one in use. NetworkManager
/// gives no reason for a failure and asks for no password.
pub proof fn law_names_under_network_manager(
    s: NmSnapshot,
    n: NetworkSnapshot,
    connecting: Option<&str>,
    active: Option<&str>,
    failed: Option<&str>,
    reason: Option<&str>,
    asked: Option<&str>,
)
    requires
        n == NetworkSnapshot::NetworkManager(s),
        call_ensures(NetworkSnapshot::connecting_ssid, (&n,), connecting),
        call_ensures(NetworkSnapshot::active_ssid, (&n,), active),
        call_ensures(NetworkSnapshot::failed_ssid, (&n,), failed),
        call_ensures(NetworkSnapshot::failed_reason, (&n,), reason),
        call_ensures(NetworkSnapshot::auth_request_ssid, (&n,), asked),
    ensures
        connecting is Some == s.wifi.connecting_ssid is Some,
        s.wifi.connecting_ssid is Some ==> connecting->0@ == s.wifi.connecting_ssid->0@,
        active is Some == (s.wifi.connecting_ssid is Some || s.wifi.ssid is Some),
        s.wifi.connecting_ssid is Some ==> active->0@ == s.wifi.connecting_ssid->0@,
        s.wifi.connecting_ssid is None && s.wifi.ssid is Some ==> active->0@ == s.wifi.ssid->0@,
        failed is Some == s.wifi.failed_ssid is Some,
        s.wifi.failed_ssid is Some ==> failed->0@ == s.wifi.failed_ssid->0@,
        reason is None,
        asked is None,
{
}

/// The wire under NetworkManager is as its own state says.
pub proof fn law_wire_under_network_manager(
    s: NmSnapshot,
    n: NetworkSnapshot,
    connected: bool,
    device: bool,
    iface: Option<&str>,
    name: Option<&str>,
    speed: Option<u32>,
)
    requires
        n == NetworkSnapshot::NetworkManager(s),
        call_ensures(NetworkSnapshot::wired_connected, (&n,), connected),
        call_ensures(NetworkSnapshot::has_ethernet_device, (&n,), device),
        call_ensures(NetworkSnapshot::wired_iface, (&n,), iface),
        call_ensures(NetworkSnapshot::wired_name, (&n,), name),
        call_ensures(NetworkSnapshot::wired_speed, (&n,), speed),
    ensures
        connected == s.wired.connected,
        device == s.wired.has_device,
        iface is Some == s.wired.iface is Some,
        iface is Some ==> iface->0@ == s.wired.iface->0@,
        name is Some == s.wired.name is Some,
        name is Some ==> name->0@ == s.wired.name->0@,
        speed == s.wired.speed,
{
}

/// The modem under NetworkManager is as its own state says.
pub proof fn law_modem_under_network_manager(
    s: NmSnapshot,
    n: NetworkSnapshot,
    primary: bool,
    active: bool,
    connecting: bool,
    supported: bool,
    enabled: Option<bool>,
    device: bool,
    quality: Option<u32>,
    failed: bool,
)
    requires
        n == NetworkSnapshot::NetworkManager(s),
        call_ensures(NetworkSnapshot::mobile_is_primary, (&n,), primary),
        call_ensures(NetworkSnapshot::mobile_active, (&n,), active),
        call_ensures(NetworkSnapshot::mobile_connecting, (&n,), connecting),
        call_ensures(NetworkSnapshot::mobile_supported, (&n,), supported),
        call_ensures(NetworkSnapshot::mobile_enabled, (&n,), enabled),
        call_ensures(NetworkSnapshot::has_modem_device, (&n,), device),
        call_ensures(NetworkSnapshot::mobile_signal_quality, (&n,), quality),
        call_ensures(NetworkSnapshot::mobile_failed, (&n,), failed),
    ensures
        primary == s.mobile.is_primary,
        active == s.mobile.active,
        connecting == s.mobile.connecting,
        supported == s.mobile.supported,
        enabled == s.mobile.enabled,
        device == s.mobile.has_device,
        quality == s.mobile.signal_quality,
        failed == s.mobile.failed,
{
}

/// The mobile network goes by its operator, else by its profile, else by a plain
/// word. Under iwd, which knows of no modem, it is the plain word.
pub proof fn law_mobile_network_is_named(
    s: NmSnapshot,
    w: IwdSnapshot,
    n: NetworkSnapshot,
    i: NetworkSnapshot,
    name: &str,
    technology: Option<&str>,
    plain: &str,
    nothing: Option<&str>,
)
    requires
        n == NetworkSnapshot::NetworkManager(s),
        i == NetworkSnapshot::Iwd(w),
        call_ensures(NetworkSnapshot::mobile_display_name, (&n,), name),
        call_ensures(NetworkSnapshot::mobile_access_technology, (&n,), technology),
        call_ensures(NetworkSnapshot::mobile_display_name, (&i,), plain),
        call_ensures(NetworkSnapshot::mobile_access_technology, (&i,), nothing),
    ensures
        s.mobile.operator is Some ==> name@ == s.mobile.operator->0@,
        s.mobile.operator is None && s.mobile.name is Some ==> name@ == s.mobile.name->0@,
        s.mobile.operator is None && s.mobile.name is None ==> name@ == "Mobile"@,
        technology is Some == s.mobile.access_technology is Some,
        technology is Some ==> technology->0@ == s.mobile.access_technology->0@,
        plain@ == "Mobile"@,
        nothing is None,
{
}

/// Wi-Fi under iwd is as the station says: connected on a network or between its
/// access points, connecting on the way to one.
pub proof fn law_wifi_under_iwd(
    s: IwdSnapshot,
    n: NetworkSnapshot,
    iwd: bool,
    available: bool,
    connected: bool,
    enabled: Option<bool>,
    device: bool,
    connecting: bool,
    scanning: bool,
    ready: bool,
)
    requires
        n == NetworkSnapshot::Iwd(s),
        call_ensures(NetworkSnapshot::is_iwd, (&n,), iwd),
        call_ensures(NetworkSnapshot::available, (&n,), available),
        call_ensures(NetworkSnapshot::connected, (&n,), connected),
        call_ensures(NetworkSnapshot::wifi_enabled, (&n,), enabled),
        call_ensures(NetworkSnapshot::has_wifi_device, (&n,), device),
        call_ensures(NetworkSnapshot::wifi_device_connecting, (&n,), connecting),
        call_ensures(NetworkSnapshot::scanning, (&n,), scanning),
        call_ensures(NetworkSnapshot::is_ready, (&n,), ready),
    ensures
        iwd,
        available == s.available,
        connected <==> s.state == Some(StationState::Connected) || s.state == Some(
            StationState::Roaming,
        ),
        enabled == s.wifi_enabled,
        device,
        connecting <==> s.state == Some(StationState::Connecting),
        scanning == s.scanning,
        ready == s.initial_scan_complete,
{
}

/// Under iwd the network of the station is the one named, and the one being
/// connected to exactly while the station is on its way.
pub proof fn law_names_under_iwd(
    s: IwdSnapshot,
    n: NetworkSnapshot,
    connecting: Option<&str>,
    active: Option<&str>,
    failed: Option<&str>,
    reason: Option<&str>,
    asked: Option<&str>,
)
    requires
        n == NetworkSnapshot::Iwd(s),
        call_ensures(NetworkSnapshot::connecting_ssid, (&n,), connecting),
        call_ensures(NetworkSnapshot::active_ssid, (&n,), active),
        call_ensures(NetworkSnapshot::failed_ssid, (&n,), failed),
        call_ensures(NetworkSnapshot::failed_reason, (&n,), reason),
        call_ensures(NetworkSnapshot::auth_request_ssid, (&n,), asked),
    ensures
        connecting is Some <==> s.state == Some(StationState::Connecting) && s.ssid is Some,
        connecting is Some ==> connecting->0@ == s.ssid->0@,
        active is Some == s.ssid is Some,
        active is Some ==> active->0@ == s.ssid->0@,
        failed is Some == s.failed_ssid is Some,
        failed is Some ==> failed->0@ == s.failed_ssid->0@,
        reason is Some == s.failed_reason is Some,
        reason is Some ==> reason->0@ == s.failed_reason->0@,
        asked is Some == s.auth_request is Some,
        asked is Some ==> asked->0@ == s.auth_request->0.ssid@,
{
}

/// The device is connecting in NetworkManager's states 40 to 90, and Wi-Fi is on
/// its way while the device is or a target is known.
pub proof fn law_wifi_is_on_its_way(
    s: NmSnapshot,
    n: NetworkSnapshot,
    device: bool,
    on_its_way: bool,
)
    requires
        n == NetworkSnapshot::NetworkManager(s),
        call_ensures(NetworkSnapshot::wifi_device_connecting, (&n,), device),
        call_ensures(NetworkSnapshot::wifi_connecting, (&n,), on_its_way),
    ensures
        s.wifi.device_state is None ==> !device,
        s.wifi.device_state is Some ==> (device <==> s.wifi.device_state->0 >= 40
            && s.wifi.device_state->0 < 91),
        on_its_way <==> s.wifi.connecting_ssid is Some || device,
{
}

/// There is something besides Wi-Fi exactly where there is an Ethernet port or a
/// modem. Under iwd there never is.
pub proof fn law_other_devices(
    s: NmSnapshot,
    w: IwdSnapshot,
    n: NetworkSnapshot,
    i: NetworkSnapshot,
    other: bool,
    under_iwd: bool,
)
    requires
        n == NetworkSnapshot::NetworkManager(s),
        i == NetworkSnapshot::Iwd(w),
        call_ensures(NetworkSnapshot::has_non_wifi_device, (&n,), other),
        call_ensures(NetworkSnapshot::has_non_wifi_device, (&i,), under_iwd),
    ensures
        !other <==> !s.wired.has_device && !s.mobile.has_device,
        !under_iwd,
{
}

/// The networks of a snapshot are those that the service listed, in its order.
pub proof fn law_networks_are_those_listed(
    s: NmSnapshot,
    w: IwdSnapshot,
    n: NetworkSnapshot,
    i: NetworkSnapshot,
    listed: &Vec<WifiNetwork>,
    under_iwd: &Vec<WifiNetwork>,
    k: int,
)
    requires
        n == NetworkSnapshot::NetworkManager(s),
        i == NetworkSnapshot::Iwd(w),
        call_ensures(NetworkSnapshot::networks, (&n,), listed),
        call_ensures(NetworkSnapshot::networks, (&i,), under_iwd),
    ensures
        listed@.len() == s.wifi.networks@.len(),
        under_iwd@.len() == w.networks@.len(),
        0 <= k < listed@.len() ==> listed@[k]@ == s.wifi.networks@[k]@,
        0 <= k < under_iwd@.len() ==> under_iwd@[k]@ == w.networks@[k]@,
{
    let a = network::net_views(listed@);
    let b = network::net_views(under_iwd@);
    assert(a.len() == listed@.len());
    assert(b.len() == under_iwd@.len());
    assert(network::net_views(s.wifi.networks@).len() == s.wifi.networks@.len());
    assert(network::net_views(w.networks@).len() == w.networks@.len());
    if 0 <= k < listed@.len() {
        assert(a[k] == listed@[k]@);
        assert(network::net_views(s.wifi.networks@)[k] == s.wifi.networks@[k]@);
    }
    if 0 <= k < under_iwd@.len() {
        assert(b[k] == under_iwd@[k]@);
        assert(network::net_views(w.networks@)[k] == w.networks@[k]@);
    }
}

/// Under iwd the strength shown is that of the first network in use.
pub proof fn law_strength_under_iwd(s: IwdSnapshot, n: NetworkSnapshot, k: int, strength: i32)
    requires
        n == NetworkSnapshot::Iwd(s),
        call_ensures(NetworkSnapshot::active_strength, (&n,), strength),
        0 <= k <= s.networks@.len(),
        forall|j: int| 0 <= j < k ==> !(#[trigger] s.networks@[j]).active,
        k < s.networks@.len() ==> s.networks@[k].active,
    ensures
        k < s.networks@.len() ==> strength == s.networks@[k].strength,
        k == s.networks@.len() ==> strength == 0,
{
    let v = network::net_views(s.networks@);
    assert forall|j: int| 0 <= j < k implies !(#[trigger] v[j]).active by {
        assert(!s.networks@[j].active);
    }
    network_card_laws::law_strength_is_that_of_the_network_in_use(v, k);
}

/// A copy of a network or of a snapshot says the same.
pub proof fn law_copies_say_the_same(
    net: WifiNetwork,
    net_copy: WifiNetwork,
    s: IwdSnapshot,
    s_copy: IwdSnapshot,
)
    requires
        call_ensures(WifiNetwork::copy, (&net,), net_copy),
        call_ensures(IwdSnapshot::copy, (&s,), s_copy),
    ensures
        net_copy.ssid@ == net.ssid@,
        net_copy.strength == net.strength,
        net_copy.security == net.security,
        net_copy.active == net.active,
        net_copy.known == net.known,
        net_copy@.path == net@.path,
        net_copy@.known_network_path == net@.known_network_path,
        s_copy.available == s.available,
        s_copy.state == s.state,
        s_copy.scanning == s.scanning,
        s_copy.wifi_enabled == s.wifi_enabled,
        s_copy.initial_scan_complete == s.initial_scan_complete,
        s_copy.networks@.len() == s.networks@.len(),
        s_copy@ == s@,
{
    assert(network::net_views(s.networks@).len() == s.networks@.len());
    assert(network::net_views(s_copy.networks@).len() == s_copy.networks@.len());
}

/// Before anything is known the service is taken to be away, with no network and
/// nothing under way.
pub proof fn law_nothing_is_known_at_first(s: IwdSnapshot, connected: bool, connecting: bool)
    requires
        call_ensures(IwdSnapshot::unknown, (), s),
        call_ensures(IwdSnapshot::connected, (&s,), connected),
        call_ensures(IwdSnapshot::connecting, (&s,), connecting),
    ensures
        !s.available && !s.scanning && !s.initial_scan_complete,
        s.networks@.len() == 0,
        s.ssid is None && s.state is None && s.wifi_enabled is None,
        s.auth_request is None && s.failed_ssid is None && s.failed_reason is None,
        !connected && !connecting,
{
    assert(network::net_views(s.networks@).len() == s.networks@.len());
}

/// A station is connected on a network and between its access points, connecting
/// on its way to one, and never both.
pub proof fn law_station_is_connected_or_connecting(
    s: IwdSnapshot,
    connected: bool,
    connecting: bool,
    by_state: bool,
)
    requires
        call_ensures(IwdSnapshot::connected, (&s,), connected),
        call_ensures(IwdSnapshot::connecting, (&s,), connecting),
        call_ensures(network::is_connected_state, (s.state,), by_state),
    ensures
        connected == by_state,
        !(connected && connecting),
        s.state == Some(StationState::Connected) ==> connected,
        s.state == Some(StationState::Roaming) ==> connected,
        s.state == Some(StationState::Connecting) ==> connecting,
        s.state is None ==> !connected && !connecting,
        connected || connecting ==> s.state == Some(StationState::Connected) || s.state == Some(
            StationState::Roaming,
        ) || s.state == Some(StationState::Connecting),
{
}

/// A network asks for credentials exactly where it is secured.
pub proof fn law_secured_networks(security: SecurityType, r: bool)
    requires
        call_ensures(SecurityType::is_secured, (&security,), r),
    ensures
        security == SecurityType::Secured ==> r,
        security != SecurityType::Secured ==> !r,
{
}

/// One icon stands for Wi-Fi and modem together exactly where there is a modem
/// to be used and the icons are Material ones. Under iwd it never does.
pub proof fn law_icon_is_shared(
    s: NmSnapshot,
    w: IwdSnapshot,
    n: NetworkSnapshot,
    i: NetworkSnapshot,
    material: bool,
    r: bool,
    under_iwd: bool,
)
    requires
        n == NetworkSnapshot::NetworkManager(s),
        i == NetworkSnapshot::Iwd(w),
        call_ensures(network_card::is_material_unified, (&n, material), r),
        call_ensures(network_card::is_material_unified, (&i, material), under_iwd),
    ensures
        !r <==> !material || !s.mobile.supported,
        !under_iwd,
{
}

/// The button that scans is there exactly while Wi-Fi is on, and is to be pressed
/// exactly while no scan is under way.
pub proof fn law_scan_button(s: NmSnapshot, n: NetworkSnapshot, r: ScanUi)
    requires
        n == NetworkSnapshot::NetworkManager(s),
        call_ensures(network_card::update_scan_ui, (&n,), r),
    ensures
        r.visible <==> s.wifi.enabled == Some(true),
        r.scanning == s.wifi.scanning,
        r.sensitive != r.scanning,
{
}

} // verus!

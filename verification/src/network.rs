//! What is known of the network: one snapshot type for each supported backend
//! and one face for both.

use vstd::prelude::*;
use vstd::string::*;

use crate::text;

verus! {

/// Shown when a network refused the password.
pub const AUTH_FAILURE_REASON: &'static str = "Wrong password";

/// Shown when a connection failed and nothing more is known.
pub const CONNECTION_FAILURE_REASON: &'static str = "Connection failed";

/// Whether a network asks for credentials.
#[derive(Debug, Clone, Copy, PartialEq, Eq, Structural)]
pub enum SecurityType {
    Open,
    Secured,
}

impl SecurityType {
    pub fn is_secured(&self) -> (r: bool)
        ensures
            r == (*self == SecurityType::Secured),
    {
        match self {
            SecurityType::Secured => true,
            SecurityType::Open => false,
        }
    }
}

/// A network in range.
#[derive(Debug)]
pub struct WifiNetwork {
    pub ssid: String,
    /// Signal strength in percent.
    pub strength: i32,
    pub security: SecurityType,
    /// Whether this is the network in use.
    pub active: bool,
    /// Whether credentials are stored.
    pub known: bool,
    pub known_network_path: Option<String>,
    pub path: Option<String>,
}

/// What a `WifiNetwork` stands for.
pub struct NetView {
    pub ssid: Seq<char>,
    pub strength: i32,
    pub security: SecurityType,
    pub active: bool,
    pub known: bool,
    pub known_network_path: Option<Seq<char>>,
    pub path: Option<Seq<char>>,
}

impl View for WifiNetwork {
    type V = NetView;

    open spec fn view(&self) -> NetView {
        NetView {
            ssid: self.ssid@,
            strength: self.strength,
            security: self.security,
            active: self.active,
            known: self.known,
            known_network_path: text::opt_string_view(self.known_network_path),
            path: text::opt_string_view(self.path),
        }
    }
}

impl WifiNetwork {
    pub fn copy(&self) -> (r: Self)
        ensures
            r@ == self@,
    {
        WifiNetwork {
            ssid: self.ssid.clone(),
            strength: self.strength,
            security: self.security,
            active: self.active,
            known: self.known,
            known_network_path: text::clone_opt(&self.known_network_path),
            path: text::clone_opt(&self.path),
        }
    }
}

pub open spec fn net_views(v: Seq<WifiNetwork>) -> Seq<NetView> {
    v.map_values(|n: WifiNetwork| n@)
}

pub fn copy_networks(v: &Vec<WifiNetwork>) -> (r: Vec<WifiNetwork>)
    ensures
        net_views(r@) == net_views(v@),
{
    let mut r: Vec<WifiNetwork> = Vec::new();
    let mut i: usize = 0;
    while i < v.len()
        invariant
            i <= v.len(),
            net_views(r@) =~= net_views(v@).take(i as int),
        decreases v.len() - i,
    {
        let ghost before = r@;
        let n = v[i].copy();
        let ghost nv = n@;
        r.push(n);
        assert(net_views(r@) =~= net_views(before).push(nv));
        i += 1;
    }
    assert(net_views(v@).take(i as int) =~= net_views(v@));
    r
}

/// The first network whose path is `path`, or `nets.len()`.
pub open spec fn network_index(nets: Seq<NetView>, path: Seq<char>) -> int
    decreases nets.len(),
{
    if nets.len() == 0 || nets[0].path == Some(path) {
        0
    } else {
        1 + network_index(nets.drop_first(), path)
    }
}

/// The name of the network at `path`, where it is in the list.
pub open spec fn ssid_at(nets: Seq<NetView>, path: Seq<char>) -> Option<Seq<char>> {
    let i = network_index(nets, path);
    if i < nets.len() {
        Some(nets[i].ssid)
    } else {
        None
    }
}

/// The name of the network at `path`, where it is in the list.
pub fn find_ssid(nets: &Vec<WifiNetwork>, path: &str) -> (r: Option<String>)
    ensures
        text::opt_string_view(r) == ssid_at(net_views(nets@), path@),
{
    let ghost views = net_views(nets@);
    let mut i: usize = 0;
    assert(views.skip(0) =~= views);
    while i < nets.len()
        invariant
            i <= nets.len(),
            views == net_views(nets@),
            network_index(views, path@) == i + network_index(views.skip(i as int), path@),
        decreases nets.len() - i,
    {
        let ghost here = views.skip(i as int);
        assert(here[0] == nets@[i as int]@);
        assert(here.drop_first() =~= views.skip(i + 1));
        if let Some(p) = &nets[i].path {
            if text::str_eq(p.as_str(), path) {
                return Some(nets[i].ssid.clone());
            }
        }
        i += 1;
    }
    None
}

/// The first network called `ssid`, or `nets.len()`.
pub open spec fn named_index(nets: Seq<NetView>, ssid: Seq<char>) -> int
    decreases nets.len(),
{
    if nets.len() == 0 || nets[0].ssid == ssid {
        0
    } else {
        1 + named_index(nets.drop_first(), ssid)
    }
}

/// The path of the first network called `ssid`, where it has one.
pub open spec fn path_of_ssid(nets: Seq<NetView>, ssid: Seq<char>) -> Option<Seq<char>> {
    let i = named_index(nets, ssid);
    if i < nets.len() {
        nets[i].path
    } else {
        None
    }
}

/// The path of the first network called `ssid`, where it has one.
pub fn find_path(nets: &Vec<WifiNetwork>, ssid: &str) -> (r: Option<String>)
    ensures
        text::opt_string_view(r) == path_of_ssid(net_views(nets@), ssid@),
{
    let ghost views = net_views(nets@);
    let mut i: usize = 0;
    assert(views.skip(0) =~= views);
    while i < nets.len()
        invariant
            i <= nets.len(),
            views == net_views(nets@),
            named_index(views, ssid@) == i + named_index(views.skip(i as int), ssid@),
        decreases nets.len() - i,
    {
        let ghost here = views.skip(i as int);
        assert(here[0] == nets@[i as int]@);
        assert(here.drop_first() =~= views.skip(i + 1));
        if text::str_eq(nets[i].ssid.as_str(), ssid) {
            return text::clone_opt(&nets[i].path);
        }
        i += 1;
    }
    None
}

/// State of the wireless station under iwd.
#[derive(Debug, Clone, Copy, PartialEq, Eq, Structural)]
pub enum StationState {
    Connecting,
    Connected,
    Roaming,
    Disconnected,
}

/// What the daemon's word for a station state means. Words that are not known
/// count as disconnected.
pub open spec fn station_state_of(s: Seq<char>) -> StationState {
    if s == "connecting"@ {
        StationState::Connecting
    } else if s == "connected"@ {
        StationState::Connected
    } else if s == "roaming"@ {
        StationState::Roaming
    } else {
        StationState::Disconnected
    }
}

impl StationState {
    /// What the daemon's word for a station state means.
    pub fn from_dbus(s: &str) -> (r: Self)
        ensures
            r == station_state_of(s@),
    {
        if text::str_eq(s, "connecting") {
            StationState::Connecting
        } else if text::str_eq(s, "connected") {
            StationState::Connected
        } else if text::str_eq(s, "roaming") {
            StationState::Roaming
        } else {
            StationState::Disconnected
        }
    }
}

/// A request for a password.
#[derive(Debug)]
pub struct IwdAuthRequest {
    pub ssid: String,
}

/// Wi-Fi under iwd.
#[derive(Debug)]
pub struct IwdSnapshot {
    pub available: bool,
    pub ssid: Option<String>,
    pub state: Option<StationState>,
    pub wifi_enabled: Option<bool>,
    pub scanning: bool,
    pub networks: Vec<WifiNetwork>,
    pub auth_request: Option<IwdAuthRequest>,
    pub failed_ssid: Option<String>,
    /// Why the last connection failed, for display.
    pub failed_reason: Option<String>,
    /// Whether the list of networks has been filled once.
    pub initial_scan_complete: bool,
}

/// What an `IwdSnapshot` stands for.
pub struct IwdView {
    pub available: bool,
    pub ssid: Option<Seq<char>>,
    pub state: Option<StationState>,
    pub wifi_enabled: Option<bool>,
    pub scanning: bool,
    pub networks: Seq<NetView>,
    pub auth_request: Option<Seq<char>>,
    pub failed_ssid: Option<Seq<char>>,
    pub failed_reason: Option<Seq<char>>,
    pub initial_scan_complete: bool,
}

pub open spec fn auth_view(a: Option<IwdAuthRequest>) -> Option<Seq<char>> {
    match a {
        Some(r) => Some(r.ssid@),
        None => None,
    }
}

impl View for IwdSnapshot {
    type V = IwdView;

    open spec fn view(&self) -> IwdView {
        IwdView {
            available: self.available,
            ssid: text::opt_string_view(self.ssid),
            state: self.state,
            wifi_enabled: self.wifi_enabled,
            scanning: self.scanning,
            networks: net_views(self.networks@),
            auth_request: auth_view(self.auth_request),
            failed_ssid: text::opt_string_view(self.failed_ssid),
            failed_reason: text::opt_string_view(self.failed_reason),
            initial_scan_complete: self.initial_scan_complete,
        }
    }
}

/// Nothing is known, and the service is not there.
pub open spec fn iwd_unknown() -> IwdView {
    IwdView {
        available: false,
        ssid: None,
        state: None,
        wifi_enabled: None,
        scanning: false,
        networks: Seq::empty(),
        auth_request: None,
        failed_ssid: None,
        failed_reason: None,
        initial_scan_complete: false,
    }
}

pub open spec fn state_connected(s: Option<StationState>) -> bool {
    s == Some(StationState::Connected) || s == Some(StationState::Roaming)
}

pub fn is_connected_state(s: Option<StationState>) -> (r: bool)
    ensures
        r == state_connected(s),
{
    match s {
        Some(StationState::Connected) => true,
        Some(StationState::Roaming) => true,
        _ => false,
    }
}

impl IwdSnapshot {
    /// Nothing is known, and the service is not there.
    pub fn unknown() -> (s: Self)
        ensures
            s@ == iwd_unknown(),
    {
        let s = IwdSnapshot {
            available: false,
            ssid: None,
            state: None,
            wifi_enabled: None,
            scanning: false,
            networks: Vec::new(),
            auth_request: None,
            failed_ssid: None,
            failed_reason: None,
            initial_scan_complete: false,
        };
        assert(s@.networks =~= Seq::<NetView>::empty());
        s
    }

    /// Whether there is a connection. Roaming between access points counts.
    pub fn connected(&self) -> (r: bool)
        ensures
            r == state_connected(self@.state),
    {
        is_connected_state(self.state)
    }

    pub fn connecting(&self) -> (r: bool)
        ensures
            r == (self@.state == Some(StationState::Connecting)),
    {
        match self.state {
            Some(StationState::Connecting) => true,
            _ => false,
        }
    }

    pub fn copy(&self) -> (s: Self)
        ensures
            s@ == self@,
    {
        IwdSnapshot {
            available: self.available,
            ssid: text::clone_opt(&self.ssid),
            state: self.state,
            wifi_enabled: self.wifi_enabled,
            scanning: self.scanning,
            networks: copy_networks(&self.networks),
            auth_request: match &self.auth_request {
                Some(a) => Some(IwdAuthRequest { ssid: a.ssid.clone() }),
                None => None,
            },
            failed_ssid: text::clone_opt(&self.failed_ssid),
            failed_reason: text::clone_opt(&self.failed_reason),
            initial_scan_complete: self.initial_scan_complete,
        }
    }
}

/// Wi-Fi under NetworkManager.
#[derive(Debug)]
pub struct WifiState {
    pub enabled: Option<bool>,
    pub connected: bool,
    pub has_device: bool,
    pub ssid: Option<String>,
    pub strength: i32,
    pub scanning: bool,
    pub is_ready: bool,
    pub networks: Vec<WifiNetwork>,
    pub connecting_ssid: Option<String>,
    pub failed_ssid: Option<String>,
    /// NetworkManager's number for the state of the device.
    pub device_state: Option<u32>,
}

#[derive(Debug)]
pub struct WiredState {
    pub connected: bool,
    pub has_device: bool,
    pub iface: Option<String>,
    pub name: Option<String>,
    /// In megabits per second.
    pub speed: Option<u32>,
}

#[derive(Debug)]
pub struct MobileState {
    pub is_primary: bool,
    pub active: bool,
    pub connecting: bool,
    /// Whether there is a modem with a SIM and a profile.
    pub supported: bool,
    pub enabled: Option<bool>,
    pub has_device: bool,
    pub name: Option<String>,
    pub operator: Option<String>,
    pub access_technology: Option<String>,
    pub signal_quality: Option<u32>,
    pub failed: bool,
}

/// The network under NetworkManager.
#[derive(Debug)]
pub struct NmSnapshot {
    pub available: bool,
    pub wifi: WifiState,
    pub wired: WiredState,
    pub mobile: MobileState,
    pub primary_connection_type: Option<String>,
}

/// The network, whichever service manages it.
#[derive(Debug)]
pub enum NetworkSnapshot {
    NetworkManager(NmSnapshot),
    Iwd(IwdSnapshot),
}

#[derive(Debug, Clone, Copy, PartialEq, Eq, Structural)]
pub enum NetworkConnectionState {
    Disconnected,
    Connecting,
    Connected,
}

/// The facts that both backends report. iwd knows of Wi-Fi only.
pub struct NetworkView {
    pub is_iwd: bool,
    pub available: bool,
    pub connected: bool,
    pub wifi_enabled: Option<bool>,
    pub has_wifi_device: bool,
    pub wifi_device_connecting: bool,
    pub connecting_ssid: Option<Seq<char>>,
    pub active_ssid: Option<Seq<char>>,
    pub active_strength: i32,
    pub scanning: bool,
    pub is_ready: bool,
    pub networks: Seq<NetView>,
    pub failed_ssid: Option<Seq<char>>,
    pub failed_reason: Option<Seq<char>>,
    pub auth_request_ssid: Option<Seq<char>>,
    pub wired_connected: bool,
    pub has_ethernet_device: bool,
    pub wired_iface: Option<Seq<char>>,
    pub wired_name: Option<Seq<char>>,
    pub wired_speed: Option<u32>,
    pub mobile_is_primary: bool,
    pub mobile_active: bool,
    pub mobile_connecting: bool,
    pub mobile_supported: bool,
    pub mobile_enabled: Option<bool>,
    pub has_modem_device: bool,
    pub mobile_name: Seq<char>,
    pub mobile_access_technology: Option<Seq<char>>,
    pub mobile_signal_quality: Option<u32>,
    pub mobile_failed: bool,
}

/// Whether NetworkManager's number for a device state is one of those between
/// preparing and activated.
pub open spec fn device_state_connecting(s: Option<u32>) -> bool {
    s matches Some(n) && 40 <= n <= 90
}

/// The name shown for the mobile network: the operator, else the profile, else
/// a plain word.
pub open spec fn mobile_name_of(operator: Option<Seq<char>>, name: Option<Seq<char>>) -> Seq<char> {
    match operator {
        Some(o) => o,
        None => match name {
            Some(n) => n,
            None => "Mobile"@,
        },
    }
}

/// The strength of the first network in use, or 0.
pub open spec fn strength_in_use(nets: Seq<NetView>) -> i32
    decreases nets.len(),
{
    if nets.len() == 0 {
        0
    } else if nets[0].active {
        nets[0].strength
    } else {
        strength_in_use(nets.drop_first())
    }
}

impl View for NetworkSnapshot {
    type V = NetworkView;

    open spec fn view(&self) -> NetworkView {
        match self {
            NetworkSnapshot::NetworkManager(s) => NetworkView {
                is_iwd: false,
                available: s.available,
                connected: s.wifi.connected,
                wifi_enabled: s.wifi.enabled,
                has_wifi_device: s.wifi.has_device,
                wifi_device_connecting: device_state_connecting(s.wifi.device_state),
                connecting_ssid: text::opt_string_view(s.wifi.connecting_ssid),
                active_ssid: match s.wifi.connecting_ssid {
                    Some(c) => Some(c@),
                    None => text::opt_string_view(s.wifi.ssid),
                },
                active_strength: s.wifi.strength,
                scanning: s.wifi.scanning,
                is_ready: s.wifi.is_ready,
                networks: net_views(s.wifi.networks@),
                failed_ssid: text::opt_string_view(s.wifi.failed_ssid),
                failed_reason: None,
                auth_request_ssid: None,
                wired_connected: s.wired.connected,
                has_ethernet_device: s.wired.has_device,
                wired_iface: text::opt_string_view(s.wired.iface),
                wired_name: text::opt_string_view(s.wired.name),
                wired_speed: s.wired.speed,
                mobile_is_primary: s.mobile.is_primary,
                mobile_active: s.mobile.active,
                mobile_connecting: s.mobile.connecting,
                mobile_supported: s.mobile.supported,
                mobile_enabled: s.mobile.enabled,
                has_modem_device: s.mobile.has_device,
                mobile_name: mobile_name_of(
                    text::opt_string_view(s.mobile.operator),
                    text::opt_string_view(s.mobile.name),
                ),
                mobile_access_technology: text::opt_string_view(s.mobile.access_technology),
                mobile_signal_quality: s.mobile.signal_quality,
                mobile_failed: s.mobile.failed,
            },
            NetworkSnapshot::Iwd(s) => NetworkView {
                is_iwd: true,
                available: s.available,
                connected: state_connected(s.state),
                wifi_enabled: s.wifi_enabled,
                has_wifi_device: true,
                wifi_device_connecting: s.state == Some(StationState::Connecting),
                connecting_ssid: if s.state == Some(StationState::Connecting) {
                    text::opt_string_view(s.ssid)
                } else {
                    None
                },
                active_ssid: text::opt_string_view(s.ssid),
                active_strength: strength_in_use(net_views(s.networks@)),
                scanning: s.scanning,
                is_ready: s.initial_scan_complete,
                networks: net_views(s.networks@),
                failed_ssid: text::opt_string_view(s.failed_ssid),
                failed_reason: text::opt_string_view(s.failed_reason),
                auth_request_ssid: auth_view(s.auth_request),
                wired_connected: false,
                has_ethernet_device: false,
                wired_iface: None,
                wired_name: None,
                wired_speed: None,
                mobile_is_primary: false,
                mobile_active: false,
                mobile_connecting: false,
                mobile_supported: false,
                mobile_enabled: None,
                has_modem_device: false,
                mobile_name: "Mobile"@,
                mobile_access_technology: None,
                mobile_signal_quality: None,
                mobile_failed: false,
            },
        }
    }
}

/// Where Wi-Fi stands: connecting while a target is known, else as connected
/// as the backend says.
pub open spec fn connection_state_of(v: NetworkView) -> NetworkConnectionState {
    if v.connecting_ssid is Some || (v.is_iwd && v.wifi_device_connecting) {
        NetworkConnectionState::Connecting
    } else if v.connected {
        NetworkConnectionState::Connected
    } else {
        NetworkConnectionState::Disconnected
    }
}

/// Whether Wi-Fi is on its way up.
pub open spec fn wifi_connecting_of(v: NetworkView) -> bool {
    v.connecting_ssid is Some || v.wifi_device_connecting
}

/// Whether there is an Ethernet port or a modem.
pub open spec fn has_other_device(v: NetworkView) -> bool {
    v.has_ethernet_device || v.has_modem_device
}

fn as_str_opt<'a>(o: &'a Option<String>) -> (r: Option<&'a str>)
    ensures
        text::opt_view(r) == text::opt_string_view(*o),
{
    match o {
        Some(s) => Some(s.as_str()),
        None => None,
    }
}

impl NetworkSnapshot {
    pub fn is_iwd(&self) -> (r: bool)
        ensures
            r == self@.is_iwd,
    {
        match self {
            NetworkSnapshot::NetworkManager(_) => false,
            NetworkSnapshot::Iwd(_) => true,
        }
    }

    pub fn available(&self) -> (r: bool)
        ensures
            r == self@.available,
    {
        match self {
            NetworkSnapshot::NetworkManager(s) => s.available,
            NetworkSnapshot::Iwd(s) => s.available,
        }
    }

    pub fn connected(&self) -> (r: bool)
        ensures
            r == self@.connected,
    {
        match self {
            NetworkSnapshot::NetworkManager(s) => s.wifi.connected,
            NetworkSnapshot::Iwd(s) => s.connected(),
        }
    }

    pub fn wifi_enabled(&self) -> (r: Option<bool>)
        ensures
            r == self@.wifi_enabled,
    {
        match self {
            NetworkSnapshot::NetworkManager(s) => s.wifi.enabled,
            NetworkSnapshot::Iwd(s) => s.wifi_enabled,
        }
    }

    pub fn has_wifi_device(&self) -> (r: bool)
        ensures
            r == self@.has_wifi_device,
    {
        match self {
            NetworkSnapshot::NetworkManager(s) => s.wifi.has_device,
            NetworkSnapshot::Iwd(_) => true,
        }
    }

    pub fn wifi_device_connecting(&self) -> (r: bool)
        ensures
            r == self@.wifi_device_connecting,
    {
        match self {
            NetworkSnapshot::NetworkManager(s) => match s.wifi.device_state {
                Some(n) => 40 <= n && n <= 90,
                None => false,
            },
            NetworkSnapshot::Iwd(s) => s.connecting(),
        }
    }

    pub fn connecting_ssid(&self) -> (r: Option<&str>)
        ensures
            text::opt_view(r) == self@.connecting_ssid,
    {
        match self {
            NetworkSnapshot::NetworkManager(s) => as_str_opt(&s.wifi.connecting_ssid),
            NetworkSnapshot::Iwd(s) => if s.connecting() {
                as_str_opt(&s.ssid)
            } else {
                None
            },
        }
    }

    pub fn active_ssid(&self) -> (r: Option<&str>)
        ensures
            text::opt_view(r) == self@.active_ssid,
    {
        match self {
            NetworkSnapshot::NetworkManager(s) => match &s.wifi.connecting_ssid {
                Some(c) => Some(c.as_str()),
                None => as_str_opt(&s.wifi.ssid),
            },
            NetworkSnapshot::Iwd(s) => as_str_opt(&s.ssid),
        }
    }

    pub fn active_strength(&self) -> (r: i32)
        ensures
            r == self@.active_strength,
    {
        match self {
            NetworkSnapshot::NetworkManager(s) => s.wifi.strength,
            NetworkSnapshot::Iwd(s) => {
                let ghost views = net_views(s.networks@);
                let mut i: usize = 0;
                assert(views.skip(0) =~= views);
                while i < s.networks.len()
                    invariant
                        i <= s.networks.len(),
                        views == net_views(s.networks@),
                        self@.active_strength == strength_in_use(views),
                        strength_in_use(views.skip(i as int)) == strength_in_use(views),
                    decreases s.networks.len() - i,
                {
                    let ghost here = views.skip(i as int);
                    assert(here[0] == s.networks@[i as int]@);
                    assert(here.drop_first() =~= views.skip(i + 1));
                    if s.networks[i].active {
                        return s.networks[i].strength;
                    }
                    i += 1;
                }
                0
            },
        }
    }

    pub fn scanning(&self) -> (r: bool)
        ensures
            r == self@.scanning,
    {
        match self {
            NetworkSnapshot::NetworkManager(s) => s.wifi.scanning,
            NetworkSnapshot::Iwd(s) => s.scanning,
        }
    }

    pub fn is_ready(&self) -> (r: bool)
        ensures
            r == self@.is_ready,
    {
        match self {
            NetworkSnapshot::NetworkManager(s) => s.wifi.is_ready,
            NetworkSnapshot::Iwd(s) => s.initial_scan_complete,
        }
    }

    pub fn networks(&self) -> (r: &Vec<WifiNetwork>)
        ensures
            net_views(r@) == self@.networks,
    {
        match self {
            NetworkSnapshot::NetworkManager(s) => &s.wifi.networks,
            NetworkSnapshot::Iwd(s) => &s.networks,
        }
    }

    pub fn failed_ssid(&self) -> (r: Option<&str>)
        ensures
            text::opt_view(r) == self@.failed_ssid,
    {
        match self {
            NetworkSnapshot::NetworkManager(s) => as_str_opt(&s.wifi.failed_ssid),
            NetworkSnapshot::Iwd(s) => as_str_opt(&s.failed_ssid),
        }
    }

    pub fn failed_reason(&self) -> (r: Option<&str>)
        ensures
            text::opt_view(r) == self@.failed_reason,
    {
        match self {
            NetworkSnapshot::NetworkManager(_) => None,
            NetworkSnapshot::Iwd(s) => as_str_opt(&s.failed_reason),
        }
    }

    pub fn auth_request_ssid(&self) -> (r: Option<&str>)
        ensures
            text::opt_view(r) == self@.auth_request_ssid,
    {
        match self {
            NetworkSnapshot::NetworkManager(_) => None,
            NetworkSnapshot::Iwd(s) => match &s.auth_request {
                Some(a) => Some(a.ssid.as_str()),
                None => None,
            },
        }
    }

    pub fn wired_connected(&self) -> (r: bool)
        ensures
            r == self@.wired_connected,
    {
        match self {
            NetworkSnapshot::NetworkManager(s) => s.wired.connected,
            NetworkSnapshot::Iwd(_) => false,
        }
    }

    pub fn has_ethernet_device(&self) -> (r: bool)
        ensures
            r == self@.has_ethernet_device,
    {
        match self {
            NetworkSnapshot::NetworkManager(s) => s.wired.has_device,
            NetworkSnapshot::Iwd(_) => false,
        }
    }

    pub fn wired_iface(&self) -> (r: Option<&str>)
        ensures
            text::opt_view(r) == self@.wired_iface,
    {
        match self {
            NetworkSnapshot::NetworkManager(s) => as_str_opt(&s.wired.iface),
            NetworkSnapshot::Iwd(_) => None,
        }
    }

    pub fn wired_name(&self) -> (r: Option<&str>)
        ensures
            text::opt_view(r) == self@.wired_name,
    {
        match self {
            NetworkSnapshot::NetworkManager(s) => as_str_opt(&s.wired.name),
            NetworkSnapshot::Iwd(_) => None,
        }
    }

    pub fn wired_speed(&self) -> (r: Option<u32>)
        ensures
            r == self@.wired_speed,
    {
        match self {
            NetworkSnapshot::NetworkManager(s) => s.wired.speed,
            NetworkSnapshot::Iwd(_) => None,
        }
    }

    pub fn mobile_is_primary(&self) -> (r: bool)
        ensures
            r == self@.mobile_is_primary,
    {
        match self {
            NetworkSnapshot::NetworkManager(s) => s.mobile.is_primary,
            NetworkSnapshot::Iwd(_) => false,
        }
    }

    pub fn mobile_active(&self) -> (r: bool)
        ensures
            r == self@.mobile_active,
    {
        match self {
            NetworkSnapshot::NetworkManager(s) => s.mobile.active,
            NetworkSnapshot::Iwd(_) => false,
        }
    }

    pub fn mobile_connecting(&self) -> (r: bool)
        ensures
            r == self@.mobile_connecting,
    {
        match self {
            NetworkSnapshot::NetworkManager(s) => s.mobile.connecting,
            NetworkSnapshot::Iwd(_) => false,
        }
    }

    pub fn mobile_supported(&self) -> (r: bool)
        ensures
            r == self@.mobile_supported,
    {
        match self {
            NetworkSnapshot::NetworkManager(s) => s.mobile.supported,
            NetworkSnapshot::Iwd(_) => false,
        }
    }

    pub fn mobile_enabled(&self) -> (r: Option<bool>)
        ensures
            r == self@.mobile_enabled,
    {
        match self {
            NetworkSnapshot::NetworkManager(s) => s.mobile.enabled,
            NetworkSnapshot::Iwd(_) => None,
        }
    }

    pub fn has_modem_device(&self) -> (r: bool)
        ensures
            r == self@.has_modem_device,
    {
        match self {
            NetworkSnapshot::NetworkManager(s) => s.mobile.has_device,
            NetworkSnapshot::Iwd(_) => false,
        }
    }

    pub fn mobile_display_name(&self) -> (r: &str)
        ensures
            r@ == self@.mobile_name,
    {
        match self {
            NetworkSnapshot::NetworkManager(s) => match &s.mobile.operator {
                Some(o) => o.as_str(),
                None => match &s.mobile.name {
                    Some(n) => n.as_str(),
                    None => "Mobile",
                },
            },
            NetworkSnapshot::Iwd(_) => "Mobile",
        }
    }

    pub fn mobile_access_technology(&self) -> (r: Option<&str>)
        ensures
            text::opt_view(r) == self@.mobile_access_technology,
    {
        match self {
            NetworkSnapshot::NetworkManager(s) => as_str_opt(&s.mobile.access_technology),
            NetworkSnapshot::Iwd(_) => None,
        }
    }

    pub fn mobile_signal_quality(&self) -> (r: Option<u32>)
        ensures
            r == self@.mobile_signal_quality,
    {
        match self {
            NetworkSnapshot::NetworkManager(s) => s.mobile.signal_quality,
            NetworkSnapshot::Iwd(_) => None,
        }
    }

    pub fn mobile_failed(&self) -> (r: bool)
        ensures
            r == self@.mobile_failed,
    {
        match self {
            NetworkSnapshot::NetworkManager(s) => s.mobile.failed,
            NetworkSnapshot::Iwd(_) => false,
        }
    }

    pub fn connection_state(&self) -> (r: NetworkConnectionState)
        ensures
            r == connection_state_of(self@),
    {
        if self.connecting_ssid().is_some() || (self.is_iwd() && self.wifi_device_connecting()) {
            NetworkConnectionState::Connecting
        } else if self.connected() {
            NetworkConnectionState::Connected
        } else {
            NetworkConnectionState::Disconnected
        }
    }

    pub fn wifi_connecting(&self) -> (r: bool)
        ensures
            r == wifi_connecting_of(self@),
    {
        self.connecting_ssid().is_some() || self.wifi_device_connecting()
    }

    pub fn has_non_wifi_device(&self) -> (r: bool)
        ensures
            r == has_other_device(self@),
    {
        self.has_ethernet_device() || self.has_modem_device()
    }
}

} // verus!

//! The Wi-Fi service for iwd: a state machine between the daemon's D-Bus
//! signals and the widgets.
//!
//! Every method takes one event and returns what is to be done in answer, in
//! order. Calls to the bus, timers and threads are the caller's.

use vstd::prelude::*;
use vstd::string::*;

use crate::callbacks::{CallbackId, Callbacks};
use crate::network;
use crate::network::{
    IwdAuthRequest, IwdSnapshot, IwdView, StationState, WifiNetwork, AUTH_FAILURE_REASON,
    CONNECTION_FAILURE_REASON,
};
use crate::text;

verus! {

pub const IFACE_ADAPTER: &'static str = "net.connman.iwd.Adapter";

pub const IFACE_STATION: &'static str = "net.connman.iwd.Station";

pub const IFACE_NETWORK: &'static str = "net.connman.iwd.Network";

/// How often a refresh is tried in order to learn the name of the connected
/// network.
pub const MAX_SSID_RESOLVE_ATTEMPTS: u8 = 3;

// ---------------------------------------------------------------------------
// What the service asks for
// ---------------------------------------------------------------------------

/// Why an agent request is refused.
#[derive(Debug, Clone, Copy, PartialEq, Eq, Structural)]
pub enum CancelReason {
    ServiceUnavailable,
    PoweredOff,
    Canceled,
    UnexpectedNetwork,
    TimedOut,
    Superseded,
    UserCanceled,
    Enterprise,
    ShuttingDown,
}

pub open spec fn cancel_text(r: CancelReason) -> Seq<char> {
    match r {
        CancelReason::ServiceUnavailable => "Service unavailable"@,
        CancelReason::PoweredOff => "WiFi powered off"@,
        CancelReason::Canceled => "Canceled"@,
        CancelReason::UnexpectedNetwork => "Unexpected network"@,
        CancelReason::TimedOut => "Authentication timed out"@,
        CancelReason::Superseded => "Superseded by new auth request"@,
        CancelReason::UserCanceled => "User canceled"@,
        CancelReason::Enterprise => "Enterprise authentication not supported"@,
        CancelReason::ShuttingDown => "Service shutting down"@,
    }
}

impl CancelReason {
    /// The text that goes with the refusal.
    pub fn message(&self) -> (r: &'static str)
        ensures
            r@ == cancel_text(*self),
    {
        match self {
            CancelReason::ServiceUnavailable => "Service unavailable",
            CancelReason::PoweredOff => "WiFi powered off",
            CancelReason::Canceled => "Canceled",
            CancelReason::UnexpectedNetwork => "Unexpected network",
            CancelReason::TimedOut => "Authentication timed out",
            CancelReason::Superseded => "Superseded by new auth request",
            CancelReason::UserCanceled => "User canceled",
            CancelReason::Enterprise => "Enterprise authentication not supported",
            CancelReason::ShuttingDown => "Service shutting down",
        }
    }
}

/// Something to be done outside. Agent requests are named by tokens.
#[derive(Debug)]
pub enum IwdEffect {
    /// Tell everyone who listens.
    Notify(IwdSnapshot),
    /// Subscribe to property and object-manager signals of the daemon.
    SubscribeSignals,
    /// Watch whether the daemon is on the bus.
    CreateWatcher,
    /// Ask the daemon for its objects.
    Discover,
    SetupAdapterProxy(String),
    SetupStationProxy(String),
    /// Export the agent object on the bus.
    ExportAgent,
    UnexportAgent,
    /// Register the agent with the daemon.
    RegisterAgent { is_retry: bool },
    /// Register again after a while.
    RetryRegisterLater,
    /// Unregister the agent, then register it.
    UnregisterThenRegister,
    /// Fetch the list of networks after a delay.
    StartRefresh { delay_ms: u64, generation: u64 },
    /// Start the timer that coalesces changes of the network list.
    ScheduleRefresh,
    SetPowered(bool),
    CallScan,
    CallDisconnect,
    CallConnect { path: String, cached_ssid: Option<String>, generation: u64 },
    CallForget(String),
    /// Answer an agent request with a password and stop its timer.
    AnswerAuth { token: u64, passphrase: String },
    /// Refuse an agent request and stop its timer.
    RefuseAuth { token: u64, reason: CancelReason },
    StartAuthTimer(u64),
    /// Answer an agent call that expects nothing.
    Reply(u64),
    ReplyMissingPath(u64),
    ReplyUnknownMethod(u64, String),
}

/// What an `IwdEffect` stands for.
pub enum EffectView {
    Notify(IwdView),
    SubscribeSignals,
    CreateWatcher,
    Discover,
    SetupAdapterProxy(Seq<char>),
    SetupStationProxy(Seq<char>),
    ExportAgent,
    UnexportAgent,
    RegisterAgent { is_retry: bool },
    RetryRegisterLater,
    UnregisterThenRegister,
    StartRefresh { delay_ms: u64, generation: u64 },
    ScheduleRefresh,
    SetPowered(bool),
    CallScan,
    CallDisconnect,
    CallConnect { path: Seq<char>, cached_ssid: Option<Seq<char>>, generation: u64 },
    CallForget(Seq<char>),
    AnswerAuth { token: u64, passphrase: Seq<char> },
    RefuseAuth { token: u64, reason: CancelReason },
    StartAuthTimer(u64),
    Reply(u64),
    ReplyMissingPath(u64),
    ReplyUnknownMethod(u64, Seq<char>),
}

impl View for IwdEffect {
    type V = EffectView;

    open spec fn view(&self) -> EffectView {
        match self {
            IwdEffect::Notify(s) => EffectView::Notify(s@),
            IwdEffect::SubscribeSignals => EffectView::SubscribeSignals,
            IwdEffect::CreateWatcher => EffectView::CreateWatcher,
            IwdEffect::Discover => EffectView::Discover,
            IwdEffect::SetupAdapterProxy(p) => EffectView::SetupAdapterProxy(p@),
            IwdEffect::SetupStationProxy(p) => EffectView::SetupStationProxy(p@),
            IwdEffect::ExportAgent => EffectView::ExportAgent,
            IwdEffect::UnexportAgent => EffectView::UnexportAgent,
            IwdEffect::RegisterAgent { is_retry } => EffectView::RegisterAgent {
                is_retry: *is_retry,
            },
            IwdEffect::RetryRegisterLater => EffectView::RetryRegisterLater,
            IwdEffect::UnregisterThenRegister => EffectView::UnregisterThenRegister,
            IwdEffect::StartRefresh { delay_ms, generation } => EffectView::StartRefresh {
                delay_ms: *delay_ms,
                generation: *generation,
            },
            IwdEffect::ScheduleRefresh => EffectView::ScheduleRefresh,
            IwdEffect::SetPowered(b) => EffectView::SetPowered(*b),
            IwdEffect::CallScan => EffectView::CallScan,
            IwdEffect::CallDisconnect => EffectView::CallDisconnect,
            IwdEffect::CallConnect { path, cached_ssid, generation } => EffectView::CallConnect {
                path: path@,
                cached_ssid: text::opt_string_view(*cached_ssid),
                generation: *generation,
            },
            IwdEffect::CallForget(p) => EffectView::CallForget(p@),
            IwdEffect::AnswerAuth { token, passphrase } => EffectView::AnswerAuth {
                token: *token,
                passphrase: passphrase@,
            },
            IwdEffect::RefuseAuth { token, reason } => EffectView::RefuseAuth {
                token: *token,
                reason: *reason,
            },
            IwdEffect::StartAuthTimer(t) => EffectView::StartAuthTimer(*t),
            IwdEffect::Reply(t) => EffectView::Reply(*t),
            IwdEffect::ReplyMissingPath(t) => EffectView::ReplyMissingPath(*t),
            IwdEffect::ReplyUnknownMethod(t, m) => EffectView::ReplyUnknownMethod(*t, m@),
        }
    }
}

#[verifier::opaque]
pub open spec fn effect_views(v: Seq<IwdEffect>) -> Seq<EffectView> {
    v.map_values(|e: IwdEffect| e@)
}

pub(crate) fn none() -> (r: Vec<IwdEffect>)
    ensures
        effect_views(r@) == Seq::<EffectView>::empty(),
{
    let r: Vec<IwdEffect> = Vec::new();
    proof {
        reveal(effect_views);
    }
    assert(effect_views(r@) =~= Seq::<EffectView>::empty());
    r
}

pub(crate) fn one(e: IwdEffect) -> (r: Vec<IwdEffect>)
    ensures
        effect_views(r@) == seq![e@],
{
    let ghost ev = e@;
    let mut r: Vec<IwdEffect> = Vec::new();
    r.push(e);
    proof {
        reveal(effect_views);
    }
    assert(effect_views(r@) =~= seq![ev]);
    r
}

pub(crate) fn both(a: Vec<IwdEffect>, b: Vec<IwdEffect>) -> (r: Vec<IwdEffect>)
    ensures
        effect_views(r@) == effect_views(a@) + effect_views(b@),
{
    let mut r = a;
    let mut rest = b;
    let ghost x = r@;
    let ghost y = rest@;
    r.append(&mut rest);
    assert(r@ == x + y);
    proof {
        reveal(effect_views);
    }
    assert(effect_views(r@) =~= effect_views(x) + effect_views(y));
    r
}

// ---------------------------------------------------------------------------
// The service
// ---------------------------------------------------------------------------

pub struct IwdService {
    pub snapshot: IwdSnapshot,
    pub callbacks: Callbacks,
    pub adapter_path: Option<String>,
    pub adapter_ready: bool,
    pub station_path: Option<String>,
    pub station_ready: bool,
    /// Whether there is a connection to the bus.
    pub bus: bool,
    /// Whether the agent object is exported.
    pub agent_exported: bool,
    /// Whether the daemon knows the agent. Exporting and registering can fail
    /// apart from each other.
    pub agent_registered: bool,
    /// The agent request that waits for a password.
    pub pending_auth: Option<u64>,
    pub scan_in_progress: bool,
    pub refresh_in_progress: bool,
    /// A refresh was asked for while one was under way.
    pub refresh_needed: bool,
    /// The coalescing timer runs.
    pub network_refresh_pending: bool,
    pub ssid_resolve_attempts: u8,
    /// Path and name of the network being connected to.
    pub connecting_network: Option<(String, String)>,
    /// A password to give without asking when the daemon next wants one.
    pub pending_password: Option<String>,
    /// Counts teardowns; results of an earlier count are stale.
    pub generation: u64,
    /// The last agent request was refused by us, not by the network.
    pub agent_canceled_by_us: bool,
}

/// What an `IwdService` stands for, apart from who listens.
pub struct ServiceView {
    pub snapshot: IwdView,
    pub adapter_path: Option<Seq<char>>,
    pub adapter_ready: bool,
    pub station_path: Option<Seq<char>>,
    pub station_ready: bool,
    pub bus: bool,
    pub agent_exported: bool,
    pub agent_registered: bool,
    pub pending_auth: Option<u64>,
    pub scan_in_progress: bool,
    pub refresh_in_progress: bool,
    pub refresh_needed: bool,
    pub network_refresh_pending: bool,
    pub ssid_resolve_attempts: u8,
    pub connecting_network: Option<(Seq<char>, Seq<char>)>,
    pub pending_password: Option<Seq<char>>,
    pub generation: u64,
    pub agent_canceled_by_us: bool,
}

pub open spec fn pair_opt_view(o: Option<(String, String)>) -> Option<(Seq<char>, Seq<char>)> {
    match o {
        Some(p) => Some((p.0@, p.1@)),
        None => None,
    }
}

impl View for IwdService {
    type V = ServiceView;

    open spec fn view(&self) -> ServiceView {
        ServiceView {
            snapshot: self.snapshot@,
            adapter_path: text::opt_string_view(self.adapter_path),
            adapter_ready: self.adapter_ready,
            station_path: text::opt_string_view(self.station_path),
            station_ready: self.station_ready,
            bus: self.bus,
            agent_exported: self.agent_exported,
            agent_registered: self.agent_registered,
            pending_auth: self.pending_auth,
            scan_in_progress: self.scan_in_progress,
            refresh_in_progress: self.refresh_in_progress,
            refresh_needed: self.refresh_needed,
            network_refresh_pending: self.network_refresh_pending,
            ssid_resolve_attempts: self.ssid_resolve_attempts,
            connecting_network: pair_opt_view(self.connecting_network),
            pending_password: text::opt_string_view(self.pending_password),
            generation: self.generation,
            agent_canceled_by_us: self.agent_canceled_by_us,
        }
    }
}

/// A service that knows nothing yet.
pub open spec fn service_at_start() -> ServiceView {
    ServiceView {
        snapshot: network::iwd_unknown(),
        adapter_path: None,
        adapter_ready: false,
        station_path: None,
        station_ready: false,
        bus: false,
        agent_exported: false,
        agent_registered: false,
        pending_auth: None,
        scan_in_progress: false,
        refresh_in_progress: false,
        refresh_needed: false,
        network_refresh_pending: false,
        ssid_resolve_attempts: 0,
        connecting_network: None,
        pending_password: None,
        generation: 0,
        agent_canceled_by_us: false,
    }
}

/// A service and what it asks for.
pub type Out = (ServiceView, Seq<EffectView>);

pub open spec fn nothing() -> Seq<EffectView> {
    Seq::empty()
}

pub open spec fn told(s: ServiceView) -> Seq<EffectView> {
    seq![EffectView::Notify(s.snapshot)]
}

/// The count of teardowns after one more. It wraps around.
pub open spec fn bumped(g: u64) -> u64 {
    if g == u64::MAX {
        0
    } else {
        (g + 1) as u64
    }
}

/// What is always so: the count of attempts stays within its limit.
pub open spec fn valid(s: ServiceView) -> bool {
    s.ssid_resolve_attempts <= MAX_SSID_RESOLVE_ATTEMPTS
}

/// Refuses the request that waits, if one does.
pub open spec fn refuse_pending(s: ServiceView, reason: CancelReason) -> Out {
    match s.pending_auth {
        Some(token) => (
            ServiceView { pending_auth: None, agent_canceled_by_us: true, ..s },
            seq![EffectView::RefuseAuth { token, reason }],
        ),
        None => (s, nothing()),
    }
}

/// `s` with nothing under way.
pub open spec fn idle(s: ServiceView) -> ServiceView {
    ServiceView {
        generation: bumped(s.generation),
        connecting_network: None,
        pending_password: None,
        scan_in_progress: false,
        refresh_in_progress: false,
        refresh_needed: false,
        network_refresh_pending: false,
        ssid_resolve_attempts: 0,
        ..s
    }
}

/// The daemon or its adapter is gone: forget everything of it.
pub open spec fn proxies_cleared(s: ServiceView) -> Out {
    let s1 = ServiceView {
        adapter_ready: false,
        station_ready: false,
        adapter_path: None,
        station_path: None,
        ..idle(s)
    };
    let (s2, e) = refuse_pending(s1, CancelReason::ServiceUnavailable);
    (
        ServiceView { agent_exported: false, agent_registered: false, ..s2 },
        e + if s.bus && s.agent_exported {
            seq![EffectView::UnexportAgent]
        } else {
            nothing()
        },
    )
}

/// The station is gone but the adapter stays: Wi-Fi was switched off.
pub open spec fn station_cleared(s: ServiceView) -> Out {
    let s1 = ServiceView { station_ready: false, station_path: None, ..idle(s) };
    let (s2, e) = refuse_pending(s1, CancelReason::PoweredOff);
    let s3 = ServiceView {
        snapshot: IwdView {
            state: None,
            ssid: None,
            networks: Seq::empty(),
            scanning: false,
            auth_request: None,
            failed_ssid: None,
            failed_reason: None,
            initial_scan_complete: false,
            ..s2.snapshot
        },
        ..s2
    };
    (s3, e + told(s3))
}

pub open spec fn made_unavailable(s: ServiceView) -> Out {
    if !s.snapshot.available {
        (s, nothing())
    } else {
        let s1 = ServiceView { snapshot: network::iwd_unknown(), ..s };
        (s1, told(s1))
    }
}

/// How long a refresh waits: longer with each attempt to learn a name.
pub open spec fn refresh_delay(attempts: u8) -> u64 {
    (200 * attempts) as u64
}

/// Starts a refresh, or remembers that one is wanted. Only a refresh that
/// starts counts as an attempt.
pub open spec fn refresh_started(s: ServiceView, is_ssid_resolve: bool) -> Out {
    if s.refresh_in_progress {
        (ServiceView { refresh_needed: true, ..s }, nothing())
    } else if !s.station_ready {
        (s, nothing())
    } else {
        let attempts = if is_ssid_resolve {
            (s.ssid_resolve_attempts + 1) as u8
        } else {
            s.ssid_resolve_attempts
        };
        (
            ServiceView { refresh_in_progress: true, ssid_resolve_attempts: attempts, ..s },
            seq![
                EffectView::StartRefresh {
                    delay_ms: refresh_delay(attempts),
                    generation: s.generation,
                },
            ],
        )
    }
}

pub open spec fn refresh_scheduled(s: ServiceView) -> Out {
    if s.network_refresh_pending {
        (s, nothing())
    } else {
        (ServiceView { network_refresh_pending: true, ..s }, seq![EffectView::ScheduleRefresh])
    }
}

pub open spec fn refresh_timer_fired(s: ServiceView) -> Out {
    refresh_started(ServiceView { network_refresh_pending: false, ..s }, false)
}

/// Starts the refresh that was asked for while one was under way.
pub open spec fn queued_refresh(s: ServiceView) -> Out {
    if s.refresh_needed {
        refresh_started(ServiceView { refresh_needed: false, ..s }, false)
    } else {
        (s, nothing())
    }
}

pub open spec fn agent_wanted(s: ServiceView) -> Seq<EffectView> {
    if s.agent_exported {
        if !s.agent_registered && s.bus {
            seq![EffectView::RegisterAgent { is_retry: false }]
        } else {
            nothing()
        }
    } else if s.bus {
        seq![EffectView::ExportAgent]
    } else {
        nothing()
    }
}

/// `s` is there; whoever listens is told if it was not before.
pub open spec fn made_available(s: ServiceView) -> Out {
    let s1 = ServiceView { snapshot: IwdView { available: true, ..s.snapshot }, ..s };
    (s1, if s.snapshot.available {
        nothing()
    } else {
        told(s1)
    })
}

/// An adapter was found. The same adapter found again changes nothing.
pub open spec fn adapter_found(s: ServiceView, path: Seq<char>) -> Out {
    if s.adapter_path == Some(path) {
        (s, nothing())
    } else {
        let (s1, e) = made_available(ServiceView { adapter_path: Some(path), ..s });
        (
            s1,
            e + (if s.bus {
                seq![EffectView::SetupAdapterProxy(path)]
            } else {
                nothing()
            }) + agent_wanted(s1),
        )
    }
}

/// A station was found. The same station found again changes nothing.
pub open spec fn station_found(s: ServiceView, path: Seq<char>) -> Out {
    if s.station_path == Some(path) {
        (s, nothing())
    } else {
        let (s1, e) = made_available(ServiceView { station_path: Some(path), ..s });
        (s1, e + if s.bus {
            seq![EffectView::SetupStationProxy(path)]
        } else {
            nothing()
        })
    }
}

/// The adapter says whether it is powered.
pub open spec fn adapter_updated(s: ServiceView, powered: Option<bool>) -> Out {
    if !s.adapter_ready || s.snapshot.wifi_enabled == powered {
        (s, nothing())
    } else {
        let snap = IwdView { wifi_enabled: powered, ..s.snapshot };
        let s1 = ServiceView {
            snapshot: if powered == Some(false) {
                IwdView { state: None, ssid: None, ..snap }
            } else {
                snap
            },
            ..s
        };
        (s1, told(s1))
    }
}

/// What the station says of itself.
#[derive(Debug)]
pub struct StationProps {
    pub state: Option<String>,
    pub scanning: Option<bool>,
    pub connected_network: Option<String>,
}

pub struct StationView {
    pub state: Option<StationState>,
    pub scanning: bool,
    pub connected_network: Option<Seq<char>>,
}

impl View for StationProps {
    type V = StationView;

    open spec fn view(&self) -> StationView {
        StationView {
            state: match self.state {
                Some(s) => Some(network::station_state_of(s@)),
                None => None,
            },
            scanning: self.scanning == Some(true),
            connected_network: text::opt_string_view(self.connected_network),
        }
    }
}

pub open spec fn connected_or_connecting(s: Option<StationState>) -> bool {
    network::state_connected(s) || s == Some(StationState::Connecting)
}

/// The name of the network that the station is on or going to, where the list
/// has it.
pub open spec fn station_ssid(s: ServiceView, p: StationView) -> Option<Seq<char>> {
    match p.connected_network {
        Some(path) => if connected_or_connecting(p.state) {
            network::ssid_at(s.snapshot.networks, path)
        } else {
            None
        },
        None => None,
    }
}

/// Attempts start anew once a name is known or there is none to learn.
pub open spec fn attempts_after(s: ServiceView, p: StationView) -> u8 {
    if !connected_or_connecting(p.state) || station_ssid(s, p) is Some {
        0
    } else {
        s.ssid_resolve_attempts
    }
}

/// Whether the list of networks is wanted only to learn a name.
pub open spec fn resolving(s: ServiceView, p: StationView) -> bool {
    network::state_connected(p.state) && station_ssid(s, p) is None
}

/// Whether the list of networks is wanted: there is none yet, a connection
/// just came up, or its name is not known and may still be learnt.
pub open spec fn list_wanted(s: ServiceView, p: StationView) -> bool {
    if resolving(s, p) {
        attempts_after(s, p) < MAX_SSID_RESOLVE_ATTEMPTS
    } else {
        s.snapshot.networks.len() == 0 || (!network::state_connected(s.snapshot.state)
            && network::state_connected(p.state))
    }
}

pub open spec fn none_active(nets: Seq<network::NetView>) -> Seq<network::NetView> {
    nets.map_values(|n: network::NetView| network::NetView { active: false, ..n })
}

/// The snapshot after the station has spoken. Networks lose their mark of
/// being in use only when the connection is truly gone, not while its name is
/// being learnt.
pub open spec fn station_snapshot(s: ServiceView, p: StationView) -> IwdView {
    let ssid = station_ssid(s, p);
    IwdView {
        state: p.state,
        ssid,
        scanning: p.scanning,
        networks: if s.snapshot.ssid != ssid && ssid is None && !network::state_connected(p.state) {
            none_active(s.snapshot.networks)
        } else {
            s.snapshot.networks
        },
        ..s.snapshot
    }
}

/// Whether an attempt to connect is over with this state.
pub open spec fn attempt_over(s: Option<StationState>) -> bool {
    s is None || s == Some(StationState::Connected) || s == Some(StationState::Disconnected)
}

pub open spec fn scan_ended(s: ServiceView, p: StationView) -> bool {
    s.snapshot.scanning && !p.scanning
}

/// The service after the station has spoken, before anything is asked for.
pub open spec fn station_heard(s: ServiceView, p: StationView) -> ServiceView {
    let over = s.snapshot.state != p.state && attempt_over(p.state);
    ServiceView {
        ssid_resolve_attempts: attempts_after(s, p),
        scan_in_progress: s.scan_in_progress && !scan_ended(s, p),
        connecting_network: if over {
            None
        } else {
            s.connecting_network
        },
        pending_password: if over {
            None
        } else {
            s.pending_password
        },
        snapshot: station_snapshot(s, p),
        ..s
    }
}

/// Whether listeners see a difference.
pub open spec fn station_changed(s: ServiceView, p: StationView) -> bool {
    s.snapshot.state != p.state || s.snapshot.ssid != station_ssid(s, p) || s.snapshot.scanning
        != p.scanning
}

/// The station has spoken.
pub open spec fn station_updated(s: ServiceView, p: StationView) -> Out {
    if !s.station_ready {
        (s, nothing())
    } else {
        let s1 = station_heard(s, p);
        let e = if station_changed(s, p) {
            told(s1)
        } else {
            nothing()
        };
        if list_wanted(s, p) || scan_ended(s, p) {
            let (s2, e2) = refresh_started(s1, resolving(s, p) && list_wanted(s, p));
            (s2, e + e2)
        } else {
            (s1, e)
        }
    }
}

/// Something that background work has found out.
#[derive(Debug)]
pub enum IwdUpdate {
    AdapterDiscovered { path: String },
    StationDiscovered { path: String },
    NetworksRefreshed { networks: Vec<WifiNetwork>, generation: u64 },
    ConnectionFailed { ssid: String, reason: String, generation: u64 },
    RefreshFailed { generation: u64 },
}

/// A list of networks came in. One from before the last teardown is dropped.
/// Either way a queued refresh is started.
pub open spec fn networks_refreshed(
    s: ServiceView,
    networks: Seq<network::NetView>,
    generation: u64,
    p: StationView,
) -> Out {
    let s1 = ServiceView { refresh_in_progress: false, ..s };
    if generation != s.generation {
        queued_refresh(s1)
    } else {
        let s2 = ServiceView {
            snapshot: IwdView { networks, initial_scan_complete: true, ..s1.snapshot },
            ..s1
        };
        let (s3, e3) = station_updated(s2, p);
        let (s4, e4) = queued_refresh(s3);
        (s4, told(s2) + e3 + e4)
    }
}

/// A connection failed. A more specific reason for the same network stands.
pub open spec fn connection_failed(
    s: ServiceView,
    ssid: Seq<char>,
    reason: Seq<char>,
    generation: u64,
) -> Out {
    if generation != s.generation {
        (s, nothing())
    } else {
        let specific = s.snapshot.failed_ssid == Some(ssid) && s.snapshot.failed_reason is Some;
        let snap = if specific {
            s.snapshot
        } else {
            IwdView { failed_ssid: Some(ssid), failed_reason: Some(reason), ..s.snapshot }
        };
        let s1 = ServiceView {
            snapshot: if snap.state == Some(StationState::Connecting) {
                IwdView { state: Some(StationState::Disconnected), ssid: None, ..snap }
            } else {
                snap
            },
            connecting_network: None,
            pending_password: None,
            ..s
        };
        (s1, told(s1))
    }
}

pub open spec fn refresh_failed(s: ServiceView, generation: u64) -> Out {
    if generation != s.generation {
        (s, nothing())
    } else {
        queued_refresh(ServiceView { refresh_in_progress: false, ..s })
    }
}

/// What an update leads to. `p` is what the station says at that time.
pub open spec fn update_applied(s: ServiceView, u: IwdUpdate, p: StationView) -> Out {
    match u {
        IwdUpdate::AdapterDiscovered { path } => adapter_found(s, path@),
        IwdUpdate::StationDiscovered { path } => station_found(s, path@),
        IwdUpdate::NetworksRefreshed { networks, generation } => networks_refreshed(
            s,
            network::net_views(networks@),
            generation,
            p,
        ),
        IwdUpdate::ConnectionFailed { ssid, reason, generation } => connection_failed(
            s,
            ssid@,
            reason@,
            generation,
        ),
        IwdUpdate::RefreshFailed { generation } => refresh_failed(s, generation),
    }
}

/// What the station's words mean for the service.
struct StationReading {
    pub state: Option<StationState>,
    pub scanning: bool,
    pub ssid: Option<String>,
    pub attempts: u8,
    pub resolving: bool,
    pub list_wanted: bool,
    pub scan_ended: bool,
    pub changed: bool,
    pub over: bool,
    pub gone: bool,
}

impl IwdService {
    /// What is always so.
    pub open spec fn wf(&self) -> bool {
        valid(self@) && self.callbacks.wf()
    }

    /// A service that knows nothing yet.
    pub fn new() -> (s: Self)
        ensures
            s.wf(),
            s.callbacks@.len() == 0,
            s.callbacks.has_room(),
            s.callbacks.next == 0,
            s@ == service_at_start(),
    {
        IwdService {
            snapshot: IwdSnapshot::unknown(),
            callbacks: Callbacks::new(),
            adapter_path: None,
            adapter_ready: false,
            station_path: None,
            station_ready: false,
            bus: false,
            agent_exported: false,
            agent_registered: false,
            pending_auth: None,
            scan_in_progress: false,
            refresh_in_progress: false,
            refresh_needed: false,
            network_refresh_pending: false,
            ssid_resolve_attempts: 0,
            connecting_network: None,
            pending_password: None,
            generation: 0,
            agent_canceled_by_us: false,
        }
    }

    /// The one service of the process: `instance` where it exists, else a new
    /// one.
    pub fn global(instance: Option<Self>) -> (s: Self)
        requires
            instance matches Some(i) ==> i.wf(),
        ensures
            s.wf(),
            instance matches Some(i) ==> s == i,
            instance is None ==> s@ == service_at_start() && s.callbacks@.len() == 0
                && s.callbacks.has_room() && s.callbacks.next == 0,
    {
        match instance {
            Some(i) => i,
            None => Self::new(),
        }
    }

    /// Registers a listener, which is to be told the current snapshot at once.
    pub fn connect(&mut self) -> (r: (CallbackId, IwdSnapshot))
        requires
            old(self).wf(),
            old(self).callbacks.has_room(),
        ensures
            final(self).wf(),
            final(self)@ == old(self)@,
            final(self).callbacks@ == old(self).callbacks@.push(r.0),
            final(self).callbacks.next == old(self).callbacks.next + 1,
            !old(self).callbacks@.contains(r.0),
            r.1@ == old(self)@.snapshot,
    {
        let id = self.callbacks.register();
        (id, self.snapshot.copy())
    }

    /// Removes a listener.
    pub fn unsubscribe(&mut self, id: CallbackId)
        requires
            old(self).wf(),
        ensures
            final(self).wf(),
            final(self)@ == old(self)@,
            !final(self).callbacks@.contains(id),
            final(self).callbacks.next == old(self).callbacks.next,
            !old(self).callbacks@.contains(id) ==> final(self).callbacks@ == old(self).callbacks@,
            old(self).callbacks@.contains(id) ==> exists|k: int|
                0 <= k < old(self).callbacks@.len() && old(self).callbacks@[k] == id
                    && final(self).callbacks@ == #[trigger] old(self).callbacks@.remove(k),
    {
        let _ = self.callbacks.unregister(id);
    }

    /// The current snapshot.
    pub fn snapshot(&self) -> (s: IwdSnapshot)
        ensures
            s@ == self@.snapshot,
    {
        self.snapshot.copy()
    }

    pub(crate) fn notify(&self) -> (r: Vec<IwdEffect>)
        ensures
            effect_views(r@) == told(self@),
    {
        one(IwdEffect::Notify(self.snapshot.copy()))
    }

    pub(crate) fn refuse_pending_auth(&mut self, reason: CancelReason) -> (r: Vec<IwdEffect>)
        ensures
            final(self).callbacks == old(self).callbacks,
            final(self)@ == refuse_pending(old(self)@, reason).0,
            effect_views(r@) == refuse_pending(old(self)@, reason).1,
    {
        match self.pending_auth {
            Some(token) => {
                self.pending_auth = None;
                self.agent_canceled_by_us = true;
                one(IwdEffect::RefuseAuth { token, reason })
            },
            None => none(),
        }
    }

    fn make_idle(&mut self)
        ensures
            final(self).callbacks == old(self).callbacks,
            final(self)@ == idle(old(self)@),
    {
        self.generation = self.generation.wrapping_add(1);
        self.connecting_network = None;
        self.pending_password = None;
        self.scan_in_progress = false;
        self.refresh_in_progress = false;
        self.refresh_needed = false;
        self.network_refresh_pending = false;
        self.ssid_resolve_attempts = 0;
    }

    /// Forgets everything of the daemon.
    pub fn clear_proxies(&mut self) -> (r: Vec<IwdEffect>)
        requires
            old(self).wf(),
        ensures
            final(self).wf(),
            final(self).callbacks == old(self).callbacks,
            final(self)@ == proxies_cleared(old(self)@).0,
            effect_views(r@) == proxies_cleared(old(self)@).1,
    {
        let unexport = self.bus && self.agent_exported;
        self.make_idle();
        self.adapter_ready = false;
        self.station_ready = false;
        self.adapter_path = None;
        self.station_path = None;
        let e = self.refuse_pending_auth(CancelReason::ServiceUnavailable);
        self.agent_exported = false;
        self.agent_registered = false;
        let e2 = if unexport {
            one(IwdEffect::UnexportAgent)
        } else {
            none()
        };
        both(e, e2)
    }

    /// Forgets the station but keeps the adapter.
    pub fn clear_station(&mut self) -> (r: Vec<IwdEffect>)
        requires
            old(self).wf(),
        ensures
            final(self).wf(),
            final(self).callbacks == old(self).callbacks,
            final(self)@ == station_cleared(old(self)@).0,
            effect_views(r@) == station_cleared(old(self)@).1,
    {
        self.make_idle();
        self.station_ready = false;
        self.station_path = None;
        let e = self.refuse_pending_auth(CancelReason::PoweredOff);
        self.snapshot.forget_station();
        assert(self@ == station_cleared(old(self)@).0);
        let e2 = self.notify();
        both(e, e2)
    }

    /// The service is not there.
    pub fn set_unavailable(&mut self) -> (r: Vec<IwdEffect>)
        requires
            old(self).wf(),
        ensures
            final(self).wf(),
            final(self).callbacks == old(self).callbacks,
            final(self)@ == made_unavailable(old(self)@).0,
            effect_views(r@) == made_unavailable(old(self)@).1,
    {
        if !self.snapshot.available {
            return none();
        }
        self.snapshot = IwdSnapshot::unknown();
        self.notify()
    }

    /// Starts a refresh of the list of networks, or remembers that one is
    /// wanted.
    pub fn refresh_networks_async(&mut self, is_ssid_resolve: bool) -> (r: Vec<IwdEffect>)
        requires
            old(self).wf(),
            is_ssid_resolve ==> old(self)@.ssid_resolve_attempts < MAX_SSID_RESOLVE_ATTEMPTS,
        ensures
            final(self).wf(),
            final(self).callbacks == old(self).callbacks,
            final(self)@ == refresh_started(old(self)@, is_ssid_resolve).0,
            effect_views(r@) == refresh_started(old(self)@, is_ssid_resolve).1,
    {
        if self.refresh_in_progress {
            self.refresh_needed = true;
            return none();
        }
        if !self.station_ready {
            return none();
        }
        self.refresh_in_progress = true;
        if is_ssid_resolve {
            self.ssid_resolve_attempts = self.ssid_resolve_attempts + 1;
        }
        one(
            IwdEffect::StartRefresh {
                delay_ms: 200 * (self.ssid_resolve_attempts as u64),
                generation: self.generation,
            },
        )
    }

    /// A network appeared or vanished: refresh soon, once for all changes until
    /// then.
    pub fn schedule_network_refresh(&mut self) -> (r: Vec<IwdEffect>)
        requires
            old(self).wf(),
        ensures
            final(self).wf(),
            final(self).callbacks == old(self).callbacks,
            final(self)@ == refresh_scheduled(old(self)@).0,
            effect_views(r@) == refresh_scheduled(old(self)@).1,
    {
        if self.network_refresh_pending {
            return none();
        }
        self.network_refresh_pending = true;
        one(IwdEffect::ScheduleRefresh)
    }

    /// The coalescing timer fired.
    pub fn on_refresh_timer(&mut self) -> (r: Vec<IwdEffect>)
        requires
            old(self).wf(),
        ensures
            final(self).wf(),
            final(self).callbacks == old(self).callbacks,
            final(self)@ == refresh_timer_fired(old(self)@).0,
            effect_views(r@) == refresh_timer_fired(old(self)@).1,
    {
        self.network_refresh_pending = false;
        self.refresh_networks_async(false)
    }

    fn drain_queued_refresh(&mut self) -> (r: Vec<IwdEffect>)
        requires
            old(self).wf(),
        ensures
            final(self).wf(),
            final(self).callbacks == old(self).callbacks,
            final(self)@ == queued_refresh(old(self)@).0,
            effect_views(r@) == queued_refresh(old(self)@).1,
    {
        if self.refresh_needed {
            self.refresh_needed = false;
            self.refresh_networks_async(false)
        } else {
            none()
        }
    }

    /// What registering the agent takes now.
    pub fn register_agent(&self) -> (r: Vec<IwdEffect>)
        ensures
            effect_views(r@) == agent_wanted(self@),
    {
        if self.agent_exported {
            if !self.agent_registered && self.bus {
                return one(IwdEffect::RegisterAgent { is_retry: false });
            }
            return none();
        }
        if self.bus {
            one(IwdEffect::ExportAgent)
        } else {
            none()
        }
    }

    fn make_available(&mut self) -> (r: Vec<IwdEffect>)
        ensures
            final(self).callbacks == old(self).callbacks,
            final(self)@ == made_available(old(self)@).0,
            effect_views(r@) == made_available(old(self)@).1,
    {
        let was = self.snapshot.available;
        self.snapshot.set_available(true);
        if was {
            none()
        } else {
            self.notify()
        }
    }

    pub(crate) fn adapter_discovered(&mut self, path: String) -> (r: Vec<IwdEffect>)
        requires
            old(self).wf(),
        ensures
            final(self).wf(),
            final(self).callbacks == old(self).callbacks,
            final(self)@ == adapter_found(old(self)@, path@).0,
            effect_views(r@) == adapter_found(old(self)@, path@).1,
    {
        if let Some(p) = &self.adapter_path {
            if text::str_eq(p.as_str(), path.as_str()) {
                return none();
            }
        }
        self.adapter_path = Some(path.clone());
        let e = self.make_available();
        let e2 = if self.bus {
            one(IwdEffect::SetupAdapterProxy(path))
        } else {
            none()
        };
        let e3 = self.register_agent();
        both(both(e, e2), e3)
    }

    pub(crate) fn station_discovered(&mut self, path: String) -> (r: Vec<IwdEffect>)
        requires
            old(self).wf(),
        ensures
            final(self).wf(),
            final(self).callbacks == old(self).callbacks,
            final(self)@ == station_found(old(self)@, path@).0,
            effect_views(r@) == station_found(old(self)@, path@).1,
    {
        if let Some(p) = &self.station_path {
            if text::str_eq(p.as_str(), path.as_str()) {
                return none();
            }
        }
        self.station_path = Some(path.clone());
        let e = self.make_available();
        let e2 = if self.bus {
            one(IwdEffect::SetupStationProxy(path))
        } else {
            none()
        };
        both(e, e2)
    }

    /// The adapter says whether it is powered.
    pub fn update_adapter_state(&mut self, powered: Option<bool>) -> (r: Vec<IwdEffect>)
        requires
            old(self).wf(),
        ensures
            final(self).wf(),
            final(self).callbacks == old(self).callbacks,
            final(self)@ == adapter_updated(old(self)@, powered).0,
            effect_views(r@) == adapter_updated(old(self)@, powered).1,
    {
        if !self.adapter_ready {
            return none();
        }
        if same_flag(self.snapshot.wifi_enabled, powered) {
            return none();
        }
        self.snapshot.set_powered(powered);
        assert(self@ == adapter_updated(old(self)@, powered).0);
        self.notify()
    }

    /// Forgets the attempt to connect where `over` says so.
    fn end_attempt(&mut self, over: bool)
        ensures
            final(self).callbacks == old(self).callbacks,
            final(self)@ == (ServiceView {
                connecting_network: if over {
                    None
                } else {
                    old(self)@.connecting_network
                },
                pending_password: if over {
                    None
                } else {
                    old(self)@.pending_password
                },
                ..old(self)@
            }),
    {
        if over {
            self.connecting_network = None;
            self.pending_password = None;
        }
    }

    /// What the station's words mean for the service as it is.
    fn read_station(&self, props: &StationProps) -> (r: StationReading)
        ensures
            r.state == props@.state,
            r.scanning == props@.scanning,
            text::opt_string_view(r.ssid) == station_ssid(self@, props@),
            r.attempts == attempts_after(self@, props@),
            r.resolving == resolving(self@, props@),
            r.list_wanted == list_wanted(self@, props@),
            r.scan_ended == scan_ended(self@, props@),
            r.changed == station_changed(self@, props@),
            r.over == (self@.snapshot.state != props@.state && attempt_over(props@.state)),
            r.gone == (self@.snapshot.ssid != station_ssid(self@, props@) && station_ssid(
                self@,
                props@,
            ) is None && !network::state_connected(props@.state)),
    {
        let state: Option<StationState> = match &props.state {
            Some(s) => Some(StationState::from_dbus(s.as_str())),
            None => None,
        };
        let scanning: bool = match props.scanning {
            Some(b) => b,
            None => false,
        };
        let is_connected = network::is_connected_state(state);
        let was_connected = network::is_connected_state(self.snapshot.state);
        let is_connecting = same_state(state, Some(StationState::Connecting));
        let up = is_connected || is_connecting;
        let ssid: Option<String> = match &props.connected_network {
            Some(path) => if up {
                network::find_ssid(&self.snapshot.networks, path.as_str())
            } else {
                None
            },
            None => None,
        };
        let attempts: u8 = if !up || ssid.is_some() {
            0
        } else {
            self.ssid_resolve_attempts
        };
        let resolving = is_connected && ssid.is_none();
        let list_wanted = if resolving {
            attempts < MAX_SSID_RESOLVE_ATTEMPTS
        } else {
            self.snapshot.networks.len() == 0 || (!was_connected && is_connected)
        };
        let scan_ended = self.snapshot.scanning && !scanning;
        let state_changed = !same_state(self.snapshot.state, state);
        let ssid_changed = !text::same_opt(&self.snapshot.ssid, &ssid);
        let scanning_changed = self.snapshot.scanning != scanning;
        let over = state_changed && (state.is_none() || same_state(
            state,
            Some(StationState::Connected),
        ) || same_state(state, Some(StationState::Disconnected)));
        let gone = ssid_changed && ssid.is_none() && !is_connected;
        StationReading {
            state,
            scanning,
            ssid,
            attempts,
            resolving,
            list_wanted,
            scan_ended,
            changed: state_changed || ssid_changed || scanning_changed,
            over,
            gone,
        }
    }

    /// The station has spoken.
    pub fn update_station_state(&mut self, props: &StationProps) -> (r: Vec<IwdEffect>)
        requires
            old(self).wf(),
        ensures
            final(self).wf(),
            final(self).callbacks == old(self).callbacks,
            final(self)@ == station_updated(old(self)@, props@).0,
            effect_views(r@) == station_updated(old(self)@, props@).1,
    {
        if !self.station_ready {
            return none();
        }
        let reading = self.read_station(props);
        let changed = reading.changed;
        let list_wanted = reading.list_wanted;
        let resolving = reading.resolving;
        let scan_ended = reading.scan_ended;
        self.hear_station(reading);
        assert(self@ == station_heard(old(self)@, props@));
        let e = if changed {
            self.notify()
        } else {
            none()
        };
        if list_wanted || scan_ended {
            let e2 = self.refresh_networks_async(resolving && list_wanted);
            both(e, e2)
        } else {
            e
        }
    }

    fn hear_station(&mut self, reading: StationReading)
        ensures
            final(self).callbacks == old(self).callbacks,
            final(self)@ == (ServiceView {
                ssid_resolve_attempts: reading.attempts,
                scan_in_progress: old(self)@.scan_in_progress && !reading.scan_ended,
                connecting_network: if reading.over {
                    None
                } else {
                    old(self)@.connecting_network
                },
                pending_password: if reading.over {
                    None
                } else {
                    old(self)@.pending_password
                },
                snapshot: IwdView {
                    state: reading.state,
                    ssid: text::opt_string_view(reading.ssid),
                    scanning: reading.scanning,
                    networks: if reading.gone {
                        none_active(old(self)@.snapshot.networks)
                    } else {
                        old(self)@.snapshot.networks
                    },
                    ..old(self)@.snapshot
                },
                ..old(self)@
            }),
    {
        self.ssid_resolve_attempts = reading.attempts;
        self.scan_in_progress = self.scan_in_progress && !reading.scan_ended;
        self.end_attempt(reading.over);
        self.snapshot.hear(reading.state, reading.ssid, reading.scanning, reading.gone);
    }

    /// Takes in what background work has found out. `props` is what the
    /// station says now.
    pub fn apply_update(&mut self, update: IwdUpdate, props: &StationProps) -> (r: Vec<IwdEffect>)
        requires
            old(self).wf(),
        ensures
            final(self).wf(),
            final(self).callbacks == old(self).callbacks,
            final(self)@ == update_applied(old(self)@, update, props@).0,
            effect_views(r@) == update_applied(old(self)@, update, props@).1,
    {
        match update {
            IwdUpdate::AdapterDiscovered { path } => self.adapter_discovered(path),
            IwdUpdate::StationDiscovered { path } => self.station_discovered(path),
            IwdUpdate::NetworksRefreshed { networks, generation } => self.take_networks(
                networks,
                generation,
                props,
            ),
            IwdUpdate::ConnectionFailed { ssid, reason, generation } => self.take_failure(
                ssid,
                reason,
                generation,
            ),
            IwdUpdate::RefreshFailed { generation } => {
                if generation != self.generation {
                    return none();
                }
                self.refresh_in_progress = false;
                self.drain_queued_refresh()
            },
        }
    }

    fn take_networks(
        &mut self,
        networks: Vec<WifiNetwork>,
        generation: u64,
        props: &StationProps,
    ) -> (r: Vec<IwdEffect>)
        requires
            old(self).wf(),
        ensures
            final(self).wf(),
            final(self).callbacks == old(self).callbacks,
            (final(self)@, effect_views(r@)) == networks_refreshed(
                old(self)@,
                network::net_views(networks@),
                generation,
                props@,
            ),
    {
        self.refresh_in_progress = false;
        if generation != self.generation {
            return self.drain_queued_refresh();
        }
        self.snapshot.networks = networks;
        self.snapshot.initial_scan_complete = true;
        let e = self.notify();
        let e2 = self.update_station_state(props);
        let e3 = self.drain_queued_refresh();
        both(both(e, e2), e3)
    }

    pub(crate) fn take_failure(&mut self, ssid: String, reason: String, generation: u64) -> (r: Vec<IwdEffect>)
        requires
            old(self).wf(),
        ensures
            final(self).wf(),
            final(self).callbacks == old(self).callbacks,
            (final(self)@, effect_views(r@)) == connection_failed(
                old(self)@,
                ssid@,
                reason@,
                generation,
            ),
    {
        if generation != self.generation {
            return none();
        }
        self.end_attempt(true);
        self.snapshot.note_failure(ssid, reason);
        self.snapshot.drop_attempt();
        assert(self@ == connection_failed(old(self)@, ssid@, reason@, generation).0);
        self.notify()
    }
}

impl IwdSnapshot {
    pub(crate) fn set_available(&mut self, available: bool)
        ensures
            final(self)@ == (IwdView { available, ..old(self)@ }),
    {
        self.available = available;
    }

    pub(crate) fn set_auth(&mut self, request: Option<IwdAuthRequest>)
        ensures
            final(self)@ == (IwdView { auth_request: network::auth_view(request), ..old(self)@ }),
    {
        self.auth_request = request;
    }

    pub(crate) fn set_failure(&mut self, ssid: Option<String>, reason: Option<String>)
        ensures
            final(self)@ == (IwdView {
                failed_ssid: text::opt_string_view(ssid),
                failed_reason: text::opt_string_view(reason),
                ..old(self)@
            }),
    {
        self.failed_ssid = ssid;
        self.failed_reason = reason;
    }

    /// Connecting begins.
    pub(crate) fn begin_attempt(&mut self, ssid: Option<String>)
        ensures
            final(self)@ == (IwdView {
                failed_ssid: None,
                failed_reason: None,
                state: Some(StationState::Connecting),
                ssid: text::opt_string_view(ssid),
                ..old(self)@
            }),
    {
        self.failed_ssid = None;
        self.failed_reason = None;
        self.state = Some(StationState::Connecting);
        self.ssid = ssid;
    }

    /// The radio was switched.
    fn set_powered(&mut self, powered: Option<bool>)
        ensures
            final(self)@ == (if powered == Some(false) {
                IwdView { wifi_enabled: powered, state: None, ssid: None, ..old(self)@ }
            } else {
                IwdView { wifi_enabled: powered, ..old(self)@ }
            }),
    {
        self.wifi_enabled = powered;
        if same_flag(powered, Some(false)) {
            self.state = None;
            self.ssid = None;
        }
    }

    /// The station is gone.
    fn forget_station(&mut self)
        ensures
            final(self)@ == (IwdView {
                state: None,
                ssid: None,
                networks: Seq::empty(),
                scanning: false,
                auth_request: None,
                failed_ssid: None,
                failed_reason: None,
                initial_scan_complete: false,
                ..old(self)@
            }),
    {
        self.state = None;
        self.ssid = None;
        self.networks = Vec::new();
        self.scanning = false;
        self.auth_request = None;
        self.failed_ssid = None;
        self.failed_reason = None;
        self.initial_scan_complete = false;
        assert(self@.networks =~= Seq::<network::NetView>::empty());
    }

    fn hear(
        &mut self,
        state: Option<StationState>,
        ssid: Option<String>,
        scanning: bool,
        gone: bool,
    )
        ensures
            final(self)@ == (IwdView {
                state,
                ssid: text::opt_string_view(ssid),
                scanning,
                networks: if gone {
                    none_active(old(self)@.networks)
                } else {
                    old(self)@.networks
                },
                ..old(self)@
            }),
    {
        deactivate_all(&mut self.networks, gone);
        self.state = state;
        self.ssid = ssid;
        self.scanning = scanning;
    }

    /// Records a failure, unless a reason for this network stands already.
    fn note_failure(&mut self, ssid: String, reason: String)
        ensures
            final(self)@ == (if old(self)@.failed_ssid == Some(ssid@) && old(self)@.failed_reason is Some {
                old(self)@
            } else {
                IwdView {
                    failed_ssid: Some(ssid@),
                    failed_reason: Some(reason@),
                    ..old(self)@
                }
            }),
    {
        let specific = match (&self.failed_ssid, &self.failed_reason) {
            (Some(f), Some(_)) => text::str_eq(f.as_str(), ssid.as_str()),
            _ => false,
        };
        if !specific {
            self.failed_ssid = Some(ssid);
            self.failed_reason = Some(reason);
        }
    }

    /// Connecting has ended without a connection.
    fn drop_attempt(&mut self)
        ensures
            final(self)@ == (if old(self)@.state == Some(StationState::Connecting) {
                IwdView { state: Some(StationState::Disconnected), ssid: None, ..old(self)@ }
            } else {
                old(self)@
            }),
    {
        if let Some(StationState::Connecting) = self.state {
            self.state = Some(StationState::Disconnected);
            self.ssid = None;
        }
    }
}

fn same_flag(a: Option<bool>, b: Option<bool>) -> (r: bool)
    ensures
        r == (a == b),
{
    match (a, b) {
        (None, None) => true,
        (Some(x), Some(y)) => x == y,
        _ => false,
    }
}

fn same_state(a: Option<StationState>, b: Option<StationState>) -> (r: bool)
    ensures
        r == (a == b),
{
    match (a, b) {
        (None, None) => true,
        (Some(x), Some(y)) => x == y,
        _ => false,
    }
}

fn deactivate_all(nets: &mut Vec<WifiNetwork>, gone: bool)
    ensures
        network::net_views(final(nets)@) == if gone {
            none_active(network::net_views(old(nets)@))
        } else {
            network::net_views(old(nets)@)
        },
{
    if !gone {
        return ;
    }
    let ghost before = network::net_views(nets@);
    let mut i: usize = 0;
    while i < nets.len()
        invariant
            i <= nets.len(),
            nets.len() == before.len(),
            before == network::net_views(old(nets)@),
            forall|j: int| 0 <= j < i ==> (#[trigger] nets@[j])@ == none_active(before)[j],
            forall|j: int| i <= j < nets@.len() ==> (#[trigger] nets@[j])@ == before[j],
        decreases nets.len() - i,
    {
        let mut n = nets[i].copy();
        n.active = false;
        nets.set(i, n);
        i += 1;
    }
    assert(network::net_views(nets@) =~= none_active(before));
}

} // verus!

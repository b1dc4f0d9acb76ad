//! What reaches the iwd service from outside: the bus, the daemon, its agent
//! calls, and the user.

use vstd::prelude::*;
use vstd::string::*;

use crate::iwd;
use crate::iwd::{
    CancelReason, EffectView, IwdEffect, IwdService, Out, ServiceView, StationProps, StationView,
    IFACE_ADAPTER, IFACE_NETWORK, IFACE_STATION,
};
use crate::network;
use crate::network::{
    IwdAuthRequest, IwdView, StationState, AUTH_FAILURE_REASON, CONNECTION_FAILURE_REASON,
};
use crate::text;

verus! {

// ---------------------------------------------------------------------------
// The daemon comes and goes
// ---------------------------------------------------------------------------

/// Once there is a bus, signals are subscribed to and the daemon is watched.
pub open spec fn bus_connected(s: ServiceView) -> Out {
    (
        ServiceView { bus: true, ..s },
        seq![EffectView::SubscribeSignals, EffectView::CreateWatcher],
    )
}

pub open spec fn discovery(s: ServiceView) -> Seq<EffectView> {
    if s.bus {
        seq![EffectView::Discover]
    } else {
        iwd::nothing()
    }
}

/// The daemon is gone altogether.
pub open spec fn service_lost(s: ServiceView) -> Out {
    let (s1, e1) = iwd::proxies_cleared(s);
    let (s2, e2) = iwd::made_unavailable(s1);
    (s2, e1 + e2)
}

/// The watcher is there and says whether the daemon runs, or could not be
/// made: then the daemon may still be there.
pub open spec fn watcher_answered(s: ServiceView, has_owner: Option<bool>) -> Out {
    if has_owner == Some(false) {
        iwd::made_unavailable(s)
    } else {
        (s, discovery(s))
    }
}

pub open spec fn owner_changed(s: ServiceView, has_owner: bool) -> Out {
    if has_owner {
        (s, discovery(s))
    } else {
        service_lost(s)
    }
}

/// An object of the daemon and the interfaces it has.
#[derive(Debug)]
pub struct ManagedObject {
    pub path: String,
    pub interfaces: Vec<String>,
}

pub struct ObjectView {
    pub path: Seq<char>,
    pub interfaces: Seq<Seq<char>>,
}

impl View for ManagedObject {
    type V = ObjectView;

    open spec fn view(&self) -> ObjectView {
        ObjectView { path: self.path@, interfaces: text::string_views(self.interfaces@) }
    }
}

pub open spec fn object_views(v: Seq<ManagedObject>) -> Seq<ObjectView> {
    v.map_values(|o: ManagedObject| o@)
}

/// The first object that has an interface.
pub open spec fn first_with(objects: Seq<ObjectView>, interface: Seq<char>) -> Option<Seq<char>>
    decreases objects.len(),
{
    if objects.len() == 0 {
        None
    } else {
        match first_with(objects.drop_last(), interface) {
            Some(p) => Some(p),
            None => if objects.last().interfaces.contains(interface) {
                Some(objects.last().path)
            } else {
                None
            },
        }
    }
}

/// The daemon's objects came in: the first adapter and the first station are
/// taken up.
pub open spec fn objects_found(s: ServiceView, objects: Seq<ObjectView>) -> Out {
    let (s1, e1) = match first_with(objects, IFACE_ADAPTER@) {
        Some(p) => iwd::adapter_found(s, p),
        None => (s, iwd::nothing()),
    };
    let (s2, e2) = match first_with(objects, IFACE_STATION@) {
        Some(p) => iwd::station_found(s1, p),
        None => (s1, iwd::nothing()),
    };
    let (s3, e3) = if s2.adapter_path is None && s2.station_path is None {
        iwd::made_unavailable(s2)
    } else {
        (s2, iwd::nothing())
    };
    (s3, e1 + e2 + e3)
}

pub open spec fn interface_added(s: ServiceView, path: Seq<char>, interface: Seq<char>) -> Out {
    if interface == IFACE_ADAPTER@ && s.adapter_path is None {
        iwd::adapter_found(s, path)
    } else if interface == IFACE_STATION@ && s.station_path is None {
        iwd::station_found(s, path)
    } else if interface == IFACE_NETWORK@ {
        iwd::refresh_scheduled(s)
    } else {
        (s, iwd::nothing())
    }
}

/// Interfaces appeared on an object. A second adapter or station is passed
/// over.
pub open spec fn interfaces_added(
    s: ServiceView,
    path: Seq<char>,
    interfaces: Seq<Seq<char>>,
) -> Out
    decreases interfaces.len(),
{
    if interfaces.len() == 0 {
        (s, iwd::nothing())
    } else {
        let (s1, e1) = interfaces_added(s, path, interfaces.drop_last());
        let (s2, e2) = interface_added(s1, path, interfaces.last());
        (s2, e1 + e2)
    }
}

/// Interfaces vanished from an object. Without the adapter the service is
/// lost; without the station only Wi-Fi is off, and the adapter is asked again.
pub open spec fn interfaces_removed(
    s: ServiceView,
    path: Seq<char>,
    interfaces: Seq<Seq<char>>,
    powered: Option<bool>,
) -> Out {
    let (s1, e1) = if interfaces.contains(IFACE_NETWORK@) {
        iwd::refresh_scheduled(s)
    } else {
        (s, iwd::nothing())
    };
    if interfaces.contains(IFACE_ADAPTER@) && s.adapter_path == Some(path) {
        let (s2, e2) = service_lost(s1);
        (s2, e1 + e2)
    } else if interfaces.contains(IFACE_STATION@) && s.station_path == Some(path) {
        let (s2, e2) = iwd::station_cleared(s1);
        let (s3, e3) = iwd::adapter_updated(s2, powered);
        (s3, e1 + e2 + e3)
    } else {
        (s1, e1)
    }
}

pub open spec fn adapter_proxy_made(s: ServiceView, powered: Option<bool>) -> Out {
    iwd::adapter_updated(ServiceView { adapter_ready: true, ..s }, powered)
}

pub open spec fn adapter_proxy_lost(s: ServiceView) -> Out {
    let s1 = ServiceView {
        adapter_path: None,
        snapshot: IwdView {
            available: s.snapshot.available && s.station_path is Some,
            ..s.snapshot
        },
        ..s
    };
    (s1, iwd::told(s1))
}

pub open spec fn station_proxy_made(s: ServiceView, p: StationView) -> Out {
    iwd::station_updated(ServiceView { station_ready: true, ..s }, p)
}

pub open spec fn station_proxy_lost(s: ServiceView) -> Out {
    let s1 = ServiceView {
        station_path: None,
        snapshot: IwdView {
            available: s.snapshot.available && s.adapter_path is Some,
            ..s.snapshot
        },
        ..s
    };
    (s1, iwd::told(s1))
}

/// A property changed on some interface.
pub open spec fn properties_changed(
    s: ServiceView,
    interface: Option<Seq<char>>,
    powered: Option<bool>,
    p: StationView,
) -> Out {
    if interface == Some(IFACE_ADAPTER@) {
        iwd::adapter_updated(s, powered)
    } else if interface == Some(IFACE_STATION@) {
        iwd::station_updated(s, p)
    } else {
        (s, iwd::nothing())
    }
}

fn same_name(a: Option<&str>, b: &str) -> (r: bool)
    ensures
        r == (text::opt_view(a) == Some(b@)),
{
    match a {
        Some(x) => text::str_eq(x, b),
        None => false,
    }
}

fn has_name(names: &Vec<String>, name: &str) -> (r: bool)
    ensures
        r == text::string_views(names@).contains(name@),
{
    let ghost views = text::string_views(names@);
    let mut i: usize = 0;
    while i < names.len()
        invariant
            i <= names.len(),
            views == text::string_views(names@),
            forall|j: int| 0 <= j < i ==> #[trigger] views[j] != name@,
        decreases names.len() - i,
    {
        if text::str_eq(names[i].as_str(), name) {
            assert(views[i as int] == name@);
            return true;
        }
        assert(views[i as int] == names@[i as int]@);
        i += 1;
    }
    assert(views.len() == names@.len());
    false
}

fn find_first_with(objects: &Vec<ManagedObject>, interface: &str) -> (r: Option<String>)
    ensures
        text::opt_string_view(r) == first_with(object_views(objects@), interface@),
{
    let ghost views = object_views(objects@);
    let mut found: Option<String> = None;
    let mut i: usize = 0;
    while i < objects.len()
        invariant
            i <= objects.len(),
            views == object_views(objects@),
            text::opt_string_view(found) == first_with(views.take(i as int), interface@),
        decreases objects.len() - i,
    {
        proof {
            assert(views.take(i + 1).drop_last() =~= views.take(i as int));
            assert(views.take(i + 1).last() == objects@[i as int]@);
        }
        if found.is_none() && has_name(&objects[i].interfaces, interface) {
            found = Some(objects[i].path.clone());
        }
        i += 1;
    }
    assert(views.take(objects@.len() as int) =~= views);
    found
}

impl IwdService {
    /// The system bus answered.
    pub fn on_bus(&mut self) -> (r: Vec<IwdEffect>)
        requires
            old(self).wf(),
        ensures
            final(self).wf(),
            final(self).callbacks == old(self).callbacks,
            (final(self)@, iwd::effect_views(r@)) == bus_connected(old(self)@),
    {
        self.bus = true;
        let e = iwd::both(
            iwd::one(IwdEffect::SubscribeSignals),
            iwd::one(IwdEffect::CreateWatcher),
        );
        assert(iwd::effect_views(e@) =~= bus_connected(old(self)@).1);
        e
    }

    fn discover(&self) -> (r: Vec<IwdEffect>)
        ensures
            iwd::effect_views(r@) == discovery(self@),
    {
        if self.bus {
            iwd::one(IwdEffect::Discover)
        } else {
            iwd::none()
        }
    }

    fn lose_service(&mut self) -> (r: Vec<IwdEffect>)
        requires
            old(self).wf(),
        ensures
            final(self).wf(),
            final(self).callbacks == old(self).callbacks,
            (final(self)@, iwd::effect_views(r@)) == service_lost(old(self)@),
    {
        let e = self.clear_proxies();
        let e2 = self.set_unavailable();
        iwd::both(e, e2)
    }

    /// The watcher was made, or could not be made.
    pub fn on_watcher(&mut self, has_owner: Option<bool>) -> (r: Vec<IwdEffect>)
        requires
            old(self).wf(),
        ensures
            final(self).wf(),
            final(self).callbacks == old(self).callbacks,
            (final(self)@, iwd::effect_views(r@)) == watcher_answered(old(self)@, has_owner),
    {
        match has_owner {
            Some(false) => self.set_unavailable(),
            _ => self.discover(),
        }
    }

    /// The daemon appeared on the bus or left it.
    pub fn on_name_owner(&mut self, has_owner: bool) -> (r: Vec<IwdEffect>)
        requires
            old(self).wf(),
        ensures
            final(self).wf(),
            final(self).callbacks == old(self).callbacks,
            (final(self)@, iwd::effect_views(r@)) == owner_changed(old(self)@, has_owner),
    {
        if has_owner {
            self.discover()
        } else {
            self.lose_service()
        }
    }

    /// A property changed; the properties are those known now.
    pub fn on_properties_changed(
        &mut self,
        interface: Option<&str>,
        powered: Option<bool>,
        props: &StationProps,
    ) -> (r: Vec<IwdEffect>)
        requires
            old(self).wf(),
        ensures
            final(self).wf(),
            final(self).callbacks == old(self).callbacks,
            (final(self)@, iwd::effect_views(r@)) == properties_changed(
                old(self)@,
                text::opt_view(interface),
                powered,
                props@,
            ),
    {
        if same_name(interface, IFACE_ADAPTER) {
            self.update_adapter_state(powered)
        } else if same_name(interface, IFACE_STATION) {
            self.update_station_state(props)
        } else {
            iwd::none()
        }
    }

    /// The daemon's objects came in, or asking for them failed.
    pub fn process_managed_objects(&mut self, objects: Option<&Vec<ManagedObject>>) -> (r: Vec<
        IwdEffect,
    >)
        requires
            old(self).wf(),
        ensures
            final(self).wf(),
            final(self).callbacks == old(self).callbacks,
            (final(self)@, iwd::effect_views(r@)) == match objects {
                Some(o) => objects_found(old(self)@, object_views(o@)),
                None => iwd::made_unavailable(old(self)@),
            },
    {
        let objects = match objects {
            Some(o) => o,
            None => {
                return self.set_unavailable();
            },
        };
        let adapter = find_first_with(objects, IFACE_ADAPTER);
        let station = find_first_with(objects, IFACE_STATION);
        let e1 = match adapter {
            Some(p) => self.adapter_discovered(p),
            None => iwd::none(),
        };
        let e2 = match station {
            Some(p) => self.station_discovered(p),
            None => iwd::none(),
        };
        let e3 = if self.adapter_path.is_none() && self.station_path.is_none() {
            self.set_unavailable()
        } else {
            iwd::none()
        };
        iwd::both(iwd::both(e1, e2), e3)
    }

    fn add_interface(&mut self, path: &String, interface: &str) -> (r: Vec<IwdEffect>)
        requires
            old(self).wf(),
        ensures
            final(self).wf(),
            final(self).callbacks == old(self).callbacks,
            (final(self)@, iwd::effect_views(r@)) == interface_added(
                old(self)@,
                path@,
                interface@,
            ),
    {
        if text::str_eq(interface, IFACE_ADAPTER) && self.adapter_path.is_none() {
            self.adapter_discovered(path.clone())
        } else if text::str_eq(interface, IFACE_STATION) && self.station_path.is_none() {
            self.station_discovered(path.clone())
        } else if text::str_eq(interface, IFACE_NETWORK) {
            self.schedule_network_refresh()
        } else {
            iwd::none()
        }
    }

    /// Interfaces appeared on an object.
    pub fn handle_interfaces_added(&mut self, path: &String, interfaces: &Vec<String>) -> (r: Vec<
        IwdEffect,
    >)
        requires
            old(self).wf(),
        ensures
            final(self).wf(),
            final(self).callbacks == old(self).callbacks,
            (final(self)@, iwd::effect_views(r@)) == interfaces_added(
                old(self)@,
                path@,
                text::string_views(interfaces@),
            ),
    {
        let ghost views = text::string_views(interfaces@);
        let ghost s0 = self@;
        let ghost c0 = self.callbacks;
        let mut out = iwd::none();
        let mut i: usize = 0;
        while i < interfaces.len()
            invariant
                i <= interfaces.len(),
                self.wf(),
                self.callbacks == c0,
                views == text::string_views(interfaces@),
                (self@, iwd::effect_views(out@)) == interfaces_added(
                    s0,
                    path@,
                    views.take(i as int),
                ),
            decreases interfaces.len() - i,
        {
            proof {
                assert(views.take(i + 1).drop_last() =~= views.take(i as int));
                assert(views.take(i + 1).last() == interfaces@[i as int]@);
            }
            let e = self.add_interface(path, interfaces[i].as_str());
            out = iwd::both(out, e);
            i += 1;
        }
        assert(views.take(interfaces@.len() as int) =~= views);
        out
    }

    /// Interfaces vanished from an object. `powered` is what the adapter says
    /// now.
    pub fn handle_interfaces_removed(
        &mut self,
        path: &String,
        interfaces: &Vec<String>,
        powered: Option<bool>,
    ) -> (r: Vec<IwdEffect>)
        requires
            old(self).wf(),
        ensures
            final(self).wf(),
            final(self).callbacks == old(self).callbacks,
            (final(self)@, iwd::effect_views(r@)) == interfaces_removed(
                old(self)@,
                path@,
                text::string_views(interfaces@),
                powered,
            ),
    {
        let lost_adapter = has_name(interfaces, IFACE_ADAPTER) && text::is_some_of(
            &self.adapter_path,
            path.as_str(),
        );
        let lost_station = has_name(interfaces, IFACE_STATION) && text::is_some_of(
            &self.station_path,
            path.as_str(),
        );
        let e = if has_name(interfaces, IFACE_NETWORK) {
            self.schedule_network_refresh()
        } else {
            iwd::none()
        };
        if lost_adapter {
            let e2 = self.lose_service();
            iwd::both(e, e2)
        } else if lost_station {
            let e2 = self.clear_station();
            let e3 = self.update_adapter_state(powered);
            iwd::both(iwd::both(e, e2), e3)
        } else {
            e
        }
    }

    /// A proxy for the adapter was made.
    pub fn on_adapter_proxy_made(&mut self, powered: Option<bool>) -> (r: Vec<IwdEffect>)
        requires
            old(self).wf(),
        ensures
            final(self).wf(),
            final(self).callbacks == old(self).callbacks,
            (final(self)@, iwd::effect_views(r@)) == adapter_proxy_made(old(self)@, powered),
    {
        self.adapter_ready = true;
        self.update_adapter_state(powered)
    }

    /// No proxy for the adapter could be made.
    pub fn on_adapter_proxy_lost(&mut self) -> (r: Vec<IwdEffect>)
        requires
            old(self).wf(),
        ensures
            final(self).wf(),
            final(self).callbacks == old(self).callbacks,
            (final(self)@, iwd::effect_views(r@)) == adapter_proxy_lost(old(self)@),
    {
        let still = self.snapshot.available && self.station_path.is_some();
        self.adapter_path = None;
        self.snapshot.set_available(still);
        assert(self@ == adapter_proxy_lost(old(self)@).0);
        self.notify()
    }

    /// A proxy for the station was made.
    pub fn on_station_proxy_made(&mut self, props: &StationProps) -> (r: Vec<IwdEffect>)
        requires
            old(self).wf(),
        ensures
            final(self).wf(),
            final(self).callbacks == old(self).callbacks,
            (final(self)@, iwd::effect_views(r@)) == station_proxy_made(old(self)@, props@),
    {
        self.station_ready = true;
        self.update_station_state(props)
    }

    /// No proxy for the station could be made.
    pub fn on_station_proxy_lost(&mut self) -> (r: Vec<IwdEffect>)
        requires
            old(self).wf(),
        ensures
            final(self).wf(),
            final(self).callbacks == old(self).callbacks,
            (final(self)@, iwd::effect_views(r@)) == station_proxy_lost(old(self)@),
    {
        let still = self.snapshot.available && self.adapter_path.is_some();
        self.station_path = None;
        self.snapshot.set_available(still);
        assert(self@ == station_proxy_lost(old(self)@).0);
        self.notify()
    }
}

// ---------------------------------------------------------------------------
// Connecting
// ---------------------------------------------------------------------------

/// The radio is switched through the adapter, where there is one.
pub open spec fn power_wanted(s: ServiceView, enabled: bool) -> Seq<EffectView> {
    if s.adapter_ready {
        seq![EffectView::SetPowered(enabled)]
    } else {
        iwd::nothing()
    }
}

/// The user wants to connect: earlier failures are forgotten and the state is
/// `Connecting` at once, whether or not the list knows the network.
pub open spec fn connecting(s: ServiceView, path: Seq<char>) -> ServiceView {
    let ssid = network::ssid_at(s.snapshot.networks, path);
    ServiceView {
        ssid_resolve_attempts: 0,
        agent_canceled_by_us: false,
        connecting_network: Some(
            (
                path,
                match ssid {
                    Some(n) => n,
                    None => Seq::empty(),
                },
            ),
        ),
        snapshot: IwdView {
            failed_ssid: None,
            failed_reason: None,
            state: Some(StationState::Connecting),
            ssid,
            ..s.snapshot
        },
        ..s
    }
}

pub open spec fn connect_wanted(s: ServiceView, path: Seq<char>) -> Out {
    let s1 = connecting(s, path);
    (
        s1,
        iwd::told(s1).push(
            EffectView::CallConnect {
                path,
                cached_ssid: network::ssid_at(s.snapshot.networks, path),
                generation: s.generation,
            },
        ),
    )
}

/// The name under which a failure is shown.
pub open spec fn failure_ssid_spec(read: Option<Seq<char>>, cached: Option<Seq<char>>) -> Seq<
    char,
> {
    match (read, cached) {
        (Some(n), _) => n,
        (None, Some(n)) => n,
        (None, None) => "Unknown network"@,
    }
}

/// The name under which a failure is shown: what the daemon says, else what
/// the list said, else a fixed text.
pub fn failure_ssid(read: Option<String>, cached: Option<String>) -> (r: String)
    ensures
        r@ == failure_ssid_spec(text::opt_string_view(read), text::opt_string_view(cached)),
{
    match read {
        Some(n) => n,
        None => match cached {
            Some(n) => n,
            None => "Unknown network".to_string(),
        },
    }
}

/// What an error of a connect call means.
#[derive(Debug, Clone, Copy, PartialEq, Eq, Structural)]
pub enum ConnectError {
    /// Another attempt is under way and will settle the state.
    InProgress,
    /// The agent refused: a wrong password, unless the refusal was ours.
    Agent,
    ConnectionFailed,
    NotFound,
    NotSupported,
    NotConfigured,
    PermissionDenied,
    NotConnected,
}

pub open spec fn connect_error_of(name: Seq<char>) -> ConnectError {
    if name == "net.connman.iwd.InProgress"@ {
        ConnectError::InProgress
    } else if name == "net.connman.iwd.Aborted"@ || name == "net.connman.iwd.NotAvailable"@ {
        ConnectError::ConnectionFailed
    } else if text::has_prefix(name, "net.connman.iwd.Agent"@) {
        ConnectError::Agent
    } else if name == "net.connman.iwd.NotFound"@ {
        ConnectError::NotFound
    } else if name == "net.connman.iwd.NotSupported"@ {
        ConnectError::NotSupported
    } else if name == "net.connman.iwd.NotConfigured"@ {
        ConnectError::NotConfigured
    } else if name == "net.connman.iwd.PermissionDenied"@ {
        ConnectError::PermissionDenied
    } else if name == "net.connman.iwd.NotConnected"@ {
        ConnectError::NotConnected
    } else {
        ConnectError::ConnectionFailed
    }
}

/// The reason shown for an error.
pub open spec fn reason_of(e: ConnectError) -> Seq<char> {
    match e {
        ConnectError::NotFound => "Network not found"@,
        ConnectError::NotSupported => "Not supported"@,
        ConnectError::NotConfigured => "Not configured"@,
        ConnectError::PermissionDenied => "Permission denied"@,
        ConnectError::NotConnected => "Not connected"@,
        ConnectError::Agent => AUTH_FAILURE_REASON@,
        _ => CONNECTION_FAILURE_REASON@,
    }
}

impl ConnectError {
    /// Reads the name of a D-Bus error; empty where it has none.
    pub fn from_name(name: &str) -> (r: ConnectError)
        ensures
            r == connect_error_of(name@),
    {
        if text::str_eq(name, "net.connman.iwd.InProgress") {
            ConnectError::InProgress
        } else if text::str_eq(name, "net.connman.iwd.Aborted") || text::str_eq(
            name,
            "net.connman.iwd.NotAvailable",
        ) {
            ConnectError::ConnectionFailed
        } else if text::starts_with(name, "net.connman.iwd.Agent") {
            ConnectError::Agent
        } else if text::str_eq(name, "net.connman.iwd.NotFound") {
            ConnectError::NotFound
        } else if text::str_eq(name, "net.connman.iwd.NotSupported") {
            ConnectError::NotSupported
        } else if text::str_eq(name, "net.connman.iwd.NotConfigured") {
            ConnectError::NotConfigured
        } else if text::str_eq(name, "net.connman.iwd.PermissionDenied") {
            ConnectError::PermissionDenied
        } else if text::str_eq(name, "net.connman.iwd.NotConnected") {
            ConnectError::NotConnected
        } else {
            ConnectError::ConnectionFailed
        }
    }

    pub fn reason(&self) -> (r: &'static str)
        ensures
            r@ == reason_of(*self),
    {
        match self {
            ConnectError::NotFound => "Network not found",
            ConnectError::NotSupported => "Not supported",
            ConnectError::NotConfigured => "Not configured",
            ConnectError::PermissionDenied => "Permission denied",
            ConnectError::NotConnected => "Not connected",
            ConnectError::Agent => AUTH_FAILURE_REASON,
            _ => CONNECTION_FAILURE_REASON,
        }
    }
}

/// A connect call failed.
pub open spec fn connect_failed(
    s: ServiceView,
    e: ConnectError,
    ssid: Seq<char>,
    generation: u64,
) -> Out {
    match e {
        ConnectError::InProgress => (s, iwd::nothing()),
        ConnectError::Agent => {
            let s1 = ServiceView { agent_canceled_by_us: false, ..s };
            if s.agent_canceled_by_us {
                (s1, iwd::nothing())
            } else {
                iwd::connection_failed(s1, ssid, reason_of(e), generation)
            }
        },
        _ => iwd::connection_failed(s, ssid, reason_of(e), generation),
    }
}

/// The request that waits is refused on behalf of the user.
pub open spec fn auth_canceled(s: ServiceView) -> Out {
    if s.pending_auth is None {
        (s, iwd::nothing())
    } else {
        let (s1, e1) = iwd::refuse_pending(s, CancelReason::UserCanceled);
        let s2 = ServiceView { connecting_network: None, pending_password: None, ..s1 };
        let (s3, e3) = auth_cleared(s2);
        (s3, e1 + e3)
    }
}

pub open spec fn disconnect_wanted(s: ServiceView) -> Out {
    let (s1, e) = auth_canceled(s);
    (s1, e + if s1.station_ready {
        seq![EffectView::CallDisconnect]
    } else {
        iwd::nothing()
    })
}

/// A scan is asked for, unless one is; listeners see it at once.
pub open spec fn scan_wanted(s: ServiceView) -> Out {
    if s.scan_in_progress || !s.station_ready {
        (s, iwd::nothing())
    } else {
        let s1 = ServiceView {
            scan_in_progress: true,
            snapshot: IwdView { scanning: true, ..s.snapshot },
            ..s
        };
        (
            s1,
            (if s.snapshot.scanning {
                iwd::nothing()
            } else {
                iwd::told(s1)
            }) + seq![EffectView::CallScan],
        )
    }
}

pub open spec fn auth_cleared(s: ServiceView) -> Out {
    if s.snapshot.auth_request is None {
        (s, iwd::nothing())
    } else {
        let s1 = ServiceView { snapshot: IwdView { auth_request: None, ..s.snapshot }, ..s };
        (s1, iwd::told(s1))
    }
}

pub open spec fn failure_set(s: ServiceView, ssid: Seq<char>, reason: Seq<char>) -> Out {
    let s1 = ServiceView {
        snapshot: IwdView {
            failed_ssid: Some(ssid),
            failed_reason: Some(reason),
            ..s.snapshot
        },
        ..s
    };
    (s1, iwd::told(s1))
}

pub open spec fn failure_cleared(s: ServiceView) -> Out {
    if s.snapshot.failed_ssid is None {
        (s, iwd::nothing())
    } else {
        let s1 = ServiceView {
            snapshot: IwdView { failed_ssid: None, failed_reason: None, ..s.snapshot },
            ..s
        };
        (s1, iwd::told(s1))
    }
}

/// The request that waits gets its password.
pub open spec fn passphrase_submitted(s: ServiceView, passphrase: Seq<char>) -> Out {
    match s.pending_auth {
        None => (s, iwd::nothing()),
        Some(token) => {
            let (s1, e) = auth_cleared(ServiceView { pending_auth: None, ..s });
            (s1, seq![EffectView::AnswerAuth { token, passphrase }] + e)
        },
    }
}

pub open spec fn shut_down(s: ServiceView) -> Out {
    let (s1, e) = iwd::refuse_pending(s, CancelReason::ShuttingDown);
    if s.bus && s.agent_exported {
        (ServiceView { agent_exported: false, ..s1 }, e + seq![EffectView::UnexportAgent])
    } else {
        (s1, e)
    }
}

impl IwdService {
    /// Switches the radio.
    pub fn set_wifi_enabled(&self, enabled: bool) -> (r: Vec<IwdEffect>)
        ensures
            iwd::effect_views(r@) == power_wanted(self@, enabled),
    {
        if self.adapter_ready {
            iwd::one(IwdEffect::SetPowered(enabled))
        } else {
            iwd::none()
        }
    }

    /// Connects to the network of an object path.
    pub fn connect_to_network(&mut self, path: &str) -> (r: Vec<IwdEffect>)
        requires
            old(self).wf(),
        ensures
            final(self).wf(),
            final(self).callbacks == old(self).callbacks,
            (final(self)@, iwd::effect_views(r@)) == connect_wanted(old(self)@, path@),
    {
        let ssid = network::find_ssid(&self.snapshot.networks, path);
        let fallback = match &ssid {
            Some(n) => n.clone(),
            None => String::new(),
        };
        let cached_ssid = text::clone_opt(&ssid);
        self.ssid_resolve_attempts = 0;
        self.agent_canceled_by_us = false;
        self.connecting_network = Some((path.to_string(), fallback));
        self.snapshot.begin_attempt(ssid);
        assert(ssid is None ==> fallback@ =~= Seq::<char>::empty());
        assert(self@ == connecting(old(self)@, path@));
        let e = self.notify();
        let e2 = iwd::one(
            IwdEffect::CallConnect {
                path: path.to_string(),
                cached_ssid,
                generation: self.generation,
            },
        );
        let r = iwd::both(e, e2);
        assert(iwd::effect_views(r@) =~= connect_wanted(old(self)@, path@).1);
        r
    }

    /// A connect call failed; without an error, no proxy could be made for the
    /// network.
    pub fn on_connect_failed(
        &mut self,
        error: Option<&str>,
        ssid: String,
        generation: u64,
    ) -> (r: Vec<IwdEffect>)
        requires
            old(self).wf(),
        ensures
            final(self).wf(),
            final(self).callbacks == old(self).callbacks,
            (final(self)@, iwd::effect_views(r@)) == connect_failed(
                old(self)@,
                match error {
                    Some(n) => connect_error_of(n@),
                    None => ConnectError::NotFound,
                },
                ssid@,
                generation,
            ),
    {
        let e = match error {
            Some(n) => ConnectError::from_name(n),
            None => ConnectError::NotFound,
        };
        match e {
            ConnectError::InProgress => {
                return iwd::none();
            },
            ConnectError::Agent => {
                let ours = self.agent_canceled_by_us;
                self.agent_canceled_by_us = false;
                if ours {
                    return iwd::none();
                }
            },
            _ => {},
        }
        self.take_failure(ssid, e.reason().to_string(), generation)
    }

    /// Leaves the network.
    pub fn disconnect(&mut self) -> (r: Vec<IwdEffect>)
        requires
            old(self).wf(),
        ensures
            final(self).wf(),
            final(self).callbacks == old(self).callbacks,
            (final(self)@, iwd::effect_views(r@)) == disconnect_wanted(old(self)@),
    {
        let e = self.cancel_auth();
        let e2 = if self.station_ready {
            iwd::one(IwdEffect::CallDisconnect)
        } else {
            iwd::none()
        };
        iwd::both(e, e2)
    }

    /// Forgets a known network.
    pub fn forget_network(&self, path: &str) -> (r: Vec<IwdEffect>)
        ensures
            iwd::effect_views(r@) == seq![EffectView::CallForget(path@)],
    {
        iwd::one(IwdEffect::CallForget(path.to_string()))
    }

    /// A network was forgotten, or could not be.
    pub fn on_forgotten(&mut self, done: bool) -> (r: Vec<IwdEffect>)
        requires
            old(self).wf(),
        ensures
            final(self).wf(),
            final(self).callbacks == old(self).callbacks,
            (final(self)@, iwd::effect_views(r@)) == if done {
                iwd::refresh_started(old(self)@, false)
            } else {
                (old(self)@, iwd::nothing())
            },
    {
        if done {
            self.refresh_networks_async(false)
        } else {
            iwd::none()
        }
    }

    /// Asks for a scan.
    pub fn scan_networks(&mut self) -> (r: Vec<IwdEffect>)
        requires
            old(self).wf(),
        ensures
            final(self).wf(),
            final(self).callbacks == old(self).callbacks,
            (final(self)@, iwd::effect_views(r@)) == scan_wanted(old(self)@),
    {
        if self.scan_in_progress || !self.station_ready {
            return iwd::none();
        }
        let was = self.snapshot.scanning;
        self.scan_in_progress = true;
        self.snapshot.scanning = true;
        assert(self@ == scan_wanted(old(self)@).0);
        let e = if was {
            iwd::none()
        } else {
            self.notify()
        };
        iwd::both(e, iwd::one(IwdEffect::CallScan))
    }

    /// A scan call returned. The flag is cleared here too: where the daemon was
    /// scanning already, its property does not change.
    pub fn on_scan_returned(&mut self)
        requires
            old(self).wf(),
        ensures
            final(self).wf(),
            final(self).callbacks == old(self).callbacks,
            final(self)@ == (ServiceView { scan_in_progress: false, ..old(self)@ }),
    {
        self.scan_in_progress = false;
    }

    fn clear_auth_state(&mut self) -> (r: Vec<IwdEffect>)
        requires
            old(self).wf(),
        ensures
            final(self).wf(),
            final(self).callbacks == old(self).callbacks,
            (final(self)@, iwd::effect_views(r@)) == auth_cleared(old(self)@),
    {
        if self.snapshot.auth_request.is_none() {
            return iwd::none();
        }
        self.snapshot.set_auth(None);
        assert(self@ == auth_cleared(old(self)@).0);
        self.notify()
    }

    /// Marks a network as failed.
    pub fn set_failed_ssid(&mut self, ssid: &str, reason: &str) -> (r: Vec<IwdEffect>)
        requires
            old(self).wf(),
        ensures
            final(self).wf(),
            final(self).callbacks == old(self).callbacks,
            (final(self)@, iwd::effect_views(r@)) == failure_set(old(self)@, ssid@, reason@),
    {
        self.snapshot.set_failure(Some(ssid.to_string()), Some(reason.to_string()));
        assert(self@ == failure_set(old(self)@, ssid@, reason@).0);
        self.notify()
    }

    /// Forgets a failure.
    pub fn clear_failed_state(&mut self) -> (r: Vec<IwdEffect>)
        requires
            old(self).wf(),
        ensures
            final(self).wf(),
            final(self).callbacks == old(self).callbacks,
            (final(self)@, iwd::effect_views(r@)) == failure_cleared(old(self)@),
    {
        if self.snapshot.failed_ssid.is_none() {
            return iwd::none();
        }
        self.snapshot.set_failure(None, None);
        assert(self@ == failure_cleared(old(self)@).0);
        self.notify()
    }

    /// Keeps a password for the next request, or drops the one kept.
    pub fn set_pending_password(&mut self, password: Option<&str>)
        requires
            old(self).wf(),
        ensures
            final(self).wf(),
            final(self).callbacks == old(self).callbacks,
            final(self)@ == (ServiceView {
                pending_password: text::opt_view(password),
                ..old(self)@
            }),
    {
        let p = match password {
            Some(p) => Some(p.to_string()),
            None => None,
        };
        self.pending_password = p;
    }

    /// Answers the request that waits.
    pub fn submit_passphrase(&mut self, passphrase: &str) -> (r: Vec<IwdEffect>)
        requires
            old(self).wf(),
        ensures
            final(self).wf(),
            final(self).callbacks == old(self).callbacks,
            (final(self)@, iwd::effect_views(r@)) == passphrase_submitted(
                old(self)@,
                passphrase@,
            ),
    {
        let token: u64 = match self.pending_auth {
            Some(t) => t,
            None => {
                return iwd::none();
            },
        };
        self.pending_auth = None;
        let e = self.clear_auth_state();
        iwd::both(iwd::one(IwdEffect::AnswerAuth { token, passphrase: passphrase.to_string() }), e)
    }

    /// Refuses the request that waits.
    pub fn cancel_auth(&mut self) -> (r: Vec<IwdEffect>)
        requires
            old(self).wf(),
        ensures
            final(self).wf(),
            final(self).callbacks == old(self).callbacks,
            (final(self)@, iwd::effect_views(r@)) == auth_canceled(old(self)@),
    {
        if self.pending_auth.is_none() {
            return iwd::none();
        }
        let e = self.refuse_pending_auth(CancelReason::UserCanceled);
        self.connecting_network = None;
        self.pending_password = None;
        let e2 = self.clear_auth_state();
        iwd::both(e, e2)
    }

    /// The service goes away.
    pub fn shutdown(&mut self) -> (r: Vec<IwdEffect>)
        requires
            old(self).wf(),
        ensures
            final(self).wf(),
            final(self).callbacks == old(self).callbacks,
            (final(self)@, iwd::effect_views(r@)) == shut_down(old(self)@),
    {
        let e = self.refuse_pending_auth(CancelReason::ShuttingDown);
        if self.bus && self.agent_exported {
            self.agent_exported = false;
            iwd::both(e, iwd::one(IwdEffect::UnexportAgent))
        } else {
            e
        }
    }
}

// ---------------------------------------------------------------------------
// The agent
// ---------------------------------------------------------------------------

pub open spec fn agent_export_answered(s: ServiceView, done: bool) -> Out {
    if done {
        (
            ServiceView { agent_exported: true, ..s },
            seq![EffectView::RegisterAgent { is_retry: false }],
        )
    } else {
        (s, iwd::nothing())
    }
}

/// Registering returned. A name that is taken is freed once and taken again;
/// any other failure is retried once; a second clash counts as registered.
pub open spec fn agent_register_answered(
    s: ServiceView,
    is_retry: bool,
    error: Option<Seq<char>>,
) -> Out {
    match error {
        None => (ServiceView { agent_registered: true, ..s }, iwd::nothing()),
        Some(n) => if n == "net.connman.iwd.AlreadyExists"@ {
            if is_retry {
                (ServiceView { agent_registered: true, ..s }, iwd::nothing())
            } else {
                (s, seq![EffectView::UnregisterThenRegister])
            }
        } else if !is_retry {
            (s, seq![EffectView::RetryRegisterLater])
        } else {
            (s, iwd::nothing())
        },
    }
}

pub open spec fn register_retry_due(s: ServiceView) -> Seq<EffectView> {
    if s.bus {
        seq![EffectView::RegisterAgent { is_retry: true }]
    } else {
        iwd::nothing()
    }
}

/// The network that a cancellation is about.
pub open spec fn canceled_ssid(s: ServiceView) -> Option<Seq<char>> {
    match s.snapshot.auth_request {
        Some(n) => Some(n),
        None => match s.connecting_network {
            Some(p) => Some(p.1),
            None => None,
        },
    }
}

/// What is shown for a cancellation by the daemon. The user's own and a
/// shutdown are silent.
pub open spec fn cancellation_reason(reason: Seq<char>) -> Option<Seq<char>> {
    if reason == "timed-out"@ {
        Some("Authentication timed out"@)
    } else if reason == "out-of-range"@ {
        Some("Network out of range"@)
    } else if reason == "user-canceled"@ || reason == "shutdown"@ {
        None
    } else {
        Some(CONNECTION_FAILURE_REASON@)
    }
}

pub open spec fn cancellation_shown(s: ServiceView, reason: Seq<char>) -> Out {
    match (canceled_ssid(s), cancellation_reason(reason)) {
        (Some(ssid), Some(r)) => failure_set(s, ssid, r),
        _ => (s, iwd::nothing()),
    }
}

pub open spec fn agent_cancel(s: ServiceView, token: u64, reason: Seq<char>) -> Out {
    let (s1, e1) = cancellation_shown(s, reason);
    let (s2, e2) = iwd::refuse_pending(s1, CancelReason::Canceled);
    let (s3, e3) = auth_cleared(ServiceView { connecting_network: None, ..s2 });
    (s3, e1 + e2 + e3 + seq![EffectView::Reply(token)])
}

/// The name shown in the password dialog.
pub open spec fn asked_ssid(s: ServiceView, path: Seq<char>) -> Seq<char> {
    match network::ssid_at(s.snapshot.networks, path) {
        Some(n) => n,
        None => match s.connecting_network {
            Some(p) => if p.1.len() > 0 {
                p.1
            } else {
                "Unknown"@
            },
            None => "Unknown"@,
        },
    }
}

/// A password was asked for on behalf of a network other than the one being
/// connected to.
pub open spec fn unexpected(s: ServiceView, path: Seq<char>) -> bool {
    match s.connecting_network {
        Some(p) => p.0 != path,
        None => false,
    }
}

/// The user is asked for a password.
pub open spec fn asked(s: ServiceView, ssid: Seq<char>) -> Out {
    let s1 = ServiceView {
        snapshot: IwdView {
            auth_request: Some(ssid),
            failed_ssid: None,
            failed_reason: None,
            ..s.snapshot
        },
        ..s
    };
    (s1, iwd::told(s1))
}

/// The daemon wants a password. A request for another network is refused, an
/// earlier one is superseded, and a password kept for this is given at once.
pub open spec fn passphrase_requested(s: ServiceView, token: u64, path: Option<Seq<char>>) -> Out {
    match path {
        None => (s, seq![EffectView::ReplyMissingPath(token)]),
        Some(path) => if unexpected(s, path) {
            (
                ServiceView { agent_canceled_by_us: true, ..s },
                seq![EffectView::RefuseAuth { token, reason: CancelReason::UnexpectedNetwork }],
            )
        } else {
            let (s1, e1) = iwd::refuse_pending(s, CancelReason::Superseded);
            let s2 = ServiceView { pending_auth: Some(token), pending_password: None, ..s1 };
            let (s3, e3) = match s.pending_password {
                Some(p) => passphrase_submitted(s2, p),
                None => asked(s2, asked_ssid(s, path)),
            };
            (s3, e1 + seq![EffectView::StartAuthTimer(token)] + e3)
        },
    }
}

/// The name shown where an enterprise network asks for what is not supported.
pub open spec fn enterprise_ssid(s: ServiceView, path: Seq<char>) -> Seq<char> {
    match network::ssid_at(s.snapshot.networks, path) {
        Some(n) => n,
        None => match s.connecting_network {
            Some(p) => p.1,
            None => "Unknown"@,
        },
    }
}

pub open spec fn enterprise_requested(s: ServiceView, token: u64, path: Option<Seq<char>>) -> Out {
    let (s1, e1) = match path {
        Some(p) => failure_set(s, enterprise_ssid(s, p), "Enterprise WiFi not supported"@),
        None => (s, iwd::nothing()),
    };
    (
        ServiceView { agent_canceled_by_us: true, ..s1 },
        e1 + seq![EffectView::RefuseAuth { token, reason: CancelReason::Enterprise }],
    )
}

/// A method of the agent was called.
pub open spec fn agent_called(
    s: ServiceView,
    token: u64,
    method: Seq<char>,
    path: Option<Seq<char>>,
    reason: Seq<char>,
) -> Out {
    if method == "Release"@ {
        (ServiceView { agent_registered: false, ..s }, seq![EffectView::Reply(token)])
    } else if method == "Cancel"@ {
        agent_cancel(s, token, reason)
    } else if method == "RequestPassphrase"@ || method == "RequestPrivateKeyPassphrase"@ {
        passphrase_requested(s, token, path)
    } else if method == "RequestUserNameAndPassword"@ || method == "RequestUserPassword"@ {
        enterprise_requested(s, token, path)
    } else {
        (s, seq![EffectView::ReplyUnknownMethod(token, method)])
    }
}

/// The user took too long.
pub open spec fn auth_timed_out(s: ServiceView) -> Out {
    let (s1, e1) = iwd::refuse_pending(s, CancelReason::TimedOut);
    let s2 = ServiceView { connecting_network: None, ..s1 };
    let (s3, e3) = match s.connecting_network {
        Some(p) => failure_set(s2, p.1, "Authentication timed out"@),
        None => (s2, iwd::nothing()),
    };
    let (s4, e4) = auth_cleared(s3);
    (s4, e1 + e3 + e4)
}

impl IwdService {
    /// The agent object was exported, or could not be.
    pub fn on_agent_exported(&mut self, done: bool) -> (r: Vec<IwdEffect>)
        requires
            old(self).wf(),
        ensures
            final(self).wf(),
            final(self).callbacks == old(self).callbacks,
            (final(self)@, iwd::effect_views(r@)) == agent_export_answered(old(self)@, done),
    {
        if done {
            self.agent_exported = true;
            iwd::one(IwdEffect::RegisterAgent { is_retry: false })
        } else {
            iwd::none()
        }
    }

    /// Registering returned, with the name of the error where it failed.
    pub fn on_agent_registered(&mut self, is_retry: bool, error: Option<&str>) -> (r: Vec<
        IwdEffect,
    >)
        requires
            old(self).wf(),
        ensures
            final(self).wf(),
            final(self).callbacks == old(self).callbacks,
            (final(self)@, iwd::effect_views(r@)) == agent_register_answered(
                old(self)@,
                is_retry,
                text::opt_view(error),
            ),
    {
        let clash = match error {
            None => {
                self.agent_registered = true;
                return iwd::none();
            },
            Some(n) => text::str_eq(n, "net.connman.iwd.AlreadyExists"),
        };
        if clash {
            if is_retry {
                self.agent_registered = true;
                return iwd::none();
            }
            return iwd::one(IwdEffect::UnregisterThenRegister);
        }
        if is_retry {
            iwd::none()
        } else {
            iwd::one(IwdEffect::RetryRegisterLater)
        }
    }

    /// It is time to register again.
    pub fn on_register_retry(&self) -> (r: Vec<IwdEffect>)
        ensures
            iwd::effect_views(r@) == register_retry_due(self@),
    {
        if self.bus {
            iwd::one(IwdEffect::RegisterAgent { is_retry: true })
        } else {
            iwd::none()
        }
    }

    /// The name being connected to.
    fn connecting_ssid(&self) -> (r: Option<String>)
        ensures
            text::opt_string_view(r) == match self@.connecting_network {
                Some(p) => Some(p.1),
                None => None,
            },
    {
        match &self.connecting_network {
            Some(p) => Some(p.1.clone()),
            None => None,
        }
    }

    fn show_cancellation(&mut self, reason: &str) -> (r: Vec<IwdEffect>)
        requires
            old(self).wf(),
        ensures
            final(self).wf(),
            final(self).callbacks == old(self).callbacks,
            (final(self)@, iwd::effect_views(r@)) == cancellation_shown(old(self)@, reason@),
    {
        let ssid = match &self.snapshot.auth_request {
            Some(a) => Some(a.ssid.clone()),
            None => self.connecting_ssid(),
        };
        assert(text::opt_string_view(ssid) == canceled_ssid(self@));
        let shown: &str = if text::str_eq(reason, "timed-out") {
            "Authentication timed out"
        } else if text::str_eq(reason, "out-of-range") {
            "Network out of range"
        } else if text::str_eq(reason, "user-canceled") || text::str_eq(reason, "shutdown") {
            return iwd::none();
        } else {
            CONNECTION_FAILURE_REASON
        };
        match ssid {
            Some(n) => self.set_failed_ssid(n.as_str(), shown),
            None => iwd::none(),
        }
    }

    fn handle_cancel(&mut self, token: u64, reason: &str) -> (r: Vec<IwdEffect>)
        requires
            old(self).wf(),
        ensures
            final(self).wf(),
            final(self).callbacks == old(self).callbacks,
            (final(self)@, iwd::effect_views(r@)) == agent_cancel(old(self)@, token, reason@),
    {
        let e1 = self.show_cancellation(reason);
        let e2 = self.refuse_pending_auth(CancelReason::Canceled);
        self.connecting_network = None;
        let e3 = self.clear_auth_state();
        iwd::both(iwd::both(iwd::both(e1, e2), e3), iwd::one(IwdEffect::Reply(token)))
    }

    fn asked_name(&self, path: &str) -> (r: String)
        ensures
            r@ == asked_ssid(self@, path@),
    {
        match network::find_ssid(&self.snapshot.networks, path) {
            Some(n) => n,
            None => match self.connecting_ssid() {
                Some(n) => if n.as_str().unicode_len() > 0 {
                    n
                } else {
                    "Unknown".to_string()
                },
                None => "Unknown".to_string(),
            },
        }
    }

    fn ask_user(&mut self, ssid: String) -> (r: Vec<IwdEffect>)
        requires
            old(self).wf(),
        ensures
            final(self).wf(),
            final(self).callbacks == old(self).callbacks,
            (final(self)@, iwd::effect_views(r@)) == asked(old(self)@, ssid@),
    {
        self.snapshot.set_auth(Some(IwdAuthRequest { ssid }));
        self.snapshot.set_failure(None, None);
        assert(self@ == asked(old(self)@, ssid@).0);
        self.notify()
    }

    /// The daemon wants a password for a network.
    pub fn handle_request_passphrase(&mut self, token: u64, path: Option<&str>) -> (r: Vec<
        IwdEffect,
    >)
        requires
            old(self).wf(),
        ensures
            final(self).wf(),
            final(self).callbacks == old(self).callbacks,
            (final(self)@, iwd::effect_views(r@)) == passphrase_requested(
                old(self)@,
                token,
                text::opt_view(path),
            ),
    {
        let path = match path {
            Some(p) => p,
            None => {
                return iwd::one(IwdEffect::ReplyMissingPath(token));
            },
        };
        let other = match &self.connecting_network {
            Some(p) => !text::str_eq(p.0.as_str(), path),
            None => false,
        };
        if other {
            self.agent_canceled_by_us = true;
            return iwd::one(
                IwdEffect::RefuseAuth { token, reason: CancelReason::UnexpectedNetwork },
            );
        }
        let ssid = self.asked_name(path);
        let stashed = text::clone_opt(&self.pending_password);
        let e1 = self.refuse_pending_auth(CancelReason::Superseded);
        self.pending_auth = Some(token);
        self.pending_password = None;
        let e2 = iwd::one(IwdEffect::StartAuthTimer(token));
        let e3 = match stashed {
            Some(p) => self.submit_passphrase(p.as_str()),
            None => self.ask_user(ssid),
        };
        iwd::both(iwd::both(e1, e2), e3)
    }

    fn handle_enterprise(&mut self, token: u64, path: Option<&str>) -> (r: Vec<IwdEffect>)
        requires
            old(self).wf(),
        ensures
            final(self).wf(),
            final(self).callbacks == old(self).callbacks,
            (final(self)@, iwd::effect_views(r@)) == enterprise_requested(
                old(self)@,
                token,
                text::opt_view(path),
            ),
    {
        let e = match path {
            Some(p) => {
                let ssid = match network::find_ssid(&self.snapshot.networks, p) {
                    Some(n) => n,
                    None => match self.connecting_ssid() {
                        Some(n) => n,
                        None => "Unknown".to_string(),
                    },
                };
                self.set_failed_ssid(ssid.as_str(), "Enterprise WiFi not supported")
            },
            None => iwd::none(),
        };
        self.agent_canceled_by_us = true;
        iwd::both(
            e,
            iwd::one(IwdEffect::RefuseAuth { token, reason: CancelReason::Enterprise }),
        )
    }

    /// The daemon calls a method of the agent. `path` and `reason` are the
    /// first argument read as an object path and as a text.
    pub fn handle_agent_method(
        &mut self,
        token: u64,
        method: &str,
        path: Option<&str>,
        reason: &str,
    ) -> (r: Vec<IwdEffect>)
        requires
            old(self).wf(),
        ensures
            final(self).wf(),
            final(self).callbacks == old(self).callbacks,
            (final(self)@, iwd::effect_views(r@)) == agent_called(
                old(self)@,
                token,
                method@,
                text::opt_view(path),
                reason@,
            ),
    {
        if text::str_eq(method, "Release") {
            self.agent_registered = false;
            iwd::one(IwdEffect::Reply(token))
        } else if text::str_eq(method, "Cancel") {
            self.handle_cancel(token, reason)
        } else if text::str_eq(method, "RequestPassphrase") || text::str_eq(
            method,
            "RequestPrivateKeyPassphrase",
        ) {
            self.handle_request_passphrase(token, path)
        } else if text::str_eq(method, "RequestUserNameAndPassword") || text::str_eq(
            method,
            "RequestUserPassword",
        ) {
            self.handle_enterprise(token, path)
        } else {
            iwd::one(IwdEffect::ReplyUnknownMethod(token, method.to_string()))
        }
    }

    /// The timer of the request that waits fired.
    pub fn on_auth_timeout(&mut self) -> (r: Vec<IwdEffect>)
        requires
            old(self).wf(),
        ensures
            final(self).wf(),
            final(self).callbacks == old(self).callbacks,
            (final(self)@, iwd::effect_views(r@)) == auth_timed_out(old(self)@),
    {
        let ssid = self.connecting_ssid();
        let e1 = self.refuse_pending_auth(CancelReason::TimedOut);
        self.connecting_network = None;
        let e2 = match ssid {
            Some(n) => self.set_failed_ssid(n.as_str(), "Authentication timed out"),
            None => iwd::none(),
        };
        let e3 = self.clear_auth_state();
        iwd::both(iwd::both(e1, e2), e3)
    }
}

} // verus!

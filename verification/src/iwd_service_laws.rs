//! What holds of the steps of the iwd service: what each event does to it and
//! what it asks for.

use vstd::prelude::*;
use vstd::string::*;

use crate::iwd;
use crate::iwd::{CancelReason, EffectView, ServiceView, StationProps, StationView};
use crate::iwd_events;
use crate::iwd_events::{ConnectError, ObjectView};
use crate::network;
use crate::network::{IwdView, NetView, StationState};

verus! {

// ---------------------------------------------------------------------------
// Teardown
// ---------------------------------------------------------------------------

/// A request that waits is refused under its own token with the reason given,
/// and the refusal is remembered as ours. Without one nothing happens.
pub proof fn law_refusal_is_for_the_waiting_request(s: ServiceView, reason: CancelReason)
    ensures
        ({
            let (t, e) = iwd::refuse_pending(s, reason);
            &&& t.pending_auth is None
            &&& s.pending_auth matches Some(token) ==> t.agent_canceled_by_us && e == seq![
                EffectView::RefuseAuth { token, reason },
            ]
            &&& s.pending_auth is None ==> t == s && e.len() == 0
            &&& t.snapshot == s.snapshot && t.connecting_network == s.connecting_network
                && t.pending_password == s.pending_password
        }),
{
}

/// A teardown ends what is on its way: no attempt, scan, refresh or kept password
/// is left.
pub proof fn law_teardown_ends_what_is_on_its_way(s: ServiceView)
    ensures
        ({
            let p = iwd::proxies_cleared(s).0;
            let c = iwd::station_cleared(s).0;
            &&& p.connecting_network is None && c.connecting_network is None
            &&& p.pending_password is None && c.pending_password is None
            &&& !p.scan_in_progress && !c.scan_in_progress
            &&& !p.refresh_in_progress && !c.refresh_in_progress
            &&& !p.refresh_needed && !c.refresh_needed
            &&& !p.network_refresh_pending && !c.network_refresh_pending
            &&& p.ssid_resolve_attempts == 0 && c.ssid_resolve_attempts == 0
            &&& p.pending_auth is None && c.pending_auth is None
            &&& !p.station_ready && p.station_path is None
            &&& !c.station_ready && c.station_path is None
            &&& !p.adapter_ready && p.adapter_path is None
            &&& c.adapter_ready == s.adapter_ready
            &&& !p.agent_exported && !p.agent_registered
            &&& c.agent_exported == s.agent_exported && c.agent_registered == s.agent_registered
            &&& p.bus == s.bus && c.bus == s.bus
            &&& s.generation < u64::MAX ==> p.generation == s.generation + 1 && c.generation
                == s.generation + 1
        }),
{
}

/// When the daemon goes, the request that waits is refused as such and the agent
/// is taken off the bus where it was on it. When only Wi-Fi is switched off, the
/// request is refused for that and everyone is told.
pub proof fn law_teardown_asks_for(s: ServiceView)
    ensures
        ({
            let p = iwd::proxies_cleared(s).1;
            let (c, e) = iwd::station_cleared(s);
            let waits = s.pending_auth is Some;
            let on_bus = s.bus && s.agent_exported;
            &&& p.len() == (if waits {
                1int
            } else {
                0
            }) + (if on_bus {
                1int
            } else {
                0
            })
            &&& waits ==> p[0] == (EffectView::RefuseAuth {
                token: s.pending_auth->0,
                reason: CancelReason::ServiceUnavailable,
            })
            &&& on_bus ==> p.last() == EffectView::UnexportAgent
            &&& waits ==> e == seq![
                EffectView::RefuseAuth {
                    token: s.pending_auth->0,
                    reason: CancelReason::PoweredOff,
                },
                EffectView::Notify(c.snapshot),
            ]
            &&& !waits ==> e == seq![EffectView::Notify(c.snapshot)]
        }),
{
    let (c, e) = iwd::station_cleared(s);
    if s.pending_auth is Some {
        assert(e =~= seq![
            EffectView::RefuseAuth { token: s.pending_auth->0, reason: CancelReason::PoweredOff },
            EffectView::Notify(c.snapshot),
        ]);
    } else {
        assert(e =~= seq![EffectView::Notify(c.snapshot)]);
    }
}

/// With Wi-Fi switched off there is no network, state, request or failure to show,
/// and the radio and the service stand as before.
pub proof fn law_nothing_is_shown_without_a_station(s: ServiceView)
    ensures
        ({
            let n = iwd::station_cleared(s).0.snapshot;
            &&& n.state is None && n.ssid is None && n.networks.len() == 0 && !n.scanning
            &&& n.auth_request is None && n.failed_ssid is None && n.failed_reason is None
            &&& !n.initial_scan_complete
            &&& n.available == s.snapshot.available && n.wifi_enabled == s.snapshot.wifi_enabled
        }),
{
}

/// A service that is gone is told of once, and nothing is known of it then.
pub proof fn law_gone_service_is_told_once(s: ServiceView)
    ensures
        ({
            let (t, e) = iwd::made_unavailable(s);
            &&& !t.snapshot.available
            &&& s.snapshot.available ==> e == seq![EffectView::Notify(t.snapshot)]
                && t.snapshot.networks.len() == 0 && t.snapshot.state is None && t.snapshot.ssid is None
                && t.snapshot.wifi_enabled is None && t.snapshot.auth_request is None
                && t.snapshot.failed_ssid is None && !t.snapshot.scanning
                && !t.snapshot.initial_scan_complete
            &&& !s.snapshot.available ==> t == s && e.len() == 0
            &&& iwd::made_unavailable(t) == (t, iwd::nothing())
        }),
{
}

// ---------------------------------------------------------------------------
// Refreshes
// ---------------------------------------------------------------------------

/// A refresh starts where there is a station and none runs, waits a fifth of a
/// second for each attempt so far, and belongs to the present generation.
pub proof fn law_refresh_starts_once(s: ServiceView, resolve: bool)
    requires
        s.ssid_resolve_attempts < 255,
    ensures
        ({
            let (t, e) = iwd::refresh_started(s, resolve);
            let n: int = s.ssid_resolve_attempts + if resolve {
                1int
            } else {
                0
            };
            &&& s.refresh_in_progress ==> e.len() == 0 && t.refresh_needed
                && t.ssid_resolve_attempts == s.ssid_resolve_attempts
            &&& !s.refresh_in_progress && !s.station_ready ==> t == s && e.len() == 0
            &&& !s.refresh_in_progress && s.station_ready ==> {
                &&& e.len() == 1
                &&& e[0] matches EffectView::StartRefresh { delay_ms, generation }
                &&& delay_ms == 200 * n
                &&& generation == s.generation
                &&& t.refresh_in_progress
                &&& t.ssid_resolve_attempts == n
                &&& t.refresh_needed == s.refresh_needed
            }
            &&& t.snapshot == s.snapshot
        }),
{
}

/// Changes of the network list are gathered: the timer is started once until it
/// fires, and then a refresh starts.
pub proof fn law_changes_are_gathered(s: ServiceView)
    ensures
        ({
            let (t, e) = iwd::refresh_scheduled(s);
            &&& t.network_refresh_pending
            &&& !s.network_refresh_pending ==> e == seq![EffectView::ScheduleRefresh]
            &&& s.network_refresh_pending ==> e.len() == 0
            &&& iwd::refresh_scheduled(t).1.len() == 0
            &&& !iwd::refresh_timer_fired(t).0.network_refresh_pending
            &&& s.station_ready && !s.refresh_in_progress ==> iwd::refresh_timer_fired(t).1.len()
                == 1 && iwd::refresh_timer_fired(t).1[0] is StartRefresh
        }),
{
}

/// A list of networks that is still wanted replaces the one before, and the list
/// counts as filled.
pub proof fn law_list_is_replaced(s: ServiceView, nets: Seq<NetView>, p: StationView)
    requires
        !s.station_ready,
        !s.refresh_needed,
    ensures
        ({
            let (t, e) = iwd::networks_refreshed(s, nets, s.generation, p);
            &&& t.snapshot.networks == nets
            &&& t.snapshot.initial_scan_complete
            &&& !t.refresh_in_progress
            &&& e == seq![EffectView::Notify(t.snapshot)]
            &&& t.snapshot.available == s.snapshot.available && t.snapshot.state
                == s.snapshot.state && t.snapshot.failed_ssid == s.snapshot.failed_ssid
        }),
{
    let (t, e) = iwd::networks_refreshed(s, nets, s.generation, p);
    assert(e =~= seq![EffectView::Notify(t.snapshot)]);
}

/// A refresh that failed is over.
pub proof fn law_failed_refresh_is_over(s: ServiceView)
    requires
        !s.refresh_needed,
    ensures
        !iwd::refresh_failed(s, s.generation).0.refresh_in_progress,
        iwd::refresh_failed(s, s.generation).1.len() == 0,
        iwd::refresh_failed(s, s.generation).0.snapshot == s.snapshot,
{
}

// ---------------------------------------------------------------------------
// Adapter and station
// ---------------------------------------------------------------------------

/// An adapter that is found makes the service available and is set up on the bus,
/// and the agent is exported where it is not. Found again, nothing happens.
pub proof fn law_found_adapter_is_set_up(s: ServiceView, path: Seq<char>)
    requires
        s.adapter_path != Some(path),
        s.bus,
        !s.agent_exported,
    ensures
        ({
            let (t, e) = iwd::adapter_found(s, path);
            &&& t.adapter_path == Some(path)
            &&& t.snapshot.available
            &&& !s.snapshot.available ==> e == seq![
                EffectView::Notify(t.snapshot),
                EffectView::SetupAdapterProxy(path),
                EffectView::ExportAgent,
            ]
            &&& s.snapshot.available ==> e == seq![
                EffectView::SetupAdapterProxy(path),
                EffectView::ExportAgent,
            ]
            &&& iwd::adapter_found(t, path) == (t, iwd::nothing())
            &&& t.station_path == s.station_path
        }),
{
    let (t, e) = iwd::adapter_found(s, path);
    if s.snapshot.available {
        assert(e =~= seq![EffectView::SetupAdapterProxy(path), EffectView::ExportAgent]);
    } else {
        assert(e =~= seq![
            EffectView::Notify(t.snapshot),
            EffectView::SetupAdapterProxy(path),
            EffectView::ExportAgent,
        ]);
    }
}

/// The agent is exported first and registered then, each once and only over a
/// bus.
pub proof fn law_agent_is_exported_then_registered(s: ServiceView)
    ensures
        !s.bus ==> iwd::agent_wanted(s).len() == 0,
        s.bus && !s.agent_exported ==> iwd::agent_wanted(s) == seq![EffectView::ExportAgent],
        s.bus && s.agent_exported && !s.agent_registered ==> iwd::agent_wanted(s) == seq![
            EffectView::RegisterAgent { is_retry: false },
        ],
        s.agent_exported && s.agent_registered ==> iwd::agent_wanted(s).len() == 0,
{
}

/// A station that is found makes the service available and is set up on the bus.
/// Found again, nothing happens.
pub proof fn law_found_station_is_set_up(s: ServiceView, path: Seq<char>)
    requires
        s.station_path != Some(path),
        s.bus,
    ensures
        ({
            let (t, e) = iwd::station_found(s, path);
            &&& t.station_path == Some(path)
            &&& t.snapshot.available
            &&& e.last() == EffectView::SetupStationProxy(path)
            &&& e.len() == if s.snapshot.available {
                1int
            } else {
                2
            }
            &&& !s.snapshot.available ==> e[0] == EffectView::Notify(t.snapshot)
            &&& iwd::station_found(t, path) == (t, iwd::nothing())
            &&& t.adapter_path == s.adapter_path
        }),
{
}

/// The radio is shown as the adapter says, and a radio that is off has neither
/// state nor network. What is known already is not told again.
pub proof fn law_radio_is_shown_as_it_is(s: ServiceView, powered: Option<bool>)
    requires
        s.adapter_ready,
    ensures
        ({
            let (t, e) = iwd::adapter_updated(s, powered);
            &&& t.snapshot.wifi_enabled == powered
            &&& s.snapshot.wifi_enabled != powered ==> e == seq![EffectView::Notify(t.snapshot)]
            &&& s.snapshot.wifi_enabled == powered ==> e.len() == 0 && t == s
            &&& s.snapshot.wifi_enabled != powered && powered == Some(false)
                ==> t.snapshot.state is None && t.snapshot.ssid is None
            &&& powered != Some(false) ==> t.snapshot.state == s.snapshot.state && t.snapshot.ssid
                == s.snapshot.ssid
            &&& t.snapshot.networks == s.snapshot.networks
        }),
{
}

/// The station's words are read as they stand: its state by its word, that it
/// scans where it says so, and the network it is on.
pub proof fn law_station_is_read(p: StationProps)
    ensures
        p.state matches Some(w) ==> p@.state == Some(network::station_state_of(w@)),
        p.state is None ==> p@.state is None,
        p@.scanning <==> p.scanning == Some(true),
        p.connected_network matches Some(n) ==> p@.connected_network == Some(n@),
        p.connected_network is None ==> p@.connected_network is None,
{
}

/// After the station has spoken, its state and scan are shown as it says, and the
/// name of its network where the list has it and the station is on it or on its
/// way there.
pub proof fn law_station_is_shown_as_it_is(s: ServiceView, p: StationView)
    requires
        s.station_ready,
    ensures
        ({
            let n = iwd::station_updated(s, p).0.snapshot;
            let there = p.state == Some(StationState::Connected) || p.state == Some(
                StationState::Roaming,
            ) || p.state == Some(StationState::Connecting);
            &&& n.state == p.state
            &&& n.scanning == p.scanning
            &&& there && p.connected_network is Some ==> n.ssid == network::ssid_at(
                s.snapshot.networks,
                p.connected_network->0,
            )
            &&& !(there && p.connected_network is Some) ==> n.ssid is None
            &&& n.available == s.snapshot.available && n.wifi_enabled == s.snapshot.wifi_enabled
                && n.auth_request == s.snapshot.auth_request && n.failed_ssid
                == s.snapshot.failed_ssid && n.failed_reason == s.snapshot.failed_reason
                && n.initial_scan_complete == s.snapshot.initial_scan_complete
        }),
{
}

/// The networks of the list stay, and lose their mark of being in use only when a
/// connection is gone.
pub proof fn law_list_stays_when_the_station_speaks(s: ServiceView, p: StationView)
    requires
        s.station_ready,
    ensures
        ({
            let after = iwd::station_updated(s, p).0.snapshot.networks;
            let gone = s.snapshot.ssid is Some && iwd::station_ssid(s, p) is None && p.state != Some(
                StationState::Connected,
            ) && p.state != Some(StationState::Roaming);
            &&& after.len() == s.snapshot.networks.len()
            &&& !gone ==> after == s.snapshot.networks
            &&& gone ==> forall|i: int|
                0 <= i < after.len() ==> !(#[trigger] after[i]).active && after[i].ssid
                    == s.snapshot.networks[i].ssid && after[i].path == s.snapshot.networks[i].path
                    && after[i].known == s.snapshot.networks[i].known && after[i].strength
                    == s.snapshot.networks[i].strength && after[i].security
                    == s.snapshot.networks[i].security && after[i].known_network_path
                    == s.snapshot.networks[i].known_network_path
        }),
{
}

/// An attempt to connect, and the password kept for it, are over once the station
/// is connected, disconnected or gone, and not while it is on its way.
pub proof fn law_attempt_ends_with_the_state(s: ServiceView, p: StationView)
    requires
        s.station_ready,
        s.snapshot.state != p.state,
    ensures
        ({
            let t = iwd::station_updated(s, p).0;
            let over = p.state is None || p.state == Some(StationState::Connected) || p.state
                == Some(StationState::Disconnected);
            &&& over ==> t.connecting_network is None && t.pending_password is None
            &&& !over ==> t.connecting_network == s.connecting_network && t.pending_password
                == s.pending_password
        }),
{
}

/// Listeners are told exactly where state, name or scan changed.
pub proof fn law_changes_of_the_station_are_told(s: ServiceView, p: StationView)
    ensures
        iwd::station_changed(s, p) <==> s.snapshot.state != p.state || s.snapshot.scanning
            != p.scanning || s.snapshot.ssid != iwd::station_ssid(s, p),
        s.station_ready && iwd::station_changed(s, p) ==> iwd::station_updated(s, p).1.len() > 0
            && iwd::station_updated(s, p).1[0] is Notify,
        !s.station_ready ==> iwd::station_updated(s, p) == (s, iwd::nothing()),
{
}

/// The list is fetched when there is none, when a connection comes up, when a
/// scan ends, and while the name of the connected network is to be learnt, three
/// times at most.
pub proof fn law_list_is_fetched_when_needed(s: ServiceView, p: StationView)
    requires
        s.station_ready,
        !s.refresh_in_progress,
        s.ssid_resolve_attempts < 255,
    ensures
        ({
            let fetches = exists|i: int|
                0 <= i < iwd::station_updated(s, p).1.len() && (#[trigger] iwd::station_updated(
                    s,
                    p,
                ).1[i]) is StartRefresh;
            let was = s.snapshot.state == Some(StationState::Connected) || s.snapshot.state == Some(
                StationState::Roaming,
            );
            let now = p.state == Some(StationState::Connected) || p.state == Some(
                StationState::Roaming,
            );
            let named = iwd::station_ssid(s, p) is Some;
            &&& s.snapshot.scanning && !p.scanning ==> fetches
            &&& now && !was && named ==> fetches
            &&& !now && s.snapshot.networks.len() == 0 ==> fetches
            &&& now && !named && s.ssid_resolve_attempts < 3 ==> fetches
        }),
{
    let out = iwd::station_updated(s, p).1;
    let h = iwd::station_heard(s, p);
    if iwd::list_wanted(s, p) || iwd::scan_ended(s, p) {
        let r = iwd::refresh_started(h, iwd::resolving(s, p) && iwd::list_wanted(s, p)).1;
        assert(r.len() == 1 && r[0] is StartRefresh);
        assert(out[out.len() - 1] is StartRefresh);
    }
}

/// Attempts to learn a name are counted until it is known or there is none to
/// learn.
pub proof fn law_attempts_are_counted(s: ServiceView, p: StationView)
    ensures
        ({
            let there = p.state == Some(StationState::Connected) || p.state == Some(
                StationState::Roaming,
            ) || p.state == Some(StationState::Connecting);
            &&& !there ==> iwd::attempts_after(s, p) == 0
            &&& iwd::station_ssid(s, p) is Some ==> iwd::attempts_after(s, p) == 0
            &&& there && iwd::station_ssid(s, p) is None ==> iwd::attempts_after(s, p)
                == s.ssid_resolve_attempts
        }),
{
}

// ---------------------------------------------------------------------------
// The daemon comes and goes
// ---------------------------------------------------------------------------

/// With a bus, signals are subscribed to and the daemon is watched, in this
/// order.
pub proof fn law_bus_begins_the_watch(s: ServiceView)
    ensures
        iwd_events::bus_connected(s).0.bus,
        iwd_events::bus_connected(s).0.snapshot == s.snapshot,
        iwd_events::bus_connected(s).1 == seq![
            EffectView::SubscribeSignals,
            EffectView::CreateWatcher,
        ],
{
}

/// A daemon that is there, or may be, is asked for its objects. One that is known
/// not to be there makes the service unavailable.
pub proof fn law_present_daemon_is_asked(s: ServiceView)
    ensures
        s.bus ==> iwd_events::watcher_answered(s, Some(true)) == (s, seq![EffectView::Discover]),
        iwd_events::watcher_answered(s, None) == iwd_events::watcher_answered(s, Some(true)),
        !iwd_events::watcher_answered(s, Some(false)).0.snapshot.available,
        s.bus ==> iwd_events::owner_changed(s, true) == (s, seq![EffectView::Discover]),
        !s.bus ==> iwd_events::owner_changed(s, true) == (s, iwd::nothing()),
        !iwd_events::owner_changed(s, false).0.snapshot.available,
        iwd_events::owner_changed(s, false).0.adapter_path is None,
        iwd_events::owner_changed(s, false).0.station_path is None,
        iwd_events::owner_changed(s, false).0.pending_auth is None,
{
}

/// The object taken up is the first with the interface.
pub proof fn law_first_object_is_taken(objects: Seq<ObjectView>, interface: Seq<char>, k: int)
    requires
        0 <= k <= objects.len(),
        forall|i: int| 0 <= i < k ==> !(#[trigger] objects[i]).interfaces.contains(interface),
        k < objects.len() ==> objects[k].interfaces.contains(interface),
    ensures
        iwd_events::first_with(objects, interface) == if k < objects.len() {
            Some(objects[k].path)
        } else {
            None
        },
    decreases objects.len(),
{
    if objects.len() > 0 {
        let rest = objects.drop_last();
        if k < rest.len() {
            assert(rest[k] == objects[k]);
            law_first_object_is_taken(rest, interface, k);
        } else {
            law_first_object_is_taken(rest, interface, rest.len() as int);
            if k == objects.len() {
                assert(!objects[k - 1].interfaces.contains(interface));
            }
        }
    }
}

/// Of the daemon's objects the first adapter and the first station are taken up,
/// and without either there is no service.
pub proof fn law_objects_make_the_service(s: ServiceView, objects: Seq<ObjectView>)
    ensures
        ({
            let t = iwd_events::objects_found(s, objects).0;
            let a = iwd_events::first_with(objects, "net.connman.iwd.Adapter"@);
            let b = iwd_events::first_with(objects, "net.connman.iwd.Station"@);
            &&& a is Some ==> t.adapter_path == a
            &&& b is Some ==> t.station_path == b
            &&& a is None ==> t.adapter_path == s.adapter_path
            &&& b is None ==> t.station_path == s.station_path
            &&& t.adapter_path is None && t.station_path is None ==> !t.snapshot.available
            &&& a is Some && a != s.adapter_path ==> t.snapshot.available
            &&& b is Some && b != s.station_path ==> t.snapshot.available
        }),
{
}

/// A new interface is what it says: a first adapter, a first station, or a
/// network, after which the list is fetched. A second adapter or station, and
/// anything else, is passed over.
pub proof fn law_new_interfaces(s: ServiceView, path: Seq<char>)
    ensures
        s.adapter_path is None ==> iwd_events::interface_added(
            s,
            path,
            "net.connman.iwd.Adapter"@,
        ) == iwd::adapter_found(s, path),
        s.station_path is None ==> iwd_events::interface_added(
            s,
            path,
            "net.connman.iwd.Station"@,
        ) == iwd::station_found(s, path),
        s.adapter_path is Some ==> iwd_events::interface_added(
            s,
            path,
            "net.connman.iwd.Adapter"@,
        ) == (s, iwd::nothing()),
        s.station_path is Some ==> iwd_events::interface_added(
            s,
            path,
            "net.connman.iwd.Station"@,
        ) == (s, iwd::nothing()),
        iwd_events::interface_added(s, path, "net.connman.iwd.Network"@) == iwd::refresh_scheduled(
            s,
        ),
{
    reveal_strlit("net.connman.iwd.Adapter");
    reveal_strlit("net.connman.iwd.Station");
    reveal_strlit("net.connman.iwd.Network");
    assert("net.connman.iwd.Adapter"@[16] == 'A');
    assert("net.connman.iwd.Station"@[16] == 'S');
    assert("net.connman.iwd.Network"@[16] == 'N');
}

/// Interfaces are taken in one after another.
pub proof fn law_new_interfaces_follow_each_other(
    s: ServiceView,
    path: Seq<char>,
    interfaces: Seq<Seq<char>>,
    last: Seq<char>,
)
    ensures
        ({
            let (s1, e1) = iwd_events::interfaces_added(s, path, interfaces);
            let (s2, e2) = iwd_events::interface_added(s1, path, last);
            iwd_events::interfaces_added(s, path, interfaces.push(last)) == (s2, e1 + e2)
        }),
        iwd_events::interfaces_added(s, path, Seq::empty()) == (s, iwd::nothing()),
{
    assert(interfaces.push(last).drop_last() =~= interfaces);
}

/// Without its adapter the service is gone. Without its station only Wi-Fi is
/// off. What vanishes from another object is of no concern.
pub proof fn law_vanished_interfaces(
    s: ServiceView,
    path: Seq<char>,
    interfaces: Seq<Seq<char>>,
    powered: Option<bool>,
)
    ensures
        ({
            let t = iwd_events::interfaces_removed(s, path, interfaces, powered).0;
            let adapter = interfaces.contains("net.connman.iwd.Adapter"@) && s.adapter_path == Some(
                path,
            );
            let station = interfaces.contains("net.connman.iwd.Station"@) && s.station_path == Some(
                path,
            );
            &&& adapter ==> !t.snapshot.available && t.adapter_path is None && t.station_path is None
            &&& !adapter && station ==> t.station_path is None && t.adapter_path == s.adapter_path
                && t.snapshot.available == s.snapshot.available && t.snapshot.networks.len() == 0
            &&& !adapter && !station ==> t.adapter_path == s.adapter_path && t.station_path
                == s.station_path && t.snapshot == s.snapshot
            &&& !adapter && !station && interfaces.contains("net.connman.iwd.Network"@)
                ==> t.network_refresh_pending
            &&& !adapter && station && s.adapter_ready ==> t.snapshot.wifi_enabled == powered
        }),
{
}

/// A proxy that is made is used from then on; one that cannot be made leaves the
/// other to keep the service.
pub proof fn law_proxies_keep_the_service(s: ServiceView, powered: Option<bool>, p: StationView)
    ensures
        iwd_events::adapter_proxy_made(s, powered).0.adapter_ready,
        iwd_events::adapter_proxy_made(s, powered).0.snapshot.wifi_enabled == powered,
        iwd_events::station_proxy_made(s, p).0.station_ready,
        iwd_events::station_proxy_made(s, p).0.snapshot.state == p.state,
        iwd_events::adapter_proxy_lost(s).0.adapter_path is None,
        iwd_events::adapter_proxy_lost(s).0.snapshot.available <==> s.snapshot.available
            && s.station_path is Some,
        iwd_events::station_proxy_lost(s).0.station_path is None,
        iwd_events::station_proxy_lost(s).0.snapshot.available <==> s.snapshot.available
            && s.adapter_path is Some,
{
}

/// A change is taken to the interface it is on.
pub proof fn law_changes_go_to_their_interface(
    s: ServiceView,
    interface: Option<Seq<char>>,
    powered: Option<bool>,
    p: StationView,
)
    ensures
        iwd_events::properties_changed(s, Some("net.connman.iwd.Adapter"@), powered, p)
            == iwd::adapter_updated(s, powered),
        iwd_events::properties_changed(s, Some("net.connman.iwd.Station"@), powered, p)
            == iwd::station_updated(s, p),
        interface is None ==> iwd_events::properties_changed(s, interface, powered, p) == (
            s,
            iwd::nothing(),
        ),
{
    reveal_strlit("net.connman.iwd.Adapter");
    reveal_strlit("net.connman.iwd.Station");
    assert("net.connman.iwd.Adapter"@[16] == 'A');
    assert("net.connman.iwd.Station"@[16] == 'S');
}

// ---------------------------------------------------------------------------
// What the user asks for
// ---------------------------------------------------------------------------

/// The radio is switched to what is asked for, through an adapter that is ready.
pub proof fn law_radio_is_switched(s: ServiceView, on: bool)
    ensures
        s.adapter_ready ==> iwd_events::power_wanted(s, on) == seq![EffectView::SetPowered(on)],
        !s.adapter_ready ==> iwd_events::power_wanted(s, on).len() == 0,
{
}

/// A connection that is asked for is shown as on its way to that network at once,
/// with earlier failures forgotten, and is asked of the daemon.
pub proof fn law_connecting_begins_at_once(s: ServiceView, path: Seq<char>)
    ensures
        ({
            let (t, e) = iwd_events::connect_wanted(s, path);
            let name = network::ssid_at(s.snapshot.networks, path);
            &&& t.snapshot.state == Some(StationState::Connecting)
            &&& t.snapshot.ssid == name
            &&& t.snapshot.failed_ssid is None && t.snapshot.failed_reason is None
            &&& t.snapshot.networks == s.snapshot.networks
            &&& t.connecting_network is Some
            &&& (t.connecting_network->0).0 == path
            &&& name is Some ==> (t.connecting_network->0).1 == name->0
            &&& name is None ==> (t.connecting_network->0).1.len() == 0
            &&& !t.agent_canceled_by_us
            &&& t.pending_password == s.pending_password
            &&& e == seq![
                EffectView::Notify(t.snapshot),
                EffectView::CallConnect { path, cached_ssid: name, generation: s.generation },
            ]
        }),
{
    let (t, e) = iwd_events::connect_wanted(s, path);
    let name = network::ssid_at(s.snapshot.networks, path);
    assert(e =~= seq![
        EffectView::Notify(t.snapshot),
        EffectView::CallConnect { path, cached_ssid: name, generation: s.generation },
    ]);
}

/// A failure is shown under the name that the daemon gives, else under the one
/// that the list had.
pub proof fn law_failures_have_a_name(read: Option<Seq<char>>, cached: Option<Seq<char>>)
    ensures
        read matches Some(n) ==> iwd_events::failure_ssid_spec(read, cached) == n,
        read is None && cached is Some ==> iwd_events::failure_ssid_spec(read, cached)
            == cached->0,
        read is None && cached is None ==> iwd_events::failure_ssid_spec(read, cached)
            == "Unknown network"@,
{
}

/// An error of a connect call is told by its name. Every error of the agent's is
/// one, whatever follows, and a name that is not known is a failed connection.
pub proof fn law_errors_are_told_by_name(rest: Seq<char>)
    ensures
        iwd_events::connect_error_of("net.connman.iwd.InProgress"@) == ConnectError::InProgress,
        iwd_events::connect_error_of("net.connman.iwd.Agent"@ + rest) == ConnectError::Agent,
        iwd_events::connect_error_of("net.connman.iwd.NotFound"@) == ConnectError::NotFound,
        iwd_events::connect_error_of("net.connman.iwd.NotSupported"@)
            == ConnectError::NotSupported,
        iwd_events::connect_error_of("net.connman.iwd.NotConfigured"@)
            == ConnectError::NotConfigured,
        iwd_events::connect_error_of("net.connman.iwd.PermissionDenied"@)
            == ConnectError::PermissionDenied,
        iwd_events::connect_error_of("net.connman.iwd.NotConnected"@)
            == ConnectError::NotConnected,
        iwd_events::connect_error_of("net.connman.iwd.Aborted"@) == ConnectError::ConnectionFailed,
        iwd_events::connect_error_of("net.connman.iwd.NotAvailable"@)
            == ConnectError::ConnectionFailed,
        rest.len() < 16 ==> iwd_events::connect_error_of(rest) == ConnectError::ConnectionFailed,
{
    reveal_strlit("net.connman.iwd.InProgress");
    reveal_strlit("net.connman.iwd.Agent");
    reveal_strlit("net.connman.iwd.NotFound");
    reveal_strlit("net.connman.iwd.NotSupported");
    reveal_strlit("net.connman.iwd.NotConfigured");
    reveal_strlit("net.connman.iwd.PermissionDenied");
    reveal_strlit("net.connman.iwd.NotConnected");
    reveal_strlit("net.connman.iwd.Aborted");
    reveal_strlit("net.connman.iwd.NotAvailable");
    let agent = "net.connman.iwd.Agent"@;
    let prog = "net.connman.iwd.InProgress"@;
    let found = "net.connman.iwd.NotFound"@;
    let supported = "net.connman.iwd.NotSupported"@;
    let configured = "net.connman.iwd.NotConfigured"@;
    let permission = "net.connman.iwd.PermissionDenied"@;
    let connected = "net.connman.iwd.NotConnected"@;
    let aborted = "net.connman.iwd.Aborted"@;
    let available = "net.connman.iwd.NotAvailable"@;
    assert(agent.len() == 21 && prog.len() == 26 && found.len() == 24 && supported.len() == 28
        && configured.len() == 29 && permission.len() == 32 && connected.len() == 28
        && aborted.len() == 23 && available.len() == 28);
    assert(agent[16] == 'A' && agent[17] == 'g');
    assert(prog[16] == 'I');
    assert(found[16] == 'N' && supported[16] == 'N' && configured[16] == 'N' && connected[16]
        == 'N' && available[16] == 'N');
    assert(permission[16] == 'P');
    assert(aborted[16] == 'A' && aborted[17] == 'b');
    assert(supported[19] == 'S' && connected[19] == 'C' && available[19] == 'A');
    let e = agent + rest;
    assert(e.take(21) =~= agent);
    assert(e[16] == 'A' && e[17] == 'g');
    assert(found.take(21)[16] == 'N');
    assert(supported.take(21)[16] == 'N');
    assert(configured.take(21)[16] == 'N');
    assert(connected.take(21)[16] == 'N');
    assert(permission.take(21)[16] == 'P');
}

/// Each kind of failure has words of its own.
pub proof fn law_failures_have_reasons()
    ensures
        iwd_events::reason_of(ConnectError::NotFound) == "Network not found"@,
        iwd_events::reason_of(ConnectError::NotSupported) == "Not supported"@,
        iwd_events::reason_of(ConnectError::NotConfigured) == "Not configured"@,
        iwd_events::reason_of(ConnectError::PermissionDenied) == "Permission denied"@,
        iwd_events::reason_of(ConnectError::NotConnected) == "Not connected"@,
        iwd_events::reason_of(ConnectError::Agent) == "Wrong password"@,
        iwd_events::reason_of(ConnectError::ConnectionFailed) == "Connection failed"@,
        iwd_events::reason_of(ConnectError::InProgress) == "Connection failed"@,
{
}

/// A failed attempt is shown under its network with its reason, but for one that
/// another attempt will settle.
pub proof fn law_failed_attempt_is_shown(s: ServiceView, e: ConnectError, ssid: Seq<char>)
    requires
        s.snapshot.failed_ssid is None,
    ensures
        ({
            let (t, out) = iwd_events::connect_failed(s, e, ssid, s.generation);
            let ours = e == ConnectError::Agent && s.agent_canceled_by_us;
            &&& e == ConnectError::InProgress ==> t == s && out.len() == 0
            &&& e != ConnectError::InProgress && !ours ==> {
                &&& t.snapshot.failed_ssid == Some(ssid)
                &&& t.snapshot.failed_reason == Some(iwd_events::reason_of(e))
                &&& t.connecting_network is None
                &&& t.pending_password is None
                &&& out == seq![EffectView::Notify(t.snapshot)]
                &&& s.snapshot.state == Some(StationState::Connecting) ==> t.snapshot.state
                    == Some(StationState::Disconnected) && t.snapshot.ssid is None
                &&& s.snapshot.state != Some(StationState::Connecting) ==> t.snapshot.state
                    == s.snapshot.state && t.snapshot.ssid == s.snapshot.ssid
            }
        }),
{
}

/// Giving up on a request refuses it on behalf of the user and ends the attempt.
pub proof fn law_user_gives_up(s: ServiceView, token: u64)
    requires
        s.pending_auth == Some(token),
    ensures
        ({
            let (t, e) = iwd_events::auth_canceled(s);
            &&& t.pending_auth is None && t.connecting_network is None && t.pending_password is None
            &&& t.snapshot.auth_request is None
            &&& e.len() > 0 && e[0] == (EffectView::RefuseAuth {
                token,
                reason: CancelReason::UserCanceled,
            })
            &&& s.snapshot.auth_request is Some ==> e.len() == 2 && e[1] == EffectView::Notify(
                t.snapshot,
            )
        }),
        s.station_ready ==> iwd_events::disconnect_wanted(s).1.last() == EffectView::CallDisconnect,
        iwd_events::disconnect_wanted(s).0 == iwd_events::auth_canceled(s).0,
{
}

/// Without a request, disconnecting only asks the daemon.
pub proof fn law_disconnecting_asks_the_daemon(s: ServiceView)
    requires
        s.pending_auth is None,
    ensures
        iwd_events::disconnect_wanted(s).0 == s,
        s.station_ready ==> iwd_events::disconnect_wanted(s).1 == seq![EffectView::CallDisconnect],
        !s.station_ready ==> iwd_events::disconnect_wanted(s).1.len() == 0,
{
    assert(iwd::nothing() + seq![EffectView::CallDisconnect] =~= seq![EffectView::CallDisconnect]);
}

/// A scan is asked for once until it ends, and shown at once.
pub proof fn law_scan_is_asked_for_once(s: ServiceView)
    ensures
        ({
            let (t, e) = iwd_events::scan_wanted(s);
            &&& s.station_ready && !s.scan_in_progress ==> t.scan_in_progress
                && t.snapshot.scanning && e.last() == EffectView::CallScan
            &&& s.station_ready && !s.scan_in_progress && !s.snapshot.scanning ==> e == seq![
                EffectView::Notify(t.snapshot),
                EffectView::CallScan,
            ]
            &&& !s.station_ready || s.scan_in_progress ==> t == s && e.len() == 0
            &&& iwd_events::scan_wanted(t).1.len() == 0
        }),
{
    let (t, e) = iwd_events::scan_wanted(s);
    if s.station_ready && !s.scan_in_progress && !s.snapshot.scanning {
        assert(e =~= seq![EffectView::Notify(t.snapshot), EffectView::CallScan]);
    }
}

/// A failure that is set is shown, and one that is cleared is not shown any more.
pub proof fn law_failures_are_set_and_cleared(s: ServiceView, ssid: Seq<char>, reason: Seq<char>)
    ensures
        ({
            let (t, e) = iwd_events::failure_set(s, ssid, reason);
            let (u, f) = iwd_events::failure_cleared(t);
            &&& t.snapshot.failed_ssid == Some(ssid) && t.snapshot.failed_reason == Some(reason)
            &&& e == seq![EffectView::Notify(t.snapshot)]
            &&& u.snapshot.failed_ssid is None && u.snapshot.failed_reason is None
            &&& f == seq![EffectView::Notify(u.snapshot)]
            &&& iwd_events::failure_cleared(u) == (u, iwd::nothing())
            &&& t.snapshot.state == s.snapshot.state && u.snapshot.networks == s.snapshot.networks
        }),
{
}

/// A password goes to the request that waits, and the prompt goes with it.
pub proof fn law_password_answers_the_request(s: ServiceView, token: u64, password: Seq<char>)
    requires
        s.pending_auth == Some(token),
    ensures
        ({
            let (t, e) = iwd_events::passphrase_submitted(s, password);
            &&& t.pending_auth is None
            &&& t.snapshot.auth_request is None
            &&& e.len() > 0 && e[0] == (EffectView::AnswerAuth { token, passphrase: password })
            &&& s.snapshot.auth_request is Some ==> e.len() == 2 && e[1] == EffectView::Notify(
                t.snapshot,
            )
            &&& t.connecting_network == s.connecting_network
            &&& iwd_events::passphrase_submitted(t, password) == (t, iwd::nothing())
        }),
{
}

/// At the end the request that waits is refused as such and the agent leaves the
/// bus.
pub proof fn law_shutdown_leaves_the_bus(s: ServiceView)
    ensures
        ({
            let (t, e) = iwd_events::shut_down(s);
            &&& t.pending_auth is None
            &&& s.bus && s.agent_exported ==> !t.agent_exported && e.last()
                == EffectView::UnexportAgent
            &&& s.pending_auth matches Some(token) ==> e.len() > 0 && e[0]
                == (EffectView::RefuseAuth { token, reason: CancelReason::ShuttingDown })
        }),
{
}

// ---------------------------------------------------------------------------
// The agent
// ---------------------------------------------------------------------------

/// An agent that is exported is registered, and one that is registered is not
/// registered again. A name that is taken is freed once, and any other failure is
/// tried once more.
pub proof fn law_agent_is_registered(s: ServiceView, other: Seq<char>)
    requires
        other != "net.connman.iwd.AlreadyExists"@,
    ensures
        iwd_events::agent_export_answered(s, true).0.agent_exported,
        iwd_events::agent_export_answered(s, true).1 == seq![
            EffectView::RegisterAgent { is_retry: false },
        ],
        iwd_events::agent_export_answered(s, false) == (s, iwd::nothing()),
        iwd_events::agent_register_answered(s, false, None).0.agent_registered,
        iwd_events::agent_register_answered(s, true, None).0.agent_registered,
        iwd_events::agent_register_answered(s, false, None).1.len() == 0,
        iwd_events::agent_register_answered(s, false, Some("net.connman.iwd.AlreadyExists"@)) == (
            s,
            seq![EffectView::UnregisterThenRegister],
        ),
        iwd_events::agent_register_answered(
            s,
            true,
            Some("net.connman.iwd.AlreadyExists"@),
        ).0.agent_registered,
        iwd_events::agent_register_answered(s, false, Some(other)) == (
            s,
            seq![EffectView::RetryRegisterLater],
        ),
        iwd_events::agent_register_answered(s, true, Some(other)) == (s, iwd::nothing()),
        s.bus ==> iwd_events::register_retry_due(s) == seq![
            EffectView::RegisterAgent { is_retry: true },
        ],
        !s.bus ==> iwd_events::register_retry_due(s).len() == 0,
{
}

/// What the daemon gives as reason is shown in words. What the user or the end of
/// the daemon caused is not shown.
pub proof fn law_cancellations_have_words(other: Seq<char>)
    requires
        other != "timed-out"@,
        other != "out-of-range"@,
        other != "user-canceled"@,
        other != "shutdown"@,
    ensures
        iwd_events::cancellation_reason("timed-out"@) == Some("Authentication timed out"@),
        iwd_events::cancellation_reason("out-of-range"@) == Some("Network out of range"@),
        iwd_events::cancellation_reason("user-canceled"@) is None,
        iwd_events::cancellation_reason("shutdown"@) is None,
        iwd_events::cancellation_reason(other) == Some("Connection failed"@),
{
    reveal_strlit("timed-out");
    reveal_strlit("out-of-range");
    reveal_strlit("user-canceled");
    reveal_strlit("shutdown");
    assert("timed-out"@.len() == 9);
    assert("out-of-range"@.len() == 12);
    assert("user-canceled"@.len() == 13);
    assert("shutdown"@.len() == 8);
}

/// A cancellation is shown under the network that a password is asked for, else
/// under the one being connected to, and not at all without either.
pub proof fn law_cancellation_is_shown_under_its_network(
    s: ServiceView,
    token: u64,
    reason: Seq<char>,
)
    ensures
        s.snapshot.auth_request matches Some(n) ==> iwd_events::canceled_ssid(s) == Some(n),
        s.snapshot.auth_request is None && s.connecting_network is Some
            ==> iwd_events::canceled_ssid(s) == Some((s.connecting_network->0).1),
        s.snapshot.auth_request is None && s.connecting_network is None
            ==> iwd_events::canceled_ssid(s) is None,
        ({
            let (t, e) = iwd_events::agent_cancel(s, token, reason);
            &&& t.pending_auth is None && t.connecting_network is None
            &&& t.snapshot.auth_request is None
            &&& e.last() == EffectView::Reply(token)
            &&& iwd_events::canceled_ssid(s) is Some && iwd_events::cancellation_reason(
                reason,
            ) is Some ==> t.snapshot.failed_ssid == iwd_events::canceled_ssid(s)
                && t.snapshot.failed_reason == iwd_events::cancellation_reason(reason)
            &&& iwd_events::canceled_ssid(s) is None || iwd_events::cancellation_reason(
                reason,
            ) is None ==> t.snapshot.failed_ssid == s.snapshot.failed_ssid
                && t.snapshot.failed_reason == s.snapshot.failed_reason
        }),
{
}

/// The user is asked for the password of the network by the name that the list
/// has, else by the one being connected to.
pub proof fn law_user_is_asked_by_name(s: ServiceView, token: u64, path: Seq<char>)
    requires
        s.pending_password is None,
        s.connecting_network is None || (s.connecting_network->0).0 == path,
    ensures
        ({
            let (t, e) = iwd_events::passphrase_requested(s, token, Some(path));
            let listed = network::ssid_at(s.snapshot.networks, path);
            &&& t.pending_auth == Some(token)
            &&& t.snapshot.auth_request is Some
            &&& listed is Some ==> t.snapshot.auth_request == listed
            &&& listed is None && s.connecting_network is Some && (s.connecting_network->0).1.len()
                > 0 ==> t.snapshot.auth_request == Some((s.connecting_network->0).1)
            &&& listed is None && (s.connecting_network is None
                || (s.connecting_network->0).1.len() == 0) ==> t.snapshot.auth_request == Some(
                "Unknown"@,
            )
            &&& t.snapshot.failed_ssid is None && t.snapshot.failed_reason is None
            &&& t.connecting_network == s.connecting_network
            &&& e.last() == EffectView::Notify(t.snapshot)
            &&& s.pending_auth is None ==> e == seq![
                EffectView::StartAuthTimer(token),
                EffectView::Notify(t.snapshot),
            ]
            &&& s.pending_auth matches Some(old_token) ==> e == seq![
                EffectView::RefuseAuth { token: old_token, reason: CancelReason::Superseded },
                EffectView::StartAuthTimer(token),
                EffectView::Notify(t.snapshot),
            ]
        }),
{
    let (t, e) = iwd_events::passphrase_requested(s, token, Some(path));
    if s.pending_auth is Some {
        assert(e =~= seq![
            EffectView::RefuseAuth {
                token: s.pending_auth->0,
                reason: CancelReason::Superseded,
            },
            EffectView::StartAuthTimer(token),
            EffectView::Notify(t.snapshot),
        ]);
    } else {
        assert(e =~= seq![EffectView::StartAuthTimer(token), EffectView::Notify(t.snapshot)]);
    }
}

/// A request without a path is answered as such and changes nothing. One for
/// another network than the one being connected to is unexpected.
pub proof fn law_requests_need_a_path(s: ServiceView, token: u64, path: Seq<char>)
    ensures
        iwd_events::passphrase_requested(s, token, None) == (
            s,
            seq![EffectView::ReplyMissingPath(token)],
        ),
        iwd_events::unexpected(s, path) <==> s.connecting_network is Some
            && (s.connecting_network->0).0 != path,
{
}

/// An enterprise network is refused, and shown as not supported under its name.
pub proof fn law_enterprise_is_refused(s: ServiceView, token: u64, path: Seq<char>)
    ensures
        ({
            let (t, e) = iwd_events::enterprise_requested(s, token, Some(path));
            let listed = network::ssid_at(s.snapshot.networks, path);
            &&& t.agent_canceled_by_us
            &&& t.snapshot.failed_reason == Some("Enterprise WiFi not supported"@)
            &&& listed is Some ==> t.snapshot.failed_ssid == listed
            &&& listed is None && s.connecting_network is Some ==> t.snapshot.failed_ssid == Some(
                (s.connecting_network->0).1,
            )
            &&& listed is None && s.connecting_network is None ==> t.snapshot.failed_ssid == Some(
                "Unknown"@,
            )
            &&& e == seq![
                EffectView::Notify(t.snapshot),
                EffectView::RefuseAuth { token, reason: CancelReason::Enterprise },
            ]
            &&& t.pending_auth == s.pending_auth
        }),
        iwd_events::enterprise_requested(s, token, None).1 == seq![
            EffectView::RefuseAuth { token, reason: CancelReason::Enterprise },
        ],
{
    let (t, e) = iwd_events::enterprise_requested(s, token, Some(path));
    assert(e =~= seq![
        EffectView::Notify(t.snapshot),
        EffectView::RefuseAuth { token, reason: CancelReason::Enterprise },
    ]);
    assert(iwd_events::enterprise_requested(s, token, None).1 =~= seq![
        EffectView::RefuseAuth { token, reason: CancelReason::Enterprise },
    ]);
}

/// Each method of the agent does its own, and one that is not known is answered
/// as such.
pub proof fn law_agent_methods(
    s: ServiceView,
    token: u64,
    path: Option<Seq<char>>,
    reason: Seq<char>,
    other: Seq<char>,
)
    requires
        other != "Release"@,
        other != "Cancel"@,
        other != "RequestPassphrase"@,
        other != "RequestPrivateKeyPassphrase"@,
        other != "RequestUserNameAndPassword"@,
        other != "RequestUserPassword"@,
    ensures
        !iwd_events::agent_called(s, token, "Release"@, path, reason).0.agent_registered,
        iwd_events::agent_called(s, token, "Release"@, path, reason).1 == seq![
            EffectView::Reply(token),
        ],
        iwd_events::agent_called(s, token, "Cancel"@, path, reason) == iwd_events::agent_cancel(
            s,
            token,
            reason,
        ),
        iwd_events::agent_called(s, token, "RequestPassphrase"@, path, reason)
            == iwd_events::passphrase_requested(s, token, path),
        iwd_events::agent_called(s, token, "RequestPrivateKeyPassphrase"@, path, reason)
            == iwd_events::passphrase_requested(s, token, path),
        iwd_events::agent_called(s, token, "RequestUserNameAndPassword"@, path, reason)
            == iwd_events::enterprise_requested(s, token, path),
        iwd_events::agent_called(s, token, "RequestUserPassword"@, path, reason)
            == iwd_events::enterprise_requested(s, token, path),
        iwd_events::agent_called(s, token, other, path, reason) == (
            s,
            seq![EffectView::ReplyUnknownMethod(token, other)],
        ),
{
    reveal_strlit("Release");
    reveal_strlit("Cancel");
    reveal_strlit("RequestPassphrase");
    reveal_strlit("RequestPrivateKeyPassphrase");
    reveal_strlit("RequestUserNameAndPassword");
    reveal_strlit("RequestUserPassword");
    assert("Release"@.len() == 7);
    assert("Cancel"@.len() == 6);
    assert("RequestPassphrase"@.len() == 17);
    assert("RequestPrivateKeyPassphrase"@.len() == 27);
    assert("RequestUserNameAndPassword"@.len() == 26);
    assert("RequestUserPassword"@.len() == 19);
}

/// A user who takes too long has the request refused, the attempt ended, and the
/// network shown as timed out.
pub proof fn law_waiting_ends(s: ServiceView, token: u64)
    requires
        s.pending_auth == Some(token),
    ensures
        ({
            let (t, e) = iwd_events::auth_timed_out(s);
            &&& t.pending_auth is None && t.connecting_network is None
            &&& t.snapshot.auth_request is None
            &&& e.len() > 0 && e[0] == (EffectView::RefuseAuth {
                token,
                reason: CancelReason::TimedOut,
            })
            &&& s.connecting_network matches Some(n) ==> t.snapshot.failed_ssid == Some(n.1)
                && t.snapshot.failed_reason == Some("Authentication timed out"@)
            &&& s.connecting_network is None ==> t.snapshot.failed_ssid == s.snapshot.failed_ssid
        }),
{
}

/// Every refusal has words of its own for the daemon.
pub proof fn law_refusals_have_words()
    ensures
        iwd::cancel_text(CancelReason::ServiceUnavailable) == "Service unavailable"@,
        iwd::cancel_text(CancelReason::PoweredOff) == "WiFi powered off"@,
        iwd::cancel_text(CancelReason::Canceled) == "Canceled"@,
        iwd::cancel_text(CancelReason::UnexpectedNetwork) == "Unexpected network"@,
        iwd::cancel_text(CancelReason::TimedOut) == "Authentication timed out"@,
        iwd::cancel_text(CancelReason::Superseded) == "Superseded by new auth request"@,
        iwd::cancel_text(CancelReason::UserCanceled) == "User canceled"@,
        iwd::cancel_text(CancelReason::Enterprise) == "Enterprise authentication not supported"@,
        iwd::cancel_text(CancelReason::ShuttingDown) == "Service shutting down"@,
{
}

} // verus!

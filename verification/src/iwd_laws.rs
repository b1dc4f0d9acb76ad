//! What holds of the iwd service over all events.

use vstd::prelude::*;

use crate::iwd;
use crate::iwd::{EffectView, Out, ServiceView, StationView, MAX_SSID_RESOLVE_ATTEMPTS};
use crate::iwd_events;
use crate::iwd_events::{ConnectError, ObjectView};
use crate::network;
use crate::network::{IwdView, NetView, StationState};

verus! {

// ---------------------------------------------------------------------------
// Listeners know the latest snapshot
// ---------------------------------------------------------------------------

/// The snapshot that listeners were told last.
pub open spec fn last_told(effects: Seq<EffectView>) -> Option<IwdView>
    decreases effects.len(),
{
    if effects.len() == 0 {
        None
    } else {
        match effects.last() {
            EffectView::Notify(s) => Some(s),
            _ => last_told(effects.drop_last()),
        }
    }
}

/// Whoever listens knows the snapshot: where it changed they are told, and the
/// last they are told is the snapshot as it is then.
pub open spec fn listeners_current(before: ServiceView, out: Out) -> bool {
    match last_told(out.1) {
        Some(v) => v == out.0.snapshot,
        None => out.0.snapshot == before.snapshot,
    }
}

proof fn lemma_last_told_concat(a: Seq<EffectView>, b: Seq<EffectView>)
    ensures
        last_told(a + b) == match last_told(b) {
            Some(v) => Some(v),
            None => last_told(a),
        },
    decreases b.len(),
{
    if b.len() == 0 {
        assert(a + b =~= a);
    } else {
        assert((a + b).last() == b.last());
        assert((a + b).drop_last() =~= a + b.drop_last());
        lemma_last_told_concat(a, b.drop_last());
    }
}

proof fn lemma_last_told_one(e: EffectView)
    ensures
        last_told(seq![e]) == match e {
            EffectView::Notify(s) => Some(s),
            _ => None,
        },
        last_told(Seq::<EffectView>::empty()) is None,
{
    let s = seq![e];
    assert(s.drop_last() =~= Seq::<EffectView>::empty());
    assert(s.last() == e);
}

/// Effects after which nothing is told leave the listeners where they were.
proof fn lemma_then(before: ServiceView, a: Out, b: Out)
    requires
        listeners_current(before, a),
        listeners_current(a.0, b),
    ensures
        listeners_current(before, (b.0, a.1 + b.1)),
{
    lemma_last_told_concat(a.1, b.1);
}

proof fn lemma_told(s: ServiceView)
    ensures
        last_told(iwd::told(s)) == Some(s.snapshot),
        last_told(iwd::nothing()) is None,
{
    lemma_last_told_one(EffectView::Notify(s.snapshot));
}

proof fn lemma_refuse_current(s: ServiceView, reason: iwd::CancelReason)
    ensures
        listeners_current(s, iwd::refuse_pending(s, reason)),
        iwd::refuse_pending(s, reason).0.snapshot == s.snapshot,
        last_told(iwd::refuse_pending(s, reason).1) is None,
{
    match s.pending_auth {
        Some(token) => lemma_last_told_one(EffectView::RefuseAuth { token, reason }),
        None => lemma_told(s),
    }
}

proof fn lemma_refresh_current(s: ServiceView, resolve: bool)
    ensures
        listeners_current(s, iwd::refresh_started(s, resolve)),
        listeners_current(s, iwd::refresh_scheduled(s)),
        listeners_current(s, iwd::queued_refresh(s)),
{
    let e = EffectView::StartRefresh {
        delay_ms: iwd::refresh_delay(iwd::refresh_started(s, resolve).0.ssid_resolve_attempts),
        generation: s.generation,
    };
    lemma_last_told_one(e);
    lemma_last_told_one(EffectView::ScheduleRefresh);
    let t = ServiceView { refresh_needed: false, ..s };
    lemma_last_told_one(
        EffectView::StartRefresh {
            delay_ms: iwd::refresh_delay(t.ssid_resolve_attempts),
            generation: t.generation,
        },
    );
}

proof fn lemma_found_current(s: ServiceView, path: Seq<char>)
    ensures
        listeners_current(s, iwd::adapter_found(s, path)),
        listeners_current(s, iwd::station_found(s, path)),
{
    lemma_told(s);
    let a = ServiceView { adapter_path: Some(path), ..s };
    let (a1, ea) = iwd::made_available(a);
    lemma_told(a1);
    let setup = if s.bus {
        seq![EffectView::SetupAdapterProxy(path)]
    } else {
        iwd::nothing()
    };
    lemma_last_told_one(EffectView::SetupAdapterProxy(path));
    lemma_last_told_one(EffectView::RegisterAgent { is_retry: false });
    lemma_last_told_one(EffectView::ExportAgent);
    lemma_last_told_concat(ea, setup);
    lemma_last_told_concat(ea + setup, iwd::agent_wanted(a1));
    let b = ServiceView { station_path: Some(path), ..s };
    let (b1, eb) = iwd::made_available(b);
    lemma_told(b1);
    let setup_b = if s.bus {
        seq![EffectView::SetupStationProxy(path)]
    } else {
        iwd::nothing()
    };
    lemma_last_told_one(EffectView::SetupStationProxy(path));
    lemma_last_told_concat(eb, setup_b);
}

proof fn lemma_cleared_current(s: ServiceView)
    ensures
        listeners_current(s, iwd::station_cleared(s)),
        listeners_current(s, iwd_events::service_lost(s)),
        listeners_current(s, iwd::made_unavailable(s)),
{
    lemma_told(s);
    let u = ServiceView { snapshot: network::iwd_unknown(), ..s };
    lemma_told(u);
    // the station is cleared
    let c1 = ServiceView { station_ready: false, station_path: None, ..iwd::idle(s) };
    lemma_refuse_current(c1, iwd::CancelReason::PoweredOff);
    let (c2, e2) = iwd::refuse_pending(c1, iwd::CancelReason::PoweredOff);
    let c3 = iwd::station_cleared(s).0;
    lemma_told(c3);
    lemma_last_told_concat(e2, iwd::told(c3));
    // the service is lost
    let p1 = ServiceView {
        adapter_ready: false,
        station_ready: false,
        adapter_path: None,
        station_path: None,
        ..iwd::idle(s)
    };
    lemma_refuse_current(p1, iwd::CancelReason::ServiceUnavailable);
    let (p2, ep) = iwd::refuse_pending(p1, iwd::CancelReason::ServiceUnavailable);
    let tail = if s.bus && s.agent_exported {
        seq![EffectView::UnexportAgent]
    } else {
        iwd::nothing()
    };
    lemma_last_told_one(EffectView::UnexportAgent);
    lemma_last_told_concat(ep, tail);
    let p3 = iwd::proxies_cleared(s);
    assert(listeners_current(s, p3));
    let u2 = ServiceView { snapshot: network::iwd_unknown(), ..p3.0 };
    lemma_told(u2);
    lemma_told(p3.0);
    lemma_then(s, p3, iwd::made_unavailable(p3.0));
}

proof fn lemma_station_current(s: ServiceView, p: StationView, powered: Option<bool>)
    ensures
        listeners_current(s, iwd::station_updated(s, p)),
        listeners_current(s, iwd::adapter_updated(s, powered)),
{
    lemma_told(s);
    lemma_told(iwd::adapter_updated(s, powered).0);
    if s.station_ready {
        let s1 = iwd::station_heard(s, p);
        lemma_told(s1);
        let e = if iwd::station_changed(s, p) {
            iwd::told(s1)
        } else {
            iwd::nothing()
        };
        assert(!iwd::station_changed(s, p) ==> s1.snapshot == s.snapshot);
        assert(listeners_current(s, (s1, e)));
        lemma_refresh_current(s1, iwd::resolving(s, p) && iwd::list_wanted(s, p));
        lemma_then(
            s,
            (s1, e),
            iwd::refresh_started(s1, iwd::resolving(s, p) && iwd::list_wanted(s, p)),
        );
    }
}

/// Whatever background work reports, listeners know the latest snapshot.
pub proof fn law_updates_keep_listeners_current(
    s: ServiceView,
    networks: Seq<NetView>,
    ssid: Seq<char>,
    reason: Seq<char>,
    path: Seq<char>,
    generation: u64,
    p: StationView,
)
    ensures
        listeners_current(s, iwd::adapter_found(s, path)),
        listeners_current(s, iwd::station_found(s, path)),
        listeners_current(s, iwd::networks_refreshed(s, networks, generation, p)),
        listeners_current(s, iwd::connection_failed(s, ssid, reason, generation)),
        listeners_current(s, iwd::refresh_failed(s, generation)),
{
    lemma_found_current(s, path);
    lemma_told(s);
    let s1 = ServiceView { refresh_in_progress: false, ..s };
    lemma_refresh_current(s1, false);
    lemma_told(iwd::connection_failed(s, ssid, reason, generation).0);
    if generation == s.generation {
        let s2 = ServiceView {
            snapshot: IwdView { networks, initial_scan_complete: true, ..s1.snapshot },
            ..s1
        };
        lemma_told(s2);
        lemma_station_current(s2, p, None);
        let o3 = iwd::station_updated(s2, p);
        lemma_then(s, (s2, iwd::told(s2)), o3);
        lemma_refresh_current(o3.0, false);
        lemma_then(s, (o3.0, iwd::told(s2) + o3.1), iwd::queued_refresh(o3.0));
    }
}

/// Whatever the bus reports, listeners know the latest snapshot.
pub proof fn law_bus_events_keep_listeners_current(
    s: ServiceView,
    objects: Seq<ObjectView>,
    path: Seq<char>,
    interfaces: Seq<Seq<char>>,
    has_owner: Option<bool>,
    powered: Option<bool>,
    p: StationView,
)
    ensures
        listeners_current(s, iwd_events::watcher_answered(s, has_owner)),
        listeners_current(s, iwd_events::owner_changed(s, has_owner == Some(true))),
        listeners_current(s, iwd_events::objects_found(s, objects)),
        listeners_current(s, iwd_events::interfaces_added(s, path, interfaces)),
        listeners_current(s, iwd_events::interfaces_removed(s, path, interfaces, powered)),
        listeners_current(s, iwd_events::adapter_proxy_made(s, powered)),
        listeners_current(s, iwd_events::adapter_proxy_lost(s)),
        listeners_current(s, iwd_events::station_proxy_made(s, p)),
        listeners_current(s, iwd_events::station_proxy_lost(s)),
{
    lemma_told(s);
    lemma_last_told_one(EffectView::Discover);
    lemma_cleared_current(s);
    lemma_told(iwd_events::adapter_proxy_lost(s).0);
    lemma_told(iwd_events::station_proxy_lost(s).0);
    lemma_station_current(ServiceView { adapter_ready: true, ..s }, p, powered);
    lemma_station_current(ServiceView { station_ready: true, ..s }, p, powered);
    lemma_objects_current(s, objects);
    lemma_added_current(s, path, interfaces);
    lemma_removed_current(s, path, interfaces, powered);
}

proof fn lemma_objects_current(s: ServiceView, objects: Seq<ObjectView>)
    ensures
        listeners_current(s, iwd_events::objects_found(s, objects)),
{
    lemma_told(s);
    let a = match iwd_events::first_with(objects, iwd::IFACE_ADAPTER@) {
        Some(p) => iwd::adapter_found(s, p),
        None => (s, iwd::nothing()),
    };
    if let Some(p) = iwd_events::first_with(objects, iwd::IFACE_ADAPTER@) {
        lemma_found_current(s, p);
    }
    let b = match iwd_events::first_with(objects, iwd::IFACE_STATION@) {
        Some(p) => iwd::station_found(a.0, p),
        None => (a.0, iwd::nothing()),
    };
    if let Some(p) = iwd_events::first_with(objects, iwd::IFACE_STATION@) {
        lemma_found_current(a.0, p);
    }
    lemma_then(s, a, b);
    let c = if b.0.adapter_path is None && b.0.station_path is None {
        iwd::made_unavailable(b.0)
    } else {
        (b.0, iwd::nothing())
    };
    lemma_cleared_current(b.0);
    lemma_then(s, (b.0, a.1 + b.1), c);
}

proof fn lemma_added_current(s: ServiceView, path: Seq<char>, interfaces: Seq<Seq<char>>)
    ensures
        listeners_current(s, iwd_events::interfaces_added(s, path, interfaces)),
    decreases interfaces.len(),
{
    lemma_told(s);
    if interfaces.len() > 0 {
        lemma_added_current(s, path, interfaces.drop_last());
        let a = iwd_events::interfaces_added(s, path, interfaces.drop_last());
        lemma_found_current(a.0, path);
        lemma_refresh_current(a.0, false);
        lemma_told(a.0);
        lemma_then(s, a, iwd_events::interface_added(a.0, path, interfaces.last()));
    }
}

proof fn lemma_removed_current(
    s: ServiceView,
    path: Seq<char>,
    interfaces: Seq<Seq<char>>,
    powered: Option<bool>,
)
    ensures
        listeners_current(s, iwd_events::interfaces_removed(s, path, interfaces, powered)),
{
    lemma_told(s);
    lemma_refresh_current(s, false);
    let a = if interfaces.contains(iwd::IFACE_NETWORK@) {
        iwd::refresh_scheduled(s)
    } else {
        (s, iwd::nothing())
    };
    lemma_cleared_current(a.0);
    lemma_then(s, a, iwd_events::service_lost(a.0));
    let b = iwd::station_cleared(a.0);
    lemma_then(s, a, b);
    let p = StationView { state: None, scanning: false, connected_network: None };
    lemma_station_current(b.0, p, powered);
    lemma_then(s, (b.0, a.1 + b.1), iwd::adapter_updated(b.0, powered));
}

proof fn lemma_auth_current(s: ServiceView, ssid: Seq<char>, reason: Seq<char>)
    ensures
        listeners_current(s, iwd_events::auth_cleared(s)),
        listeners_current(s, iwd_events::failure_set(s, ssid, reason)),
        listeners_current(s, iwd_events::failure_cleared(s)),
        listeners_current(s, iwd_events::asked(s, ssid)),
{
    lemma_told(s);
    lemma_told(iwd_events::auth_cleared(s).0);
    lemma_told(iwd_events::failure_set(s, ssid, reason).0);
    lemma_told(iwd_events::failure_cleared(s).0);
    lemma_told(iwd_events::asked(s, ssid).0);
}

proof fn lemma_submit_current(s: ServiceView, passphrase: Seq<char>)
    ensures
        listeners_current(s, iwd_events::passphrase_submitted(s, passphrase)),
{
    lemma_told(s);
    if let Some(token) = s.pending_auth {
        let e = EffectView::AnswerAuth { token, passphrase };
        lemma_last_told_one(e);
        let t = ServiceView { pending_auth: None, ..s };
        lemma_auth_current(t, passphrase, passphrase);
        lemma_then(s, (t, seq![e]), iwd_events::auth_cleared(t));
    }
}

proof fn lemma_cancel_current(s: ServiceView)
    ensures
        listeners_current(s, iwd_events::auth_canceled(s)),
{
    lemma_told(s);
    lemma_refuse_current(s, iwd::CancelReason::UserCanceled);
    let (s1, e1) = iwd::refuse_pending(s, iwd::CancelReason::UserCanceled);
    let s2 = ServiceView { connecting_network: None, pending_password: None, ..s1 };
    lemma_auth_current(s2, Seq::empty(), Seq::empty());
    lemma_then(s, (s2, e1), iwd_events::auth_cleared(s2));
}

/// Whatever the user does, listeners know the latest snapshot.
pub proof fn law_user_actions_keep_listeners_current(
    s: ServiceView,
    path: Seq<char>,
    passphrase: Seq<char>,
    ssid: Seq<char>,
    reason: Seq<char>,
    error: ConnectError,
    generation: u64,
)
    ensures
        listeners_current(s, iwd_events::connect_wanted(s, path)),
        listeners_current(s, iwd_events::connect_failed(s, error, ssid, generation)),
        listeners_current(s, iwd_events::disconnect_wanted(s)),
        listeners_current(s, iwd_events::scan_wanted(s)),
        listeners_current(s, iwd_events::passphrase_submitted(s, passphrase)),
        listeners_current(s, iwd_events::auth_canceled(s)),
        listeners_current(s, iwd_events::failure_set(s, ssid, reason)),
        listeners_current(s, iwd_events::failure_cleared(s)),
        listeners_current(s, iwd_events::shut_down(s)),
{
    lemma_told(s);
    lemma_auth_current(s, ssid, reason);
    lemma_submit_current(s, passphrase);
    lemma_cancel_current(s);
    // connect
    let c = iwd_events::connecting(s, path);
    lemma_told(c);
    let call = EffectView::CallConnect {
        path,
        cached_ssid: network::ssid_at(s.snapshot.networks, path),
        generation: s.generation,
    };
    lemma_last_told_one(call);
    assert(iwd::told(c).push(call) =~= iwd::told(c) + seq![call]);
    lemma_last_told_concat(iwd::told(c), seq![call]);
    // a failure
    let r = iwd_events::reason_of(error);
    let t = ServiceView { agent_canceled_by_us: false, ..s };
    lemma_told(iwd::connection_failed(s, ssid, r, generation).0);
    lemma_told(iwd::connection_failed(t, ssid, r, generation).0);
    // disconnect
    let d = iwd_events::auth_canceled(s);
    lemma_last_told_one(EffectView::CallDisconnect);
    lemma_told(d.0);
    lemma_then(
        s,
        d,
        (
            d.0,
            if d.0.station_ready {
                seq![EffectView::CallDisconnect]
            } else {
                iwd::nothing()
            },
        ),
    );
    // scan
    let k = iwd_events::scan_wanted(s).0;
    lemma_told(k);
    lemma_last_told_one(EffectView::CallScan);
    lemma_last_told_concat(iwd::nothing(), seq![EffectView::CallScan]);
    lemma_last_told_concat(iwd::told(k), seq![EffectView::CallScan]);
    // shutdown
    lemma_refuse_current(s, iwd::CancelReason::ShuttingDown);
    let h = iwd::refuse_pending(s, iwd::CancelReason::ShuttingDown);
    lemma_last_told_one(EffectView::UnexportAgent);
    lemma_last_told_concat(h.1, seq![EffectView::UnexportAgent]);
}

/// Whatever the daemon asks of the agent, and when the user is too slow,
/// listeners know the latest snapshot.
pub proof fn law_agent_calls_keep_listeners_current(
    s: ServiceView,
    token: u64,
    method: Seq<char>,
    path: Option<Seq<char>>,
    reason: Seq<char>,
)
    ensures
        listeners_current(s, iwd_events::agent_called(s, token, method, path, reason)),
        listeners_current(s, iwd_events::auth_timed_out(s)),
{
    lemma_told(s);
    lemma_last_told_one(EffectView::Reply(token));
    lemma_last_told_one(EffectView::ReplyMissingPath(token));
    lemma_last_told_one(EffectView::ReplyUnknownMethod(token, method));
    lemma_agent_cancel_current(s, token, reason);
    lemma_request_current(s, token, path);
    lemma_enterprise_current(s, token, path);
    lemma_timeout_current(s);
}

proof fn lemma_agent_cancel_current(s: ServiceView, token: u64, reason: Seq<char>)
    ensures
        listeners_current(s, iwd_events::agent_cancel(s, token, reason)),
{
    lemma_told(s);
    let a = iwd_events::cancellation_shown(s, reason);
    if let (Some(n), Some(r)) = (
        iwd_events::canceled_ssid(s),
        iwd_events::cancellation_reason(reason),
    ) {
        lemma_auth_current(s, n, r);
    }
    lemma_refuse_current(a.0, iwd::CancelReason::Canceled);
    let b = iwd::refuse_pending(a.0, iwd::CancelReason::Canceled);
    lemma_then(s, a, b);
    let c = ServiceView { connecting_network: None, ..b.0 };
    lemma_auth_current(c, reason, reason);
    assert(listeners_current(s, (c, a.1 + b.1)));
    lemma_then(s, (c, a.1 + b.1), iwd_events::auth_cleared(c));
    let d = iwd_events::auth_cleared(c);
    lemma_last_told_one(EffectView::Reply(token));
    lemma_then(s, (d.0, a.1 + b.1 + d.1), (d.0, seq![EffectView::Reply(token)]));
}

proof fn lemma_request_current(s: ServiceView, token: u64, path: Option<Seq<char>>)
    ensures
        listeners_current(s, iwd_events::passphrase_requested(s, token, path)),
{
    lemma_told(s);
    lemma_last_told_one(EffectView::ReplyMissingPath(token));
    lemma_last_told_one(
        EffectView::RefuseAuth { token, reason: iwd::CancelReason::UnexpectedNetwork },
    );
    if let Some(path) = path {
        lemma_refuse_current(s, iwd::CancelReason::Superseded);
        let (s1, e1) = iwd::refuse_pending(s, iwd::CancelReason::Superseded);
        let s2 = ServiceView { pending_auth: Some(token), pending_password: None, ..s1 };
        let timer = seq![EffectView::StartAuthTimer(token)];
        lemma_last_told_one(EffectView::StartAuthTimer(token));
        lemma_last_told_concat(e1, timer);
        match s.pending_password {
            Some(p) => {
                lemma_submit_current(s2, p);
                lemma_then(s, (s2, e1 + timer), iwd_events::passphrase_submitted(s2, p));
            },
            None => {
                let n = iwd_events::asked_ssid(s, path);
                lemma_auth_current(s2, n, n);
                lemma_then(s, (s2, e1 + timer), iwd_events::asked(s2, n));
            },
        }
    }
}

proof fn lemma_enterprise_current(s: ServiceView, token: u64, path: Option<Seq<char>>)
    ensures
        listeners_current(s, iwd_events::enterprise_requested(s, token, path)),
{
    lemma_told(s);
    let text = "Enterprise WiFi not supported"@;
    let a = match path {
        Some(p) => iwd_events::failure_set(s, iwd_events::enterprise_ssid(s, p), text),
        None => (s, iwd::nothing()),
    };
    if let Some(p) = path {
        lemma_auth_current(s, iwd_events::enterprise_ssid(s, p), text);
    }
    let e = EffectView::RefuseAuth { token, reason: iwd::CancelReason::Enterprise };
    lemma_last_told_one(e);
    lemma_last_told_concat(a.1, seq![e]);
}

proof fn lemma_timeout_current(s: ServiceView)
    ensures
        listeners_current(s, iwd_events::auth_timed_out(s)),
{
    lemma_told(s);
    lemma_refuse_current(s, iwd::CancelReason::TimedOut);
    let (s1, e1) = iwd::refuse_pending(s, iwd::CancelReason::TimedOut);
    let s2 = ServiceView { connecting_network: None, ..s1 };
    let text = "Authentication timed out"@;
    let c = match s.connecting_network {
        Some(p) => iwd_events::failure_set(s2, p.1, text),
        None => (s2, iwd::nothing()),
    };
    if let Some(p) = s.connecting_network {
        lemma_auth_current(s2, p.1, text);
    }
    lemma_then(s, (s2, e1), c);
    lemma_auth_current(c.0, text, text);
    lemma_then(s, (c.0, e1 + c.1), iwd_events::auth_cleared(c.0));
}

// ---------------------------------------------------------------------------
// Agent requests
// ---------------------------------------------------------------------------

/// An effect that answers or refuses a request.
pub open spec fn settles(e: EffectView, token: u64) -> bool {
    match e {
        EffectView::AnswerAuth { token: t, .. } => t == token,
        EffectView::RefuseAuth { token: t, .. } => t == token,
        _ => false,
    }
}

pub open spec fn settled(effects: Seq<EffectView>, token: u64) -> bool {
    exists|i: int| 0 <= i < effects.len() && settles(#[trigger] effects[i], token)
}

/// A request that waits is not dropped: once it no longer waits, it was
/// answered or refused.
pub open spec fn not_dropped(s: ServiceView, out: Out) -> bool {
    match s.pending_auth {
        Some(token) => out.0.pending_auth == Some(token) || settled(out.1, token),
        None => true,
    }
}

proof fn lemma_refuse_settles(s: ServiceView, reason: iwd::CancelReason, rest: Seq<EffectView>)
    ensures
        not_dropped(s, iwd::refuse_pending(s, reason)),
        s.pending_auth matches Some(token) ==> settled(
            iwd::refuse_pending(s, reason).1 + rest,
            token,
        ),
{
    if let Some(token) = s.pending_auth {
        let e = iwd::refuse_pending(s, reason).1;
        assert(settles(e[0], token));
        assert((e + rest)[0] == e[0]);
        assert(settles((e + rest)[0], token));
    }
}

/// A request that waits is never dropped in silence: teardown, power-off, a
/// newer request, a cancellation from either side, an answer, a timeout and
/// the end of the service all answer or refuse it.
pub proof fn law_waiting_request_is_settled(
    s: ServiceView,
    token: u64,
    path: Option<Seq<char>>,
    reason: Seq<char>,
    passphrase: Seq<char>,
)
    ensures
        not_dropped(s, iwd::proxies_cleared(s)),
        not_dropped(s, iwd::station_cleared(s)),
        not_dropped(s, iwd_events::passphrase_requested(s, token, path)),
        not_dropped(s, iwd_events::agent_cancel(s, token, reason)),
        not_dropped(s, iwd_events::auth_canceled(s)),
        not_dropped(s, iwd_events::passphrase_submitted(s, passphrase)),
        not_dropped(s, iwd_events::auth_timed_out(s)),
        not_dropped(s, iwd_events::shut_down(s)),
{
    if let Some(waiting) = s.pending_auth {
        let p1 = ServiceView {
            adapter_ready: false,
            station_ready: false,
            adapter_path: None,
            station_path: None,
            ..iwd::idle(s)
        };
        let tail = if s.bus && s.agent_exported {
            seq![EffectView::UnexportAgent]
        } else {
            iwd::nothing()
        };
        lemma_refuse_settles(p1, iwd::CancelReason::ServiceUnavailable, tail);
        let c1 = ServiceView { station_ready: false, station_path: None, ..iwd::idle(s) };
        lemma_refuse_settles(
            c1,
            iwd::CancelReason::PoweredOff,
            iwd::told(iwd::station_cleared(s).0),
        );
        lemma_request_settles(s, token, path);
        lemma_agent_cancel_settles(s, token, reason);
        let u = iwd::refuse_pending(s, iwd::CancelReason::UserCanceled);
        let u2 = ServiceView { connecting_network: None, pending_password: None, ..u.0 };
        lemma_refuse_settles(
            s,
            iwd::CancelReason::UserCanceled,
            iwd_events::auth_cleared(u2).1,
        );
        let o = iwd_events::passphrase_submitted(s, passphrase);
        assert(settles(o.1[0], waiting));
        let t = iwd::refuse_pending(s, iwd::CancelReason::TimedOut);
        let t2 = ServiceView { connecting_network: None, ..t.0 };
        let t3 = match s.connecting_network {
            Some(p) => iwd_events::failure_set(t2, p.1, "Authentication timed out"@),
            None => (t2, iwd::nothing()),
        };
        let t4 = iwd_events::auth_cleared(t3.0);
        lemma_refuse_settles(s, iwd::CancelReason::TimedOut, t3.1 + t4.1);
        assert(t.1 + t3.1 + t4.1 =~= t.1 + (t3.1 + t4.1));
        lemma_refuse_settles(s, iwd::CancelReason::ShuttingDown, seq![EffectView::UnexportAgent]);
    }
}

proof fn lemma_request_settles(s: ServiceView, token: u64, path: Option<Seq<char>>)
    ensures
        not_dropped(s, iwd_events::passphrase_requested(s, token, path)),
{
    if let Some(p) = path {
        if !iwd_events::unexpected(s, p) {
            let (s1, e1) = iwd::refuse_pending(s, iwd::CancelReason::Superseded);
            let s2 = ServiceView { pending_auth: Some(token), pending_password: None, ..s1 };
            let o = match s.pending_password {
                Some(w) => iwd_events::passphrase_submitted(s2, w),
                None => iwd_events::asked(s2, iwd_events::asked_ssid(s, p)),
            };
            let timer = seq![EffectView::StartAuthTimer(token)];
            lemma_refuse_settles(s, iwd::CancelReason::Superseded, timer + o.1);
            assert(e1 + timer + o.1 =~= e1 + (timer + o.1));
        }
    }
}

proof fn lemma_agent_cancel_settles(s: ServiceView, token: u64, reason: Seq<char>)
    ensures
        not_dropped(s, iwd_events::agent_cancel(s, token, reason)),
{
    if let Some(waiting) = s.pending_auth {
        let a = iwd_events::cancellation_shown(s, reason);
        let b = iwd::refuse_pending(a.0, iwd::CancelReason::Canceled);
        assert(settles(b.1[0], waiting));
        let out = iwd_events::agent_cancel(s, token, reason);
        assert(out.1[a.1.len() as int] == b.1[0]);
        assert(settles(out.1[a.1.len() as int], waiting));
    }
}

/// A password is given to no network but the one being connected to: a request
/// for another is refused, and nothing else changes for listeners, for the
/// request that waits or for the password kept.
pub proof fn law_other_networks_get_no_password(s: ServiceView, token: u64, path: Seq<char>)
    requires
        iwd_events::unexpected(s, path),
    ensures
        ({
            let out = iwd_events::passphrase_requested(s, token, Some(path));
            &&& out.0 == ServiceView { agent_canceled_by_us: true, ..s }
            &&& out.1 == seq![
                EffectView::RefuseAuth { token, reason: iwd::CancelReason::UnexpectedNetwork },
            ]
        }),
{
}

/// A password kept for a retry is used once, without asking the user.
pub proof fn law_kept_password_is_used_once(s: ServiceView, token: u64, path: Seq<char>)
    requires
        s.pending_password is Some,
        !iwd_events::unexpected(s, path),
    ensures
        ({
            let out = iwd_events::passphrase_requested(s, token, Some(path));
            &&& out.0.pending_password is None
            &&& out.0.pending_auth is None
            &&& out.0.snapshot.auth_request is None
            &&& out.1.contains(
                EffectView::AnswerAuth { token, passphrase: s.pending_password->0 },
            )
        }),
{
    let out = iwd_events::passphrase_requested(s, token, Some(path));
    let p = s.pending_password->0;
    let (s1, e1) = iwd::refuse_pending(s, iwd::CancelReason::Superseded);
    let k = e1.len() + 1;
    assert(out.1[k as int] == EffectView::AnswerAuth { token, passphrase: p });
}

/// A wrong password is told from our own refusal: the agent's error counts as
/// a wrong password exactly when nothing was refused by us since.
pub proof fn law_own_refusals_are_no_wrong_password(s: ServiceView, ssid: Seq<char>)
    ensures
        ({
            let out = iwd_events::connect_failed(s, ConnectError::Agent, ssid, s.generation);
            &&& !out.0.agent_canceled_by_us
            &&& s.agent_canceled_by_us ==> out.0.snapshot == s.snapshot && out.1.len() == 0
            &&& !s.agent_canceled_by_us ==> out.0.snapshot.failed_ssid == Some(ssid)
        }),
{
}

// ---------------------------------------------------------------------------
// Teardown, refreshes and failures
// ---------------------------------------------------------------------------

/// Results of work that was started before a teardown leave the snapshot and
/// the attempt under way alone.
pub proof fn law_stale_results_change_nothing(
    s: ServiceView,
    networks: Seq<NetView>,
    ssid: Seq<char>,
    reason: Seq<char>,
    generation: u64,
    p: StationView,
)
    requires
        generation != s.generation,
    ensures
        iwd::connection_failed(s, ssid, reason, generation) == (s, iwd::nothing()),
        iwd::refresh_failed(s, generation) == (s, iwd::nothing()),
        iwd::networks_refreshed(s, networks, generation, p).0.snapshot == s.snapshot,
        iwd::networks_refreshed(s, networks, generation, p).0.connecting_network
            == s.connecting_network,
{
}

/// After a teardown, results of work started before it are stale.
pub proof fn law_teardown_makes_results_stale(s: ServiceView)
    ensures
        iwd::proxies_cleared(s).0.generation != s.generation,
        iwd::station_cleared(s).0.generation != s.generation,
{
}

/// Switching Wi-Fi off keeps the adapter, so that it can be switched on again.
pub proof fn law_adapter_survives_power_off(s: ServiceView, enabled: bool)
    ensures
        ({
            let t = iwd::station_cleared(s).0;
            &&& t.adapter_path == s.adapter_path
            &&& t.snapshot.available == s.snapshot.available
            &&& iwd_events::power_wanted(t, enabled) == iwd_events::power_wanted(s, enabled)
        }),
{
}

pub open spec fn starts_refresh(effects: Seq<EffectView>) -> bool {
    exists|i: int| 0 <= i < effects.len() && #[trigger] effects[i] is StartRefresh
}

/// A refresh that was asked for while another was under way is not lost: once
/// that one ends, in success or failure, a refresh starts.
pub proof fn law_queued_refresh_is_not_lost(
    s: ServiceView,
    networks: Seq<NetView>,
    p: StationView,
)
    requires
        s.refresh_in_progress,
        s.station_ready,
    ensures
        ({
            let q = iwd::refresh_started(s, false).0;
            &&& starts_refresh(iwd::networks_refreshed(q, networks, q.generation, p).1)
            &&& starts_refresh(iwd::refresh_failed(q, q.generation).1)
        }),
{
    let q = iwd::refresh_started(s, false).0;
    let f = iwd::refresh_failed(q, q.generation);
    assert(f.1[0] is StartRefresh);
    let s1 = ServiceView { refresh_in_progress: false, ..q };
    let s2 = ServiceView {
        snapshot: IwdView { networks, initial_scan_complete: true, ..s1.snapshot },
        ..s1
    };
    let o3 = iwd::station_updated(s2, p);
    let o4 = iwd::queued_refresh(o3.0);
    let all = iwd::told(s2) + o3.1 + o4.1;
    if iwd::list_wanted(s2, p) || iwd::scan_ended(s2, p) {
        let h = iwd::station_heard(s2, p);
        let r = iwd::refresh_started(h, iwd::resolving(s2, p) && iwd::list_wanted(s2, p));
        let k = o3.1.len() - 1;
        assert(r.1.len() == 1);
        assert(o3.1[k] is StartRefresh);
        assert(all[1 + k] == o3.1[k]);
        assert(all[1 + k] is StartRefresh);
    } else {
        let k = 1 + o3.1.len();
        assert(o4.1.len() == 1);
        assert(all[k as int] == o4.1[0]);
        assert(all[k as int] is StartRefresh);
    }
}

/// However often the station speaks, the name of the connected network is
/// looked for a bounded number of times.
pub proof fn law_name_lookups_are_bounded(s: ServiceView, p: StationView)
    requires
        iwd::valid(s),
    ensures
        iwd::valid(iwd::station_updated(s, p).0),
        s.ssid_resolve_attempts == MAX_SSID_RESOLVE_ATTEMPTS && iwd::resolving(s, p)
            ==> !iwd::list_wanted(s, p),
{
}

/// A specific reason for a failure is not replaced by a later, general one for
/// the same network.
pub proof fn law_specific_reason_stands(
    s: ServiceView,
    ssid: Seq<char>,
    specific: Seq<char>,
    general: Seq<char>,
)
    ensures
        ({
            let t = iwd_events::failure_set(s, ssid, specific).0;
            let u = iwd::connection_failed(t, ssid, general, t.generation).0;
            &&& u.snapshot.failed_ssid == Some(ssid)
            &&& u.snapshot.failed_reason == Some(specific)
        }),
{
}

/// A failed attempt does not leave the state at `Connecting`.
pub proof fn law_failures_end_connecting(s: ServiceView, ssid: Seq<char>, reason: Seq<char>)
    ensures
        ({
            let t = iwd::connection_failed(s, ssid, reason, s.generation).0;
            &&& t.snapshot.state != Some(StationState::Connecting)
            &&& t.connecting_network is None
            &&& t.pending_password is None
        }),
{
}

} // verus!

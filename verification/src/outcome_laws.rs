//! What the functions themselves give back, in terms of what they are given.

use vstd::prelude::*;
use vstd::string::*;

use crate::base;
use crate::base::{FirstCheck, MenuHandle, MenuHide, MenuRefresh, MenuShow, ShowIf};
use crate::callbacks::{CallbackId, Callbacks};
use crate::control_panel;
use crate::iwd;
use crate::iwd::{EffectView, IwdEffect, IwdService};
use crate::iwd_networks;
use crate::iwd_networks::{NetworkProps, OrderedNetwork};
use crate::iwd_network_laws;
use crate::layer_shell_popover::{HidePlan, PopoverState};
use crate::names::NameMap;
use crate::network;
use crate::network::{IwdSnapshot, NetworkSnapshot, SecurityType, StationState, WifiNetwork};
use crate::network_card;
use crate::network_card::MobileRequest;
use crate::text;
use crate::text_laws;
use crate::vpn_card::{VpnAuthDialog, VpnKeyboardState};
use crate::wallpaper;
use crate::wallpaper::{DetectStep, DetectView, HyprpaperProtocol, WallpaperSource};
use crate::wallpaper_laws;
use crate::wifi_list;
use crate::wifi_list::{CommandView, NetworkCommand};
use crate::window_title::{WindowInfo, WindowTitleService, WindowTitleSnapshot};
use crate::workspace;
use crate::workspace::{
    CompositorRequest, Workspace, WorkspaceMeta, WorkspaceService, WorkspaceServiceSnapshot,
    WorkspaceSnapshot,
};

verus! {

// ---------------------------------------------------------------------------
// Wallpapers
// ---------------------------------------------------------------------------

/// A wallpaper below the home directory is given back as a path below the home
/// directory, for every monitor.
pub proof fn law_detected_path_is_below_home(
    content: &str,
    monitor: Option<&str>,
    home: &str,
    rest: Seq<char>,
    r: Option<String>,
)
    requires
        call_ensures(wallpaper::detect_waypaper_wallpaper, (content, monitor, home), r),
        wallpaper_laws::settings_hold(text::lines_spec(content@), "wallpaper"@, "~/"@ + rest),
        text_laws::is_trimmed("~/"@ + rest),
        !rest.contains(','),
    ensures
        r is Some,
        r->0@ == home@ + "/"@ + rest,
{
    wallpaper_laws::law_home_paths_are_found(content@, rest, text::opt_view(monitor), home@);
}

/// No wallpaper that is given back begins with the sign for the home directory,
/// unless the home directory itself does.
pub proof fn law_detected_path_has_no_tilde(
    content: &str,
    monitor: Option<&str>,
    home: &str,
    r: Option<String>,
)
    requires
        call_ensures(wallpaper::detect_waypaper_wallpaper, (content, monitor, home), r),
        r is Some,
        home@ != "~"@,
        !(home@.len() >= 2 && home@[0] == '~' && home@[1] == '/'),
    ensures
        r->0@ != "~"@,
        !(r->0@.len() >= 2 && r->0@[0] == '~' && r->0@[1] == '/'),
{
    reveal_strlit("~");
    assert("~"@ =~= seq!['~']);
    wallpaper_laws::law_no_tilde_is_left(content@, text::opt_view(monitor), home@);
    assert(text::opt_string_view(r) == Some(r->0@));
    assert(!wallpaper_laws::has_tilde(home@));
    assert(!wallpaper_laws::has_tilde(r->0@));
}

/// Detection begins with hyprpaper and ends with the first path that is found.
pub proof fn law_detection_ends_with_a_path(
    first: DetectStep,
    asked: WallpaperSource,
    answer: Option<String>,
    next: DetectStep,
)
    requires
        call_ensures(wallpaper::detect_wallpaper, (None,), first),
        call_ensures(wallpaper::detect_wallpaper, (Some((asked, answer)),), next),
    ensures
        first@ == DetectView::Ask(WallpaperSource::Hyprpaper),
        answer matches Some(p) ==> next@ == DetectView::Found(p@),
        answer is None && asked == WallpaperSource::Hyprpaper ==> next@ == DetectView::Ask(
            WallpaperSource::Wpaperd,
        ),
        answer is None && asked == WallpaperSource::Wpaperd ==> next@ == DetectView::Ask(
            WallpaperSource::Waypaper,
        ),
        answer is None && asked == WallpaperSource::Waypaper ==> next@ == DetectView::Ask(
            WallpaperSource::Awww,
        ),
        answer is None && asked == WallpaperSource::Awww ==> next@ == DetectView::NotFound,
{
}

/// The daemon's socket is that of its instance where there is one, else the one
/// that all instances share, both below the runtime directory.
pub proof fn law_socket_is_below_the_runtime_directory(
    dir: &str,
    signature: Option<&str>,
    exists_there: bool,
    r: Option<String>,
    none: Option<String>,
)
    requires
        call_ensures(
            wallpaper::resolve_hyprpaper_socket_path,
            (Some(dir), signature, exists_there),
            r,
        ),
        call_ensures(
            wallpaper::resolve_hyprpaper_socket_path,
            (None, signature, exists_there),
            none,
        ),
    ensures
        none is None,
        r is Some,
        signature is Some && exists_there ==> r->0@ == dir@ + "/hypr/"@ + signature->0@
            + "/.hyprpaper.sock"@,
        signature is None || !exists_there ==> r->0@ == dir@ + "/hypr/.hyprpaper.sock"@,
{
}

/// A daemon is spoken to with the protocol that its memory map shows, and not at
/// all where the map is not known.
pub proof fn law_protocol_is_known_or_nothing_is_said(
    maps: &str,
    r: Option<HyprpaperProtocol>,
    none: Option<HyprpaperProtocol>,
)
    requires
        call_ensures(wallpaper::hyprpaper_protocol, (Some(maps),), r),
        call_ensures(wallpaper::hyprpaper_protocol, (None,), none),
    ensures
        none is None,
        r is Some,
        r == Some(HyprpaperProtocol::Hyprwire) <==> wallpaper::speaks_hyprwire(maps@),
{
}

// ---------------------------------------------------------------------------
// Networks
// ---------------------------------------------------------------------------

/// Every network of the list is what its properties say: the one in use where
/// they say that it is connected, known where they name a saved network, with the
/// name, the protection and the signal that were read.
pub proof fn law_listed_networks_are_as_read(
    ordered: Vec<OrderedNetwork>,
    props: NameMap<NetworkProps>,
    r: Vec<WifiNetwork>,
    k: int,
)
    requires
        props.wf(),
        call_ensures(iwd_networks::join_networks, (&ordered, &props), r),
        0 <= k < r@.len(),
    ensures
        ({
            let n = r@[k];
            &&& n.path is Some
            &&& props@.dom().contains(n.path->0@)
            &&& n.active == props@[n.path->0@].connected
            &&& n.ssid@ == props@[n.path->0@].name@
            &&& n.known == (props@[n.path->0@].known_network_path is Some)
            &&& n.known_network_path is Some == n.known
            &&& n.known ==> n.known_network_path->0@
                == props@[n.path->0@].known_network_path->0@
            &&& n.security == SecurityType::Open <==> props@[n.path->0@].net_type@ == "open"@
        }),
{
    let pv = iwd_networks::props_views(props@);
    assert(network::net_views(r@).len() == r@.len());
    assert(network::net_views(r@)[k] == r@[k]@);
    iwd_network_laws::law_networks_show_their_properties(ordered@, pv, k);
    let path = r@[k].path->0@;
    assert(pv[path] == props@[path]@);
}

/// Signals are told in percent: 0 at -100 dBm and below, 100 at -50 dBm and above,
/// and one more with each half dBm between.
pub proof fn law_signals_are_told_in_percent(p: int, rest: int, dbm: i16, r: i32)
    requires
        call_ensures(iwd_networks::dbm_to_percent, (dbm,), r),
    ensures
        dbm <= -10000 ==> r == 0,
        dbm >= -5000 ==> r == 100,
        0 <= p < 100 && 0 <= rest < 50 && dbm == -10000 + 50 * p + rest ==> r == p,
{
    if 0 <= p < 100 && 0 <= rest < 50 && dbm == -10000 + 50 * p + rest {
        assert((50 * p + rest) / 50 == p) by (nonlinear_arith)
            requires
                0 <= rest < 50,
        ;
        if p == 0 && rest == 0 {
            assert(r == 0);
        }
    }
}

/// A network stands for itself in every statement.
pub proof fn law_networks_stand_for_themselves(n: WifiNetwork, s: IwdSnapshot)
    ensures
        n@.ssid == n.ssid@,
        n@.strength == n.strength,
        n@.security == n.security,
        n@.active == n.active,
        n@.known == n.known,
        n@.path is Some == n.path is Some,
        n@.path is Some ==> n@.path->0 == n.path->0@,
        n@.known_network_path is Some == n.known_network_path is Some,
        n@.known_network_path is Some ==> n@.known_network_path->0 == n.known_network_path->0@,
        s@.available == s.available,
        s@.state == s.state,
        s@.wifi_enabled == s.wifi_enabled,
        s@.scanning == s.scanning,
        s@.initial_scan_complete == s.initial_scan_complete,
        s@.ssid is Some == s.ssid is Some,
        s@.ssid is Some ==> s@.ssid->0 == s.ssid->0@,
        s@.failed_ssid is Some == s.failed_ssid is Some,
        s@.failed_ssid is Some ==> s@.failed_ssid->0 == s.failed_ssid->0@,
        s@.failed_reason is Some == s.failed_reason is Some,
        s@.failed_reason is Some ==> s@.failed_reason->0 == s.failed_reason->0@,
        s@.auth_request is Some == s.auth_request is Some,
        s@.auth_request is Some ==> s@.auth_request->0 == s.auth_request->0.ssid@,
        s@.networks.len() == s.networks@.len(),
        forall|i: int|
            0 <= i < s.networks@.len() ==> #[trigger] s@.networks[i] == s.networks@[i]@,
{
}

/// The service stands for itself in every statement.
pub proof fn law_service_stands_for_itself(s: IwdService)
    ensures
        s@.snapshot == s.snapshot@,
        s@.adapter_ready == s.adapter_ready,
        s@.station_ready == s.station_ready,
        s@.bus == s.bus,
        s@.agent_exported == s.agent_exported,
        s@.agent_registered == s.agent_registered,
        s@.pending_auth == s.pending_auth,
        s@.scan_in_progress == s.scan_in_progress,
        s@.refresh_in_progress == s.refresh_in_progress,
        s@.refresh_needed == s.refresh_needed,
        s@.network_refresh_pending == s.network_refresh_pending,
        s@.ssid_resolve_attempts == s.ssid_resolve_attempts,
        s@.generation == s.generation,
        s@.agent_canceled_by_us == s.agent_canceled_by_us,
        s@.adapter_path is Some == s.adapter_path is Some,
        s@.adapter_path is Some ==> s@.adapter_path->0 == s.adapter_path->0@,
        s@.station_path is Some == s.station_path is Some,
        s@.station_path is Some ==> s@.station_path->0 == s.station_path->0@,
        s@.pending_password is Some == s.pending_password is Some,
        s@.pending_password is Some ==> s@.pending_password->0 == s.pending_password->0@,
        s@.connecting_network is Some == s.connecting_network is Some,
        s@.connecting_network is Some ==> (s@.connecting_network->0).0
            == (s.connecting_network->0).0@ && (s@.connecting_network->0).1
            == (s.connecting_network->0).1@,
{
}

/// The effects that are asked for stand for themselves, in order.
pub proof fn law_effects_stand_for_themselves(effects: Seq<IwdEffect>, i: int)
    requires
        0 <= i < effects.len(),
    ensures
        iwd::effect_views(effects).len() == effects.len(),
        iwd::effect_views(effects)[i] == effects[i]@,
        effects[i] matches IwdEffect::SetPowered(b) ==> effects[i]@ == EffectView::SetPowered(b),
        effects[i] matches IwdEffect::AnswerAuth { token, passphrase } ==> effects[i]@
            == (EffectView::AnswerAuth { token, passphrase: passphrase@ }),
        effects[i] matches IwdEffect::RefuseAuth { token, reason } ==> effects[i]@
            == (EffectView::RefuseAuth { token, reason }),
        effects[i] matches IwdEffect::Notify(s) ==> effects[i]@ == EffectView::Notify(s@),
        effects[i] matches IwdEffect::CallForget(p) ==> effects[i]@ == EffectView::CallForget(p@),
        effects[i] matches IwdEffect::StartRefresh { delay_ms, generation } ==> effects[i]@
            == (EffectView::StartRefresh { delay_ms, generation }),
        effects[i] matches IwdEffect::CallConnect { path, cached_ssid, generation } ==> effects[i]@
            matches EffectView::CallConnect { path: p, cached_ssid: c, generation: g } && p == path@
            && g == generation && c is Some == cached_ssid is Some,
{
    reveal(iwd::effect_views);
}

/// A whole number of gigabits is shown as such, and a speed below one gigabit in
/// megabits, behind the interface where it is known.
pub proof fn law_wired_speed_is_shown(s: NetworkSnapshot, gbps: &str, r: Vec<String>, n: nat)
    requires
        call_ensures(network_card::build_ethernet_subtitle, (&s, gbps), r),
    ensures
        r@.len() == (if s@.wired_iface is Some {
            1int
        } else {
            0
        }) + (if s@.wired_speed is Some {
            1int
        } else {
            0
        }),
        s@.wired_iface is Some ==> r@[0]@ == s@.wired_iface->0,
        s@.wired_speed is Some && n > 0 && s@.wired_speed->0 == 1000 * n ==> r@.last()@
            == text::dec(n) + " Gbps"@,
        s@.wired_speed is Some && s@.wired_speed->0 < 1000 ==> r@.last()@ == text::dec(
            s@.wired_speed->0 as nat,
        ) + " Mbps"@,
        s@.wired_speed is Some && s@.wired_speed->0 >= 1000 && s@.wired_speed->0 % 1000 != 0
            ==> r@.last()@ == gbps@ + " Gbps"@,
{
    let v = s@;
    let parts = network_card::ethernet_parts_of(v, gbps@);
    assert(text::string_views(r@).len() == r@.len());
    assert(forall|i: int| 0 <= i < r@.len() ==> text::string_views(r@)[i] == #[trigger] r@[i]@);
    if v.wired_speed is Some && n > 0 && v.wired_speed->0 == 1000 * n {
        assert((1000 * n) / 1000 == n);
        assert((1000 * n) % 1000 == 0);
    }
    if v.wired_speed is Some {
        assert(r@.last() == r@[r@.len() - 1]);
        assert(parts.last() == network_card::speed_text(v.wired_speed->0 as nat, gbps@));
    }
}

/// The mobile button ends a connection that is up and makes one otherwise.
pub proof fn law_mobile_button(s: NetworkSnapshot, r: MobileRequest)
    requires
        call_ensures(network_card::mobile_button_request, (&s,), r),
    ensures
        r == MobileRequest::Disconnect <==> s@.mobile_active,
{
}

/// The menu of a network ends its connection where it is in use and connects to
/// it otherwise. Forgetting goes by the path of the saved network.
pub proof fn law_menu_is_for_its_network(
    n: WifiNetwork,
    menu: NetworkCommand,
    forget: NetworkCommand,
)
    requires
        call_ensures(wifi_list::press_menu, (&n,), menu),
        call_ensures(wifi_list::press_forget, (&n,), forget),
    ensures
        n.active ==> menu@ == CommandView::Disconnect,
        !n.active ==> menu@ == (CommandView::Connect { ssid: n.ssid@, path: n@.path }),
        forget@ == (CommandView::Forget { ssid: n.ssid@, path: n@.known_network_path }),
{
}

/// A listener of the network service is told the current snapshot and nothing
/// else changes.
pub proof fn law_new_listener_is_told(
    s: &mut IwdService,
    r: (CallbackId, IwdSnapshot),
)
    requires
        old(s).wf(),
        old(s).callbacks.has_room(),
        call_ensures(IwdService::connect, (s,), r),
    ensures
        final(s)@ == old(s)@,
        r.1@ == old(s).snapshot@,
        final(s).callbacks@ == old(s).callbacks@.push(r.0),
        !old(s).callbacks@.contains(r.0),
{
}

/// A password is kept for the next request, and a scan that returned is over.
pub proof fn law_password_is_kept(s: &mut IwdService, password: Option<&str>)
    requires
        old(s).wf(),
        call_ensures(IwdService::set_pending_password, (s, password), ()),
    ensures
        final(s)@.pending_password is Some == password is Some,
        password matches Some(p) ==> final(s)@.pending_password == Some(p@),
        final(s)@.snapshot == old(s)@.snapshot,
        final(s)@.pending_auth == old(s)@.pending_auth,
        final(s)@.connecting_network == old(s)@.connecting_network,
{
}

// ---------------------------------------------------------------------------
// Workspaces and windows
// ---------------------------------------------------------------------------

/// A workspace of an output is urgent exactly where the session says so, and is
/// active and occupied as the output says where it has state of its own, else as
/// the session says.
pub proof fn law_workspace_of_an_output(
    meta: WorkspaceMeta,
    s: WorkspaceSnapshot,
    output: &str,
    w: Workspace,
)
    requires
        call_ensures(Workspace::from_meta_per_output, (&meta, &s, output), w),
    ensures
        w.id == meta.id && w.idx == meta.idx && w.name@ == meta.name@,
        w.urgent == s.urgent_workspaces@.contains(meta.id),
        s.per_output@.dom().contains(output@) ==> {
            &&& w.active == s.per_output@[output@].active_workspace@.contains(meta.id)
            &&& w.occupied == s.per_output@[output@].occupied_workspaces@.contains(meta.id)
            &&& w.window_count is Some == s.per_output@[output@].window_counts@.dom().contains(
                meta.id,
            )
            &&& w.window_count is Some ==> w.window_count->0
                == s.per_output@[output@].window_counts@[meta.id]
        },
        !s.per_output@.dom().contains(output@) ==> {
            &&& w.active == s.active_workspace@.contains(meta.id)
            &&& w.occupied == s.occupied_workspaces@.contains(meta.id)
            &&& w.window_count is Some == s.window_counts@.dom().contains(meta.id)
        },
        w.output is Some == meta.output is Some,
        w.output is Some ==> w.output->0@ == meta.output->0@,
{
    workspace::law_urgency_is_that_of_the_session(meta, s, output@);
    assert(w@ == workspace::output_workspace(meta, s, output@));
    assert(w@.output == text::opt_string_view(meta.output));
    assert(w@.urgent == w.urgent && w@.active == w.active && w@.occupied == w.occupied
        && w@.window_count == w.window_count && w@.name == w.name@);
}

/// A workspace of the session is as the session says.
pub proof fn law_workspace_of_the_session(meta: WorkspaceMeta, s: WorkspaceSnapshot, w: Workspace)
    requires
        call_ensures(Workspace::from_meta, (&meta, &s), w),
    ensures
        w.id == meta.id && w.idx == meta.idx && w.name@ == meta.name@,
        w.urgent == s.urgent_workspaces@.contains(meta.id),
        w.active == s.active_workspace@.contains(meta.id),
        w.occupied == s.occupied_workspaces@.contains(meta.id),
        w.window_count is Some == s.window_counts@.dom().contains(meta.id),
        w.window_count is Some ==> w.window_count->0 == s.window_counts@[meta.id],
{
    assert(w@.urgent == w.urgent && w@.active == w.active && w@.occupied == w.occupied
        && w@.window_count == w.window_count && w@.name == w.name@ && w@.id == w.id && w@.idx
        == w.idx);
}

/// Every listener is told of a change, in the order in which they came, and what
/// it is told is the change.
pub proof fn law_everyone_is_told_of_workspaces(
    service: &mut WorkspaceService,
    snapshot: WorkspaceSnapshot,
    workspaces: Vec<WorkspaceMeta>,
    told: (Vec<CallbackId>, WorkspaceServiceSnapshot),
)
    requires
        old(service).wf(),
        snapshot.per_output.wf(),
        call_ensures(WorkspaceService::handle_update, (service, snapshot, workspaces), told),
    ensures
        told.0@ == old(service).callbacks@,
        final(service).ready,
        final(service).snapshot == snapshot,
        final(service).workspaces == workspaces,
        workspace::snapshot_of(told.1, workspaces@, snapshot),
        told.1.workspaces@.len() == workspaces@.len(),
{
    assert(workspace::workspace_views(told.1.workspaces@).len() == told.1.workspaces@.len());
}

/// The compositor is asked for the workspace that is to be shown.
pub proof fn law_switch_asks_for_the_workspace(s: WorkspaceService, id: i32, r: CompositorRequest)
    requires
        call_ensures(WorkspaceService::switch_workspace, (&s, id), r),
    ensures
        r == CompositorRequest::SwitchWorkspace(id),
{
}

/// Every listener is told of the focused window, as the compositor describes it.
pub proof fn law_everyone_is_told_of_the_window(
    service: &mut WindowTitleService,
    info: WindowInfo,
    told: (Vec<CallbackId>, WindowTitleSnapshot),
)
    requires
        old(service).wf(),
        call_ensures(WindowTitleService::handle_update, (service, &info), told),
    ensures
        told.0@ == old(service).callbacks@,
        told.1.title@ == info.title@,
        told.1.app_id@ == info.app_id@,
        told.1.output is Some == info.output is Some,
        told.1.output is Some ==> told.1.output->0@ == info.output->0@,
        final(service).current.title@ == info.title@,
        final(service).current.app_id@ == info.app_id@,
        final(service).ready,
{
    assert(told.1@ == info@);
    assert(final(service).current@ == info@);
    assert(told.1@.2 == info@.2);
}

/// A listener of the focused window is told it at once where there is something
/// to tell, and nothing changes but that it listens.
pub proof fn law_new_listener_is_told_the_window(
    service: &mut WindowTitleService,
    r: (CallbackId, Option<WindowTitleSnapshot>),
)
    requires
        old(service).wf(),
        old(service).callbacks.has_room(),
        call_ensures(WindowTitleService::connect, (service,), r),
    ensures
        r.1 is Some == old(service).ready,
        r.1 is Some ==> r.1->0.title@ == old(service).current.title@,
        final(service).callbacks@ == old(service).callbacks@.push(r.0),
        !old(service).callbacks@.contains(r.0),
        final(service).current@ == old(service).current@,
{
    if r.1 is Some {
        assert(r.1->0@ == old(service).current@);
    }
}

/// Every listener has an id of its own, and one that leaves is not told any more
/// while the others stay in order.
pub proof fn law_listeners_come_and_go(c: &mut Callbacks, id: CallbackId)
    requires
        old(c).wf(),
        old(c).has_room(),
        call_ensures(Callbacks::register, (c,), id),
    ensures
        id.0 == old(c).next,
        final(c).next == old(c).next + 1,
        final(c)@ == old(c)@.push(id),
        !old(c)@.contains(id),
{
}

// ---------------------------------------------------------------------------
// Menus and conditions
// ---------------------------------------------------------------------------

/// A widget with a condition starts hidden, shows what the first check says, and
/// looks once more where it stays hidden and has no timer.
pub proof fn law_first_check_decides(s: &mut ShowIf, visible: bool, r: FirstCheck)
    requires
        call_ensures(ShowIf::on_first_check, (s, visible), r),
    ensures
        r.visible == visible,
        r.retry <==> !visible && old(s).period is None,
        final(s).visible == visible,
        final(s).period == old(s).period,
{
}

/// A later check changes the widget exactly where its answer did.
pub proof fn law_later_checks_tell_changes(s: &mut ShowIf, visible: bool, r: Option<bool>)
    requires
        call_ensures(ShowIf::on_tick, (s, visible), r),
    ensures
        r is Some <==> visible != old(s).visible,
        r is Some ==> r->0 == visible,
        final(s).visible == visible,
        final(s).period == old(s).period,
{
}

/// A menu that is shown has a place among popovers, and its popover is made only
/// where there is none.
pub proof fn law_shown_menu_has_a_place(
    m: &mut MenuHandle,
    has_application: bool,
    id: u64,
    x: i32,
    window_visible: bool,
    r: Option<MenuShow>,
)
    requires
        old(m).wf(),
        call_ensures(MenuHandle::show, (m, has_application, id, x, window_visible), r),
    ensures
        r is None <==> old(m).popover is None && !has_application,
        r is Some ==> final(m).tracker_id == Some(id),
        r is Some ==> (r->0.create <==> old(m).popover is None),
        r is Some ==> final(m).visible(),
        r is Some ==> final(m).popover->0.state.anchor_x == x,
        r is None ==> *final(m) == *old(m),
{
}

/// A menu that is hidden is not open any more, and its place is given back.
pub proof fn law_hidden_menu_gives_its_place_back(m: &mut MenuHandle, animations: bool, r: MenuHide)
    requires
        old(m).wf(),
        call_ensures(MenuHandle::dismiss, (m, animations), r),
    ensures
        !final(m).visible(),
        final(m).tracker_id is None,
        r.clear == old(m).tracker_id,
        r.plan is Some <==> old(m).popover is Some,
        final(m).popover is Some <==> old(m).popover is Some,
{
}

/// Content that is out of date is built anew at once in an open menu, and is
/// marked in one that is not open.
pub proof fn law_stale_menu_is_built_anew(m: &mut MenuHandle, r: MenuRefresh)
    requires
        old(m).wf(),
        call_ensures(MenuHandle::refresh_if_visible, (m,), r),
    ensures
        r == MenuRefresh::Marked <==> old(m).popover is Some && !old(m).visible(),
        r == MenuRefresh::Rebuild <==> old(m).visible() && old(m).popover->0.state.anim_shell,
        r == MenuRefresh::Marked ==> final(m).popover->0.state.content_dirty,
        final(m).visible() == old(m).visible(),
        final(m).tracker_id == old(m).tracker_id,
{
}

// ---------------------------------------------------------------------------
// VPNs
// ---------------------------------------------------------------------------

/// What the user wants of a connection is pending from then on, in its own list.
pub proof fn law_wish_is_pending(k: &mut VpnKeyboardState, uuid: &str, up: bool)
    requires
        old(k).wf(),
        call_ensures(VpnKeyboardState::track_toggle_action, (k, uuid, up), ()),
    ensures
        up ==> final(k)@.pending_connects.contains(uuid@),
        !up ==> final(k)@.pending_disconnects.contains(uuid@),
        up ==> final(k)@.pending_disconnects == old(k)@.pending_disconnects,
        !up ==> final(k)@.pending_connects == old(k)@.pending_connects,
        final(k)@.keyboard_released == old(k)@.keyboard_released,
{
    let c = old(k)@.pending_connects;
    let d = old(k)@.pending_disconnects;
    assert(c.push(uuid@)[c.len() as int] == uuid@);
    assert(d.push(uuid@)[d.len() as int] == uuid@);
}

/// When the panel closes nothing is pending, and the keyboard is taken back where
/// it was let go.
pub proof fn law_closing_forgets_what_is_pending(k: &mut VpnKeyboardState, restore: bool)
    requires
        old(k).wf(),
        call_ensures(VpnKeyboardState::clear, (k,), restore),
    ensures
        restore == old(k).keyboard_released,
        final(k)@.pending_connects.len() == 0,
        final(k)@.pending_disconnects.len() == 0,
        !final(k).keyboard_released,
{
    assert(old(k)@.keyboard_released == old(k).keyboard_released);
    assert(final(k)@.keyboard_released == final(k).keyboard_released);
}

/// Secrets are handed over as they were entered, and the prompt goes with them.
/// Without any nothing happens.
pub proof fn law_secrets_are_handed_over(
    d: &mut VpnAuthDialog,
    secrets: Vec<(String, String)>,
    r: Option<Vec<(String, String)>>,
)
    requires
        call_ensures(VpnAuthDialog::on_vpn_auth_connect_clicked, (d, secrets), r),
    ensures
        r is Some <==> secrets@.len() > 0,
        r is Some ==> r->0 == secrets && final(d).target is None,
        r is None ==> *final(d) == *old(d),
{
}

// ---------------------------------------------------------------------------
// The clock
// ---------------------------------------------------------------------------

/// The time is shown in two digits each, and months and weekdays by their names.
pub proof fn law_time_is_shown(hour: nat, minute: nat)
    requires
        hour < 24,
        minute < 60,
    ensures
        ({
            let t = control_panel::time_text(hour, minute);
            &&& t.len() == 5
            &&& t[0] as u32 == 48 + hour / 10
            &&& t[1] as u32 == 48 + hour % 10
            &&& t[2] == ':'
            &&& t[3] as u32 == 48 + minute / 10
            &&& t[4] as u32 == 48 + minute % 10
        }),
{
    reveal_strlit(":");
}

/// The weather is shown as the command printed it, without the white space around
/// it, and stays where the command failed or printed nothing.
pub proof fn law_weather_is_shown(
    blank: Seq<char>,
    weather: Seq<char>,
    end: Seq<char>,
    stdout: Seq<u8>,
)
    requires
        text_laws::all_spaces(blank),
        text_laws::all_spaces(end),
        text_laws::is_trimmed(weather),
        vstd::utf8::valid_utf8(stdout),
        vstd::utf8::decode_utf8(stdout) == blank + weather + end,
    ensures
        weather.len() > 0 ==> control_panel::weather_text(true, stdout) == Some(weather),
        weather.len() == 0 ==> control_panel::weather_text(true, stdout) is None,
        control_panel::weather_text(false, stdout) is None,
{
    text_laws::law_trimming(blank, weather, end);
}

// ---------------------------------------------------------------------------
// Small answers
// ---------------------------------------------------------------------------

/// A path below the home directory is spelled out, the home directory itself too,
/// and any other path stays as it is, also one whose first name begins with a
/// tilde.
pub proof fn law_home_is_spelled_out(path: &str, home: &str, rest: Seq<char>, r: String)
    requires
        call_ensures(wallpaper::expand_tilde, (path, home), r),
    ensures
        path@ == "~/"@ + rest ==> r@ == home@ + "/"@ + rest,
        path@ == seq!['~'] ==> r@ == home@,
        path@.len() == 0 || path@[0] != '~' ==> r@ == path@,
        path@.len() > 1 && path@[1] != '/' ==> r@ == path@,
{
    reveal_strlit("~/");
    reveal_strlit("~");
    reveal_strlit("/");
    assert("~"@ =~= seq!['~']);
    assert("~/"@ =~= seq!['~', '/']);
    assert("/"@ =~= seq!['/']);
    if path@ == "~/"@ + rest {
        assert(path@.len() >= 2);
        assert(path@.take(2) =~= "~/"@);
        assert(home@ + path@.skip(1) =~= home@ + "/"@ + rest);
    }
    if path@.len() > 1 {
        assert(path@.take(2)[0] == path@[0]);
        assert(path@.take(2)[1] == path@[1]);
    }
}

/// The socket of an instance of the wallpaper daemon stands in a directory of its
/// own, named by its signature: the sockets of two instances differ.
pub proof fn law_instances_have_their_own_socket(
    dir: &str,
    a: &str,
    b: &str,
    at_a: String,
    at_b: String,
)
    requires
        call_ensures(wallpaper::hyprpaper_instance_socket, (dir, a), at_a),
        call_ensures(wallpaper::hyprpaper_instance_socket, (dir, b), at_b),
    ensures
        at_a@ == dir@ + "/hypr/"@ + a@ + "/.hyprpaper.sock"@,
        at_a@ == at_b@ <==> a@ == b@,
{
    let end = "/.hyprpaper.sock"@;
    let start = dir@ + "/hypr/"@;
    if at_a@ == at_b@ {
        assert(at_a@.len() == start.len() + a@.len() + end.len());
        assert(at_b@.len() == start.len() + b@.len() + end.len());
        assert(at_a@.subrange(start.len() as int, (start.len() + a@.len()) as int) =~= a@);
        assert(at_b@.subrange(start.len() as int, (start.len() + b@.len()) as int) =~= b@);
    }
}

/// A widget goes by the first of its classes, and has no name without one.
pub proof fn law_widget_goes_by_its_first_class(classes: Vec<String>, r: String)
    requires
        call_ensures(base::widget_name, (&classes,), r),
    ensures
        classes@.len() > 0 ==> r@ == classes@.first()@,
        classes@.len() == 0 ==> r@.len() == 0,
{
}

/// The second look shows the widget exactly where it passed.
pub proof fn law_second_check_decides(s: ShowIf, visible: bool, show: bool)
    requires
        call_ensures(ShowIf::on_retry, (&s, visible), show),
    ensures
        show == visible,
{
}

/// A window is told as it is: its title, its application and its output.
pub proof fn law_window_is_told_as_it_is(
    info: WindowInfo,
    told: WindowTitleSnapshot,
    copied: WindowTitleSnapshot,
)
    requires
        call_ensures(WindowTitleSnapshot::of, (&info,), told),
        call_ensures(WindowTitleSnapshot::copy, (&told,), copied),
    ensures
        told.title@ == info.title@,
        told.app_id@ == info.app_id@,
        told.output is Some == info.output is Some,
        told.output is Some ==> told.output->0@ == info.output->0@,
        copied.title@ == info.title@,
        copied.app_id@ == info.app_id@,
        copied.output is Some == info.output is Some,
        copied.output is Some ==> copied.output->0@ == info.output->0@,
{
}

/// Closing or cancelling the dialog for a VPN's secrets leaves no connection that
/// it is for.
pub proof fn law_closed_dialog_is_for_nothing(d: &mut VpnAuthDialog)
    requires
        call_ensures(VpnAuthDialog::hide_vpn_auth_dialog, (d,), ()) || call_ensures(
            VpnAuthDialog::on_vpn_auth_cancel_clicked,
            (d,),
            (),
        ),
    ensures
        final(d).target is None,
{
}

} // verus!

//! What holds of the Quick Settings panel, whatever is configured.

use vstd::prelude::*;
use vstd::string::*;

use crate::bar_widget::{
    AudioSnapshot, BluetoothDevice, BluetoothSnapshot, QuickSettingsCardsConfig,
    QuickSettingsConfig, ToggleAt,
};
use crate::layer_shell_popover;
use crate::layer_shell_popover::{AfterMap, BarGeometry, Tick};
use crate::network::NetworkView;
use crate::network_card;
use crate::quick_settings;
use crate::quick_settings::{
    BrightnessRow, CardKind, ContentItem, HidePanel, InitialCard, InitialNetworkCard, MicSnapshot,
    PanelMapped, PanelPlace, QuickSettingsWindow, QuickSettingsWindowHandle, Subscription,
    Surroundings, VolumeRow,
};
use crate::text;
use crate::vpn_card::VpnSnapshot;

verus! {

// ---------------------------------------------------------------------------
// The content
// ---------------------------------------------------------------------------

/// A card is in the panel exactly where it is configured, and the VPN card only
/// where there is a VPN service.
pub proof fn law_panel_has_the_cards(cfg: QuickSettingsCardsConfig, around: Surroundings)
    ensures
        ({
            let cards = quick_settings::cards_of(cfg, around);
            &&& cards.contains(CardKind::Network) <==> cfg.network
            &&& cards.contains(CardKind::Bluetooth) <==> cfg.bluetooth
            &&& cards.contains(CardKind::Vpn) <==> cfg.vpn && around.vpn_available
            &&& cards.contains(CardKind::IdleInhibitor) <==> cfg.idle_inhibitor
            &&& cards.contains(CardKind::Updates) <==> cfg.updates
            &&& cards.contains(CardKind::Power) <==> cfg.power
        }),
{
    let shown = |k: CardKind| quick_settings::card_shown(cfg, around, k);
    let order = quick_settings::card_order();
    lemma_filter_keeps(order, shown);
    assert(order[0] == CardKind::Network);
    assert(order[1] == CardKind::Bluetooth);
    assert(order[2] == CardKind::Vpn);
    assert(order[3] == CardKind::IdleInhibitor);
    assert(order[4] == CardKind::Updates);
    assert(order[5] == CardKind::Power);
    assert(order.contains(CardKind::Network));
    assert(order.contains(CardKind::Bluetooth));
    assert(order.contains(CardKind::Vpn));
    assert(order.contains(CardKind::IdleInhibitor));
    assert(order.contains(CardKind::Updates));
    assert(order.contains(CardKind::Power));
}

/// With every card shown they stand in one order: network, Bluetooth, VPN, idle
/// inhibitor, updates, power.
pub proof fn law_cards_stand_in_order(cfg: QuickSettingsCardsConfig, around: Surroundings)
    requires
        cfg.network,
        cfg.bluetooth,
        cfg.vpn,
        cfg.idle_inhibitor,
        cfg.updates,
        cfg.power,
        around.vpn_available,
    ensures
        quick_settings::cards_of(cfg, around) == seq![
            CardKind::Network,
            CardKind::Bluetooth,
            CardKind::Vpn,
            CardKind::IdleInhibitor,
            CardKind::Updates,
            CardKind::Power,
        ],
{
    let shown = |k: CardKind| quick_settings::card_shown(cfg, around, k);
    lemma_filter_all(quick_settings::card_order(), shown);
}

/// The panel listens to a service exactly where its card or slider is configured.
pub proof fn law_panel_listens_to_what_it_shows(cfg: QuickSettingsCardsConfig)
    ensures
        ({
            let heard = quick_settings::subscriptions_of(cfg);
            &&& heard.contains(Subscription::Network) <==> cfg.network
            &&& heard.contains(Subscription::Bluetooth) <==> cfg.bluetooth
            &&& heard.contains(Subscription::Vpn) <==> cfg.vpn
            &&& heard.contains(Subscription::IdleInhibitor) <==> cfg.idle_inhibitor
            &&& heard.contains(Subscription::AudioOutput) <==> cfg.audio
            &&& heard.contains(Subscription::AudioMic) <==> cfg.mic
            &&& heard.contains(Subscription::Brightness) <==> cfg.brightness
            &&& heard.contains(Subscription::Updates) <==> cfg.updates
        }),
{
    let f = |s: Subscription| quick_settings::listens_to(cfg, s);
    let order = quick_settings::subscription_order();
    lemma_filter_keeps(order, f);
    assert(order[0] == Subscription::Network);
    assert(order[1] == Subscription::Bluetooth);
    assert(order[2] == Subscription::Vpn);
    assert(order[3] == Subscription::IdleInhibitor);
    assert(order[4] == Subscription::AudioOutput);
    assert(order[5] == Subscription::AudioMic);
    assert(order[6] == Subscription::Brightness);
    assert(order[7] == Subscription::Updates);
    assert(order.contains(Subscription::Network));
    assert(order.contains(Subscription::Bluetooth));
    assert(order.contains(Subscription::Vpn));
    assert(order.contains(Subscription::IdleInhibitor));
    assert(order.contains(Subscription::AudioOutput));
    assert(order.contains(Subscription::AudioMic));
    assert(order.contains(Subscription::Brightness));
    assert(order.contains(Subscription::Updates));
}

proof fn lemma_filter_keeps<A>(s: Seq<A>, f: spec_fn(A) -> bool)
    ensures
        forall|k: A| #[trigger] s.filter(f).contains(k) <==> s.contains(k) && f(k),
    decreases s.len(),
{
    reveal_with_fuel(Seq::filter, 1);
    if s.len() > 0 {
        let rest = s.drop_last();
        lemma_filter_keeps(rest, f);
        assert forall|k: A| #[trigger] s.filter(f).contains(k) <==> s.contains(k) && f(k) by {
            let kept = rest.filter(f);
            assert(s =~= rest.push(s.last()));
            assert(s.contains(k) <==> rest.contains(k) || k == s.last()) by {
                if rest.contains(k) {
                    let i = choose|i: int| 0 <= i < rest.len() && rest[i] == k;
                    assert(s[i] == k);
                }
                if k == s.last() {
                    assert(s[s.len() - 1] == k);
                }
            }
            if f(s.last()) {
                assert(s.filter(f) == kept.push(s.last()));
                if kept.contains(k) {
                    let i = choose|i: int| 0 <= i < kept.len() && kept[i] == k;
                    assert(kept.push(s.last())[i] == k);
                }
                assert(kept.push(s.last())[kept.len() as int] == s.last());
            }
        }
    }
}

proof fn lemma_filter_all<A>(s: Seq<A>, f: spec_fn(A) -> bool)
    requires
        forall|i: int| 0 <= i < s.len() ==> f(#[trigger] s[i]),
    ensures
        s.filter(f) == s,
    decreases s.len(),
{
    reveal_with_fuel(Seq::filter, 1);
    if s.len() > 0 {
        lemma_filter_all(s.drop_last(), f);
        assert(f(s[s.len() - 1]));
        assert(s =~= s.drop_last().push(s.last()));
    }
}

/// Every card unfolds but the idle inhibitor, and the power card only where it
/// does.
pub proof fn law_cards_unfold(around: Surroundings, kind: CardKind)
    ensures
        quick_settings::card_expands(around, CardKind::Power) == around.power_expands,
        !quick_settings::card_expands(around, CardKind::IdleInhibitor),
        kind != CardKind::Power && kind != CardKind::IdleInhibitor
            ==> quick_settings::card_expands(around, kind),
{
}

/// Two more cards in front of a list add a row of both in front, with the details
/// of those that unfold under it. Only the first row has no room above.
pub proof fn law_two_cards_make_a_row(
    a: CardKind,
    b: CardKind,
    rest: Seq<CardKind>,
    first: bool,
    around: Surroundings,
)
    requires
        quick_settings::card_expands(around, a),
        quick_settings::card_expands(around, b),
    ensures
        quick_settings::rows_of(seq![a, b] + rest, first, around) == seq![
            ContentItem::Row {
                left: a,
                right: Some(b),
                margin_top: if first {
                    0
                } else {
                    8
                },
            },
            ContentItem::Details(a),
            ContentItem::Details(b),
        ] + quick_settings::rows_of(rest, false, around),
{
    let cards = seq![a, b] + rest;
    assert(cards.skip(2) =~= rest);
    let all = quick_settings::rows_of(cards, first, around);
    assert(all =~= seq![
        ContentItem::Row {
            left: a,
            right: Some(b),
            margin_top: if first {
                0
            } else {
                8
            },
        },
        ContentItem::Details(a),
        ContentItem::Details(b),
    ] + quick_settings::rows_of(rest, false, around));
}

/// A card alone has a row of its own, with its details under it where it unfolds.
pub proof fn law_single_card_makes_a_row(a: CardKind, first: bool, around: Surroundings)
    ensures
        ({
            let rows = quick_settings::rows_of(seq![a], first, around);
            &&& rows.len() == if quick_settings::card_expands(around, a) {
                2int
            } else {
                1
            }
            &&& rows[0] == (ContentItem::Row {
                left: a,
                right: None,
                margin_top: if first {
                    0
                } else {
                    8
                },
            })
            &&& quick_settings::card_expands(around, a) ==> rows[1] == ContentItem::Details(a)
        }),
{
    reveal_with_fuel(quick_settings::rows_of, 2);
}

/// The sliders stand under the cards: the sound output, the microphone, the
/// brightness, each where it is configured, and the last where there is a screen
/// to dim.
pub proof fn law_sliders_stand_under_the_cards(
    cfg: QuickSettingsCardsConfig,
    around: Surroundings,
)
    ensures
        ({
            let all = quick_settings::content_of(cfg, around);
            let cards = quick_settings::rows_of(
                quick_settings::cards_of(cfg, around),
                true,
                around,
            );
            let n = cards.len() as int;
            let a: int = if cfg.audio {
                3
            } else {
                0
            };
            let m: int = if cfg.mic {
                3
            } else {
                0
            };
            let dims = cfg.brightness && around.brightness_available;
            &&& all.len() == n + a + m + if dims {
                1int
            } else {
                0
            }
            &&& all.take(n) == cards
            &&& cfg.audio ==> all[n] == (ContentItem::AudioRow { margin_top: 12 }) && all[n + 1]
                == ContentItem::AudioHint && all[n + 2] == ContentItem::AudioDetails
            &&& cfg.mic ==> all[n + a] == ContentItem::MicRow && all[n + a + 1]
                == ContentItem::MicHint && all[n + a + 2] == ContentItem::MicDetails
            &&& dims ==> all.last() == ContentItem::BrightnessRow
        }),
{
    let all = quick_settings::content_of(cfg, around);
    let cards = quick_settings::rows_of(quick_settings::cards_of(cfg, around), true, around);
    assert(all.take(cards.len() as int) =~= cards);
}

/// What unfolds takes its time, and none without animations.
pub proof fn law_unfolding_takes_its_time(item: ContentItem, slow: Option<u32>, fast: Option<u32>)
    requires
        call_ensures(quick_settings::reveal_duration, (item, true), slow),
        call_ensures(quick_settings::reveal_duration, (item, false), fast),
    ensures
        item is Details ==> slow == Some(250u32) && fast == Some(0u32),
        item is AudioDetails || item is MicDetails ==> slow == Some(200u32) && fast == Some(0u32),
        slow is Some <==> item is Details || item is AudioDetails || item is MicDetails,
        fast is Some <==> slow is Some,
{
}

// ---------------------------------------------------------------------------
// The cards as they are built
// ---------------------------------------------------------------------------

/// The network card is built as the network stands: its switch shows whether
/// Wi-Fi is on, and its icon is lit by any connection.
pub proof fn law_network_card_is_built(c: InitialNetworkCard, v: NetworkView, uses_material: bool)
    requires
        c.shows(v, uses_material),
    ensures
        c.icon@ == network_card::card_icon(v, uses_material),
        v.has_ethernet_device || v.has_modem_device ==> c.title@ == "Network"@,
        !v.has_ethernet_device && !v.has_modem_device ==> c.title@ == "Wi-Fi"@,
        c.toggle_active <==> v.wifi_enabled == Some(true),
        c.toggle_sensitive <==> v.has_wifi_device,
        c.icon_active <==> v.wired_connected || v.mobile_active || (v.connected && v.wifi_enabled
            == Some(true)),
        c.spinning <==> v.connecting_ssid is Some || v.wifi_device_connecting
            || v.mobile_connecting,
        c.disabled ==> v.wifi_enabled != Some(true) && !v.wired_connected && !v.mobile_active,
        v.wifi_enabled != Some(true) && !v.wired_connected && !v.mobile_active
            && !v.mobile_connecting ==> c.disabled,
        !c.icon_active || !c.disabled,
{
}

/// The first connected device is the one with no connected device before it.
pub proof fn law_first_connected_device(devices: Seq<BluetoothDevice>, k: int)
    requires
        0 <= k <= devices.len(),
        forall|i: int| 0 <= i < k ==> !(#[trigger] devices[i]).connected,
        k < devices.len() ==> devices[k].connected,
    ensures
        quick_settings::first_connected(devices) == if k < devices.len() {
            Some(devices[k].name@)
        } else {
            None
        },
    decreases devices.len(),
{
    if k > 0 {
        let rest = devices.drop_first();
        assert(!devices[0].connected);
        assert forall|i: int| 0 <= i < k - 1 implies !(#[trigger] rest[i]).connected by {
            assert(rest[i] == devices[i + 1]);
        }
        law_first_connected_device(rest, k - 1);
    }
}

/// The Bluetooth card names the only connected device and counts several. With
/// none it says whether the adapter is on.
pub proof fn law_bluetooth_card_says_what_is_connected(s: BluetoothSnapshot, r: InitialCard)
    requires
        call_ensures(quick_settings::build_bluetooth_card, (&s,), r),
    ensures
        !s.has_adapter ==> r.subtitle@ == "Unavailable"@,
        s.has_adapter && !s.is_ready ==> r.subtitle@ == "Bluetooth"@,
        s.has_adapter && s.is_ready ==> {
            &&& s.connected_devices > 1 ==> r.subtitle@ == text::dec(s.connected_devices as nat)
                + " connected"@
            &&& s.connected_devices == 1 && quick_settings::first_connected(s.devices@) is Some
                ==> r.subtitle@ == quick_settings::first_connected(s.devices@)->0
            &&& s.connected_devices == 0 && s.powered ==> r.subtitle@ == "Enabled"@
            &&& s.connected_devices == 0 && !s.powered ==> r.subtitle@ == "Disabled"@
        },
        r.toggle_active <==> s.powered && s.has_adapter,
        r.toggle_sensitive <==> s.has_adapter,
        r.icon_active <==> s.connected_devices > 0,
        r.disabled <==> !s.powered,
{
}

/// The VPN card is for the main connection and asks for that one.
pub proof fn law_vpn_card_is_built(
    s: VpnSnapshot,
    r: InitialCard,
    updating: bool,
    on: bool,
    q: Option<(String, bool)>,
)
    requires
        s.wf(),
        call_ensures(quick_settings::build_vpn_card, (&s,), r),
        call_ensures(quick_settings::vpn_toggle_request, (&s, updating, on), q),
    ensures
        r.toggle_active <==> s.primary is Some && s.connections@[s.primary->0 as int].active,
        r.toggle_sensitive <==> s.connections@.len() > 0,
        r.icon_active <==> s.any_active,
        !r.disabled,
        !s.is_ready ==> r.subtitle@ == "VPN"@,
        s.is_ready && s.primary is None ==> r.subtitle@ == "No connections"@,
        s.is_ready && r.toggle_active ==> r.subtitle@ == s.connections@[s.primary->0 as int].name@,
        s.is_ready && s.primary is Some && !r.toggle_active ==> r.subtitle@ == "Disconnected"@,
        q is Some <==> !updating && s.primary is Some,
        q matches Some(a) ==> a.0@ == s.connections@[s.primary->0 as int].uuid@ && a.1 == on,
{
}

/// The idle inhibitor's card shows and switches the idle inhibitor.
pub proof fn law_idle_inhibitor_card_is_built(active: bool, available: bool, r: InitialCard)
    requires
        call_ensures(quick_settings::build_idle_inhibitor_card, (active, available), r),
    ensures
        r.toggle_active == active,
        r.icon_active == active,
        r.toggle_sensitive == available,
        active ==> r.subtitle@ == "Enabled"@,
        !active ==> r.subtitle@ == "Disabled"@,
{
}

/// The sliders stand where the services say, and can be used where the services
/// can be set. A hint says where only that is missing.
pub proof fn law_sliders_stand_where_the_services_say(
    s: AudioSnapshot,
    m: MicSnapshot,
    bright: bool,
    percent: u32,
    out: VolumeRow,
    mic: VolumeRow,
    light: BrightnessRow,
)
    requires
        call_ensures(quick_settings::build_audio_section, (&s,), out),
        call_ensures(quick_settings::build_mic_section, (&m,), mic),
        call_ensures(quick_settings::build_brightness_section, (bright, percent), light),
    ensures
        out.value == s.volume && out.muted == s.muted,
        out.sensitive <==> s.available && s.control_available,
        out.hint_visible <==> s.available && !s.control_available,
        m.mic_volume matches Some(v) ==> mic.value == v,
        m.mic_volume is None ==> mic.value == 0,
        mic.muted <==> m.mic_muted == Some(true),
        mic.sensitive <==> m.available && m.mic_control_available,
        mic.hint_visible <==> m.available && !m.mic_control_available,
        bright ==> light.value == Some(percent),
        !bright ==> light.value is None,
        light.sensitive == bright,
{
}

/// A slider that the user moves asks for where it was moved to.
pub proof fn law_sliders_ask_for_where_they_stand(value: u32, moved: Option<u32>, set: Option<u32>)
    requires
        call_ensures(quick_settings::slider_request, (false, value), moved),
        call_ensures(quick_settings::slider_request, (true, value), set),
    ensures
        moved == Some(value),
        set is None,
{
}

// ---------------------------------------------------------------------------
// The panel's place
// ---------------------------------------------------------------------------

/// The panel has the width it has, else the one it last had, else an estimate
/// with room for its shadow on both sides.
pub proof fn law_panel_width_is_the_last_known(live: i32, cached: i32, shadow: int)
    ensures
        live > 0 ==> quick_settings::panel_width(live, cached, shadow) == live,
        live <= 0 && cached > 0 ==> quick_settings::panel_width(live, cached, shadow) == cached,
        live <= 0 && cached <= 0 ==> quick_settings::panel_width(live, cached, shadow) == 352 + 2
            * shadow,
{
}

/// The panel, the bar, the gap between them, the padding and the margin at the
/// far edge fill the monitor exactly.
pub proof fn law_panel_and_bar_fill_the_monitor(bar: BarGeometry, height: int)
    ensures
        quick_settings::height_left(bar, height) + bar.exclusive_zone() + bar.popover_offset
            + bar.bar_margin() + 24 + 8 == height,
{
}

/// The panel stands below its widget where the anchor is known, remembers the
/// width that it has, and is limited in height where there is room at all.
pub proof fn law_panel_has_its_place(
    bar: BarGeometry,
    anchor: i32,
    width: i32,
    height: i32,
    live: i32,
    cached: i32,
    shadow: i32,
    r: PanelPlace,
)
    requires
        i32::MIN <= bar.bar_margin() <= i32::MAX,
        quick_settings::height_left(bar, height as int) <= i32::MAX,
        anchor > 0 ==> i32::MIN <= quick_settings::panel_width(live, cached, shadow as int)
            <= i32::MAX,
        call_ensures(
            quick_settings::update_position,
            (&bar, anchor, width, height, live, cached, shadow),
            r,
        ),
    ensures
        r.bar_margin == bar.bar_margin(),
        anchor <= 0 ==> r.right == 8,
        anchor > 0 ==> r.right == layer_shell_popover::right_margin(
            anchor as int,
            width as int,
            quick_settings::panel_width(live, cached, shadow as int),
            4,
        ),
        anchor > 0 && live > 0 ==> r.cached_width == live,
        anchor <= 0 || live <= 0 ==> r.cached_width == cached,
        r.max_height is Some <==> quick_settings::height_left(bar, height as int) > 100,
        r.max_height matches Some(h) ==> h == quick_settings::height_left(bar, height as int),
{
}

// ---------------------------------------------------------------------------
// The panel
// ---------------------------------------------------------------------------

/// A panel that is shown is open under a new generation, and the first time is
/// told from every later one.
pub proof fn law_shown_panel_is_open(w: QuickSettingsWindow)
    ensures
        ({
            let (after, plan) = w.shown();
            &&& after.logically_open && !after.is_animating_out && after.awaits_keynav
            &&& after.click_catcher && after.has_been_mapped
            &&& after.generation == plan.generation && plan.generation != w.generation
            &&& plan.first <==> !w.has_been_mapped
            &&& plan.create_catcher <==> !w.click_catcher
            &&& !after.shown().1.first && !after.shown().1.create_catcher
            &&& after.anchor_x == w.anchor_x && after.cached_width == w.cached_width && after.anim
                == w.anim && after.config == w.config
        }),
{
}

/// A panel that is hidden is closed, once: hiding it again while it fades out
/// does nothing.
pub proof fn law_hidden_panel_is_closed(w: QuickSettingsWindow, animations: bool)
    ensures
        ({
            let (after, plan) = w.hidden(animations);
            &&& plan == HidePanel::Nothing <==> w.is_animating_out
            &&& w.is_animating_out ==> after == w
            &&& !w.is_animating_out ==> !after.logically_open && !after.awaits_keynav
                && after.generation != w.generation && after.is_animating_out == animations
                && after.anchor_x == w.anchor_x && after.has_been_mapped == w.has_been_mapped
            &&& !w.is_animating_out && animations ==> plan == HidePanel::Animate(after.generation)
                && after.hidden(animations) == (after, HidePanel::Nothing)
            &&& !w.is_animating_out && !animations ==> plan == HidePanel::Snap
        }),
{
}

/// Only the end of the fade ends it, and a tick never opens or closes the panel
/// for the user.
pub proof fn law_panel_ticks(w: QuickSettingsWindow, generation: u32, complete: bool)
    ensures
        ({
            let (after, t) = w.ticked(generation, complete);
            &&& t == layer_shell_popover::ticked(
                w.anim,
                w.generation,
                generation,
                complete,
            ).1
            &&& after.is_animating_out <==> w.is_animating_out && t != Tick::Closed
            &&& after.logically_open == w.logically_open && after.generation == w.generation
                && after.anchor_x == w.anchor_x
        }),
{
}

/// A window that came up under another generation is of no concern. Under its own
/// the network card is brought up to date, and the panel is placed the first time.
pub proof fn law_mapped_panel_is_placed(
    w: QuickSettingsWindow,
    generation: u32,
    first: bool,
    animations: bool,
    r: PanelMapped,
)
    requires
        call_ensures(QuickSettingsWindow::on_mapped, (&w, generation, first, animations), r),
    ensures
        r.after == AfterMap::Stale <==> w.generation != generation,
        r.deliver_network <==> w.generation == generation,
        r.place_and_uncover <==> w.generation == generation && first,
        w.generation == generation ==> (r.after == AfterMap::Animate <==> animations),
{
}

/// The panel closes when a connection comes up exactly where it is to.
pub proof fn law_panel_closes_on_connect(w: QuickSettingsWindow, completed: bool, r: bool)
    requires
        call_ensures(QuickSettingsWindow::closes_on_vpn, (&w, completed), r),
    ensures
        r <==> completed && w.config.cards.vpn_close_on_connect,
{
}

/// A panel is made once and kept: opening it makes one only where there is none,
/// and leaves it open at the anchor given.
pub proof fn law_panel_is_made_once(h: QuickSettingsWindowHandle, x: i32)
    ensures
        ({
            let (after, plan) = h.opened(x);
            &&& plan.create <==> h.window is None
            &&& after.open()
            &&& after.window is Some && after.window->0.anchor_x == x
            &&& !after.opened(x).1.create
            &&& after.tracker_id == h.tracker_id && after.config == h.config
            &&& h.window is None ==> after.window->0.config == h.config && plan.show.first
        }),
{
}

/// A panel that is closed is not open, and its place among popovers is given
/// back.
pub proof fn law_closed_panel_gives_its_place_back(h: QuickSettingsWindowHandle, animations: bool)
    requires
        h.open(),
        h.window->0.valid(),
    ensures
        ({
            let (after, plan) = h.closed(animations);
            &&& !after.open()
            &&& after.window is Some
            &&& after.tracker_id is None
            &&& plan.clear == h.tracker_id
            &&& plan.hide_panel != HidePanel::Nothing
            &&& after.config == h.config
        }),
{
}

/// A new panel is closed, has never been shown, and knows no place.
pub proof fn law_new_panel_is_closed(config: QuickSettingsConfig, w: QuickSettingsWindow)
    requires
        call_ensures(QuickSettingsWindow::new, (config,), w),
    ensures
        !w.logically_open && !w.has_been_mapped && !w.is_animating_out,
        !w.click_catcher && !w.awaits_keynav,
        w.anchor_x == 0 && w.cached_width == 0,
        w.config == config,
{
}

/// The panel is put where it is told to be, whatever else it is doing.
pub proof fn law_panel_is_told_its_place(w: &mut QuickSettingsWindow, x: i32)
    requires
        call_ensures(QuickSettingsWindow::set_anchor_position, (w, x), ()),
    ensures
        final(w).anchor_x == x,
        final(w).logically_open == old(w).logically_open,
        final(w).cached_width == old(w).cached_width,
        final(w).generation == old(w).generation,
        final(w).config == old(w).config,
{
}

/// The first key that moves the focus is waited for once.
pub proof fn law_first_key_is_waited_for_once(w: &mut QuickSettingsWindow)
    requires
        call_ensures(QuickSettingsWindow::on_first_keynav, (w,), ()),
    ensures
        !final(w).awaits_keynav,
        final(w).logically_open == old(w).logically_open,
        final(w).anchor_x == old(w).anchor_x,
{
}

/// A registered panel holds its place among open popovers.
pub proof fn law_registered_panel_has_a_place(h: &mut QuickSettingsWindowHandle, id: u64)
    requires
        call_ensures(QuickSettingsWindowHandle::on_registered, (h, id), ()),
    ensures
        final(h).tracker_id == Some(id),
        final(h).window == old(h).window,
        final(h).config == old(h).config,
{
}

/// Nothing is left of a destroyed panel but its configuration.
pub proof fn law_destroyed_panel_is_gone(h: &mut QuickSettingsWindowHandle, clear: Option<u64>)
    requires
        call_ensures(QuickSettingsWindowHandle::destroy, (h,), clear),
    ensures
        clear == old(h).tracker_id,
        final(h).window is None,
        final(h).tracker_id is None,
        final(h).config == old(h).config,
{
}

/// The panel opens under its widget, which the monitor's margin moves; without a
/// widget its place is not known.
pub proof fn law_panel_opens_under_its_widget(center: i32, margin: i32, r: ToggleAt, none: ToggleAt)
    requires
        i32::MIN <= center + margin <= i32::MAX,
        call_ensures(quick_settings::get_anchor_info, (Some(center), margin), r),
        call_ensures(quick_settings::get_anchor_info, (None, margin), none),
    ensures
        r.on_monitor,
        r.x - margin == center,
        !none.on_monitor,
        none.x == 0,
{
}

/// The power button says that it has to be held, and what for once its choices
/// are there.
pub proof fn law_power_button_is_held(folded: &'static str, unfolded: &'static str)
    requires
        call_ensures(quick_settings::power_subtitle, (false,), folded),
        call_ensures(quick_settings::power_subtitle, (true,), unfolded),
    ensures
        folded@ == "Hold to shut down"@,
        unfolded@ == "Hold to confirm"@,
{
}

} // verus!

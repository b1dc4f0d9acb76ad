//! Popovers, menus and ripples.

use vibepanel::base::{anchor_x, MenuHandle, MenuRefresh};
use vibepanel::layer_shell_popover::{
    calculate_bar_exclusive_zone, calculate_popover_bar_margin, calculate_popover_right_margin,
    closes_popover, first_key, is_keynav_key, popover_bar_edge, popover_keyboard_mode,
    popover_place, AfterMap, AnimDirection, AnimState, BarGeometry, ContentSource, Edge, FirstKey,
    HidePlan, KeyboardMode, LayerShellPopover, ShowPlan, Tick,
};
use vibepanel::ripple::{RippleHandle, RippleTick, RIPPLE_TOTAL_US};

const BAR: BarGeometry = BarGeometry {
    size: 32,
    padding: 4,
    has_background: true,
    screen_margin: 6,
    popover_offset: 10,
};

#[test]
fn keys_that_move_the_focus() {
    for key in [0xff09, 0xfe20, 0xff50, 0xff51, 0xff52, 0xff53, 0xff54, 0xff57] {
        assert!(is_keynav_key(key), "{:#x}", key);
    }
    for key in [0xff1b, 0xff0d, 0x61, 0xff55, 0xff56] {
        assert!(!is_keynav_key(key), "{:#x}", key);
        assert_eq!(first_key(key), FirstKey::Ignore);
    }
    assert_eq!(first_key(0xff09), FirstKey::ShowFocus);
    assert_eq!(first_key(0xfe20), FirstKey::ShowFocus);
    assert_eq!(first_key(0xff54), FirstKey::FocusFirst);
    assert!(closes_popover(0xff1b));
    assert!(!closes_popover(0xff09));
}

#[test]
fn margins_follow_the_bar() {
    assert_eq!(calculate_popover_bar_margin(&BAR), 6);
    assert_eq!(calculate_bar_exclusive_zone(&BAR), 52);
    let bare = BarGeometry { has_background: false, ..BAR };
    assert_eq!(calculate_popover_bar_margin(&bare), 10);
    assert_eq!(calculate_bar_exclusive_zone(&bare), 44);
    assert_eq!(popover_bar_edge(true), Edge::Bottom);
    assert_eq!(popover_bar_edge(false), Edge::Top);
}

#[test]
fn popovers_are_centred_and_stay_on_the_monitor() {
    assert_eq!(calculate_popover_right_margin(960, 1920, 320, 4), 800);
    // Near the right edge.
    assert_eq!(calculate_popover_right_margin(1900, 1920, 320, 4), 4);
    // Near the left edge.
    assert_eq!(calculate_popover_right_margin(10, 1920, 320, 4), 1596);
    // Too wide for the monitor.
    assert_eq!(calculate_popover_right_margin(100, 300, 320, 4), 4);
    // Half of a negative width is cut towards zero.
    assert_eq!(calculate_popover_right_margin(960, 1920, -3, 4), 961);
    assert_eq!(calculate_popover_right_margin(2000, 1920, 320, -400), -240);
}

#[test]
fn popovers_without_a_size_or_an_anchor_are_placed_too() {
    let p = popover_place(&BAR, 960, 1920, 0, 8);
    assert_eq!((p.bar_margin, p.right), (6, 800));
    let p = popover_place(&BAR, 960, 1920, 20, 8);
    assert_eq!(p.right, 800);
    let p = popover_place(&BAR, 960, 1920, 100, 8);
    assert_eq!(p.right, 910);
    let p = popover_place(&BAR, 0, 1920, 100, 8);
    assert_eq!(p.right, 8);
}

#[test]
fn hyprland_gets_the_keyboard_on_demand() {
    assert_eq!(popover_keyboard_mode("Hyprland"), KeyboardMode::OnDemand);
    assert_eq!(popover_keyboard_mode("Niri"), KeyboardMode::Exclusive);
    assert_eq!(popover_keyboard_mode("hyprland"), KeyboardMode::Exclusive);
}

#[test]
fn a_popover_opens_and_closes() {
    let mut p = LayerShellPopover::new("clock");
    assert!(!p.is_visible());
    let ShowPlan::Open { snap_close, create_window, create_shell, content, create_catcher, generation } =
        p.show_at(100, false)
    else {
        panic!("it opens from scratch");
    };
    assert!(!snap_close && create_window && create_shell && create_catcher);
    assert_eq!(content, ContentSource::Build);
    assert!(p.is_visible());
    assert_eq!(p.on_mapped(generation, true), AfterMap::Animate);
    let s = p.start_animation(AnimDirection::Opening, generation, 10).expect("a shell");
    assert!(s.need_tick && !s.from_running);
    assert_eq!(p.on_tick(generation, false), Tick::Continue(AnimDirection::Opening));
    assert_eq!(p.on_tick(generation, true), Tick::Opened);
    assert_eq!(p.on_tick(generation, true), Tick::Stale);

    let HidePlan::Animate(closing) = p.dismiss(true) else {
        panic!("it fades out");
    };
    assert!(!p.is_visible());
    assert!(p.start_animation(AnimDirection::Closing, closing, 20).expect("a shell").need_tick);
    assert_eq!(p.on_tick(generation, true), Tick::Stale);
    assert_eq!(p.on_tick(closing, true), Tick::Closed);
}

#[test]
fn a_popover_that_closes_can_turn_round() {
    let mut p = LayerShellPopover::new("clock");
    p.show_at(100, false);
    let HidePlan::Animate(g) = p.dismiss(true) else {
        panic!("it fades out");
    };
    p.start_animation(AnimDirection::Closing, g, 20);
    p.mark_content_dirty();
    match p.show_at(120, true) {
        ShowPlan::Reverse { rebuild, create_catcher, window, generation } => {
            assert!(rebuild && !create_catcher && window);
            assert_eq!(generation, g);
        }
        other => panic!("{:?}", other),
    }
    let s = p.start_animation(AnimDirection::Opening, g, 30).expect("a shell");
    assert!(!s.need_tick && s.from_running);
    assert_eq!(p.on_tick(g, true), Tick::Opened);
    assert!(p.is_visible());
}

#[test]
fn without_animations_a_popover_snaps() {
    let mut p = LayerShellPopover::new("clock");
    assert_eq!(p.dismiss(false), HidePlan::Nothing);
    p.show_at(1, false);
    assert_eq!(p.on_mapped(p.state.generation, false), AfterMap::Snap);
    assert_eq!(p.on_mapped(p.state.generation.wrapping_sub(1), false), AfterMap::Stale);
    assert_eq!(p.dismiss(false), HidePlan::Snap);
}

#[test]
fn kept_content_is_built_once() {
    let mut p = LayerShellPopover::new("calendar");
    p.set_reuse_content(true);
    assert!(matches!(
        p.show_at(1, false),
        ShowPlan::Open { content: ContentSource::BuildAndCache, .. }
    ));
    p.dismiss(false);
    assert!(matches!(p.show_at(1, false), ShowPlan::Open { content: ContentSource::Cached, .. }));
    // Still up: it goes down before it opens again.
    assert!(matches!(p.show_at(1, true), ShowPlan::Open { snap_close: true, .. }));
}

#[test]
fn names_go_into_classes_and_surfaces() {
    let p = LayerShellPopover::new("clock");
    assert_eq!(p.popover_class(), "clock-popover");
    assert_eq!(p.window_title(), "vibepanel clock popover");
    assert_eq!(p.namespace(), "vibepanel-clock-popover");
}

#[test]
fn what_is_open_at_the_end_is_told() {
    let mut p = LayerShellPopover::new("clock");
    assert!(!p.on_drop());
    p.show_at(1, false);
    assert!(p.on_drop());
    let HidePlan::Animate(g) = p.dismiss(true) else {
        panic!("it fades out");
    };
    assert!(!p.on_drop());
    p.start_animation(AnimDirection::Closing, g, 1);
    assert!(p.on_drop());
    p.on_tick(g, true);
    assert!(!p.on_drop());
}

#[test]
fn generations_wrap() {
    let mut a = AnimState::new_idle();
    assert!(a.prepare(AnimDirection::Opening, u32::MAX, 1).need_tick);
    assert!(!a.prepare(AnimDirection::Closing, u32::MAX, 2).need_tick);
    assert!(a.prepare(AnimDirection::Closing, 0, 3).need_tick);
    assert_eq!(a.tick(1, 0, true), Tick::Stale);
    assert_eq!(a.tick(0, 0, true), Tick::Closed);
}

#[test]
fn menus_make_their_popover_when_it_is_wanted() {
    let mut m = MenuHandle::new("clock");
    assert!(!m.is_visible());
    assert_eq!(m.refresh_if_visible(), MenuRefresh::Nothing);
    assert!(m.show(false, 1, 50, false).is_none());
    assert!(m.show(true, 7, 50, false).expect("shown").create);
    assert!(m.is_visible());
    assert_eq!(m.refresh_if_visible(), MenuRefresh::Rebuild);
    let hide = m.dismiss(true);
    assert_eq!(hide.clear, Some(7));
    assert!(matches!(hide.plan, Some(HidePlan::Animate(_))));
    assert!(!m.is_visible());
    assert_eq!(m.refresh_if_visible(), MenuRefresh::Marked);
    assert_eq!(m.dismiss(true).clear, None);
    assert!(!m.show(false, 8, 50, false).expect("shown").create);
}

#[test]
fn anchors_are_in_the_middle() {
    assert_eq!(anchor_x(100, 41), 120);
    assert_eq!(anchor_x(-10, 0), -10);
    assert_eq!(anchor_x(100, -3), 99);
}

#[test]
fn a_ripple_runs_its_time() {
    let mut h = RippleHandle::new();
    assert_eq!(h.trigger_ripple(false, Some(5)), None);
    assert_eq!(h.trigger_ripple(true, None), None);
    let first = h.trigger_ripple(true, Some(1_000)).expect("a ripple");
    assert_eq!(h.on_tick(first, 1_000), RippleTick::Continue);
    assert_eq!(h.on_tick(first, 1_000 + RIPPLE_TOTAL_US - 1), RippleTick::Continue);
    let second = h.trigger_ripple(true, Some(2_000)).expect("a ripple");
    assert_eq!(h.on_tick(first, 2_000), RippleTick::Stale);
    assert_eq!(h.on_tick(second, 2_000 + RIPPLE_TOTAL_US), RippleTick::Over);
    assert_eq!(h.on_tick(second, 2_001), RippleTick::Stale);
}

#[test]
fn the_first_key_that_moves_the_focus_is_awaited_once() {
    let mut p = LayerShellPopover::new("clock");
    p.show_at(100, false);
    assert!(p.state.awaits_keynav);
    p.on_first_keynav();
    assert!(!p.state.awaits_keynav);
    assert!(p.is_visible());
}

//! What holds of clicks, menus, popovers, ripples and conditional visibility.

use vstd::prelude::*;
use vstd::string::*;

use crate::base;
use crate::base::{ClickAction, ClickHandlers, ClickView, ExitStatus, MenuHandle};
use crate::layer_shell_popover;
use crate::layer_shell_popover::{
    AfterMap, AnimDirection, AnimState, BarGeometry, ContentSource, Edge, FirstKey, HidePlan,
    KeyboardMode, LayerShellPopover, PopoverPlace, PopoverState, ShowPlan, Tick,
};
use crate::ripple;
use crate::ripple::{RippleHandle, RippleTick};
use crate::text;

verus! {

// ---------------------------------------------------------------------------
// Processes
// ---------------------------------------------------------------------------

/// A process succeeded exactly where its exit code is zero, and was killed where
/// it did not succeed and the kill signal ended it.
pub proof fn law_success_is_code_zero(s: ExitStatus)
    ensures
        s.succeeded() <==> (s.code matches Some(c) && c == 0),
        s.killed() <==> !(s.code matches Some(c) && c == 0) && (s.signal matches Some(n) && n == 9),
{
}

/// The two exit codes of a shell that cannot run a command have words of their
/// own, every other code is named by its number, and a signal by its own.
pub proof fn law_exit_is_put_into_words(code: i32, signal: Option<i32>, n: i32)
    ensures
        base::exit_text(ExitStatus { code: Some(127i32), signal }) == "command not found"@,
        base::exit_text(ExitStatus { code: Some(126i32), signal })
            == "permission denied (not executable)"@,
        code != 126 && code != 127 && code >= 0 ==> base::exit_text(
            ExitStatus { code: Some(code), signal },
        ) == "exit code "@ + text::dec(code as nat),
        code < 0 ==> base::exit_text(ExitStatus { code: Some(code), signal }) == "exit code "@ + (
        seq!['-'] + text::dec((-code) as nat)),
        n >= 0 ==> base::exit_text(ExitStatus { code: None, signal: Some(n) })
            == "killed by signal "@ + text::dec(n as nat),
        base::exit_text(ExitStatus { code: None, signal: None }) == "unknown exit status"@,
{
}

/// A condition holds exactly where its command could be run and succeeded.
pub proof fn law_condition_holds_on_success(status: Option<ExitStatus>, visible: bool)
    requires
        call_ensures(base::show_if_outcome, (status,), visible),
    ensures
        visible <==> status is Some && status->0.code == Some(0i32),
{
}

/// A condition is checked again after its interval, as far as a timer can hold
/// it, and never by a timer without one.
pub proof fn law_condition_has_a_period(interval: Option<u64>)
    ensures
        base::show_if_period(interval) is None <==> interval is None || interval->0 == 0,
        interval is Some && 0 < interval->0 <= u32::MAX ==> base::show_if_period(interval)->0
            == interval->0,
        interval is Some && interval->0 > u32::MAX ==> base::show_if_period(interval) == Some(
            u32::MAX,
        ),
{
}

// ---------------------------------------------------------------------------
// Clicks
// ---------------------------------------------------------------------------

/// The primary button opens the menu unless it is open. The middle and the
/// secondary button each run their own command, where there is one. Nothing else
/// does anything, nor does a click on a button inside.
pub proof fn law_each_button_has_its_own_action(
    h: ClickHandlers,
    button: u32,
    inner: bool,
    menu: Option<bool>,
    r: ClickAction,
)
    requires
        call_ensures(ClickHandlers::on_click, (&h, button, inner, menu), r),
    ensures
        inner ==> r@ == ClickView::Nothing,
        !inner && button == 1 ==> r@ == (ClickView::Primary { open: menu == Some(false) }),
        !inner && button == 2 && h.on_click_middle is Some ==> r@ == ClickView::Run(
            h.on_click_middle->0@,
        ),
        !inner && button == 2 && h.on_click_middle is None ==> r@ == ClickView::Nothing,
        !inner && button == 3 && h.on_click_right is Some ==> r@ == ClickView::Run(
            h.on_click_right->0@,
        ),
        !inner && button == 3 && h.on_click_right is None ==> r@ == ClickView::Nothing,
        !inner && button != 1 && button != 2 && button != 3 ==> r@ == ClickView::Nothing,
{
}

/// A widget reacts to clicks by itself where it has a command for a button.
pub proof fn law_commands_make_clickable(h: ClickHandlers, r: bool)
    requires
        call_ensures(ClickHandlers::clickable, (&h,), r),
    ensures
        r <==> h.on_click_right is Some || h.on_click_middle is Some,
{
}

// ---------------------------------------------------------------------------
// Keys
// ---------------------------------------------------------------------------

/// The keys that move the focus are Tab, with or without Shift, the arrows, Home
/// and End.
pub proof fn law_focus_is_moved_by_eight_keys(keyval: u32)
    ensures
        layer_shell_popover::is_keynav(keyval) <==> keyval == 0xff09 || keyval == 0xfe20 || keyval
            == 0xff50 || keyval == 0xff51 || keyval == 0xff52 || keyval == 0xff53 || keyval
            == 0xff54 || keyval == 0xff57,
{
}

/// Tab shows the focus, another key that moves it puts it on the first widget,
/// and every other key goes on.
pub proof fn law_first_key_shows_the_focus(keyval: u32, r: FirstKey)
    requires
        call_ensures(layer_shell_popover::first_key, (keyval,), r),
    ensures
        r == FirstKey::ShowFocus <==> keyval == 0xff09 || keyval == 0xfe20,
        r == FirstKey::Ignore <==> !layer_shell_popover::is_keynav(keyval),
        r == FirstKey::FocusFirst <==> layer_shell_popover::is_keynav(keyval) && keyval != 0xff09
            && keyval != 0xfe20,
{
}

/// Only Escape closes a popover.
pub proof fn law_escape_closes(keyval: u32, r: bool)
    requires
        call_ensures(layer_shell_popover::closes_popover, (keyval,), r),
    ensures
        r <==> keyval == 0xff1b,
{
}

// ---------------------------------------------------------------------------
// Places
// ---------------------------------------------------------------------------

/// Popovers are attached to the bar's edge, and take the keyboard alone but under
/// Hyprland.
pub proof fn law_popovers_stand_at_the_bar(bottom: bool, edge: Edge, backend: Seq<char>)
    requires
        call_ensures(layer_shell_popover::popover_bar_edge, (bottom,), edge),
    ensures
        edge == Edge::Bottom <==> bottom,
        layer_shell_popover::keyboard_mode_for(backend) == KeyboardMode::OnDemand <==> backend
            == "Hyprland"@,
        layer_shell_popover::keyboard_mode_for(backend) != KeyboardMode::Off,
{
}

/// A bar that can be seen brings popovers nearer by its padding and keeps twice
/// its padding more for itself. Without one the padding makes no difference.
pub proof fn law_padding_counts_where_it_is_seen(bar: BarGeometry, padding: i32)
    ensures
        ({
            let wider = BarGeometry { padding, ..bar };
            let more = padding - bar.padding;
            &&& bar.has_background ==> wider.bar_margin() == bar.bar_margin() - more
                && wider.exclusive_zone() == bar.exclusive_zone() + 2 * more
            &&& !bar.has_background ==> wider.bar_margin() == bar.bar_margin()
                && wider.exclusive_zone() == bar.exclusive_zone()
            &&& !bar.has_background ==> bar.bar_margin() == bar.popover_offset
                && bar.exclusive_zone() == bar.size + 2 * bar.screen_margin
            &&& bar.padding == 0 ==> bar.bar_margin() == bar.popover_offset
                && bar.exclusive_zone() == bar.size + 2 * bar.screen_margin
        }),
{
}

/// Halving and doubling again misses by at most one, towards zero, on both sides
/// of it.
pub proof fn law_halving_rounds_towards_zero(n: int)
    ensures
        n >= 0 ==> 2 * layer_shell_popover::halved(n) <= n <= 2 * layer_shell_popover::halved(n)
            + 1,
        layer_shell_popover::halved(-n) == -layer_shell_popover::halved(n),
{
}

/// A popover without an anchor keeps clear of its shadow. One whose width is not
/// known yet stands as one of the usual width would.
pub proof fn law_popovers_have_a_place(
    bar: BarGeometry,
    anchor: i32,
    monitor: i32,
    width: i32,
    shadow: i32,
    r: PopoverPlace,
)
    requires
        i32::MIN <= bar.bar_margin() <= i32::MAX,
        call_ensures(
            layer_shell_popover::popover_place,
            (&bar, anchor, monitor, width, shadow),
            r,
        ),
    ensures
        r.bar_margin == bar.bar_margin(),
        anchor <= 0 ==> r.right == shadow,
        anchor > 0 && width > 20 ==> r.right == layer_shell_popover::right_margin(
            anchor as int,
            monitor as int,
            width as int,
            4,
        ),
        anchor > 0 && width <= 20 ==> r.right == layer_shell_popover::right_margin(
            anchor as int,
            monitor as int,
            320,
            4,
        ),
{
}

// ---------------------------------------------------------------------------
// Animations
// ---------------------------------------------------------------------------

/// A new segment runs in the direction asked for, from the time given, goes on
/// from a running one, and needs a tick unless one of its generation runs.
pub proof fn law_segments_begin_as_asked(
    a: AnimState,
    direction: AnimDirection,
    generation: u32,
    start: i64,
)
    ensures
        ({
            let (after, segment) = a.prepared(direction, generation, start);
            &&& after.direction == direction
            &&& after.start_time_us == start
            &&& after.active
            &&& after.tick_generation == generation
            &&& segment.from_running == a.active
            &&& !segment.need_tick <==> a.active && a.tick_generation == generation
            &&& !after.prepared(direction, generation, start).1.need_tick
            &&& after.is_closing() <==> direction == AnimDirection::Closing
        }),
{
}

/// A tick of another generation, or without an animation, changes nothing. One
/// before the end goes on, and the one at the end says which end it is.
pub proof fn law_ticks_lead_to_the_end(
    a: AnimState,
    current: u32,
    generation: u32,
    complete: bool,
)
    ensures
        ({
            let (after, t) = layer_shell_popover::ticked(a, current, generation, complete);
            let mine = current == generation && a.active;
            &&& t == Tick::Stale <==> !mine
            &&& mine && !complete ==> t == Tick::Continue(a.direction)
            &&& mine && complete && a.direction == AnimDirection::Opening ==> t == Tick::Opened
            &&& mine && complete && a.direction == AnimDirection::Closing ==> t == Tick::Closed
            &&& after.active <==> a.active && !(mine && complete)
            &&& after.direction == a.direction && after.start_time_us == a.start_time_us
                && after.tick_generation == a.tick_generation
        }),
{
}

/// Generations follow each other and only the last is followed by the first.
pub proof fn law_generations_differ(g: u32)
    ensures
        layer_shell_popover::next_generation(g) != g,
        g < u32::MAX ==> layer_shell_popover::next_generation(g) == g + 1,
        g == u32::MAX ==> layer_shell_popover::next_generation(g) == 0,
{
}

// ---------------------------------------------------------------------------
// The popover
// ---------------------------------------------------------------------------

/// A popover that is shown is open at the anchor given, and its content is up to
/// date. One that is not on its way out opens from scratch under a new
/// generation.
pub proof fn law_shown_popover_is_open(s: PopoverState, x: i32, window_visible: bool)
    ensures
        ({
            let (after, plan) = layer_shell_popover::shown(s, x, window_visible);
            let leaving = s.anim.active && s.anim.direction == AnimDirection::Closing;
            &&& after.logically_open && after.anchor_x == x && !after.content_dirty
            &&& after.click_catcher
            &&& after.reuse_content == s.reuse_content && after.anim == s.anim
            &&& plan is Reverse <==> leaving
            &&& leaving ==> after.generation == s.generation && after.window == s.window
                && after.anim_shell == s.anim_shell
            &&& !leaving ==> after.generation != s.generation && after.window && after.anim_shell
                && after.awaits_keynav
        }),
{
}

/// What is made for a popover that opens from scratch is what is not there yet.
/// Content that is kept is built once; other content is built each time.
pub proof fn law_opening_makes_what_is_missing(s: PopoverState, x: i32, window_visible: bool)
    requires
        !(s.anim.active && s.anim.direction == AnimDirection::Closing),
    ensures
        layer_shell_popover::shown(s, x, window_visible).1 matches ShowPlan::Open {
            snap_close,
            create_window,
            create_shell,
            content,
            create_catcher,
            generation,
        } && {
            &&& create_window == !s.window
            &&& create_shell == !s.anim_shell
            &&& create_catcher == !s.click_catcher
            &&& snap_close <==> s.window && window_visible
            &&& generation == layer_shell_popover::shown(s, x, window_visible).0.generation
            &&& content == ContentSource::Build <==> !s.reuse_content
            &&& content == ContentSource::Cached <==> s.reuse_content && s.cached_content
        },
        s.reuse_content ==> layer_shell_popover::shown(s, x, window_visible).0.cached_content,
        !s.reuse_content ==> layer_shell_popover::shown(s, x, window_visible).0.cached_content
            == s.cached_content,
{
}

/// A popover on its way out comes back as it is. Its content is built anew where
/// it is out of date and there is a shell to put it into.
pub proof fn law_coming_back_keeps_what_is_there(s: PopoverState, x: i32, window_visible: bool)
    requires
        s.anim.active,
        s.anim.direction == AnimDirection::Closing,
    ensures
        layer_shell_popover::shown(s, x, window_visible).1 == (ShowPlan::Reverse {
            rebuild: s.content_dirty && s.anim_shell,
            create_catcher: !s.click_catcher,
            window: s.window,
            generation: s.generation,
        }),
        s.window ==> layer_shell_popover::shown(s, x, window_visible).0.awaits_keynav,
        s.content_dirty && s.anim_shell ==> layer_shell_popover::shown(
            s,
            x,
            window_visible,
        ).0.cached_content == s.reuse_content,
        !(s.content_dirty && s.anim_shell) ==> layer_shell_popover::shown(
            s,
            x,
            window_visible,
        ).0.cached_content == s.cached_content,
{
}

/// A popover that is hidden is closed, waits for no key and has a new generation.
/// It fades where there is something to fade and animations are on.
pub proof fn law_hidden_popover_is_closed(s: PopoverState, animations: bool)
    ensures
        ({
            let (after, plan) = layer_shell_popover::hidden(s, animations);
            &&& !after.logically_open && !after.awaits_keynav
            &&& after.generation != s.generation
            &&& after.anchor_x == s.anchor_x && after.window == s.window && after.anim == s.anim
                && after.cached_content == s.cached_content && after.content_dirty
                == s.content_dirty && after.anim_shell == s.anim_shell && after.click_catcher
                == s.click_catcher && after.reuse_content == s.reuse_content
            &&& plan == HidePlan::Nothing <==> !s.window
            &&& plan == HidePlan::Snap <==> s.window && !animations
            &&& s.window && animations ==> plan == HidePlan::Animate(after.generation)
        }),
{
}

/// A window that came up fades in under its own generation, and is of no concern
/// under another.
pub proof fn law_mapped_window_fades_in(current: u32, generation: u32, animations: bool)
    ensures
        layer_shell_popover::after_map(current, generation, animations) == AfterMap::Stale
            <==> current != generation,
        layer_shell_popover::after_map(current, current, true) == AfterMap::Animate,
        layer_shell_popover::after_map(current, current, false) == AfterMap::Snap,
{
}

/// An animation begins exactly where there is a shell to animate, and changes
/// nothing else of the popover.
pub proof fn law_only_shells_are_animated(
    s: PopoverState,
    direction: AnimDirection,
    generation: u32,
    start: i64,
)
    ensures
        ({
            let (after, segment) = layer_shell_popover::animated(s, direction, generation, start);
            &&& segment is Some <==> s.anim_shell
            &&& !s.anim_shell ==> after == s
            &&& s.anim_shell ==> after.anim.active && after.anim.direction == direction
                && after.anim.start_time_us == start && after.anim.tick_generation == generation
            &&& after.generation == s.generation && after.logically_open == s.logically_open
                && after.window == s.window && after.anchor_x == s.anchor_x
        }),
{
}

/// A popover names its parts after its widget.
pub proof fn law_popover_is_named_after_its_widget(
    p: LayerShellPopover,
    class: String,
    title: String,
    namespace: String,
)
    requires
        call_ensures(LayerShellPopover::popover_class, (&p,), class),
        call_ensures(LayerShellPopover::window_title, (&p,), title),
        call_ensures(LayerShellPopover::namespace, (&p,), namespace),
    ensures
        class@ == p.widget_name@ + "-popover"@,
        title@ == "vibepanel "@ + p.widget_name@ + " popover"@,
        namespace@ == "vibepanel-"@ + class@,
{
    assert("vibepanel-"@ + p.widget_name@ + "-popover"@ =~= "vibepanel-"@ + (p.widget_name@
        + "-popover"@));
}

/// Whoever waits for the end of a popover hears of it when it goes away while it
/// is open or still moves.
pub proof fn law_end_is_heard_of(p: LayerShellPopover, r: bool, open: bool)
    requires
        call_ensures(LayerShellPopover::on_drop, (&p,), r),
        call_ensures(LayerShellPopover::is_visible, (&p,), open),
    ensures
        open == p.state.logically_open,
        r <==> p.state.logically_open || p.state.anim.active,
{
}

/// A menu is open exactly where it has a popover that is.
pub proof fn law_menu_is_open_with_its_popover(m: MenuHandle, r: bool)
    requires
        call_ensures(MenuHandle::is_visible, (&m,), r),
    ensures
        r <==> m.popover is Some && m.popover->0.state.logically_open,
        m.available(true) is Some,
        m.popover is None ==> m.available(false) is None,
        m.popover matches Some(p) ==> m.available(false) == Some(p.state),
{
}

// ---------------------------------------------------------------------------
// Ripples
// ---------------------------------------------------------------------------

/// A press begins a ripple of its own at the time of the frame, where ripples are
/// on and there is a frame, and does nothing otherwise.
pub proof fn law_press_begins_a_ripple(h: RippleHandle, enabled: bool, time: Option<i64>)
    ensures
        ({
            let (after, r) = ripple::triggered(h, enabled, time);
            &&& r is Some <==> enabled && time is Some
            &&& r is None ==> after == h
            &&& r matches Some(g) ==> after.active && after.start_time == time && after.generation
                == g && g != h.generation
            &&& enabled && time is Some && h.generation < u64::MAX ==> after.generation
                == h.generation + 1
        }),
{
}

/// A ripple goes on for seven tenths of a second and is over then. Ticks of an
/// earlier one, or after the end, change nothing.
pub proof fn law_ripples_last_their_time(h: RippleHandle, start: i64, now: i64, other: u64)
    requires
        h.active,
        h.start_time == Some(start),
    ensures
        now - start < 700_000 ==> ripple::rippled(h, h.generation, now) == (h, RippleTick::Continue),
        now - start >= 700_000 ==> {
            let (after, t) = ripple::rippled(h, h.generation, now);
            &&& t == RippleTick::Over
            &&& !after.active && after.generation == h.generation && after.start_time
                == h.start_time
            &&& ripple::rippled(after, h.generation, now) == (after, RippleTick::Stale)
        },
        other != h.generation ==> ripple::rippled(h, other, now) == (h, RippleTick::Stale),
{
}

} // verus!

//! Popovers on layer-shell surfaces: where they stand, which keys they take, and
//! how they open and close.

use vstd::prelude::*;
use vstd::string::*;

use crate::text;

verus! {

/// The room around a popover for its shadow.
pub const POPOVER_SHADOW_MARGIN: i32 = 8;

/// The least distance from the edge of the monitor.
pub const POPOVER_MIN_EDGE_MARGIN: i32 = 4;

/// The width of a popover that has none yet.
pub const POPOVER_DEFAULT_WIDTH_ESTIMATE: i32 = 320;

pub const POPOVER_MIN_VALID_WIDTH: i32 = 20;

// ---------------------------------------------------------------------------
// Keys
// ---------------------------------------------------------------------------

pub const KEY_TAB: u32 = 0xff09;

pub const KEY_ISO_LEFT_TAB: u32 = 0xfe20;

pub const KEY_ESCAPE: u32 = 0xff1b;

pub const KEY_HOME: u32 = 0xff50;

pub const KEY_LEFT: u32 = 0xff51;

pub const KEY_UP: u32 = 0xff52;

pub const KEY_RIGHT: u32 = 0xff53;

pub const KEY_DOWN: u32 = 0xff54;

pub const KEY_END: u32 = 0xff57;

pub open spec fn is_tab(keyval: u32) -> bool {
    keyval == KEY_TAB || keyval == KEY_ISO_LEFT_TAB
}

pub open spec fn is_keynav(keyval: u32) -> bool {
    is_tab(keyval) || keyval == KEY_UP || keyval == KEY_DOWN || keyval == KEY_LEFT || keyval
        == KEY_RIGHT || keyval == KEY_HOME || keyval == KEY_END
}

/// Whether a key moves the focus.
pub fn is_keynav_key(keyval: u32) -> (r: bool)
    ensures
        r == is_keynav(keyval),
{
    keyval == KEY_TAB || keyval == KEY_ISO_LEFT_TAB || keyval == KEY_UP || keyval == KEY_DOWN
        || keyval == KEY_LEFT || keyval == KEY_RIGHT || keyval == KEY_HOME || keyval == KEY_END
}

/// What the first keys in an open popover do.
#[derive(Debug, Clone, Copy, PartialEq, Eq, Structural)]
pub enum FirstKey {
    /// Not a key for moving the focus: it goes on.
    Ignore,
    /// The focus is shown from now on, and the toolkit moves it.
    ShowFocus,
    /// The focus is shown from now on and goes to the first widget; the key goes
    /// no further.
    FocusFirst,
}

/// What a key does while the focus is not shown.
pub fn first_key(keyval: u32) -> (r: FirstKey)
    ensures
        r == if is_tab(keyval) {
            FirstKey::ShowFocus
        } else if is_keynav(keyval) {
            FirstKey::FocusFirst
        } else {
            FirstKey::Ignore
        },
{
    if keyval == KEY_TAB || keyval == KEY_ISO_LEFT_TAB {
        FirstKey::ShowFocus
    } else if is_keynav_key(keyval) {
        FirstKey::FocusFirst
    } else {
        FirstKey::Ignore
    }
}

/// Whether a key closes the popover and goes no further.
pub fn closes_popover(keyval: u32) -> (r: bool)
    ensures
        r == (keyval == KEY_ESCAPE),
{
    keyval == KEY_ESCAPE
}

// ---------------------------------------------------------------------------
// Places
// ---------------------------------------------------------------------------

#[derive(Debug, Clone, Copy, PartialEq, Eq, Structural)]
pub enum Edge {
    Top,
    Bottom,
}

/// The edge that popovers are attached to: the bar's.
pub fn popover_bar_edge(bar_is_bottom: bool) -> (r: Edge)
    ensures
        r == if bar_is_bottom {
            Edge::Bottom
        } else {
            Edge::Top
        },
{
    if bar_is_bottom {
        Edge::Bottom
    } else {
        Edge::Top
    }
}

#[derive(Debug, Clone, Copy, PartialEq, Eq, Structural)]
pub enum KeyboardMode {
    /// No keyboard at all.
    Off,
    OnDemand,
    Exclusive,
}

pub open spec fn keyboard_mode_for(backend: Seq<char>) -> KeyboardMode {
    if backend == "Hyprland"@ {
        KeyboardMode::OnDemand
    } else {
        KeyboardMode::Exclusive
    }
}

/// How an open popover takes the keyboard. Under Hyprland a popover that takes
/// it alone gets no input at all.
pub fn popover_keyboard_mode(backend: &str) -> (r: KeyboardMode)
    ensures
        r == keyboard_mode_for(backend@),
{
    if text::str_eq(backend, "Hyprland") {
        KeyboardMode::OnDemand
    } else {
        KeyboardMode::Exclusive
    }
}

/// The measures of the bar.
#[derive(Debug, Clone, Copy, PartialEq, Eq, Structural)]
pub struct BarGeometry {
    pub size: i32,
    pub padding: i32,
    /// The bar has a background that can be seen.
    pub has_background: bool,
    pub screen_margin: i32,
    pub popover_offset: i32,
}

impl BarGeometry {
    /// The margin of a popover towards the bar: the padding of a bar that can
    /// be seen counts towards the offset.
    pub open spec fn bar_margin(self) -> int {
        if self.has_background {
            self.popover_offset - self.padding
        } else {
            self.popover_offset as int
        }
    }

    /// The height that the bar keeps for itself.
    pub open spec fn exclusive_zone(self) -> int {
        if self.has_background {
            self.size + 2 * self.padding + 2 * self.screen_margin
        } else {
            self.size + 2 * self.screen_margin
        }
    }
}

/// The margin of a popover towards the bar.
pub fn calculate_popover_bar_margin(bar: &BarGeometry) -> (r: i32)
    requires
        bar.bar_margin() >= i32::MIN,
        bar.bar_margin() <= i32::MAX,
    ensures
        r == bar.bar_margin(),
{
    if bar.has_background {
        bar.popover_offset - bar.padding
    } else {
        bar.popover_offset
    }
}

/// The height that the bar keeps for itself.
pub fn calculate_bar_exclusive_zone(bar: &BarGeometry) -> (r: i32)
    requires
        bar.exclusive_zone() >= i32::MIN,
        bar.exclusive_zone() <= i32::MAX,
    ensures
        r == bar.exclusive_zone(),
{
    let padding: i64 = if bar.has_background {
        bar.padding as i64
    } else {
        0
    };
    (bar.size as i64 + 2 * padding + 2 * (bar.screen_margin as i64)) as i32
}

/// Half of a number, rounded towards zero.
pub open spec fn halved(n: int) -> int {
    if n >= 0 {
        n / 2
    } else {
        -((-n) / 2)
    }
}

/// Half of a number, rounded towards zero.
pub fn half(n: i32) -> (r: i32)
    ensures
        r == halved(n as int),
{
    if n >= 0 {
        n / 2
    } else {
        (-(-(n as i64) / 2)) as i32
    }
}

pub open spec fn min_of(a: int, b: int) -> int {
    if a <= b {
        a
    } else {
        b
    }
}

pub open spec fn max_of(a: int, b: int) -> int {
    if a >= b {
        a
    } else {
        b
    }
}

/// How far two numbers are apart.
pub open spec fn distance(a: int, b: int) -> int {
    if a <= b {
        b - a
    } else {
        a - b
    }
}

/// A number kept within the limits of 32 bits.
pub open spec fn saturated(n: int) -> int {
    min_of(max_of(n, i32::MIN as int), i32::MAX as int)
}

/// The margin from the right edge that centres a window on `anchor_x`, as far as
/// the window stays on the monitor. A window that is too wide for the monitor
/// gets the least margin.
pub open spec fn right_margin(
    anchor_x: int,
    monitor_width: int,
    window_width: int,
    min_edge_margin: int,
) -> int {
    let centred = monitor_width - anchor_x - halved(window_width);
    let most = saturated(monitor_width - (window_width + min_edge_margin));
    if most >= min_edge_margin {
        min_of(max_of(centred, min_edge_margin), most)
    } else {
        min_edge_margin
    }
}

/// The margin from the right edge that centres a window on `anchor_x`, as far as
/// the window stays on the monitor.
pub fn calculate_popover_right_margin(
    anchor_x: i32,
    monitor_width: i32,
    window_width: i32,
    min_edge_margin: i32,
) -> (r: i32)
    ensures
        r == right_margin(
            anchor_x as int,
            monitor_width as int,
            window_width as int,
            min_edge_margin as int,
        ),
{
    let centred: i64 = monitor_width as i64 - anchor_x as i64 - half(window_width) as i64;
    let room: i64 = monitor_width as i64 - (window_width as i64 + min_edge_margin as i64);
    let most: i32 = if room < i32::MIN as i64 {
        i32::MIN
    } else if room > i32::MAX as i64 {
        i32::MAX
    } else {
        room as i32
    };
    if most >= min_edge_margin {
        if centred < min_edge_margin as i64 {
            min_edge_margin
        } else if centred > most as i64 {
            most
        } else {
            centred as i32
        }
    } else {
        min_edge_margin
    }
}

/// As long as nothing overflows, a margin keeps within the range that leaves the
/// least margin on both sides, and no margin in that range is nearer to the one
/// that centres the window; where there is no such range it is the least margin.
pub proof fn law_margin_is_nearest_to_centring(
    anchor_x: int,
    monitor_width: int,
    window_width: int,
    min_edge_margin: int,
    other: int,
)
    requires
        i32::MIN <= monitor_width - window_width - min_edge_margin <= i32::MAX,
    ensures
        ({
            let r = right_margin(anchor_x, monitor_width, window_width, min_edge_margin);
            let most = monitor_width - window_width - min_edge_margin;
            let centring = monitor_width - anchor_x - halved(window_width);
            if most >= min_edge_margin {
                &&& min_edge_margin <= r <= most
                &&& min_edge_margin <= centring <= most ==> r == centring
                &&& min_edge_margin <= other <= most ==> distance(r, centring) <= distance(
                    other,
                    centring,
                )
            } else {
                r == min_edge_margin
            }
        }),
{
}

/// A window that fits between two least margins stays on the monitor with at
/// least that margin on both sides.
pub proof fn law_popover_stays_on_the_monitor(
    anchor_x: int,
    monitor_width: int,
    window_width: int,
    min_edge_margin: int,
)
    requires
        window_width + 2 * min_edge_margin <= monitor_width,
        i32::MIN <= monitor_width - window_width - min_edge_margin <= i32::MAX,
    ensures
        right_margin(anchor_x, monitor_width, window_width, min_edge_margin) >= min_edge_margin,
        monitor_width - right_margin(anchor_x, monitor_width, window_width, min_edge_margin)
            - window_width >= min_edge_margin,
{
}

/// A window is centred on its anchor wherever that keeps it on the monitor.
pub proof fn law_popover_is_centred_where_it_fits(
    anchor_x: int,
    monitor_width: int,
    window_width: int,
    min_edge_margin: int,
)
    requires
        i32::MIN <= monitor_width - window_width - min_edge_margin <= i32::MAX,
        min_edge_margin <= monitor_width - anchor_x - halved(window_width),
        monitor_width - anchor_x - halved(window_width) <= monitor_width - window_width
            - min_edge_margin,
    ensures
        right_margin(anchor_x, monitor_width, window_width, min_edge_margin) == monitor_width
            - anchor_x - halved(window_width),
{
}

/// The margins of a popover.
#[derive(Debug, Clone, Copy, PartialEq, Eq, Structural)]
pub struct PopoverPlace {
    pub bar_margin: i32,
    pub right: i32,
}

/// The width of a window, or an estimate where it has none yet.
pub open spec fn width_or_estimate(window_width: i32) -> int {
    if window_width > POPOVER_MIN_VALID_WIDTH {
        window_width as int
    } else {
        POPOVER_DEFAULT_WIDTH_ESTIMATE as int
    }
}

/// Where a popover stands. One without an anchor keeps clear of its shadow.
pub fn popover_place(
    bar: &BarGeometry,
    anchor_x: i32,
    monitor_width: i32,
    window_width: i32,
    shadow_margin: i32,
) -> (r: PopoverPlace)
    requires
        bar.bar_margin() >= i32::MIN,
        bar.bar_margin() <= i32::MAX,
    ensures
        r.bar_margin == bar.bar_margin(),
        r.right == if anchor_x > 0 {
            right_margin(
                anchor_x as int,
                monitor_width as int,
                width_or_estimate(window_width),
                POPOVER_MIN_EDGE_MARGIN as int,
            )
        } else {
            shadow_margin as int
        },
{
    let right: i32 = if anchor_x > 0 {
        let width: i32 = if window_width > POPOVER_MIN_VALID_WIDTH {
            window_width
        } else {
            POPOVER_DEFAULT_WIDTH_ESTIMATE
        };
        calculate_popover_right_margin(anchor_x, monitor_width, width, POPOVER_MIN_EDGE_MARGIN)
    } else {
        shadow_margin
    };
    PopoverPlace { bar_margin: calculate_popover_bar_margin(bar), right }
}

// ---------------------------------------------------------------------------
// Animations
// ---------------------------------------------------------------------------

#[derive(Debug, Clone, Copy, PartialEq, Eq, Structural)]
pub enum AnimDirection {
    Opening,
    Closing,
}

/// The animation in flight. How far it is, is the program's to compute from the
/// clock.
#[derive(Debug, Clone, Copy, PartialEq, Eq, Structural)]
pub struct AnimState {
    pub direction: AnimDirection,
    /// When the segment began, in microseconds.
    pub start_time_us: i64,
    /// A tick drives it.
    pub active: bool,
    /// The generation of that tick.
    pub tick_generation: u32,
}

/// What a new segment takes.
#[derive(Debug, Clone, Copy, PartialEq, Eq, Structural)]
pub struct Segment {
    /// It begins where the running segment is; otherwise at the opacity shown.
    pub from_running: bool,
    /// No tick of this generation runs: one is to be added.
    pub need_tick: bool,
}

impl AnimState {
    pub open spec fn idle() -> Self {
        AnimState {
            direction: AnimDirection::Opening,
            start_time_us: 0,
            active: false,
            tick_generation: 0,
        }
    }

    pub open spec fn prepared(
        self,
        direction: AnimDirection,
        generation: u32,
        start_time_us: i64,
    ) -> (AnimState, Segment) {
        (
            AnimState { direction, start_time_us, active: true, tick_generation: generation },
            Segment {
                from_running: self.active,
                need_tick: !(self.active && self.tick_generation == generation),
            },
        )
    }

    pub open spec fn is_closing(self) -> bool {
        self.active && self.direction == AnimDirection::Closing
    }

    pub fn new_idle() -> (s: Self)
        ensures
            s == AnimState::idle(),
    {
        AnimState {
            direction: AnimDirection::Opening,
            start_time_us: 0,
            active: false,
            tick_generation: 0,
        }
    }

    /// Begins a segment in a direction.
    pub fn prepare(&mut self, direction: AnimDirection, generation: u32, start_time_us: i64) -> (r:
        Segment)
        ensures
            (*final(self), r) == old(self).prepared(direction, generation, start_time_us),
    {
        let was_active = self.active;
        let tick_is_current = was_active && self.tick_generation == generation;
        *self = AnimState { direction, start_time_us, active: true, tick_generation: generation };
        Segment { from_running: was_active, need_tick: !tick_is_current }
    }
}

/// What a tick leads to.
#[derive(Debug, Clone, Copy, PartialEq, Eq, Structural)]
pub enum Tick {
    /// Another animation took over, or none runs: the tick ends and changes
    /// nothing.
    Stale,
    /// The progress is shown and the tick goes on.
    Continue(AnimDirection),
    /// The popover is fully open: the tick ends.
    Opened,
    /// The popover is fully closed: the tick ends and the window is hidden.
    Closed,
}

/// What a tick of a generation leads to. `complete` says whether the segment
/// reached its end.
pub open spec fn ticked(
    anim: AnimState,
    current: u32,
    generation: u32,
    complete: bool,
) -> (AnimState, Tick) {
    if current != generation || !anim.active {
        (anim, Tick::Stale)
    } else if !complete {
        (anim, Tick::Continue(anim.direction))
    } else {
        (
            AnimState { active: false, ..anim },
            match anim.direction {
                AnimDirection::Opening => Tick::Opened,
                AnimDirection::Closing => Tick::Closed,
            },
        )
    }
}

impl AnimState {
    /// A tick of a generation.
    pub fn tick(&mut self, current: u32, generation: u32, complete: bool) -> (r: Tick)
        ensures
            (*final(self), r) == ticked(*old(self), current, generation, complete),
    {
        if current != generation || !self.active {
            return Tick::Stale;
        }
        let direction = self.direction;
        if !complete {
            return Tick::Continue(direction);
        }
        self.active = false;
        match direction {
            AnimDirection::Opening => Tick::Opened,
            AnimDirection::Closing => Tick::Closed,
        }
    }
}

pub open spec fn next_generation(generation: u32) -> u32 {
    if generation == u32::MAX {
        0
    } else {
        (generation + 1) as u32
    }
}

/// The generation after another.
pub fn bump(generation: u32) -> (r: u32)
    ensures
        r == next_generation(generation),
        r != generation,
{
    if generation == u32::MAX {
        0
    } else {
        generation + 1
    }
}

// ---------------------------------------------------------------------------
// The popover
// ---------------------------------------------------------------------------

/// What a popover is made of and what it does.
#[derive(Debug, Clone, Copy, PartialEq, Eq, Structural)]
pub struct PopoverState {
    /// Its window was made.
    pub window: bool,
    /// The surface that catches clicks beside it was made.
    pub click_catcher: bool,
    /// The shell that is animated was made.
    pub anim_shell: bool,
    /// The middle of its widget; 0 where unknown.
    pub anchor_x: i32,
    pub anim: AnimState,
    /// Counts shows and hides, so that what belongs to an earlier one is known.
    pub generation: u32,
    /// It is open for the user, whatever is still animated.
    pub logically_open: bool,
    /// Its content changed while it was closing.
    pub content_dirty: bool,
    /// The content is built once and kept.
    pub reuse_content: bool,
    pub cached_content: bool,
    /// Waits for the first key that moves the focus.
    pub awaits_keynav: bool,
}

impl PopoverState {
    pub open spec fn fresh() -> Self {
        PopoverState {
            window: false,
            click_catcher: false,
            anim_shell: false,
            anchor_x: 0,
            anim: AnimState::idle(),
            generation: 0,
            logically_open: false,
            content_dirty: false,
            reuse_content: false,
            cached_content: false,
            awaits_keynav: false,
        }
    }

    /// Only a shell is animated.
    pub open spec fn valid(self) -> bool {
        self.anim.active ==> self.anim_shell
    }
}

/// Where the content comes from.
#[derive(Debug, Clone, Copy, PartialEq, Eq, Structural)]
pub enum ContentSource {
    Cached,
    Build,
    BuildAndCache,
}

/// What showing a popover takes.
#[derive(Debug, Clone, Copy, PartialEq, Eq, Structural)]
pub enum ShowPlan {
    /// It was closing: the animation turns round.
    Reverse { rebuild: bool, create_catcher: bool, window: bool, generation: u32 },
    /// It opens from scratch.
    Open {
        /// The window is still up and goes down first.
        snap_close: bool,
        create_window: bool,
        create_shell: bool,
        content: ContentSource,
        create_catcher: bool,
        generation: u32,
    },
}

/// The popover is shown at `x`. `window_visible` says whether its window is up.
pub open spec fn shown(s: PopoverState, x: i32, window_visible: bool) -> (PopoverState, ShowPlan) {
    if s.anim.is_closing() {
        (
            PopoverState {
                anchor_x: x,
                logically_open: true,
                content_dirty: false,
                cached_content: if s.content_dirty && s.anim_shell {
                    s.reuse_content
                } else {
                    s.cached_content
                },
                click_catcher: true,
                awaits_keynav: if s.window {
                    true
                } else {
                    s.awaits_keynav
                },
                ..s
            },
            ShowPlan::Reverse {
                rebuild: s.content_dirty && s.anim_shell,
                create_catcher: !s.click_catcher,
                window: s.window,
                generation: s.generation,
            },
        )
    } else {
        let g = next_generation(s.generation);
        (
            PopoverState {
                anchor_x: x,
                logically_open: true,
                content_dirty: false,
                generation: g,
                window: true,
                anim_shell: true,
                click_catcher: true,
                cached_content: s.cached_content || s.reuse_content,
                awaits_keynav: true,
                ..s
            },
            ShowPlan::Open {
                snap_close: s.window && window_visible,
                create_window: !s.window,
                create_shell: !s.anim_shell,
                content: if !s.reuse_content {
                    ContentSource::Build
                } else if s.cached_content {
                    ContentSource::Cached
                } else {
                    ContentSource::BuildAndCache
                },
                create_catcher: !s.click_catcher,
                generation: g,
            },
        )
    }
}

/// What hiding a popover takes. The surface that catches clicks goes first.
#[derive(Debug, Clone, Copy, PartialEq, Eq, Structural)]
pub enum HidePlan {
    /// It was never shown.
    Nothing,
    /// It goes at once, and whoever waits for its end hears of it.
    Snap,
    /// It fades out under this generation.
    Animate(u32),
}

pub open spec fn hidden(s: PopoverState, animations: bool) -> (PopoverState, HidePlan) {
    let g = next_generation(s.generation);
    (
        PopoverState { logically_open: false, awaits_keynav: false, generation: g, ..s },
        if !s.window {
            HidePlan::Nothing
        } else if !animations {
            HidePlan::Snap
        } else {
            HidePlan::Animate(g)
        },
    )
}

/// What follows once the window of a shown popover is up.
#[derive(Debug, Clone, Copy, PartialEq, Eq, Structural)]
pub enum AfterMap {
    /// The popover was shown or hidden again since.
    Stale,
    /// It is placed and fades in.
    Animate,
    /// It is placed and is open at once.
    Snap,
}

pub open spec fn after_map(current: u32, generation: u32, animations: bool) -> AfterMap {
    if current != generation {
        AfterMap::Stale
    } else if animations {
        AfterMap::Animate
    } else {
        AfterMap::Snap
    }
}

/// An animation of the popover begins. Without a shell there is none.
pub open spec fn animated(
    s: PopoverState,
    direction: AnimDirection,
    generation: u32,
    start_time_us: i64,
) -> (PopoverState, Option<Segment>) {
    if !s.anim_shell {
        (s, None)
    } else {
        let (anim, segment) = s.anim.prepared(direction, generation, start_time_us);
        (PopoverState { anim, ..s }, Some(segment))
    }
}

#[derive(Debug)]
pub struct LayerShellPopover {
    /// Names its classes and surfaces.
    pub widget_name: String,
    pub state: PopoverState,
}

impl LayerShellPopover {
    pub open spec fn wf(&self) -> bool {
        self.state.valid()
    }

    pub fn new(widget_name: &str) -> (p: Self)
        ensures
            p.wf(),
            p.widget_name@ == widget_name@,
            p.state == PopoverState::fresh(),
    {
        LayerShellPopover {
            widget_name: widget_name.to_string(),
            state: PopoverState {
                window: false,
                click_catcher: false,
                anim_shell: false,
                anchor_x: 0,
                anim: AnimState::new_idle(),
                generation: 0,
                logically_open: false,
                content_dirty: false,
                reuse_content: false,
                cached_content: false,
                awaits_keynav: false,
            },
        }
    }

    /// The class of the content.
    pub fn popover_class(&self) -> (r: String)
        ensures
            r@ == self.widget_name@ + "-popover"@,
    {
        let mut r = self.widget_name.clone();
        r.append("-popover");
        r
    }

    /// The title of the window.
    pub fn window_title(&self) -> (r: String)
        ensures
            r@ == "vibepanel "@ + self.widget_name@ + " popover"@,
    {
        let mut r = "vibepanel ".to_string();
        r.append(self.widget_name.as_str());
        r.append(" popover");
        r
    }

    /// The namespace of the surface.
    pub fn namespace(&self) -> (r: String)
        ensures
            r@ == "vibepanel-"@ + self.widget_name@ + "-popover"@,
    {
        let mut r = "vibepanel-".to_string();
        r.append(self.widget_name.as_str());
        r.append("-popover");
        r
    }

    /// Whether the popover is open for the user: from `show_at` to `dismiss`,
    /// though it may still be seen while it closes.
    pub fn is_visible(&self) -> (r: bool)
        ensures
            r == self.state.logically_open,
    {
        self.state.logically_open
    }

    pub fn set_reuse_content(&mut self, reuse: bool)
        requires
            old(self).wf(),
        ensures
            final(self).wf(),
            final(self).widget_name == old(self).widget_name,
            final(self).state == (PopoverState { reuse_content: reuse, ..old(self).state }),
    {
        let s = self.state;
        self.state = PopoverState { reuse_content: reuse, ..s };
    }

    /// The content is out of date: it is built anew if the popover comes back
    /// while it closes.
    pub fn mark_content_dirty(&mut self)
        requires
            old(self).wf(),
        ensures
            final(self).wf(),
            final(self).widget_name == old(self).widget_name,
            final(self).state == (PopoverState { content_dirty: true, ..old(self).state }),
    {
        let s = self.state;
        self.state = PopoverState { content_dirty: true, ..s };
    }

    /// Shows the popover with its anchor at `x`.
    pub fn show_at(&mut self, x: i32, window_visible: bool) -> (r: ShowPlan)
        requires
            old(self).wf(),
        ensures
            final(self).wf(),
            final(self).widget_name == old(self).widget_name,
            (final(self).state, r) == shown(old(self).state, x, window_visible),
    {
        let s = self.state;
        let closing = s.anim.active && match s.anim.direction {
            AnimDirection::Closing => true,
            AnimDirection::Opening => false,
        };
        if closing {
            let rebuild = s.content_dirty && s.anim_shell;
            self.state = PopoverState {
                anchor_x: x,
                logically_open: true,
                content_dirty: false,
                cached_content: if rebuild {
                    s.reuse_content
                } else {
                    s.cached_content
                },
                click_catcher: true,
                awaits_keynav: s.window || s.awaits_keynav,
                ..s
            };
            return ShowPlan::Reverse {
                rebuild,
                create_catcher: !s.click_catcher,
                window: s.window,
                generation: s.generation,
            };
        }
        let generation: u32 = bump(s.generation);
        let content = if !s.reuse_content {
            ContentSource::Build
        } else if s.cached_content {
            ContentSource::Cached
        } else {
            ContentSource::BuildAndCache
        };
        self.state = PopoverState {
            anchor_x: x,
            logically_open: true,
            content_dirty: false,
            generation,
            window: true,
            anim_shell: true,
            click_catcher: true,
            cached_content: s.cached_content || s.reuse_content,
            awaits_keynav: true,
            ..s
        };
        ShowPlan::Open {
            snap_close: s.window && window_visible,
            create_window: !s.window,
            create_shell: !s.anim_shell,
            content,
            create_catcher: !s.click_catcher,
            generation,
        }
    }

    /// The window of a shown popover is up.
    pub fn on_mapped(&self, generation: u32, animations: bool) -> (r: AfterMap)
        ensures
            r == after_map(self.state.generation, generation, animations),
    {
        if self.state.generation != generation {
            AfterMap::Stale
        } else if animations {
            AfterMap::Animate
        } else {
            AfterMap::Snap
        }
    }

    /// Closes the popover.
    pub fn dismiss(&mut self, animations: bool) -> (r: HidePlan)
        requires
            old(self).wf(),
        ensures
            final(self).wf(),
            final(self).widget_name == old(self).widget_name,
            (final(self).state, r) == hidden(old(self).state, animations),
    {
        let s = self.state;
        let generation: u32 = bump(s.generation);
        self.state = PopoverState { logically_open: false, awaits_keynav: false, generation, ..s };
        if !s.window {
            HidePlan::Nothing
        } else if !animations {
            HidePlan::Snap
        } else {
            HidePlan::Animate(generation)
        }
    }

    /// Builds the content anew while the popover is open. Says whether there is
    /// anything to put it into.
    pub fn rebuild_content(&mut self) -> (r: bool)
        requires
            old(self).wf(),
        ensures
            final(self).wf(),
            final(self).widget_name == old(self).widget_name,
            r == old(self).state.anim_shell,
            final(self).state == if r {
                PopoverState { cached_content: old(self).state.reuse_content, ..old(self).state }
            } else {
                old(self).state
            },
    {
        let s = self.state;
        if !s.anim_shell {
            return false;
        }
        self.state = PopoverState { cached_content: s.reuse_content, ..s };
        true
    }

    /// An animation begins at the time of the frame clock.
    pub fn start_animation(
        &mut self,
        direction: AnimDirection,
        generation: u32,
        start_time_us: i64,
    ) -> (r: Option<Segment>)
        requires
            old(self).wf(),
        ensures
            final(self).wf(),
            final(self).widget_name == old(self).widget_name,
            (final(self).state, r) == animated(
                old(self).state,
                direction,
                generation,
                start_time_us,
            ),
    {
        let s = self.state;
        if !s.anim_shell {
            return None;
        }
        let mut anim = s.anim;
        let segment = anim.prepare(direction, generation, start_time_us);
        self.state = PopoverState { anim, ..s };
        Some(segment)
    }

    /// A tick of an animation. When it is `Closed`, the content and the window
    /// go and whoever waits for the end hears of it.
    pub fn on_tick(&mut self, generation: u32, complete: bool) -> (r: Tick)
        requires
            old(self).wf(),
        ensures
            final(self).wf(),
            final(self).widget_name == old(self).widget_name,
            (final(self).state.anim, r) == ticked(
                old(self).state.anim,
                old(self).state.generation,
                generation,
                complete,
            ),
            final(self).state == (PopoverState { anim: final(self).state.anim, ..old(self).state }),
    {
        let s = self.state;
        let mut anim = s.anim;
        let r = anim.tick(s.generation, generation, complete);
        self.state = PopoverState { anim, ..s };
        r
    }

    /// The first key that moves the focus came: no other is waited for.
    pub fn on_first_keynav(&mut self)
        requires
            old(self).wf(),
        ensures
            final(self).wf(),
            final(self).widget_name == old(self).widget_name,
            final(self).state == (PopoverState { awaits_keynav: false, ..old(self).state }),
    {
        let s = self.state;
        self.state = PopoverState { awaits_keynav: false, ..s };
    }

    /// The popover goes away for good: whether whoever waits for its end is still
    /// to hear of it.
    pub fn on_drop(&self) -> (fire_close: bool)
        ensures
            fire_close == (self.state.logically_open || self.state.anim.active),
    {
        self.state.logically_open || self.state.anim.active
    }
}

// ---------------------------------------------------------------------------
// What holds of all popovers
// ---------------------------------------------------------------------------

/// Hiding a popover, or opening it from scratch, ends every animation that was
/// in flight: its ticks and its wait for the window do nothing more.
pub proof fn law_earlier_animations_end(
    s: PopoverState,
    x: i32,
    window_visible: bool,
    animations: bool,
    complete: bool,
)
    ensures
        ({
            let after = hidden(s, animations).0;
            &&& ticked(after.anim, after.generation, s.generation, complete) == (
                after.anim,
                Tick::Stale,
            )
            &&& after_map(after.generation, s.generation, animations) == AfterMap::Stale
        }),
        shown(s, x, window_visible).1 is Open ==> ({
            let after = shown(s, x, window_visible).0;
            &&& ticked(after.anim, after.generation, s.generation, complete) == (
                after.anim,
                Tick::Stale,
            )
            &&& after_map(after.generation, s.generation, animations) == AfterMap::Stale
        }),
{
}

/// A popover that is shown again while it fades out turns round from where it
/// is: the tick that runs drives it on, and its end leaves the popover open.
pub proof fn law_closing_turns_round(
    s: PopoverState,
    x: i32,
    window_visible: bool,
    closing_since_us: i64,
    opening_since_us: i64,
)
    requires
        s.valid(),
        s.window,
        s.anim_shell,
    ensures
        ({
            let (closed, plan) = hidden(s, true);
            let g = closed.generation;
            let (fading, _) = animated(closed, AnimDirection::Closing, g, closing_since_us);
            let (back, again) = shown(fading, x, window_visible);
            let (opening, segment) = animated(back, AnimDirection::Opening, g, opening_since_us);
            &&& plan == HidePlan::Animate(g)
            &&& again is Reverse
            &&& again->Reverse_generation == g
            &&& segment == Some(Segment { from_running: true, need_tick: false })
            &&& opening.logically_open
            &&& ticked(opening.anim, opening.generation, g, false).1 == Tick::Continue(
                AnimDirection::Opening,
            )
            &&& ticked(opening.anim, opening.generation, g, true).1 == Tick::Opened
        }),
{
}

/// A popover that fades out is closed exactly once.
pub proof fn law_closed_once(s: PopoverState, closing_since_us: i64, complete: bool)
    requires
        s.window,
        s.anim_shell,
    ensures
        ({
            let closed = hidden(s, true).0;
            let g = closed.generation;
            let fading = animated(closed, AnimDirection::Closing, g, closing_since_us).0;
            let (ended, tick) = ticked(fading.anim, g, g, true);
            &&& tick == Tick::Closed
            &&& ticked(ended, g, g, complete) == (ended, Tick::Stale)
        }),
{
}

/// However a popover is shown, it is open, and content that went out of date
/// while it was closing is built anew.
pub proof fn law_no_stale_content(s: PopoverState, x: i32, window_visible: bool)
    requires
        s.valid(),
    ensures
        shown(s, x, window_visible).0.logically_open,
        !shown(s, x, window_visible).0.content_dirty,
        s.content_dirty && s.anim.is_closing() ==> shown(s, x, window_visible).1->rebuild,
{
}

/// Content that is kept is built once: a popover that was opened takes it from
/// then on.
pub proof fn law_kept_content_is_built_once(
    s: PopoverState,
    x: i32,
    y: i32,
    window_visible: bool,
    animations: bool,
)
    requires
        s.reuse_content,
        !s.anim.is_closing(),
    ensures
        ({
            let open = shown(s, x, window_visible).0;
            let closed = hidden(open, animations).0;
            let again = shown(closed, y, window_visible).1;
            again is Open && again->content == ContentSource::Cached
        }),
{
}

} // verus!

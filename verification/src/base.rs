//! What all bar widgets share: clicks, menus and conditional visibility.

use vstd::prelude::*;
use vstd::string::*;

use crate::layer_shell_popover;
use crate::layer_shell_popover::{HidePlan, LayerShellPopover, PopoverState, ShowPlan};
use crate::text;

verus! {

/// How long a `show_if` command may take, in seconds.
pub const SHOW_IF_TIMEOUT_SECS: u64 = 5;

/// When a hidden widget without an interval is looked at again, in
/// milliseconds.
pub const SHOW_IF_RETRY_MS: u64 = 500;

/// The number of the signal that kills a process.
pub const SIGKILL: i32 = 9;

pub const BUTTON_PRIMARY: u32 = 1;

pub const BUTTON_MIDDLE: u32 = 2;

pub const BUTTON_SECONDARY: u32 = 3;

// ---------------------------------------------------------------------------
// Processes
// ---------------------------------------------------------------------------

/// How a process ended.
#[derive(Debug, Clone, Copy)]
pub struct ExitStatus {
    /// Its exit code, unless a signal ended it.
    pub code: Option<i32>,
    pub signal: Option<i32>,
}

impl ExitStatus {
    pub open spec fn succeeded(self) -> bool {
        self.code == Some(0i32)
    }

    pub open spec fn killed(self) -> bool {
        !self.succeeded() && self.signal == Some(SIGKILL)
    }

    pub fn success(&self) -> (r: bool)
        ensures
            r == self.succeeded(),
    {
        match self.code {
            Some(c) => c == 0,
            None => false,
        }
    }

    /// Whether it was killed, which is how a command that takes too long ends.
    pub fn was_killed(&self) -> (r: bool)
        ensures
            r == self.killed(),
    {
        !self.success() && match self.signal {
            Some(s) => s == SIGKILL,
            None => false,
        }
    }
}

/// An exit status in words.
pub open spec fn exit_text(s: ExitStatus) -> Seq<char> {
    match s.code {
        Some(c) => if c == 127 {
            "command not found"@
        } else if c == 126 {
            "permission denied (not executable)"@
        } else {
            "exit code "@ + text::dec_int(c as int)
        },
        None => match s.signal {
            Some(n) => "killed by signal "@ + text::dec_int(n as int),
            None => "unknown exit status"@,
        },
    }
}

/// An exit status in words.
pub fn describe_exit_status(status: ExitStatus) -> (r: String)
    ensures
        r@ == exit_text(status),
{
    match status.code {
        Some(c) => if c == 127 {
            "command not found".to_string()
        } else if c == 126 {
            "permission denied (not executable)".to_string()
        } else {
            let mut r = "exit code ".to_string();
            r.append(text::decimal_signed(c).as_str());
            r
        },
        None => match status.signal {
            Some(n) => {
                let mut r = "killed by signal ".to_string();
                r.append(text::decimal_signed(n).as_str());
                r
            },
            None => "unknown exit status".to_string(),
        },
    }
}

/// Whether a `show_if` command says to show the widget. One that could not be
/// run, or was killed, says no.
pub fn show_if_outcome(status: Option<ExitStatus>) -> (visible: bool)
    ensures
        visible == match status {
            Some(s) => s.succeeded(),
            None => false,
        },
{
    match status {
        Some(s) => if s.was_killed() {
            false
        } else {
            s.success()
        },
        None => false,
    }
}

// ---------------------------------------------------------------------------
// Clicks
// ---------------------------------------------------------------------------

/// What a widget does on clicks.
#[derive(Debug)]
pub struct ClickHandlers {
    pub on_click_right: Option<String>,
    pub on_click_middle: Option<String>,
}

/// What a click leads to.
#[derive(Debug)]
pub enum ClickAction {
    Nothing,
    /// Tooltips and the open popover go away; `open` opens the widget's menu.
    Primary { open: bool },
    /// A shell command is run.
    Run(String),
}

pub enum ClickView {
    Nothing,
    Primary { open: bool },
    Run(Seq<char>),
}

impl View for ClickAction {
    type V = ClickView;

    open spec fn view(&self) -> ClickView {
        match self {
            ClickAction::Nothing => ClickView::Nothing,
            ClickAction::Primary { open } => ClickView::Primary { open: *open },
            ClickAction::Run(c) => ClickView::Run(c@),
        }
    }
}

pub open spec fn run_view(c: Option<Seq<char>>) -> ClickView {
    match c {
        Some(c) => ClickView::Run(c),
        None => ClickView::Nothing,
    }
}

/// What a click leads to. A click on a button inside is that button's own. A
/// menu that was open has just been closed and stays so. `menu` says whether
/// there is one, and whether it is open.
pub open spec fn click_action(
    button: u32,
    on_inner_button: bool,
    menu: Option<bool>,
    right: Option<Seq<char>>,
    middle: Option<Seq<char>>,
) -> ClickView {
    if on_inner_button {
        ClickView::Nothing
    } else if button == BUTTON_PRIMARY {
        ClickView::Primary { open: menu == Some(false) }
    } else if button == BUTTON_MIDDLE {
        run_view(middle)
    } else if button == BUTTON_SECONDARY {
        run_view(right)
    } else {
        ClickView::Nothing
    }
}

fn run(c: &Option<String>) -> (r: ClickAction)
    ensures
        r@ == run_view(text::opt_string_view(*c)),
{
    match c {
        Some(c) => ClickAction::Run(c.clone()),
        None => ClickAction::Nothing,
    }
}

impl ClickHandlers {
    /// Whether the widget reacts to clicks by itself.
    pub fn clickable(&self) -> (r: bool)
        ensures
            r == (self.on_click_right is Some || self.on_click_middle is Some),
    {
        self.on_click_right.is_some() || self.on_click_middle.is_some()
    }

    /// What a click leads to.
    pub fn on_click(&self, button: u32, on_inner_button: bool, menu: Option<bool>) -> (r:
        ClickAction)
        ensures
            r@ == click_action(
                button,
                on_inner_button,
                menu,
                text::opt_string_view(self.on_click_right),
                text::opt_string_view(self.on_click_middle),
            ),
    {
        if on_inner_button {
            return ClickAction::Nothing;
        }
        if button == BUTTON_PRIMARY {
            let open = match menu {
                Some(visible) => !visible,
                None => false,
            };
            ClickAction::Primary { open }
        } else if button == BUTTON_MIDDLE {
            run(&self.on_click_middle)
        } else if button == BUTTON_SECONDARY {
            run(&self.on_click_right)
        } else {
            ClickAction::Nothing
        }
    }
}

/// The name of a widget: its first own style class.
pub fn widget_name(extra_classes: &Vec<String>) -> (r: String)
    ensures
        r@ == if extra_classes@.len() > 0 {
            extra_classes@[0]@
        } else {
            Seq::<char>::empty()
        },
{
    if extra_classes.len() > 0 {
        extra_classes[0].clone()
    } else {
        let r = String::new();
        assert(r@ =~= Seq::<char>::empty());
        r
    }
}

// ---------------------------------------------------------------------------
// Menus
// ---------------------------------------------------------------------------

/// The menu of a widget. Its popover is made when it is first wanted.
#[derive(Debug)]
pub struct MenuHandle {
    pub widget_name: String,
    pub popover: Option<LayerShellPopover>,
    /// Its place among open popovers.
    pub tracker_id: Option<u64>,
}

/// What showing a menu takes.
#[derive(Debug, Clone, Copy, PartialEq, Eq, Structural)]
pub struct MenuShow {
    /// The popover is made first.
    pub create: bool,
    pub plan: ShowPlan,
}

/// What hiding a menu takes.
#[derive(Debug, Clone, Copy, PartialEq, Eq, Structural)]
pub struct MenuHide {
    /// Nothing where there is no popover yet.
    pub plan: Option<HidePlan>,
    /// The place to clear, if it is still this menu's.
    pub clear: Option<u64>,
}

/// What becomes of content that is out of date.
#[derive(Debug, Clone, Copy, PartialEq, Eq, Structural)]
pub enum MenuRefresh {
    /// There is none yet.
    Nothing,
    /// It is built anew at once.
    Rebuild,
    /// It is built anew when the popover comes back.
    Marked,
}

pub open spec fn popover_state(p: Option<LayerShellPopover>) -> Option<PopoverState> {
    match p {
        Some(p) => Some(p.state),
        None => None,
    }
}

impl MenuHandle {
    pub open spec fn wf(&self) -> bool {
        self.popover matches Some(p) ==> p.wf()
    }

    /// The popover as it is, or a new one where it can be made.
    pub open spec fn available(self, has_application: bool) -> Option<PopoverState> {
        match self.popover {
            Some(p) => Some(p.state),
            None => if has_application {
                Some(PopoverState::fresh())
            } else {
                None
            },
        }
    }

    pub fn new(widget_name: &str) -> (m: Self)
        ensures
            m.wf(),
            m.widget_name@ == widget_name@,
            m.popover is None,
            m.tracker_id is None,
    {
        MenuHandle { widget_name: widget_name.to_string(), popover: None, tracker_id: None }
    }

    /// Shows the menu at `x`; `id` is its place among open popovers. A widget
    /// that is on no window has no application, and its first popover cannot be
    /// made.
    pub fn show(&mut self, has_application: bool, id: u64, x: i32, window_visible: bool) -> (r:
        Option<MenuShow>)
        requires
            old(self).wf(),
        ensures
            final(self).wf(),
            final(self).widget_name == old(self).widget_name,
            match old(self).available(has_application) {
                Some(s) => {
                    let (after, plan) = layer_shell_popover::shown(s, x, window_visible);
                    &&& r == Some(MenuShow { create: old(self).popover is None, plan })
                    &&& popover_state(final(self).popover) == Some(after)
                    &&& final(self).tracker_id == Some(id)
                },
                None => r is None && *final(self) == *old(self),
            },
    {
        let create = self.popover.is_none();
        if create && !has_application {
            return None;
        }
        let mut p = match self.popover.take() {
            Some(p) => p,
            None => LayerShellPopover::new(self.widget_name.as_str()),
        };
        let plan = p.show_at(x, window_visible);
        self.popover = Some(p);
        self.tracker_id = Some(id);
        Some(MenuShow { create, plan })
    }

    /// Hides the menu.
    pub fn dismiss(&mut self, animations: bool) -> (r: MenuHide)
        requires
            old(self).wf(),
        ensures
            final(self).wf(),
            final(self).widget_name == old(self).widget_name,
            final(self).tracker_id is None,
            r.clear == old(self).tracker_id,
            match popover_state(old(self).popover) {
                Some(s) => {
                    let (after, plan) = layer_shell_popover::hidden(s, animations);
                    popover_state(final(self).popover) == Some(after) && r.plan == Some(plan)
                },
                None => final(self).popover is None && r.plan is None,
            },
    {
        let clear = self.tracker_id;
        self.tracker_id = None;
        match self.popover.take() {
            Some(popover) => {
                let mut p = popover;
                let plan = p.dismiss(animations);
                self.popover = Some(p);
                MenuHide { plan: Some(plan), clear }
            },
            None => MenuHide { plan: None, clear },
        }
    }

    pub open spec fn visible(self) -> bool {
        self.popover matches Some(p) && p.state.logically_open
    }

    /// Whether the menu is open.
    pub fn is_visible(&self) -> (r: bool)
        ensures
            r == self.visible(),
    {
        match &self.popover {
            Some(p) => p.is_visible(),
            None => false,
        }
    }

    /// The content is out of date. An open menu gets it built anew in place; one
    /// that is closing gets it if it comes back.
    pub fn refresh_if_visible(&mut self) -> (r: MenuRefresh)
        requires
            old(self).wf(),
        ensures
            final(self).wf(),
            final(self).widget_name == old(self).widget_name,
            final(self).tracker_id == old(self).tracker_id,
            match popover_state(old(self).popover) {
                Some(s) => if s.logically_open {
                    &&& r == if s.anim_shell {
                        MenuRefresh::Rebuild
                    } else {
                        MenuRefresh::Nothing
                    }
                    &&& popover_state(final(self).popover) == Some(
                        if s.anim_shell {
                            PopoverState { cached_content: s.reuse_content, ..s }
                        } else {
                            s
                        },
                    )
                } else {
                    &&& r == MenuRefresh::Marked
                    &&& popover_state(final(self).popover) == Some(
                        PopoverState { content_dirty: true, ..s },
                    )
                },
                None => r == MenuRefresh::Nothing && final(self).popover is None,
            },
    {
        match self.popover.take() {
            Some(popover) => {
                let mut p = popover;
                let r = if p.is_visible() {
                    if p.rebuild_content() {
                        MenuRefresh::Rebuild
                    } else {
                        MenuRefresh::Nothing
                    }
                } else {
                    p.mark_content_dirty();
                    MenuRefresh::Marked
                };
                self.popover = Some(p);
                r
            },
            None => MenuRefresh::Nothing,
        }
    }
}

/// The centre of a widget on its monitor.
pub fn anchor_x(x: i32, width: i32) -> (r: i32)
    requires
        i32::MIN <= x + layer_shell_popover::halved(width as int) <= i32::MAX,
    ensures
        r == x + layer_shell_popover::halved(width as int),
{
    x + layer_shell_popover::half(width)
}

// ---------------------------------------------------------------------------
// Conditional visibility
// ---------------------------------------------------------------------------

/// A widget that is shown while a command succeeds.
#[derive(Debug)]
pub struct ShowIf {
    /// Seconds between checks, where there is a timer.
    pub period: Option<u32>,
    /// What the last check said.
    pub visible: bool,
}

/// The period of the timer: none without an interval, or with one of zero.
pub open spec fn show_if_period(interval: Option<u64>) -> Option<u32> {
    match interval {
        Some(i) => if i == 0 {
            None
        } else if i > u32::MAX {
            Some(u32::MAX)
        } else {
            Some(i as u32)
        },
        None => None,
    }
}

/// What the first check leads to.
#[derive(Debug, Clone, Copy, PartialEq, Eq, Structural)]
pub struct FirstCheck {
    pub visible: bool,
    /// Check once more in a while.
    pub retry: bool,
}

impl ShowIf {
    /// The widget starts hidden.
    pub fn new(interval: Option<u64>) -> (s: Self)
        ensures
            s.period == show_if_period(interval),
            !s.visible,
    {
        let period: Option<u32> = match interval {
            Some(i) => if i == 0 {
                None
            } else if i > 0xffff_ffff {
                Some(0xffff_ffff)
            } else {
                Some(i as u32)
            },
            None => None,
        };
        ShowIf { period, visible: false }
    }

    /// The first check came back. A widget that stays hidden and has no timer
    /// is looked at once more, for sources that were not ready yet.
    pub fn on_first_check(&mut self, visible: bool) -> (r: FirstCheck)
        ensures
            final(self).visible == visible,
            final(self).period == old(self).period,
            r == (FirstCheck { visible, retry: !visible && old(self).period is None }),
    {
        self.visible = visible;
        FirstCheck { visible, retry: !visible && self.period.is_none() }
    }

    /// The second look came back. It can only show the widget.
    pub fn on_retry(&self, visible: bool) -> (show: bool)
        ensures
            show == visible,
    {
        visible
    }

    /// A check of the timer came back: the new visibility, where it changed.
    pub fn on_tick(&mut self, visible: bool) -> (r: Option<bool>)
        ensures
            final(self).visible == visible,
            final(self).period == old(self).period,
            r == if visible != old(self).visible {
                Some(visible)
            } else {
                None
            },
    {
        let changed = visible != self.visible;
        self.visible = visible;
        if changed {
            Some(visible)
        } else {
            None
        }
    }
}

} // verus!

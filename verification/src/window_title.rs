//! The focused window, as widgets see it.

use vstd::prelude::*;
use vstd::string::*;

use crate::callbacks::{CallbackId, Callbacks};
use crate::text;

verus! {

/// What the compositor says of a window.
#[derive(Debug)]
pub struct WindowInfo {
    pub title: String,
    pub app_id: String,
    pub output: Option<String>,
}

/// What widgets are told of the focused window.
#[derive(Debug)]
pub struct WindowTitleSnapshot {
    /// Current window title.
    pub title: String,
    /// Current application id.
    pub app_id: String,
    /// Output on which the window is, if known.
    pub output: Option<String>,
}

/// Title, application id and output.
pub type WindowView = (Seq<char>, Seq<char>, Option<Seq<char>>);

impl View for WindowInfo {
    type V = WindowView;

    open spec fn view(&self) -> WindowView {
        (self.title@, self.app_id@, text::opt_string_view(self.output))
    }
}

impl View for WindowTitleSnapshot {
    type V = WindowView;

    open spec fn view(&self) -> WindowView {
        (self.title@, self.app_id@, text::opt_string_view(self.output))
    }
}

/// No window: empty texts and no output.
pub open spec fn no_window() -> WindowView {
    (Seq::empty(), Seq::empty(), None)
}

impl Default for WindowTitleSnapshot {
    fn default() -> (s: Self)
        ensures
            s@ == no_window(),
    {
        WindowTitleSnapshot { title: String::new(), app_id: String::new(), output: None }
    }
}

impl WindowTitleSnapshot {
    /// What widgets are told of `info`.
    pub fn of(info: &WindowInfo) -> (s: Self)
        ensures
            s@ == info@,
    {
        WindowTitleSnapshot {
            title: info.title.clone(),
            app_id: info.app_id.clone(),
            output: text::clone_opt(&info.output),
        }
    }

    pub fn copy(&self) -> (s: Self)
        ensures
            s@ == self@,
    {
        WindowTitleSnapshot {
            title: self.title.clone(),
            app_id: self.app_id.clone(),
            output: text::clone_opt(&self.output),
        }
    }
}

/// Holds the focused window and knows who listens.
pub struct WindowTitleService {
    pub current: WindowTitleSnapshot,
    pub callbacks: Callbacks,
    /// Whether there has been something to tell.
    pub ready: bool,
}

impl WindowTitleService {
    pub open spec fn wf(&self) -> bool {
        self.callbacks.wf()
    }

    /// A service that starts from the window focused now, if any. It is ready
    /// at once.
    pub fn new(focused: Option<WindowInfo>) -> (s: Self)
        ensures
            s.wf(),
            s.ready,
            s.callbacks@.len() == 0,
            s.callbacks.has_room(),
            s.callbacks.next == 0,
            s.current@ == match focused {
                Some(info) => info@,
                None => no_window(),
            },
    {
        let current = match &focused {
            Some(info) => WindowTitleSnapshot::of(info),
            None => WindowTitleSnapshot::default(),
        };
        WindowTitleService { current, callbacks: Callbacks::new(), ready: true }
    }

    /// The one service of the process: `instance` where it exists, else a new
    /// one.
    pub fn global(instance: Option<Self>, focused: Option<WindowInfo>) -> (s: Self)
        requires
            instance matches Some(i) ==> i.wf(),
        ensures
            s.wf(),
            instance matches Some(i) ==> s == i,
            instance is None ==> s.ready && s.callbacks@.len() == 0 && s.callbacks.has_room()
                && s.callbacks.next == 0 && s.current@ == (match focused {
                Some(info) => info@,
                None => no_window(),
            }),
    {
        match instance {
            Some(i) => i,
            None => Self::new(focused),
        }
    }

    /// Registers a listener. What it is to be told right away, and it alone,
    /// comes with its id: the current window, once the service is ready.
    pub fn connect(&mut self) -> (r: (CallbackId, Option<WindowTitleSnapshot>))
        requires
            old(self).wf(),
            old(self).callbacks.has_room(),
        ensures
            final(self).wf(),
            final(self).callbacks@ == old(self).callbacks@.push(r.0),
            final(self).callbacks.next == old(self).callbacks.next + 1,
            !old(self).callbacks@.contains(r.0),
            final(self).current@ == old(self).current@,
            final(self).ready == old(self).ready,
            r.1.is_some() == old(self).ready,
            r.1 matches Some(s) ==> s@ == old(self).current@,
    {
        let id = self.callbacks.register();
        if self.ready {
            (id, Some(self.current.copy()))
        } else {
            (id, None)
        }
    }

    /// Removes a listener. Says whether there was one.
    pub fn disconnect(&mut self, id: CallbackId) -> (found: bool)
        requires
            old(self).wf(),
        ensures
            final(self).wf(),
            found == old(self).callbacks@.contains(id),
            !final(self).callbacks@.contains(id),
            final(self).callbacks.next == old(self).callbacks.next,
            !found ==> final(self).callbacks@ == old(self).callbacks@,
            found ==> exists|k: int|
                0 <= k < old(self).callbacks@.len() && old(self).callbacks@[k] == id && final(self).callbacks@ == #[trigger] old(self).callbacks@.remove(k),
            final(self).current == old(self).current,
            final(self).ready == old(self).ready,
    {
        self.callbacks.unregister(id)
    }

    /// Takes in a change of the focused window. Everyone who listens is to be
    /// told.
    pub fn handle_update(&mut self, window_info: &WindowInfo) -> (told: (
        Vec<CallbackId>,
        WindowTitleSnapshot,
    ))
        requires
            old(self).wf(),
        ensures
            final(self).wf(),
            final(self).ready,
            final(self).current@ == window_info@,
            final(self).callbacks == old(self).callbacks,
            told.0@ == old(self).callbacks@,
            told.1@ == window_info@,
    {
        self.current = WindowTitleSnapshot::of(window_info);
        self.ready = true;
        (self.callbacks.all(), self.current.copy())
    }
}

} // verus!

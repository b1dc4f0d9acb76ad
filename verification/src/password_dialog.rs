//! The inline prompt for a Wi-Fi password, and how it follows the network.

use vstd::prelude::*;
use vstd::string::*;

use crate::network;
use crate::network::{
    NetworkConnectionState, NetworkSnapshot, NetworkView, AUTH_FAILURE_REASON,
    CONNECTION_FAILURE_REASON,
};
use crate::text;

verus! {

/// How long a failure stays shown, in seconds.
pub const FAILED_CLEAR_SECS: u64 = 5;

/// How long each step of the dots takes, in milliseconds.
pub const CONNECT_ANIM_MS: u64 = 450;

/// Something to be done outside.
#[derive(Debug)]
pub enum DialogEffect {
    ClearEntry,
    /// Take the prompt off the screen.
    Conceal,
    /// Build the list of networks again.
    Repopulate,
    /// Forget the failure now.
    ClearFailed,
    /// Forget the failure in a while; an earlier plan to do so is dropped.
    ScheduleClearFailed,
    CancelAuth,
    Disconnect,
    SubmitPassword(String),
    Connect { ssid: String, password: String, path: Option<String> },
}

pub enum DialogEffectView {
    ClearEntry,
    Conceal,
    Repopulate,
    ClearFailed,
    ScheduleClearFailed,
    CancelAuth,
    Disconnect,
    SubmitPassword(Seq<char>),
    Connect { ssid: Seq<char>, password: Seq<char>, path: Option<Seq<char>> },
}

impl View for DialogEffect {
    type V = DialogEffectView;

    open spec fn view(&self) -> DialogEffectView {
        match self {
            DialogEffect::ClearEntry => DialogEffectView::ClearEntry,
            DialogEffect::Conceal => DialogEffectView::Conceal,
            DialogEffect::Repopulate => DialogEffectView::Repopulate,
            DialogEffect::ClearFailed => DialogEffectView::ClearFailed,
            DialogEffect::ScheduleClearFailed => DialogEffectView::ScheduleClearFailed,
            DialogEffect::CancelAuth => DialogEffectView::CancelAuth,
            DialogEffect::Disconnect => DialogEffectView::Disconnect,
            DialogEffect::SubmitPassword(p) => DialogEffectView::SubmitPassword(p@),
            DialogEffect::Connect { ssid, password, path } => DialogEffectView::Connect {
                ssid: ssid@,
                password: password@,
                path: text::opt_string_view(*path),
            },
        }
    }
}

pub open spec fn effect_views(v: Seq<DialogEffect>) -> Seq<DialogEffectView> {
    v.map_values(|e: DialogEffect| e@)
}

/// The prompt.
#[derive(Debug)]
pub struct PasswordDialog {
    /// The network it is for.
    pub target: Option<String>,
    pub label: String,
    pub status: String,
    /// The status is an error.
    pub status_error: bool,
    /// The entry and the button for connecting can be used.
    pub inputs_enabled: bool,
    /// The dots move.
    pub animating: bool,
    pub step: u8,
}

pub struct DialogView {
    pub target: Option<Seq<char>>,
    pub label: Seq<char>,
    pub status: Seq<char>,
    pub status_error: bool,
    pub inputs_enabled: bool,
    pub animating: bool,
    pub step: u8,
}

impl View for PasswordDialog {
    type V = DialogView;

    open spec fn view(&self) -> DialogView {
        DialogView {
            target: text::opt_string_view(self.target),
            label: self.label@,
            status: self.status@,
            status_error: self.status_error,
            inputs_enabled: self.inputs_enabled,
            animating: self.animating,
            step: self.step,
        }
    }
}

pub type DialogOut = (DialogView, Seq<DialogEffectView>);

pub open spec fn no_effects() -> Seq<DialogEffectView> {
    Seq::empty()
}

/// The prompt before it is used.
pub open spec fn unused() -> DialogView {
    DialogView {
        target: None,
        label: Seq::empty(),
        status: Seq::empty(),
        status_error: false,
        inputs_enabled: true,
        animating: false,
        step: 0,
    }
}

/// The prompt for a network, with an error where there is one. A name without
/// anything but blanks opens nothing.
pub open spec fn shown(d: DialogView, ssid: Seq<char>, error: Option<Seq<char>>) -> DialogOut {
    let name = text::trim_spec(ssid);
    if name.len() == 0 {
        (d, no_effects())
    } else {
        (
            DialogView {
                target: Some(name),
                label: "Enter password for "@ + name,
                status: match error {
                    Some(m) => m,
                    None => Seq::empty(),
                },
                status_error: error is Some,
                ..d
            },
            seq![DialogEffectView::ClearEntry, DialogEffectView::Repopulate],
        )
    }
}

/// The prompt while a connection is tried.
pub open spec fn busy(d: DialogView) -> DialogView {
    DialogView {
        inputs_enabled: false,
        status: "Connecting"@,
        status_error: false,
        animating: true,
        ..d
    }
}

/// The prompt at rest.
pub open spec fn idle(d: DialogView) -> DialogView {
    DialogView {
        inputs_enabled: true,
        status: Seq::empty(),
        status_error: false,
        animating: false,
        step: if d.animating {
            0
        } else {
            d.step
        },
        ..d
    }
}

/// The prompt is put away.
pub open spec fn hidden(d: DialogView) -> DialogOut {
    (
        DialogView { target: None, ..idle(d) },
        seq![
            DialogEffectView::ClearEntry,
            DialogEffectView::Conceal,
            DialogEffectView::Repopulate,
        ],
    )
}

/// The attempt failed: the prompt says why and takes input again. The list is
/// built anew, and the failure is forgotten so that it is not shown again.
pub open spec fn failed(d: DialogView, reason: Seq<char>) -> DialogOut {
    (
        DialogView { status: reason, status_error: true, ..idle(d) },
        seq![DialogEffectView::Repopulate, DialogEffectView::ClearFailed],
    )
}

pub open spec fn dots(step: u8) -> Seq<char> {
    if step == 1 {
        "."@
    } else if step == 2 {
        ".."@
    } else if step == 3 {
        "..."@
    } else {
        Seq::empty()
    }
}

pub open spec fn next_step(step: u8) -> u8 {
    if step == 255 {
        0
    } else {
        ((step + 1) % 4) as u8
    }
}

/// What a change of the network does to an open prompt: a failure of its
/// network is shown; once its network, or another, is connected, it goes away.
pub open spec fn followed(d: DialogView, target: Seq<char>, v: NetworkView) -> DialogOut {
    match v.failed_ssid {
        Some(f) => if f == target {
            failed(
                d,
                match v.failed_reason {
                    Some(r) => r,
                    None => CONNECTION_FAILURE_REASON@,
                },
            )
        } else {
            (d, no_effects())
        },
        None => if settled_on(v, target) || settled_elsewhere(v, target) {
            hidden(d)
        } else {
            (d, no_effects())
        },
    }
}

/// The network is on `target`. With NetworkManager nothing else may be under
/// way; iwd says so by its state.
pub open spec fn settled_on(v: NetworkView, target: Seq<char>) -> bool {
    v.active_ssid == Some(target) && if v.is_iwd {
        v.connected
    } else {
        v.connecting_ssid is None
    }
}

pub open spec fn settled_elsewhere(v: NetworkView, target: Seq<char>) -> bool {
    v.connected && v.active_ssid != Some(target) && (v.is_iwd || v.connecting_ssid is None)
}

/// What a failure does while no prompt is open: a wrong password opens the
/// prompt where it can be seen; anything else is shown in the list for a while.
pub open spec fn unprompted(d: DialogView, v: NetworkView, mapped: bool) -> DialogOut {
    match v.failed_ssid {
        Some(f) => {
            let reason = match v.failed_reason {
                Some(r) => r,
                None => CONNECTION_FAILURE_REASON@,
            };
            if v.is_iwd && reason == AUTH_FAILURE_REASON@ {
                if mapped {
                    shown(d, f, Some(reason))
                } else {
                    (d, seq![DialogEffectView::ClearFailed])
                }
            } else {
                (d, seq![DialogEffectView::ScheduleClearFailed])
            }
        },
        None => (d, no_effects()),
    }
}

/// A request for a password that the prompt is not for yet opens it, once it
/// can be seen.
pub open spec fn requested(d: DialogView, v: NetworkView, mapped: bool) -> DialogOut {
    match v.auth_request_ssid {
        Some(s) => if v.is_iwd && d.target != Some(s) && mapped {
            shown(d, s, None)
        } else {
            (d, no_effects())
        },
        None => (d, no_effects()),
    }
}

/// What a change of the network does to the prompt.
pub open spec fn changed(d: DialogView, v: NetworkView, mapped: bool) -> DialogOut {
    let (d1, e1) = requested(d, v, mapped);
    let (d2, e2) = match d.target {
        Some(t) => followed(d1, t, v),
        None => unprompted(d1, v, mapped),
    };
    (d2, e1 + e2)
}

/// What pressing the button for connecting does. A request that waits for this
/// network gets the password; otherwise a new attempt is made with it.
pub open spec fn connect_pressed(d: DialogView, password: Seq<char>, v: NetworkView) -> DialogOut {
    match d.target {
        Some(t) => if t.len() == 0 {
            (d, no_effects())
        } else {
            (
                busy(d),
                seq![
                    if v.auth_request_ssid == Some(t) {
                        DialogEffectView::SubmitPassword(password)
                    } else {
                        DialogEffectView::Connect {
                            ssid: t,
                            password,
                            path: network::path_of_ssid(v.networks, t),
                        }
                    },
                ],
            )
        },
        None => (d, no_effects()),
    }
}

/// What pressing cancel does.
pub open spec fn cancel_pressed(d: DialogView, v: NetworkView) -> DialogOut {
    let (d1, e) = hidden(d);
    (
        d1,
        e + seq![DialogEffectView::CancelAuth] + (if network::connection_state_of(v)
            == NetworkConnectionState::Connecting {
            seq![DialogEffectView::Disconnect]
        } else {
            no_effects()
        }) + seq![DialogEffectView::ClearFailed],
    )
}

fn none() -> (r: Vec<DialogEffect>)
    ensures
        effect_views(r@) == no_effects(),
{
    let r: Vec<DialogEffect> = Vec::new();
    assert(effect_views(r@) =~= no_effects());
    r
}

fn one(e: DialogEffect) -> (r: Vec<DialogEffect>)
    ensures
        effect_views(r@) == seq![e@],
{
    let ghost ev = e@;
    let mut r: Vec<DialogEffect> = Vec::new();
    r.push(e);
    assert(effect_views(r@) =~= seq![ev]);
    r
}

pub(crate) fn both(a: Vec<DialogEffect>, b: Vec<DialogEffect>) -> (r: Vec<DialogEffect>)
    ensures
        effect_views(r@) == effect_views(a@) + effect_views(b@),
{
    let mut r = a;
    let mut rest = b;
    let ghost x = r@;
    let ghost y = rest@;
    r.append(&mut rest);
    assert(r@ == x + y);
    assert(effect_views(r@) =~= effect_views(x) + effect_views(y));
    r
}

fn is_text(a: Option<&str>, b: &str) -> (r: bool)
    ensures
        r == (text::opt_view(a) == Some(b@)),
{
    match a {
        Some(x) => text::str_eq(x, b),
        None => false,
    }
}

fn reason_text(snapshot: &NetworkSnapshot) -> (r: String)
    ensures
        r@ == match snapshot@.failed_reason {
            Some(s) => s,
            None => CONNECTION_FAILURE_REASON@,
        },
{
    match snapshot.failed_reason() {
        Some(s) => s.to_string(),
        None => CONNECTION_FAILURE_REASON.to_string(),
    }
}

impl PasswordDialog {
    /// No prompt yet.
    pub fn new() -> (d: Self)
        ensures
            d@ == unused(),
    {
        let d = PasswordDialog {
            target: None,
            label: String::new(),
            status: String::new(),
            status_error: false,
            inputs_enabled: true,
            animating: false,
            step: 0,
        };
        assert(d.label@ =~= Seq::<char>::empty());
        assert(d.status@ =~= Seq::<char>::empty());
        d
    }

    /// Opens the prompt for a network, with an error where there is one.
    pub fn show_password_dialog_with_error(&mut self, ssid: &str, error: Option<&str>) -> (r: Vec<
        DialogEffect,
    >)
        ensures
            (final(self)@, effect_views(r@)) == shown(old(self)@, ssid@, text::opt_view(error)),
    {
        let name = text::trim(ssid);
        if name.unicode_len() == 0 {
            return none();
        }
        let mut label = "Enter password for ".to_string();
        label.append(name);
        self.target = Some(name.to_string());
        self.label = label;
        let status = match error {
            Some(m) => m.to_string(),
            None => String::new(),
        };
        assert(error is None ==> status@ =~= Seq::<char>::empty());
        self.status = status;
        self.status_error = error.is_some();
        let r = both(one(DialogEffect::ClearEntry), one(DialogEffect::Repopulate));
        assert(effect_views(r@) =~= seq![
            DialogEffectView::ClearEntry,
            DialogEffectView::Repopulate,
        ]);
        r
    }

    /// Opens the prompt for a network.
    pub fn show_password_dialog(&mut self, ssid: &str) -> (r: Vec<DialogEffect>)
        ensures
            (final(self)@, effect_views(r@)) == shown(old(self)@, ssid@, None),
    {
        self.show_password_dialog_with_error(ssid, None)
    }

    /// Whether the entry takes the focus when it appears.
    pub fn wants_focus(&self) -> (r: bool)
        ensures
            r == (self@.target is Some),
    {
        self.target.is_some()
    }

    /// A connection is tried, or no longer.
    pub fn set_password_connecting_state(&mut self, connecting: bool)
        ensures
            final(self)@ == if connecting {
                busy(old(self)@)
            } else {
                idle(old(self)@)
            },
    {
        self.inputs_enabled = !connecting;
        self.status_error = false;
        if connecting {
            self.status = "Connecting".to_string();
            self.animating = true;
        } else {
            let blank = String::new();
            assert(blank@ =~= Seq::<char>::empty());
            self.status = blank;
            if self.animating {
                self.animating = false;
                self.step = 0;
            }
        }
    }

    /// A step of the dots.
    pub fn on_connect_anim(&mut self)
        ensures
            final(self)@ == (DialogView {
                step: next_step(old(self)@.step),
                status: "Connecting"@ + dots(next_step(old(self)@.step)),
                ..old(self)@
            }),
    {
        let step: u8 = if self.step == 255 {
            0
        } else {
            (self.step + 1) % 4
        };
        let mut s = "Connecting".to_string();
        if step == 1 {
            s.append(".");
        } else if step == 2 {
            s.append("..");
        } else if step == 3 {
            s.append("...");
        }
        assert(s@ =~= "Connecting"@ + dots(step));
        self.step = step;
        self.status = s;
    }

    /// Puts the prompt away.
    pub fn hide_password_dialog(&mut self) -> (r: Vec<DialogEffect>)
        ensures
            (final(self)@, effect_views(r@)) == hidden(old(self)@),
    {
        self.set_password_connecting_state(false);
        self.target = None;
        let r = both(
            both(one(DialogEffect::ClearEntry), one(DialogEffect::Conceal)),
            one(DialogEffect::Repopulate),
        );
        assert(effect_views(r@) =~= seq![
            DialogEffectView::ClearEntry,
            DialogEffectView::Conceal,
            DialogEffectView::Repopulate,
        ]);
        r
    }

    fn show_failure(&mut self, reason: String) -> (r: Vec<DialogEffect>)
        ensures
            (final(self)@, effect_views(r@)) == failed(old(self)@, reason@),
    {
        self.set_password_connecting_state(false);
        self.status = reason;
        self.status_error = true;
        let r = both(one(DialogEffect::Repopulate), one(DialogEffect::ClearFailed));
        assert(effect_views(r@) =~= seq![
            DialogEffectView::Repopulate,
            DialogEffectView::ClearFailed,
        ]);
        r
    }

    /// The user presses cancel.
    pub fn on_password_cancel_clicked(&mut self, snapshot: &NetworkSnapshot) -> (r: Vec<
        DialogEffect,
    >)
        ensures
            (final(self)@, effect_views(r@)) == cancel_pressed(old(self)@, snapshot@),
    {
        let e = self.hide_password_dialog();
        let abort = match snapshot.connection_state() {
            NetworkConnectionState::Connecting => one(DialogEffect::Disconnect),
            _ => none(),
        };
        both(
            both(both(e, one(DialogEffect::CancelAuth)), abort),
            one(DialogEffect::ClearFailed),
        )
    }

    /// The user presses connect, or enters the password.
    pub fn on_password_connect_clicked(&mut self, password: &str, snapshot: &NetworkSnapshot) -> (r:
        Vec<DialogEffect>)
        ensures
            (final(self)@, effect_views(r@)) == connect_pressed(
                old(self)@,
                password@,
                snapshot@,
            ),
    {
        let ssid = match &self.target {
            Some(t) => t.clone(),
            None => {
                return none();
            },
        };
        if ssid.as_str().unicode_len() == 0 {
            return none();
        }
        self.set_password_connecting_state(true);
        if is_text(snapshot.auth_request_ssid(), ssid.as_str()) {
            one(DialogEffect::SubmitPassword(password.to_string()))
        } else {
            let path = network::find_path(snapshot.networks(), ssid.as_str());
            one(DialogEffect::Connect { ssid, password: password.to_string(), path })
        }
    }

    pub(crate) fn follow(&mut self, target: &str, snapshot: &NetworkSnapshot) -> (r: Vec<DialogEffect>)
        ensures
            (final(self)@, effect_views(r@)) == followed(old(self)@, target@, snapshot@),
    {
        match snapshot.failed_ssid() {
            Some(f) => {
                if text::str_eq(f, target) {
                    return self.show_failure(reason_text(snapshot));
                }
                return none();
            },
            None => {},
        }
        let iwd = snapshot.is_iwd();
        let here = is_text(snapshot.active_ssid(), target);
        let quiet = snapshot.connecting_ssid().is_none();
        let connected = snapshot.connected();
        let on = here && if iwd {
            connected
        } else {
            quiet
        };
        let elsewhere = connected && !here && (iwd || quiet);
        if on || elsewhere {
            self.hide_password_dialog()
        } else {
            none()
        }
    }

    pub(crate) fn without_prompt(&mut self, snapshot: &NetworkSnapshot, mapped: bool) -> (r: Vec<
        DialogEffect,
    >)
        ensures
            (final(self)@, effect_views(r@)) == unprompted(old(self)@, snapshot@, mapped),
    {
        let f = match snapshot.failed_ssid() {
            Some(f) => f,
            None => {
                return none();
            },
        };
        let reason = reason_text(snapshot);
        if snapshot.is_iwd() && text::str_eq(reason.as_str(), AUTH_FAILURE_REASON) {
            if mapped {
                self.show_password_dialog_with_error(f, Some(reason.as_str()))
            } else {
                one(DialogEffect::ClearFailed)
            }
        } else {
            one(DialogEffect::ScheduleClearFailed)
        }
    }

    pub(crate) fn take_request(&mut self, snapshot: &NetworkSnapshot, mapped: bool) -> (r: Vec<DialogEffect>)
        ensures
            (final(self)@, effect_views(r@)) == requested(old(self)@, snapshot@, mapped),
    {
        match snapshot.auth_request_ssid() {
            Some(s) => if snapshot.is_iwd() && !text::is_some_of(&self.target, s) && mapped {
                self.show_password_dialog(s)
            } else {
                none()
            },
            None => none(),
        }
    }

    /// The network changed. `mapped` says whether the panel is on screen; a
    /// request that comes while it is not waits until it is.
    pub fn on_network_changed(&mut self, snapshot: &NetworkSnapshot, mapped: bool) -> (r: Vec<
        DialogEffect,
    >)
        ensures
            (final(self)@, effect_views(r@)) == changed(old(self)@, snapshot@, mapped),
    {
        let target = text::clone_opt(&self.target);
        let e1 = self.take_request(snapshot, mapped);
        let e2 = match target {
            Some(t) => self.follow(t.as_str(), snapshot),
            None => self.without_prompt(snapshot, mapped),
        };
        both(e1, e2)
    }
}

// ---------------------------------------------------------------------------
// What holds of the prompt
// ---------------------------------------------------------------------------

/// A password is handed to a waiting request only where it is for the network
/// that the prompt names.
pub proof fn law_password_goes_to_its_network(
    d: DialogView,
    password: Seq<char>,
    v: NetworkView,
    p: Seq<char>,
)
    requires
        connect_pressed(d, password, v).1.contains(DialogEffectView::SubmitPassword(p)),
    ensures
        d.target is Some,
        v.auth_request_ssid == d.target,
        p == password,
{
    let e = connect_pressed(d, password, v).1;
    let i = choose|i: int| 0 <= i < e.len() && e[i] == DialogEffectView::SubmitPassword(p);
    assert(e[i] == DialogEffectView::SubmitPassword(p));
}

/// After the prompt is put away, or its attempt failed, it takes input again
/// and nothing moves.
pub proof fn law_prompt_recovers(d: DialogView, reason: Seq<char>)
    ensures
        hidden(d).0.inputs_enabled && !hidden(d).0.animating && hidden(d).0.target is None,
        failed(d, reason).0.inputs_enabled && !failed(d, reason).0.animating,
        failed(d, reason).0.target == d.target,
{
}

/// Once the network settles, on the prompt's network or elsewhere, the prompt
/// is gone.
pub proof fn law_prompt_goes_once_settled(d: DialogView, v: NetworkView, mapped: bool)
    requires
        d.target is Some,
        v.failed_ssid is None,
        v.auth_request_ssid is None,
        settled_on(v, d.target->0) || settled_elsewhere(v, d.target->0),
    ensures
        changed(d, v, mapped).0.target is None,
{
}

/// Nothing opens while the panel is off screen.
pub proof fn law_nothing_opens_unseen(d: DialogView, v: NetworkView)
    requires
        d.target is None,
    ensures
        changed(d, v, false).0.target is None,
{
}

/// The dots run through four steps and begin anew.
pub proof fn law_dots_repeat(step: u8)
    requires
        step < 4,
    ensures
        next_step(next_step(next_step(next_step(step)))) == step,
        next_step(step) < 4,
{
}

} // verus!

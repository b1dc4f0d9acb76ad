//! The VPN card: connections, pending actions, and the prompt for secrets.

use vstd::prelude::*;
use vstd::string::*;

use crate::network_card::BULLET;
use crate::text;

verus! {

// ---------------------------------------------------------------------------
// What the VPN service says
// ---------------------------------------------------------------------------

#[derive(Debug, Clone, Copy, PartialEq, Eq, Structural)]
pub enum VpnState {
    Unknown,
    Activating,
    Activated,
    Deactivating,
    Deactivated,
}

#[derive(Debug)]
pub struct VpnConnection {
    pub uuid: String,
    pub name: String,
    pub vpn_type: String,
    pub state: VpnState,
    pub active: bool,
    pub autoconnect: bool,
}

pub struct VpnConnView {
    pub uuid: Seq<char>,
    pub name: Seq<char>,
    pub vpn_type: Seq<char>,
    pub state: VpnState,
    pub active: bool,
    pub autoconnect: bool,
}

impl View for VpnConnection {
    type V = VpnConnView;

    open spec fn view(&self) -> VpnConnView {
        VpnConnView {
            uuid: self.uuid@,
            name: self.name@,
            vpn_type: self.vpn_type@,
            state: self.state,
            active: self.active,
            autoconnect: self.autoconnect,
        }
    }
}

pub open spec fn conn_views(v: Seq<VpnConnection>) -> Seq<VpnConnView> {
    v.map_values(|c: VpnConnection| c@)
}

/// A secret that is asked for.
#[derive(Debug)]
pub struct VpnAuthField {
    pub key: String,
    pub label: String,
    /// A value to begin with.
    pub value: Option<String>,
}

#[derive(Debug)]
pub struct VpnAuthRequest {
    pub uuid: String,
    pub name: String,
    pub description: Option<String>,
    pub is_retry: bool,
    pub fields: Vec<VpnAuthField>,
}

#[derive(Debug)]
pub struct VpnSnapshot {
    pub available: bool,
    pub is_ready: bool,
    pub connections: Vec<VpnConnection>,
    /// The connection that the card's toggle is for.
    pub primary: Option<usize>,
    pub any_active: bool,
    pub legacy_auth_dialog_active: bool,
    pub auth_request: Option<VpnAuthRequest>,
}

impl VpnSnapshot {
    /// The main connection is one of the connections.
    pub open spec fn wf(&self) -> bool {
        self.primary matches Some(k) ==> k < self.connections@.len()
    }
}

pub open spec fn vpn_icon() -> Seq<char> {
    "network-vpn"@
}

/// The icon of VPNs, whatever their state.
pub fn vpn_icon_name() -> (r: &'static str)
    ensures
        r@ == vpn_icon(),
{
    "network-vpn"
}

// ---------------------------------------------------------------------------
// Pending actions and the keyboard
// ---------------------------------------------------------------------------

/// Where the first connection of an id stands.
pub open spec fn state_of(conns: Seq<VpnConnView>, uuid: Seq<char>) -> Option<VpnState>
    decreases conns.len(),
{
    if conns.len() == 0 {
        None
    } else if conns[0].uuid == uuid {
        Some(conns[0].state)
    } else {
        state_of(conns.drop_first(), uuid)
    }
}

/// Whether a connection is still on its way up.
pub open spec fn still_connecting(conns: Seq<VpnConnView>, uuid: Seq<char>) -> bool {
    state_of(conns, uuid) == Some(VpnState::Activating) || state_of(conns, uuid) == Some(
        VpnState::Deactivating,
    )
}

/// Whether a connection is not down yet. One that is gone is down.
pub open spec fn still_up(conns: Seq<VpnConnView>, uuid: Seq<char>) -> bool {
    still_connecting(conns, uuid) || state_of(conns, uuid) == Some(VpnState::Activated)
}

pub open spec fn waiting_connects(
    pending: Seq<Seq<char>>,
    conns: Seq<VpnConnView>,
) -> Seq<Seq<char>> {
    pending.filter(|u: Seq<char>| still_connecting(conns, u))
}

pub open spec fn waiting_disconnects(
    pending: Seq<Seq<char>>,
    conns: Seq<VpnConnView>,
) -> Seq<Seq<char>> {
    pending.filter(|u: Seq<char>| still_up(conns, u))
}

/// What the user asked for and is not done, and whether the keyboard was let
/// go for a dialog of another program.
#[derive(Debug)]
pub struct VpnKeyboardState {
    pub pending_connects: Vec<String>,
    pub pending_disconnects: Vec<String>,
    pub keyboard_released: bool,
}

pub struct KeyboardView {
    pub pending_connects: Seq<Seq<char>>,
    pub pending_disconnects: Seq<Seq<char>>,
    pub keyboard_released: bool,
}

impl View for VpnKeyboardState {
    type V = KeyboardView;

    open spec fn view(&self) -> KeyboardView {
        KeyboardView {
            pending_connects: text::string_views(self.pending_connects@),
            pending_disconnects: text::string_views(self.pending_disconnects@),
            keyboard_released: self.keyboard_released,
        }
    }
}

/// Nothing is pending twice.
pub open spec fn keyboard_valid(k: KeyboardView) -> bool {
    k.pending_connects.no_duplicates() && k.pending_disconnects.no_duplicates()
}

/// `pending` with one more, unless it is there.
pub open spec fn with_pending(pending: Seq<Seq<char>>, uuid: Seq<char>) -> Seq<Seq<char>> {
    if pending.contains(uuid) {
        pending
    } else {
        pending.push(uuid)
    }
}

/// What became of pending actions: those that are done leave.
pub open spec fn pending_checked(k: KeyboardView, conns: Seq<VpnConnView>) -> KeyboardView {
    KeyboardView {
        pending_connects: waiting_connects(k.pending_connects, conns),
        pending_disconnects: waiting_disconnects(k.pending_disconnects, conns),
        ..k
    }
}

/// Whether a pending connect succeeded.
pub open spec fn connect_completed(k: KeyboardView, conns: Seq<VpnConnView>) -> bool {
    exists|i: int|
        0 <= i < k.pending_connects.len() && state_of(conns, #[trigger] k.pending_connects[i])
            == Some(VpnState::Activated)
}

/// Whether a pending connect is over, one way or the other.
pub open spec fn connect_over(k: KeyboardView, conns: Seq<VpnConnView>) -> bool {
    exists|i: int|
        0 <= i < k.pending_connects.len() && !still_connecting(
            conns,
            #[trigger] k.pending_connects[i],
        )
}

fn find_state(conns: &Vec<VpnConnection>, uuid: &str) -> (r: Option<VpnState>)
    ensures
        r == state_of(conn_views(conns@), uuid@),
{
    let ghost views = conn_views(conns@);
    let mut i: usize = 0;
    assert(views.skip(0) =~= views);
    while i < conns.len()
        invariant
            i <= conns.len(),
            views == conn_views(conns@),
            state_of(views.skip(i as int), uuid@) == state_of(views, uuid@),
        decreases conns.len() - i,
    {
        assert(views.skip(i as int)[0] == conns@[i as int]@);
        assert(views.skip(i as int).drop_first() =~= views.skip(i + 1));
        if text::str_eq(conns[i].uuid.as_str(), uuid) {
            return Some(conns[i].state);
        }
        i += 1;
    }
    None
}

fn is_member(list: &Vec<String>, uuid: &str) -> (r: bool)
    ensures
        r == text::string_views(list@).contains(uuid@),
{
    let ghost views = text::string_views(list@);
    let mut i: usize = 0;
    while i < list.len()
        invariant
            i <= list.len(),
            views == text::string_views(list@),
            forall|j: int| 0 <= j < i ==> #[trigger] views[j] != uuid@,
        decreases list.len() - i,
    {
        assert(views[i as int] == list@[i as int]@);
        if text::str_eq(list[i].as_str(), uuid) {
            return true;
        }
        i += 1;
    }
    assert(views.len() == list@.len());
    false
}

/// The pending ids that are not done, and whether one succeeded or ended.
fn sift(pending: &Vec<String>, conns: &Vec<VpnConnection>, down: bool) -> (r: (
    Vec<String>,
    bool,
    bool,
))
    ensures
        ({
            let p = text::string_views(pending@);
            let c = conn_views(conns@);
            &&& text::string_views(r.0@) == if down {
                waiting_disconnects(p, c)
            } else {
                waiting_connects(p, c)
            }
            &&& r.1 == exists|i: int|
                0 <= i < p.len() && state_of(c, #[trigger] p[i]) == Some(VpnState::Activated)
            &&& r.2 == exists|i: int| 0 <= i < p.len() && !still_connecting(c, #[trigger] p[i])
        }),
{
    let ghost p = text::string_views(pending@);
    let ghost c = conn_views(conns@);
    let mut kept: Vec<String> = Vec::new();
    let mut completed = false;
    let mut ended = false;
    let mut i: usize = 0;
    proof {
        assert(p.take(0) =~= Seq::<Seq<char>>::empty());
        reveal_with_fuel(Seq::filter, 1);
        assert(text::string_views(kept@) =~= Seq::<Seq<char>>::empty());
    }
    while i < pending.len()
        invariant
            i <= pending.len(),
            p == text::string_views(pending@),
            c == conn_views(conns@),
            text::string_views(kept@) == if down {
                waiting_disconnects(p.take(i as int), c)
            } else {
                waiting_connects(p.take(i as int), c)
            },
            completed == exists|j: int|
                0 <= j < i && state_of(c, #[trigger] p[j]) == Some(VpnState::Activated),
            ended == exists|j: int| 0 <= j < i && !still_connecting(c, #[trigger] p[j]),
        decreases pending.len() - i,
    {
        let ghost before = kept@;
        let ghost u = p[i as int];
        proof {
            assert(p.take(i + 1).drop_last() =~= p.take(i as int));
            assert(p.take(i + 1).last() == u);
            reveal_with_fuel(Seq::filter, 1);
        }
        assert(u == pending@[i as int]@);
        let s = find_state(conns, pending[i].as_str());
        let up = match s {
            Some(VpnState::Activated) => true,
            _ => false,
        };
        let moving = match s {
            Some(VpnState::Activating) => true,
            Some(VpnState::Deactivating) => true,
            _ => false,
        };
        assert(moving == still_connecting(c, u));
        assert((moving || up) == still_up(c, u));
        if moving || (down && up) {
            kept.push(pending[i].clone());
            assert(text::string_views(kept@) =~= text::string_views(before).push(u));
        }
        if up {
            completed = true;
        }
        if !moving {
            ended = true;
        }
        i += 1;
    }
    assert(p.take(i as int) =~= p);
    (kept, completed, ended)
}

proof fn lemma_filter_no_duplicates(s: Seq<Seq<char>>, f: spec_fn(Seq<char>) -> bool)
    requires
        s.no_duplicates(),
    ensures
        s.filter(f).no_duplicates(),
        forall|x: Seq<char>| #[trigger] s.filter(f).contains(x) ==> s.contains(x),
    decreases s.len(),
{
    reveal_with_fuel(Seq::filter, 1);
    if s.len() > 0 {
        let rest = s.drop_last();
        assert(rest.no_duplicates()) by {
            assert forall|i: int, j: int| 0 <= i < j < rest.len() implies rest[i] != rest[j] by {
                assert(rest[i] == s[i] && rest[j] == s[j]);
            }
        }
        lemma_filter_no_duplicates(rest, f);
        assert(!rest.contains(s.last())) by {
            if rest.contains(s.last()) {
                let i = choose|i: int| 0 <= i < rest.len() && rest[i] == s.last();
                assert(s[i] == s[s.len() - 1]);
            }
        }
        let kept = rest.filter(f);
        assert forall|x: Seq<char>| #[trigger] s.filter(f).contains(x) implies s.contains(x) by {
            if x == s.last() {
                assert(s[s.len() - 1] == x);
            } else {
                assert(kept.contains(x)) by {
                    let i = choose|i: int| 0 <= i < s.filter(f).len() && s.filter(f)[i] == x;
                    assert(kept[i] == x);
                }
                assert(rest.contains(x));
                let i = choose|i: int| 0 <= i < rest.len() && rest[i] == x;
                assert(s[i] == x);
            }
        }
        if f(s.last()) {
            let all = kept.push(s.last());
            assert forall|i: int, j: int| 0 <= i < j < all.len() implies all[i] != all[j] by {
                if j == kept.len() {
                    assert(kept.contains(kept[i]));
                }
            }
        }
    }
}

impl VpnKeyboardState {
    pub open spec fn wf(&self) -> bool {
        keyboard_valid(self@)
    }

    pub fn new() -> (s: Self)
        ensures
            s.wf(),
            s@ == (KeyboardView {
                pending_connects: Seq::empty(),
                pending_disconnects: Seq::empty(),
                keyboard_released: false,
            }),
    {
        let s = VpnKeyboardState {
            pending_connects: Vec::new(),
            pending_disconnects: Vec::new(),
            keyboard_released: false,
        };
        assert(s@.pending_connects =~= Seq::<Seq<char>>::empty());
        assert(s@.pending_disconnects =~= Seq::<Seq<char>>::empty());
        s
    }

    /// The user wants a connection up or down.
    pub fn track_toggle_action(&mut self, uuid: &str, target_active: bool)
        requires
            old(self).wf(),
        ensures
            final(self).wf(),
            final(self)@ == if target_active {
                KeyboardView {
                    pending_connects: with_pending(old(self)@.pending_connects, uuid@),
                    ..old(self)@
                }
            } else {
                KeyboardView {
                    pending_disconnects: with_pending(old(self)@.pending_disconnects, uuid@),
                    ..old(self)@
                }
            },
    {
        if target_active {
            if !is_member(&self.pending_connects, uuid) {
                let ghost before = self@.pending_connects;
                self.pending_connects.push(uuid.to_string());
                assert(self@.pending_connects =~= before.push(uuid@));
            }
        } else {
            if !is_member(&self.pending_disconnects, uuid) {
                let ghost before = self@.pending_disconnects;
                self.pending_disconnects.push(uuid.to_string());
                assert(self@.pending_disconnects =~= before.push(uuid@));
            }
        }
    }

    /// Whether the keyboard is to be taken back.
    pub fn restore_if_released(&mut self) -> (restore: bool)
        requires
            old(self).wf(),
        ensures
            final(self).wf(),
            restore == old(self)@.keyboard_released,
            final(self)@ == (KeyboardView { keyboard_released: false, ..old(self)@ }),
    {
        let restore = self.keyboard_released;
        self.keyboard_released = false;
        restore
    }

    /// The panel closes: nothing is pending any more. Says whether the keyboard
    /// is to be taken back.
    pub fn clear(&mut self) -> (restore: bool)
        requires
            old(self).wf(),
        ensures
            final(self).wf(),
            restore == old(self)@.keyboard_released,
            final(self)@ == (KeyboardView {
                pending_connects: Seq::empty(),
                pending_disconnects: Seq::empty(),
                keyboard_released: false,
            }),
    {
        let restore = self.restore_if_released();
        self.pending_connects = Vec::new();
        self.pending_disconnects = Vec::new();
        assert(self@.pending_connects =~= Seq::<Seq<char>>::empty());
        assert(self@.pending_disconnects =~= Seq::<Seq<char>>::empty());
        restore
    }

    /// Drops what is done. Says whether a connect succeeded, and whether one is
    /// over so that the keyboard can be taken back.
    pub fn check_pending(&mut self, connections: &Vec<VpnConnection>) -> (r: (bool, bool))
        requires
            old(self).wf(),
        ensures
            final(self).wf(),
            final(self)@ == pending_checked(old(self)@, conn_views(connections@)),
            r.0 == connect_completed(old(self)@, conn_views(connections@)),
            r.1 == connect_over(old(self)@, conn_views(connections@)),
    {
        let ghost k = self@;
        let ghost c = conn_views(connections@);
        proof {
            lemma_filter_no_duplicates(
                k.pending_connects,
                |u: Seq<char>| still_connecting(c, u),
            );
            lemma_filter_no_duplicates(k.pending_disconnects, |u: Seq<char>| still_up(c, u));
        }
        let (kept, completed, over) = sift(&self.pending_connects, connections, false);
        self.pending_connects = kept;
        let (kept, _, _) = sift(&self.pending_disconnects, connections, true);
        self.pending_disconnects = kept;
        (completed, over)
    }
}

/// What happens to the keyboard.
#[derive(Debug, Clone, Copy, PartialEq, Eq, Structural)]
pub enum KeyboardAction {
    Release,
    Restore,
}

/// What a change of VPNs does to the keyboard: a dialog of another program lets
/// it go; where it was let go, a connect that is over, or the end of that
/// dialog, takes it back.
pub open spec fn keyboard_changed(
    k: KeyboardView,
    conns: Seq<VpnConnView>,
    legacy_dialog: bool,
) -> (KeyboardView, Seq<KeyboardAction>) {
    let k1 = pending_checked(k, conns);
    let restored = k.keyboard_released && connect_over(k, conns);
    let released = k.keyboard_released && !restored;
    let first = if restored {
        seq![KeyboardAction::Restore]
    } else {
        Seq::empty()
    };
    if legacy_dialog && !released {
        (
            KeyboardView { keyboard_released: true, ..k1 },
            first + seq![KeyboardAction::Release],
        )
    } else if !legacy_dialog && released {
        (
            KeyboardView { keyboard_released: false, ..k1 },
            first + seq![KeyboardAction::Restore],
        )
    } else {
        (KeyboardView { keyboard_released: released, ..k1 }, first)
    }
}

impl VpnKeyboardState {
    /// The VPNs changed: what happens to the keyboard, and whether a connect
    /// that the user asked for succeeded.
    pub fn on_vpn_changed(&mut self, snapshot: &VpnSnapshot) -> (r: (Vec<KeyboardAction>, bool))
        requires
            old(self).wf(),
        ensures
            final(self).wf(),
            (final(self)@, r.0@) == keyboard_changed(
                old(self)@,
                conn_views(snapshot.connections@),
                snapshot.legacy_auth_dialog_active,
            ),
            r.1 == connect_completed(old(self)@, conn_views(snapshot.connections@)),
    {
        let (completed, over) = self.check_pending(&snapshot.connections);
        let mut actions: Vec<KeyboardAction> = Vec::new();
        if over {
            if self.restore_if_released() {
                actions.push(KeyboardAction::Restore);
            }
        }
        if snapshot.legacy_auth_dialog_active && !self.keyboard_released {
            self.keyboard_released = true;
            actions.push(KeyboardAction::Release);
        } else if !snapshot.legacy_auth_dialog_active && self.keyboard_released {
            self.keyboard_released = false;
            actions.push(KeyboardAction::Restore);
        }
        assert(actions@ =~= keyboard_changed(
            old(self)@,
            conn_views(snapshot.connections@),
            snapshot.legacy_auth_dialog_active,
        ).1);
        (actions, completed)
    }
}

/// After a change the keyboard is let go exactly while a dialog of another
/// program is open.
pub proof fn law_keyboard_follows_the_dialog(
    k: KeyboardView,
    conns: Seq<VpnConnView>,
    legacy_dialog: bool,
)
    ensures
        keyboard_changed(k, conns, legacy_dialog).0.keyboard_released == legacy_dialog,
{
}

/// A connect that succeeded is over.
pub proof fn law_completed_connects_are_over(k: KeyboardView, conns: Seq<VpnConnView>)
    requires
        connect_completed(k, conns),
    ensures
        connect_over(k, conns),
{
    let i = choose|i: int|
        0 <= i < k.pending_connects.len() && state_of(conns, #[trigger] k.pending_connects[i])
            == Some(VpnState::Activated);
    assert(!still_connecting(conns, k.pending_connects[i]));
}

/// A connect that succeeded is reported once: it is pending no more, and the
/// same state of the VPNs reports nothing again.
pub proof fn law_completed_connects_are_reported_once(
    k: KeyboardView,
    conns: Seq<VpnConnView>,
    legacy_dialog: bool,
    uuid: Seq<char>,
)
    requires
        k.pending_connects.contains(uuid),
        state_of(conns, uuid) == Some(VpnState::Activated),
    ensures
        connect_completed(k, conns),
        !keyboard_changed(k, conns, legacy_dialog).0.pending_connects.contains(uuid),
        !connect_completed(keyboard_changed(k, conns, legacy_dialog).0, conns),
{
    let i = choose|i: int| 0 <= i < k.pending_connects.len() && k.pending_connects[i] == uuid;
    assert(state_of(conns, k.pending_connects[i]) == Some(VpnState::Activated));
    let waits = |u: Seq<char>| still_connecting(conns, u);
    let after = keyboard_changed(k, conns, legacy_dialog).0.pending_connects;
    assert(after == k.pending_connects.filter(waits));
    assert forall|j: int| 0 <= j < after.len() implies waits(#[trigger] after[j]) by {
        k.pending_connects.lemma_filter_pred(waits, j);
    }
    if after.contains(uuid) {
        let j = choose|j: int| 0 <= j < after.len() && after[j] == uuid;
        assert(waits(after[j]));
    }
}

// ---------------------------------------------------------------------------
// The prompt for secrets
// ---------------------------------------------------------------------------

/// An entry of the prompt.
#[derive(Debug)]
pub struct AuthEntry {
    pub key: String,
    pub placeholder: String,
    pub text: String,
    /// It takes the focus when it appears.
    pub focus: bool,
}

pub struct AuthEntryView {
    pub key: Seq<char>,
    pub placeholder: Seq<char>,
    pub text: Seq<char>,
    pub focus: bool,
}

impl View for AuthEntry {
    type V = AuthEntryView;

    open spec fn view(&self) -> AuthEntryView {
        AuthEntryView {
            key: self.key@,
            placeholder: self.placeholder@,
            text: self.text@,
            focus: self.focus,
        }
    }
}

pub open spec fn entry_views(v: Seq<AuthEntry>) -> Seq<AuthEntryView> {
    v.map_values(|e: AuthEntry| e@)
}

/// The entry of a field: the first takes the focus.
pub open spec fn entry_of(f: VpnAuthField, index: int) -> AuthEntryView {
    AuthEntryView {
        key: f.key@,
        placeholder: f.label@,
        text: match f.value {
            Some(v) => v@,
            None => Seq::empty(),
        },
        focus: index == 0,
    }
}

pub open spec fn entries_of(fields: Seq<VpnAuthField>) -> Seq<AuthEntryView> {
    Seq::new(fields.len(), |i: int| entry_of(fields[i], i))
}

/// The text over the entries.
pub open spec fn auth_text(r: VpnAuthRequest) -> Seq<char> {
    match r.description {
        Some(d) => d@,
        None => if r.is_retry {
            "Re-enter credentials for "@ + r.name@
        } else {
            "Enter credentials for "@ + r.name@
        },
    }
}

/// The prompt.
#[derive(Debug)]
pub struct AuthPrompt {
    pub label: String,
    pub status: &'static str,
    pub status_error: bool,
    pub entries: Vec<AuthEntry>,
}

impl AuthPrompt {
    pub open spec fn is_for(self, r: VpnAuthRequest) -> bool {
        &&& self.label@ == auth_text(r)
        &&& self.status@ == if r.is_retry {
            "Wrong password"@
        } else {
            ""@
        }
        &&& self.status_error == r.is_retry
        &&& entry_views(self.entries@) == entries_of(r.fields@)
    }
}

fn build_entries(fields: &Vec<VpnAuthField>) -> (r: Vec<AuthEntry>)
    ensures
        entry_views(r@) == entries_of(fields@),
{
    let mut r: Vec<AuthEntry> = Vec::new();
    let mut i: usize = 0;
    while i < fields.len()
        invariant
            i <= fields.len(),
            r@.len() == i,
            forall|j: int| 0 <= j < i ==> (#[trigger] r@[j])@ == entry_of(fields@[j], j),
        decreases fields.len() - i,
    {
        let f = &fields[i];
        let text = match &f.value {
            Some(v) => v.clone(),
            None => {
                let s = String::new();
                assert(s@ =~= Seq::<char>::empty());
                s
            },
        };
        r.push(
            AuthEntry { key: f.key.clone(), placeholder: f.label.clone(), text, focus: i == 0 },
        );
        i += 1;
    }
    assert(entry_views(r@) =~= entries_of(fields@));
    r
}

/// What happens to the prompt.
#[derive(Debug)]
pub enum AuthChange {
    Keep,
    /// Open it, expand the card, and build the list anew.
    Show(AuthPrompt),
    /// Put it away and build the list anew.
    Conceal,
}

/// The prompt for secrets.
#[derive(Debug)]
pub struct VpnAuthDialog {
    /// The connection it is for.
    pub target: Option<String>,
}

/// How the prompt follows the requests of the VPN service.
pub open spec fn auth_follows(
    before: VpnAuthDialog,
    after: VpnAuthDialog,
    request: Option<VpnAuthRequest>,
    r: AuthChange,
) -> bool {
    match request {
        Some(q) => {
            &&& text::opt_string_view(after.target) == Some(q.uuid@)
            &&& if text::opt_string_view(before.target) == Some(q.uuid@) {
                r is Keep
            } else {
                r matches AuthChange::Show(p) && p.is_for(q)
            }
        },
        None => {
            &&& after.target is None
            &&& if before.target is Some {
                r is Conceal
            } else {
                r is Keep
            }
        },
    }
}

impl VpnAuthDialog {
    pub fn new() -> (d: Self)
        ensures
            d.target is None,
    {
        VpnAuthDialog { target: None }
    }

    /// Follows the requests of the VPN service. A request that is shown already
    /// changes nothing.
    pub fn on_auth_request(&mut self, request: &Option<VpnAuthRequest>) -> (r: AuthChange)
        ensures
            auth_follows(*old(self), *final(self), *request, r),
    {
        match request {
            Some(q) => {
                if text::is_some_of(&self.target, q.uuid.as_str()) {
                    return AuthChange::Keep;
                }
                self.target = Some(q.uuid.clone());
                let label = match &q.description {
                    Some(d) => d.clone(),
                    None => {
                        let mut t = if q.is_retry {
                            "Re-enter credentials for ".to_string()
                        } else {
                            "Enter credentials for ".to_string()
                        };
                        t.append(q.name.as_str());
                        t
                    },
                };
                AuthChange::Show(
                    AuthPrompt {
                        label,
                        status: if q.is_retry {
                            "Wrong password"
                        } else {
                            ""
                        },
                        status_error: q.is_retry,
                        entries: build_entries(&q.fields),
                    },
                )
            },
            None => {
                let had = self.target.is_some();
                self.target = None;
                if had {
                    AuthChange::Conceal
                } else {
                    AuthChange::Keep
                }
            },
        }
    }

    /// Puts the prompt away: its entries are wiped and the list is built anew.
    pub fn hide_vpn_auth_dialog(&mut self)
        ensures
            final(self).target is None,
    {
        self.target = None;
    }

    /// The user presses cancel: the prompt goes away and the request with it.
    pub fn on_vpn_auth_cancel_clicked(&mut self)
        ensures
            final(self).target is None,
    {
        self.hide_vpn_auth_dialog();
    }

    /// The user presses connect: the secrets to hand over, each under its key,
    /// where there are any. If so, the prompt goes away.
    pub fn on_vpn_auth_connect_clicked(&mut self, secrets: Vec<(String, String)>) -> (submit:
        Option<Vec<(String, String)>>)
        ensures
            match submit {
                Some(s) => s == secrets && secrets@.len() > 0 && final(self).target is None,
                None => secrets@.len() == 0 && *final(self) == *old(self),
            },
    {
        if secrets.len() == 0 {
            return None;
        }
        self.hide_vpn_auth_dialog();
        Some(secrets)
    }
}

// ---------------------------------------------------------------------------
// The card and its list
// ---------------------------------------------------------------------------

/// What the card shows.
#[derive(Debug)]
pub struct VpnCard {
    pub toggle_active: bool,
    pub toggle_sensitive: bool,
    pub icon: &'static str,
    pub unavailable: bool,
    pub icon_active: bool,
    pub subtitle: String,
    pub subtitle_active: bool,
}

pub open spec fn vpn_subtitle(s: VpnSnapshot) -> Seq<char> {
    if !s.available {
        "Unavailable"@
    } else if !s.is_ready {
        "VPN"@
    } else {
        match s.primary {
            Some(k) => if s.connections@[k as int].active {
                s.connections@[k as int].name@
            } else {
                "Disconnected"@
            },
            None => "No connections"@,
        }
    }
}

impl VpnCard {
    pub open spec fn shows(self, s: VpnSnapshot) -> bool {
        &&& self.toggle_active == (s.primary matches Some(k) && s.connections@[k as int].active)
        &&& self.toggle_sensitive == (s.available && s.connections@.len() > 0)
        &&& self.icon@ == vpn_icon()
        &&& self.unavailable == !s.available
        &&& self.icon_active == (s.available && s.any_active)
        &&& self.subtitle@ == vpn_subtitle(s)
        &&& self.subtitle_active == (s.available && s.any_active)
    }
}

/// What the card shows.
pub fn vpn_card(snapshot: &VpnSnapshot) -> (r: VpnCard)
    requires
        snapshot.wf(),
    ensures
        r.shows(*snapshot),
{
    let toggle_active = match snapshot.primary {
        Some(k) => snapshot.connections[k].active,
        None => false,
    };
    let subtitle = if !snapshot.available {
        "Unavailable".to_string()
    } else if !snapshot.is_ready {
        "VPN".to_string()
    } else {
        match snapshot.primary {
            Some(k) => if snapshot.connections[k].active {
                snapshot.connections[k].name.clone()
            } else {
                "Disconnected".to_string()
            },
            None => "No connections".to_string(),
        }
    };
    VpnCard {
        toggle_active,
        toggle_sensitive: snapshot.available && snapshot.connections.len() > 0,
        icon: vpn_icon_name(),
        unavailable: !snapshot.available,
        icon_active: snapshot.available && snapshot.any_active,
        subtitle,
        subtitle_active: snapshot.available && snapshot.any_active,
    }
}

/// The row of a connection.
#[derive(Debug)]
pub struct VpnRow {
    pub title: String,
    pub extras: Vec<String>,
    /// The plain subtitle; none where `Active` stands before the extras.
    pub subtitle: Option<String>,
    pub accent: bool,
    pub action: &'static str,
}

pub struct VpnRowView {
    pub title: Seq<char>,
    pub extras: Seq<Seq<char>>,
    pub subtitle: Option<Seq<char>>,
    pub accent: bool,
    pub action: Seq<char>,
}

impl View for VpnRow {
    type V = VpnRowView;

    open spec fn view(&self) -> VpnRowView {
        VpnRowView {
            title: self.title@,
            extras: text::string_views(self.extras@),
            subtitle: text::opt_string_view(self.subtitle),
            accent: self.accent,
            action: self.action@,
        }
    }
}

/// What is said of a connection besides its name and state.
pub open spec fn vpn_extras(c: VpnConnView) -> Seq<Seq<char>> {
    (if c.autoconnect {
        seq!["Autoconnect"@]
    } else {
        Seq::empty()
    }) + (if c.vpn_type == "wireguard"@ {
        seq!["WireGuard"@]
    } else if c.vpn_type == "vpn"@ {
        seq!["OpenVPN"@]
    } else {
        Seq::empty()
    })
}

pub open spec fn vpn_row_of(c: VpnConnView) -> VpnRowView {
    VpnRowView {
        title: c.name,
        extras: vpn_extras(c),
        subtitle: if c.active {
            None
        } else {
            Some(text::join_spec(seq!["Inactive"@] + vpn_extras(c), BULLET@))
        },
        accent: c.active,
        action: if c.active {
            "Disconnect"@
        } else {
            "Connect"@
        },
    }
}

fn extras_of(conn: &VpnConnection) -> (r: Vec<String>)
    ensures
        text::string_views(r@) == vpn_extras(conn@),
{
    let mut r: Vec<String> = Vec::new();
    assert(text::string_views(r@) =~= Seq::<Seq<char>>::empty());
    if conn.autoconnect {
        r.push("Autoconnect".to_string());
        assert(text::string_views(r@) =~= seq!["Autoconnect"@]);
    }
    let ghost a = text::string_views(r@);
    if text::str_eq(conn.vpn_type.as_str(), "wireguard") {
        r.push("WireGuard".to_string());
        assert(text::string_views(r@) =~= a + seq!["WireGuard"@]);
    } else if text::str_eq(conn.vpn_type.as_str(), "vpn") {
        r.push("OpenVPN".to_string());
        assert(text::string_views(r@) =~= a + seq!["OpenVPN"@]);
    } else {
        assert(a + Seq::<Seq<char>>::empty() =~= a);
    }
    r
}

fn build_row(conn: &VpnConnection) -> (r: VpnRow)
    ensures
        r@ == vpn_row_of(conn@),
{
    let extras = extras_of(conn);
    let subtitle = if conn.active {
        None
    } else {
        let mut parts: Vec<String> = Vec::new();
        parts.push("Inactive".to_string());
        let mut more = extras_of(conn);
        let ghost a = parts@;
        let ghost b = more@;
        parts.append(&mut more);
        assert(parts@ == a + b);
        assert(text::string_views(parts@) =~= seq!["Inactive"@] + text::string_views(b));
        Some(text::join(&parts, BULLET))
    };
    VpnRow {
        title: conn.name.clone(),
        extras,
        subtitle,
        accent: conn.active,
        action: if conn.active {
            "Disconnect"
        } else {
            "Connect"
        },
    }
}

#[derive(Debug)]
pub enum VpnItem {
    Connection(VpnRow),
    /// The prompt for secrets.
    Auth,
}

pub enum VpnItemView {
    Connection(VpnRowView),
    Auth,
}

impl View for VpnItem {
    type V = VpnItemView;

    open spec fn view(&self) -> VpnItemView {
        match self {
            VpnItem::Connection(r) => VpnItemView::Connection(r@),
            VpnItem::Auth => VpnItemView::Auth,
        }
    }
}

pub open spec fn vpn_item_views(v: Seq<VpnItem>) -> Seq<VpnItemView> {
    v.map_values(|i: VpnItem| i@)
}

#[derive(Debug)]
pub enum VpnList {
    Placeholder(&'static str),
    Items(Vec<VpnItem>),
}

pub enum VpnListView {
    Placeholder(Seq<char>),
    Items(Seq<VpnItemView>),
}

impl View for VpnList {
    type V = VpnListView;

    open spec fn view(&self) -> VpnListView {
        match self {
            VpnList::Placeholder(t) => VpnListView::Placeholder(t@),
            VpnList::Items(i) => VpnListView::Items(vpn_item_views(i@)),
        }
    }
}

pub open spec fn asks(target: Option<Seq<char>>, uuid: Seq<char>) -> bool {
    target == Some(uuid) && uuid.len() > 0
}

/// The rows of connections, the prompt under the one it is for.
pub open spec fn connection_items(
    conns: Seq<VpnConnView>,
    target: Option<Seq<char>>,
) -> Seq<VpnItemView>
    decreases conns.len(),
{
    if conns.len() == 0 {
        Seq::empty()
    } else {
        let c = conns.last();
        let rows = connection_items(conns.drop_last(), target).push(
            VpnItemView::Connection(vpn_row_of(c)),
        );
        if asks(target, c.uuid) {
            rows.push(VpnItemView::Auth)
        } else {
            rows
        }
    }
}

pub open spec fn asked_listed(conns: Seq<VpnConnView>, target: Option<Seq<char>>) -> bool {
    exists|i: int| 0 <= i < conns.len() && asks(target, (#[trigger] conns[i]).uuid)
}

/// The list of connections. A prompt for one that is not listed stands at the
/// end.
pub open spec fn vpn_list(
    is_ready: bool,
    conns: Seq<VpnConnView>,
    target: Option<Seq<char>>,
) -> VpnListView {
    if !is_ready {
        VpnListView::Placeholder("Loading VPN state..."@)
    } else if conns.len() == 0 {
        VpnListView::Placeholder("No VPN connections"@)
    } else {
        let items = connection_items(conns, target);
        VpnListView::Items(
            match target {
                Some(t) => if t.len() > 0 && !asked_listed(conns, target) {
                    items.push(VpnItemView::Auth)
                } else {
                    items
                },
                None => items,
            },
        )
    }
}

/// The list of connections. `target` is the connection that secrets are asked
/// for.
pub fn populate_vpn_list(snapshot: &VpnSnapshot, target: &Option<String>) -> (r: VpnList)
    ensures
        r@ == vpn_list(
            snapshot.is_ready,
            conn_views(snapshot.connections@),
            text::opt_string_view(*target),
        ),
{
    if !snapshot.is_ready {
        return VpnList::Placeholder("Loading VPN state...");
    }
    if snapshot.connections.len() == 0 {
        return VpnList::Placeholder("No VPN connections");
    }
    let ghost t = text::opt_string_view(*target);
    let conns = &snapshot.connections;
    let ghost views = conn_views(conns@);
    let mut items: Vec<VpnItem> = Vec::new();
    assert(vpn_item_views(items@) =~= Seq::<VpnItemView>::empty());
    let mut inserted = false;
    let mut i: usize = 0;
    while i < conns.len()
        invariant
            i <= conns.len(),
            t == text::opt_string_view(*target),
            views == conn_views(conns@),
            vpn_item_views(items@) == connection_items(views.take(i as int), t),
            inserted == asked_listed(views.take(i as int), t),
        decreases conns.len() - i,
    {
        proof {
            assert(views.take(i + 1).drop_last() =~= views.take(i as int));
            assert(views.take(i + 1).last() == conns@[i as int]@);
        }
        let conn = &conns[i];
        let ghost before = items@;
        let row = build_row(conn);
        let ghost rv = row@;
        items.push(VpnItem::Connection(row));
        assert(vpn_item_views(items@) =~= vpn_item_views(before).push(
            VpnItemView::Connection(rv),
        ));
        let ghost with_row = items@;
        let wanted = text::is_some_of(target, conn.uuid.as_str())
            && conn.uuid.as_str().unicode_len() > 0;
        assert(wanted == asks(t, conn@.uuid));
        if wanted {
            items.push(VpnItem::Auth);
            assert(vpn_item_views(items@) =~= vpn_item_views(with_row).push(VpnItemView::Auth));
        }
        proof {
            let next = views.take(i + 1);
            assert(next[i as int].uuid == conn@.uuid);
            assert forall|j: int| 0 <= j < i implies next[j] == views.take(i as int)[j] by {}
            if inserted {
                let j = choose|j: int|
                    0 <= j < i && asks(t, (#[trigger] views.take(i as int)[j]).uuid);
                assert(asks(t, next[j].uuid));
            }
            if wanted {
                assert(asks(t, next[i as int].uuid));
            }
            if asked_listed(next, t) && !wanted {
                let j = choose|j: int| 0 <= j < next.len() && asks(t, (#[trigger] next[j]).uuid);
                assert(asks(t, views.take(i as int)[j].uuid));
            }
        }
        if wanted {
            inserted = true;
        }
        i += 1;
    }
    assert(views.take(conns@.len() as int) =~= views);
    if let Some(s) = target {
        if s.as_str().unicode_len() > 0 && !inserted {
            let ghost before = items@;
            items.push(VpnItem::Auth);
            assert(vpn_item_views(items@) =~= vpn_item_views(before).push(VpnItemView::Auth));
        }
    }
    VpnList::Items(items)
}

/// How the card follows a change.
#[derive(Debug)]
pub struct VpnChange {
    pub keyboard: Vec<KeyboardAction>,
    pub auth: AuthChange,
    pub card: VpnCard,
    pub list: VpnList,
    /// A connection that the user asked for came up.
    pub connect_completed: bool,
}

/// The VPNs changed. The keyboard is shared by all panels; the prompt is the
/// card's.
pub fn on_vpn_changed(
    keyboard: &mut VpnKeyboardState,
    auth: &mut VpnAuthDialog,
    snapshot: &VpnSnapshot,
) -> (r: VpnChange)
    requires
        old(keyboard).wf(),
        snapshot.wf(),
    ensures
        final(keyboard).wf(),
        (final(keyboard)@, r.keyboard@) == keyboard_changed(
            old(keyboard)@,
            conn_views(snapshot.connections@),
            snapshot.legacy_auth_dialog_active,
        ),
        auth_follows(*old(auth), *final(auth), snapshot.auth_request, r.auth),
        r.card.shows(*snapshot),
        r.list@ == vpn_list(
            snapshot.is_ready,
            conn_views(snapshot.connections@),
            text::opt_string_view(final(auth).target),
        ),
        r.connect_completed == connect_completed(
            old(keyboard)@,
            conn_views(snapshot.connections@),
        ),
{
    let (actions, completed) = keyboard.on_vpn_changed(snapshot);
    let change = auth.on_auth_request(&snapshot.auth_request);
    VpnChange {
        keyboard: actions,
        auth: change,
        card: vpn_card(snapshot),
        list: populate_vpn_list(snapshot, &auth.target),
        connect_completed: completed,
    }
}

} // verus!

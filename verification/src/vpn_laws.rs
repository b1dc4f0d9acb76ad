//! What holds of the VPN card, whatever the VPN service says.

use vstd::prelude::*;
use vstd::string::*;

use crate::text;
use crate::vpn_card;
use crate::vpn_card::{
    AuthChange, AuthPrompt, KeyboardAction, KeyboardView, VpnAuthDialog, VpnAuthRequest, VpnCard,
    VpnConnView, VpnItemView, VpnListView, VpnSnapshot, VpnState,
};

verus! {

// ---------------------------------------------------------------------------
// Pending actions and the keyboard
// ---------------------------------------------------------------------------

/// The state of a connection is that of the first one with its id, and a
/// connection that is not there has none.
pub proof fn law_states_are_found_by_id(conns: Seq<VpnConnView>, uuid: Seq<char>, k: int)
    requires
        0 <= k <= conns.len(),
        forall|i: int| 0 <= i < k ==> (#[trigger] conns[i]).uuid != uuid,
        k < conns.len() ==> conns[k].uuid == uuid,
    ensures
        vpn_card::state_of(conns, uuid) == if k < conns.len() {
            Some(conns[k].state)
        } else {
            None
        },
    decreases conns.len(),
{
    if k > 0 {
        let rest = conns.drop_first();
        assert(conns[0].uuid != uuid);
        assert forall|i: int| 0 <= i < k - 1 implies (#[trigger] rest[i]).uuid != uuid by {
            assert(rest[i] == conns[i + 1]);
        }
        law_states_are_found_by_id(rest, uuid, k - 1);
    }
}

/// A connect stays pending exactly while the connection is on its way, and a
/// disconnect until it is down. What was not pending does not become so.
pub proof fn law_pending_until_done(k: KeyboardView, conns: Seq<VpnConnView>, uuid: Seq<char>)
    ensures
        ({
            let after = vpn_card::pending_checked(k, conns);
            let state = vpn_card::state_of(conns, uuid);
            let moving = state == Some(VpnState::Activating) || state == Some(
                VpnState::Deactivating,
            );
            let up = state == Some(VpnState::Activated);
            &&& after.pending_connects.contains(uuid) <==> k.pending_connects.contains(uuid)
                && moving
            &&& after.pending_disconnects.contains(uuid) <==> k.pending_disconnects.contains(uuid)
                && (moving || up)
            &&& after.keyboard_released == k.keyboard_released
        }),
{
    lemma_filter_keeps(
        k.pending_connects,
        |u: Seq<char>| vpn_card::still_connecting(conns, u),
        uuid,
    );
    lemma_filter_keeps(
        k.pending_disconnects,
        |u: Seq<char>| vpn_card::still_up(conns, u),
        uuid,
    );
}

proof fn lemma_filter_keeps(s: Seq<Seq<char>>, f: spec_fn(Seq<char>) -> bool, x: Seq<char>)
    ensures
        s.filter(f).contains(x) <==> s.contains(x) && f(x),
    decreases s.len(),
{
    reveal_with_fuel(Seq::filter, 1);
    if s.len() > 0 {
        let rest = s.drop_last();
        let kept = rest.filter(f);
        lemma_filter_keeps(rest, f, x);
        assert(s.contains(x) <==> rest.contains(x) || x == s.last()) by {
            if rest.contains(x) {
                let i = choose|i: int| 0 <= i < rest.len() && rest[i] == x;
                assert(s[i] == x);
            }
            if s.contains(x) && x != s.last() {
                let i = choose|i: int| 0 <= i < s.len() && s[i] == x;
                assert(rest[i] == x);
            }
            if x == s.last() {
                assert(s[s.len() - 1] == x);
            }
        }
        if f(s.last()) {
            let all = kept.push(s.last());
            assert(s.filter(f) == all);
            if kept.contains(x) {
                let i = choose|i: int| 0 <= i < kept.len() && kept[i] == x;
                assert(all[i] == x);
            }
            if all.contains(x) && x != s.last() {
                let i = choose|i: int| 0 <= i < all.len() && all[i] == x;
                assert(kept[i] == x);
            }
            assert(all[kept.len() as int] == s.last());
        }
    }
}

/// What the user asks for is pending afterwards, once, and what was pending
/// before still is.
pub proof fn law_asked_for_is_pending(pending: Seq<Seq<char>>, uuid: Seq<char>, other: Seq<char>)
    ensures
        vpn_card::with_pending(pending, uuid).contains(uuid),
        other != uuid ==> (vpn_card::with_pending(pending, uuid).contains(other)
            <==> pending.contains(other)),
        pending.no_duplicates() ==> vpn_card::with_pending(pending, uuid).no_duplicates(),
        vpn_card::with_pending(vpn_card::with_pending(pending, uuid), uuid)
            == vpn_card::with_pending(pending, uuid),
{
    let all = pending.push(uuid);
    assert(all[pending.len() as int] == uuid);
    assert(all.contains(uuid));
    if pending.contains(other) {
        let i = choose|i: int| 0 <= i < pending.len() && pending[i] == other;
        assert(all[i] == other);
    }
    if other != uuid && all.contains(other) {
        let i = choose|i: int| 0 <= i < all.len() && all[i] == other;
        assert(pending[i] == other);
    }
}

/// A connect has succeeded exactly where a pending connection is up, and is over
/// where one is up, down, unknown or gone.
pub proof fn law_connects_succeed_or_end(
    k: KeyboardView,
    conns: Seq<VpnConnView>,
    uuid: Seq<char>,
)
    requires
        k.pending_connects == seq![uuid],
    ensures
        ({
            let state = vpn_card::state_of(conns, uuid);
            &&& vpn_card::connect_completed(k, conns) <==> state == Some(VpnState::Activated)
            &&& vpn_card::connect_over(k, conns) <==> state == Some(VpnState::Activated) || state
                == Some(VpnState::Deactivated) || state == Some(VpnState::Unknown) || state is None
        }),
{
    assert(k.pending_connects[0] == uuid);
    if vpn_card::state_of(conns, uuid) == Some(VpnState::Activated) {
        assert(vpn_card::state_of(conns, k.pending_connects[0]) == Some(VpnState::Activated));
    }
    if !vpn_card::still_connecting(conns, uuid) {
        assert(!vpn_card::still_connecting(conns, k.pending_connects[0]));
    }
    if vpn_card::connect_completed(k, conns) {
        let i = choose|i: int|
            0 <= i < k.pending_connects.len() && vpn_card::state_of(
                conns,
                #[trigger] k.pending_connects[i],
            ) == Some(VpnState::Activated);
        assert(i == 0);
    }
    if vpn_card::connect_over(k, conns) {
        let i = choose|i: int|
            0 <= i < k.pending_connects.len() && !vpn_card::still_connecting(
                conns,
                #[trigger] k.pending_connects[i],
            );
        assert(i == 0);
    }
    assert(vpn_card::state_of(conns, uuid) is Some ==> (vpn_card::state_of(conns, uuid)->0
        == VpnState::Unknown || vpn_card::state_of(conns, uuid)->0 == VpnState::Activating
        || vpn_card::state_of(conns, uuid)->0 == VpnState::Activated || vpn_card::state_of(
        conns,
        uuid,
    )->0 == VpnState::Deactivating || vpn_card::state_of(conns, uuid)->0
        == VpnState::Deactivated));
}

/// The keyboard is let go when a dialog of another program opens and taken back
/// when it closes, and nothing happens to it otherwise.
pub proof fn law_keyboard_is_let_go_and_taken_back(
    k: KeyboardView,
    conns: Seq<VpnConnView>,
    dialog: bool,
)
    requires
        !vpn_card::connect_over(k, conns),
    ensures
        ({
            let (after, actions) = vpn_card::keyboard_changed(k, conns, dialog);
            &&& !k.keyboard_released && dialog ==> actions == seq![KeyboardAction::Release]
            &&& k.keyboard_released && !dialog ==> actions == seq![KeyboardAction::Restore]
            &&& k.keyboard_released == dialog ==> actions.len() == 0
            &&& after.pending_connects == vpn_card::pending_checked(k, conns).pending_connects
            &&& after.pending_disconnects == vpn_card::pending_checked(
                k,
                conns,
            ).pending_disconnects
        }),
{
    let (after, actions) = vpn_card::keyboard_changed(k, conns, dialog);
    if !k.keyboard_released && dialog {
        assert(actions =~= seq![KeyboardAction::Release]);
    }
    if k.keyboard_released && !dialog {
        assert(actions =~= seq![KeyboardAction::Restore]);
    }
}

/// A connect that is over takes the keyboard back at once where it was let go.
/// A dialog that is still open lets it go again.
pub proof fn law_ended_connect_takes_the_keyboard_back(
    k: KeyboardView,
    conns: Seq<VpnConnView>,
    dialog: bool,
)
    requires
        vpn_card::connect_over(k, conns),
        k.keyboard_released,
    ensures
        ({
            let actions = vpn_card::keyboard_changed(k, conns, dialog).1;
            &&& !dialog ==> actions == seq![KeyboardAction::Restore]
            &&& dialog ==> actions == seq![KeyboardAction::Restore, KeyboardAction::Release]
        }),
{
    let actions = vpn_card::keyboard_changed(k, conns, dialog).1;
    if dialog {
        assert(actions =~= seq![KeyboardAction::Restore, KeyboardAction::Release]);
    } else {
        assert(actions =~= seq![KeyboardAction::Restore]);
    }
}

// ---------------------------------------------------------------------------
// The prompt for secrets
// ---------------------------------------------------------------------------

/// The prompt has an entry for each field of the request, in order, with the
/// field's key, label and value. Only the first takes the focus.
pub proof fn law_prompt_has_the_fields(p: AuthPrompt, r: VpnAuthRequest, i: int)
    requires
        p.is_for(r),
        0 <= i < r.fields@.len(),
    ensures
        p.entries@.len() == r.fields@.len(),
        p.entries@[i].key@ == r.fields@[i].key@,
        p.entries@[i].placeholder@ == r.fields@[i].label@,
        r.fields@[i].value matches Some(v) ==> p.entries@[i].text@ == v@,
        r.fields@[i].value is None ==> p.entries@[i].text@.len() == 0,
        p.entries@[i].focus <==> i == 0,
{
    assert(vpn_card::entry_views(p.entries@).len() == p.entries@.len());
    assert(vpn_card::entry_views(p.entries@)[i] == p.entries@[i]@);
    assert(vpn_card::entries_of(r.fields@)[i] == vpn_card::entry_of(r.fields@[i], i));
}

/// The prompt says what it is for: the service's own words where there are some,
/// else the name of the connection. A second try says that the first failed.
pub proof fn law_prompt_says_what_it_is_for(p: AuthPrompt, r: VpnAuthRequest)
    requires
        p.is_for(r),
    ensures
        r.description matches Some(d) ==> p.label@ == d@,
        r.description is None && !r.is_retry ==> p.label@ == "Enter credentials for "@ + r.name@,
        r.description is None && r.is_retry ==> p.label@ == "Re-enter credentials for "@ + r.name@,
        r.is_retry ==> p.status@ == "Wrong password"@,
        !r.is_retry ==> p.status@ == ""@,
        p.status_error <==> r.is_retry,
{
}

/// The prompt opens for a request that is not shown yet, goes away when there is
/// none any more, and stays otherwise. It is always for the request that there is.
pub proof fn law_prompt_follows_the_request(
    before: VpnAuthDialog,
    after: VpnAuthDialog,
    request: Option<VpnAuthRequest>,
    r: AuthChange,
)
    requires
        vpn_card::auth_follows(before, after, request, r),
    ensures
        request is Some <==> after.target is Some,
        request matches Some(q) ==> after.target->0@ == q.uuid@,
        r is Show <==> request is Some && !(before.target is Some && before.target->0@
            == request->0.uuid@),
        r matches AuthChange::Show(p) ==> p.is_for(request->0),
        r is Conceal <==> request is None && before.target is Some,
{
}

// ---------------------------------------------------------------------------
// The card and its list
// ---------------------------------------------------------------------------

/// The card's toggle is for the main connection, and can be used while there are
/// connections. Icon and subtitle are marked while any connection is up.
pub proof fn law_card_is_for_the_main_connection(c: VpnCard, s: VpnSnapshot)
    requires
        c.shows(s),
        s.wf(),
    ensures
        s.primary matches Some(k) ==> c.toggle_active == s.connections@[k as int].active,
        s.primary is None ==> !c.toggle_active,
        c.toggle_sensitive <==> s.available && s.connections@.len() > 0,
        c.icon@ == "network-vpn"@,
        c.unavailable <==> !s.available,
        c.icon_active <==> s.available && s.any_active,
        c.subtitle_active <==> s.available && s.any_active,
{
}

/// The card names the main connection while it is up, and otherwise says how
/// things stand.
pub proof fn law_card_names_the_main_connection(c: VpnCard, s: VpnSnapshot)
    requires
        c.shows(s),
        s.wf(),
    ensures
        !s.available ==> c.subtitle@ == "Unavailable"@,
        s.available && !s.is_ready ==> c.subtitle@ == "VPN"@,
        s.available && s.is_ready && s.primary is None ==> c.subtitle@ == "No connections"@,
        s.available && s.is_ready && s.primary is Some && s.connections@[s.primary->0 as int].active
            ==> c.subtitle@ == s.connections@[s.primary->0 as int].name@,
        s.available && s.is_ready && s.primary is Some
            && !s.connections@[s.primary->0 as int].active ==> c.subtitle@ == "Disconnected"@,
{
}

/// A row has the name of its connection and stands out while it is up. Its button
/// does the opposite of how the connection stands.
pub proof fn law_row_shows_its_connection(c: VpnConnView)
    ensures
        ({
            let r = vpn_card::vpn_row_of(c);
            &&& r.title == c.name
            &&& r.accent <==> c.active
            &&& c.active ==> r.action == "Disconnect"@
            &&& !c.active ==> r.action == "Connect"@
            &&& r.subtitle is None <==> c.active
            &&& r.extras == vpn_card::vpn_extras(c)
        }),
{
}

/// Of a connection it is said that it comes up by itself, and of which kind it
/// is, where that is known.
pub proof fn law_kinds_have_names(c: VpnConnView)
    ensures
        ({
            let e = vpn_card::vpn_extras(c);
            &&& c.vpn_type == "wireguard"@ && c.autoconnect ==> e == seq![
                "Autoconnect"@,
                "WireGuard"@,
            ]
            &&& c.vpn_type == "wireguard"@ && !c.autoconnect ==> e == seq!["WireGuard"@]
            &&& c.vpn_type == "vpn"@ && c.autoconnect ==> e == seq!["Autoconnect"@, "OpenVPN"@]
            &&& c.vpn_type == "vpn"@ && !c.autoconnect ==> e == seq!["OpenVPN"@]
            &&& c.vpn_type != "wireguard"@ && c.vpn_type != "vpn"@ && c.autoconnect ==> e == seq![
                "Autoconnect"@,
            ]
            &&& c.vpn_type != "wireguard"@ && c.vpn_type != "vpn"@ && !c.autoconnect ==> e.len()
                == 0
        }),
{
    reveal_strlit("wireguard");
    reveal_strlit("vpn");
    assert("wireguard"@.len() == 9);
    assert("vpn"@.len() == 3);
    let e = vpn_card::vpn_extras(c);
    if c.vpn_type == "wireguard"@ {
        if c.autoconnect {
            assert(e =~= seq!["Autoconnect"@, "WireGuard"@]);
        } else {
            assert(e =~= seq!["WireGuard"@]);
        }
    } else if c.vpn_type == "vpn"@ {
        if c.autoconnect {
            assert(e =~= seq!["Autoconnect"@, "OpenVPN"@]);
        } else {
            assert(e =~= seq!["OpenVPN"@]);
        }
    } else if c.autoconnect {
        assert(e =~= seq!["Autoconnect"@]);
    }
}

/// The row of a connection that is down says so first, and then what else there
/// is to say, with a bullet in between.
pub proof fn law_inactive_row_says_so(c: VpnConnView)
    requires
        !c.active,
    ensures
        ({
            let shown = vpn_card::vpn_row_of(c).subtitle;
            let e = vpn_card::vpn_extras(c);
            &&& e.len() == 0 ==> shown == Some("Inactive"@)
            &&& e.len() == 1 ==> shown == Some("Inactive"@ + " \u{2022} "@ + e[0])
            &&& e.len() == 2 ==> shown == Some(
                "Inactive"@ + " \u{2022} "@ + e[0] + " \u{2022} "@ + e[1],
            )
        }),
{
    reveal_with_fuel(text::join_spec, 3);
    let e = vpn_card::vpn_extras(c);
    let parts = seq!["Inactive"@] + e;
    if e.len() == 0 {
        assert(parts =~= seq!["Inactive"@]);
    } else if e.len() == 1 {
        assert(parts =~= seq!["Inactive"@, e[0]]);
        assert(parts.drop_last() =~= seq!["Inactive"@]);
    } else {
        assert(parts =~= seq!["Inactive"@, e[0], e[1]]);
        assert(parts.drop_last() =~= seq!["Inactive"@, e[0]]);
        assert(parts.drop_last().drop_last() =~= seq!["Inactive"@]);
    }
}

/// One connection more at the end of the list adds its row at the end, and the
/// prompt under it where its secrets are asked for.
pub proof fn law_each_connection_adds_its_row(
    conns: Seq<VpnConnView>,
    c: VpnConnView,
    target: Option<Seq<char>>,
)
    ensures
        ({
            let before = vpn_card::connection_items(conns, target);
            let after = vpn_card::connection_items(conns.push(c), target);
            let row = VpnItemView::Connection(vpn_card::vpn_row_of(c));
            if target == Some(c.uuid) && c.uuid.len() > 0 {
                after == before + seq![row, VpnItemView::Auth]
            } else {
                after == before + seq![row]
            }
        }),
        vpn_card::connection_items(Seq::empty(), target).len() == 0,
{
    let before = vpn_card::connection_items(conns, target);
    let after = vpn_card::connection_items(conns.push(c), target);
    let row = VpnItemView::Connection(vpn_card::vpn_row_of(c));
    assert(conns.push(c).drop_last() =~= conns);
    if target == Some(c.uuid) && c.uuid.len() > 0 {
        assert(after =~= before + seq![row, VpnItemView::Auth]);
    } else {
        assert(after =~= before + seq![row]);
    }
}

/// The list holds the connections once the service has been asked and there are
/// any, and says why it is empty otherwise. A prompt for a connection that is not
/// listed stands at the end.
pub proof fn law_list_says_why_it_is_empty(
    is_ready: bool,
    conns: Seq<VpnConnView>,
    target: Option<Seq<char>>,
)
    ensures
        ({
            let l = vpn_card::vpn_list(is_ready, conns, target);
            let rows = vpn_card::connection_items(conns, target);
            let listed = exists|i: int|
                0 <= i < conns.len() && Some((#[trigger] conns[i]).uuid) == target;
            &&& !is_ready ==> l == VpnListView::Placeholder("Loading VPN state..."@)
            &&& is_ready && conns.len() == 0 ==> l == VpnListView::Placeholder(
                "No VPN connections"@,
            )
            &&& is_ready && conns.len() > 0 && (target is None || target->0.len() == 0 || listed)
                ==> l == VpnListView::Items(rows)
            &&& is_ready && conns.len() > 0 && target is Some && target->0.len() > 0 && !listed
                ==> l == VpnListView::Items(rows.push(VpnItemView::Auth))
        }),
{
    if target is Some && target->0.len() > 0 {
        if exists|i: int| 0 <= i < conns.len() && Some((#[trigger] conns[i]).uuid) == target {
            let i = choose|i: int| 0 <= i < conns.len() && Some((#[trigger] conns[i]).uuid) == target;
            assert(vpn_card::asks(target, conns[i].uuid));
            assert(vpn_card::asked_listed(conns, target));
        } else if vpn_card::asked_listed(conns, target) {
            let i = choose|i: int|
                0 <= i < conns.len() && vpn_card::asks(target, (#[trigger] conns[i]).uuid);
            assert(Some(conns[i].uuid) == target);
        }
    }
}

} // verus!

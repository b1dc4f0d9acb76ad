//! What a change of the network does to the whole network card.

use vstd::prelude::*;
use vstd::string::*;

use crate::network::{NetworkSnapshot, NetworkView};
use crate::network_card;
use crate::network_card::{EthernetRow, EthernetUpdate, MobileRow, NetworkCard};
use crate::password_dialog;
use crate::password_dialog::{DialogEffect, DialogEffectView, DialogView, PasswordDialog};
use crate::text;
use crate::wifi_list;
use crate::wifi_list::WifiList;

verus! {

/// A network card whose details are built.
#[derive(Debug)]
pub struct NetworkCardState {
    pub ethernet: EthernetRow,
    pub password: PasswordDialog,
    /// The prompt for a password is in the list.
    pub prompt_visible: bool,
}

/// How the card follows a change.
#[derive(Debug)]
pub struct NetworkChange {
    pub dialog: Vec<DialogEffect>,
    pub card: NetworkCard,
    pub ethernet: EthernetUpdate,
    pub mobile: MobileRow,
    /// The list anew, unless the prompt is in it: what is typed would be lost.
    pub list: Option<WifiList>,
}

/// Whether the prompt is in the list after some effects. A list that is built
/// holds it where there is a network to ask for; it is put away on its own.
pub open spec fn seen_after(
    seen: bool,
    effects: Seq<DialogEffectView>,
    target: Option<Seq<char>>,
    v: NetworkView,
    uses_material: bool,
) -> bool {
    if effects.contains(DialogEffectView::Repopulate) && wifi_list::has_prompt(
        wifi_list::wifi_list(v, target, uses_material),
    ) {
        true
    } else {
        seen && !effects.contains(DialogEffectView::Conceal)
    }
}

/// What an open prompt, or the lack of one, makes of the change.
pub open spec fn second_step(
    d: DialogView,
    d1: DialogView,
    v: NetworkView,
    mapped: bool,
) -> password_dialog::DialogOut {
    match d.target {
        Some(t) => password_dialog::followed(d1, t, v),
        None => password_dialog::unprompted(d1, v, mapped),
    }
}

/// Whether the prompt is in the list after a change of the network.
pub open spec fn prompt_seen(
    seen: bool,
    d: DialogView,
    v: NetworkView,
    mapped: bool,
    uses_material: bool,
) -> bool {
    let (d1, e1) = password_dialog::requested(d, v, mapped);
    let (d2, e2) = second_step(d, d1, v, mapped);
    seen_after(seen_after(seen, e1, d1.target, v, uses_material), e2, d2.target, v, uses_material)
}

fn has_conceal(effects: &Vec<DialogEffect>) -> (r: bool)
    ensures
        r == password_dialog::effect_views(effects@).contains(DialogEffectView::Conceal),
{
    let ghost views = password_dialog::effect_views(effects@);
    let mut i: usize = 0;
    while i < effects.len()
        invariant
            i <= effects.len(),
            views == password_dialog::effect_views(effects@),
            forall|j: int| 0 <= j < i ==> views[j] != DialogEffectView::Conceal,
        decreases effects.len() - i,
    {
        if let DialogEffect::Conceal = effects[i] {
            assert(views[i as int] == DialogEffectView::Conceal);
            return true;
        }
        i += 1;
    }
    false
}

fn has_repopulate(effects: &Vec<DialogEffect>) -> (r: bool)
    ensures
        r == password_dialog::effect_views(effects@).contains(DialogEffectView::Repopulate),
{
    let ghost views = password_dialog::effect_views(effects@);
    let mut i: usize = 0;
    while i < effects.len()
        invariant
            i <= effects.len(),
            views == password_dialog::effect_views(effects@),
            forall|j: int| 0 <= j < i ==> views[j] != DialogEffectView::Repopulate,
        decreases effects.len() - i,
    {
        if let DialogEffect::Repopulate = effects[i] {
            assert(views[i as int] == DialogEffectView::Repopulate);
            return true;
        }
        i += 1;
    }
    false
}

fn holds_prompt(snapshot: &NetworkSnapshot, target: &Option<String>, uses_material: bool) -> (r:
    bool)
    ensures
        r == wifi_list::has_prompt(
            wifi_list::wifi_list(snapshot@, text::opt_string_view(*target), uses_material),
        ),
{
    let (name, asked) = match target {
        Some(t) => (Some(t.as_str()), t.as_str().unicode_len() > 0),
        None => (None, false),
    };
    let list = wifi_list::populate_wifi_list(snapshot, name, uses_material);
    match list {
        WifiList::Items(_) => {
            proof {
                wifi_list::law_prompt_is_shown_while_wanted(
                    snapshot@,
                    text::opt_string_view(*target),
                    uses_material,
                );
            }
            asked
        },
        _ => false,
    }
}

impl NetworkCardState {
    /// The prompt is in the list only while there is a network to ask for.
    pub open spec fn wf(&self) -> bool {
        self.prompt_visible ==> self.password@.target is Some
    }

    pub fn new(snapshot: &NetworkSnapshot) -> (s: Self)
        ensures
            s.wf(),
            !s.prompt_visible,
            s.password@ == password_dialog::unused(),
            s.ethernet.title@ == network_card::ethernet_title_of(snapshot@),
            s.ethernet.subtitle_key@ == network_card::ethernet_key_of(snapshot@),
    {
        NetworkCardState {
            ethernet: EthernetRow::build(snapshot),
            password: PasswordDialog::new(),
            prompt_visible: false,
        }
    }

    fn see(&mut self, effects: &Vec<DialogEffect>, snapshot: &NetworkSnapshot, uses_material: bool)
        ensures
            final(self).prompt_visible == seen_after(
                old(self).prompt_visible,
                password_dialog::effect_views(effects@),
                old(self).password@.target,
                snapshot@,
                uses_material,
            ),
            final(self).password == old(self).password,
            final(self).ethernet == old(self).ethernet,
    {
        if has_repopulate(effects) && holds_prompt(snapshot, &self.password.target, uses_material) {
            self.prompt_visible = true;
        } else if has_conceal(effects) {
            self.prompt_visible = false;
        }
    }

    /// The user opens the prompt from the row of a network.
    pub fn show_password_dialog(
        &mut self,
        ssid: &str,
        snapshot: &NetworkSnapshot,
        uses_material: bool,
    ) -> (r: Vec<DialogEffect>)
        requires
            old(self).wf(),
        ensures
            final(self).wf(),
            final(self).ethernet == old(self).ethernet,
            (final(self).password@, password_dialog::effect_views(r@)) == password_dialog::shown(
                old(self).password@,
                ssid@,
                None,
            ),
            final(self).prompt_visible == seen_after(
                old(self).prompt_visible,
                password_dialog::effect_views(r@),
                final(self).password@.target,
                snapshot@,
                uses_material,
            ),
    {
        let effects = self.password.show_password_dialog(ssid);
        proof {
            lemma_no_prompt_without_a_network(snapshot@, self.password@.target, uses_material);
        }
        self.see(&effects, snapshot, uses_material);
        effects
    }

    /// The user presses cancel in the prompt.
    pub fn on_password_cancel_clicked(
        &mut self,
        snapshot: &NetworkSnapshot,
        uses_material: bool,
    ) -> (r: Vec<DialogEffect>)
        requires
            old(self).wf(),
        ensures
            final(self).wf(),
            !final(self).prompt_visible,
            final(self).ethernet == old(self).ethernet,
            (final(self).password@, password_dialog::effect_views(r@))
                == password_dialog::cancel_pressed(old(self).password@, snapshot@),
            final(self).prompt_visible == seen_after(
                old(self).prompt_visible,
                password_dialog::effect_views(r@),
                final(self).password@.target,
                snapshot@,
                uses_material,
            ),
    {
        let effects = self.password.on_password_cancel_clicked(snapshot);
        proof {
            lemma_no_prompt_without_a_network(snapshot@, self.password@.target, uses_material);
            assert(password_dialog::effect_views(effects@)[1] == DialogEffectView::Conceal);
        }
        self.see(&effects, snapshot, uses_material);
        effects
    }

    /// The prompt is closed, as it is when the panel closes.
    pub fn hide_password_dialog(
        &mut self,
        snapshot: &NetworkSnapshot,
        uses_material: bool,
    ) -> (r: Vec<DialogEffect>)
        requires
            old(self).wf(),
        ensures
            final(self).wf(),
            !final(self).prompt_visible,
            final(self).ethernet == old(self).ethernet,
            (final(self).password@, password_dialog::effect_views(r@)) == password_dialog::hidden(
                old(self).password@,
            ),
            final(self).prompt_visible == seen_after(
                old(self).prompt_visible,
                password_dialog::effect_views(r@),
                final(self).password@.target,
                snapshot@,
                uses_material,
            ),
    {
        let effects = self.password.hide_password_dialog();
        proof {
            lemma_no_prompt_without_a_network(snapshot@, self.password@.target, uses_material);
            assert(password_dialog::effect_views(effects@)[1] == DialogEffectView::Conceal);
        }
        self.see(&effects, snapshot, uses_material);
        effects
    }

    /// The user presses connect in the prompt, or enters the password.
    pub fn on_password_connect_clicked(
        &mut self,
        password: &str,
        snapshot: &NetworkSnapshot,
        uses_material: bool,
    ) -> (r: Vec<DialogEffect>)
        requires
            old(self).wf(),
        ensures
            final(self).wf(),
            final(self).ethernet == old(self).ethernet,
            (final(self).password@, password_dialog::effect_views(r@))
                == password_dialog::connect_pressed(old(self).password@, password@, snapshot@),
            final(self).prompt_visible == old(self).prompt_visible,
            final(self).prompt_visible == seen_after(
                old(self).prompt_visible,
                password_dialog::effect_views(r@),
                final(self).password@.target,
                snapshot@,
                uses_material,
            ),
    {
        let effects = self.password.on_password_connect_clicked(password, snapshot);
        self.see(&effects, snapshot, uses_material);
        effects
    }

    /// The network changed. `mapped` says whether the panel is on screen and
    /// `expanded` whether the card is unfolded; `gbps` is the wired speed in
    /// gigabits with one decimal place.
    pub fn on_network_changed(
        &mut self,
        snapshot: &NetworkSnapshot,
        mapped: bool,
        uses_material: bool,
        expanded: bool,
        gbps: &str,
    ) -> (r: NetworkChange)
        requires
            old(self).wf(),
        ensures
            final(self).wf(),
            (final(self).password@, password_dialog::effect_views(r.dialog@))
                == password_dialog::changed(old(self).password@, snapshot@, mapped),
            final(self).prompt_visible == prompt_seen(
                old(self).prompt_visible,
                old(self).password@,
                snapshot@,
                mapped,
                uses_material,
            ),
            r.card.shows(snapshot@, uses_material, expanded),
            network_card::ethernet_follows(
                old(self).ethernet,
                final(self).ethernet,
                r.ethernet,
                snapshot@,
                gbps@,
            ),
            r.mobile.shows(snapshot@),
            r.mobile.spinning == snapshot@.mobile_connecting,
            r.mobile.color == network_card::mobile_color(
                network_card::mobile_on(snapshot@),
                snapshot@.mobile_connecting || snapshot@.mobile_active,
            ),
            match r.list {
                Some(l) => !final(self).prompt_visible && l@ == wifi_list::wifi_list(
                    snapshot@,
                    final(self).password@.target,
                    uses_material,
                ),
                None => final(self).prompt_visible,
            },
    {
        let ghost d = self.password@;
        let ghost seen = self.prompt_visible;
        let target = text::clone_opt(&self.password.target);
        let first = self.password.take_request(snapshot, mapped);
        self.see(&first, snapshot, uses_material);
        let second = match target {
            Some(t) => self.password.follow(t.as_str(), snapshot),
            None => self.password.without_prompt(snapshot, mapped),
        };
        self.see(&second, snapshot, uses_material);
        proof {
            lemma_seen_prompt_is_for_a_network(seen, d, snapshot@, mapped, uses_material);
        }
        let dialog = password_dialog::both(first, second);
        let ethernet = self.ethernet.update_ethernet_row(snapshot, gbps);
        let list = if self.prompt_visible {
            None
        } else {
            let name = match &self.password.target {
                Some(t) => Some(t.as_str()),
                None => None,
            };
            Some(wifi_list::populate_wifi_list(snapshot, name, uses_material))
        };
        NetworkChange {
            dialog,
            card: network_card::network_card(snapshot, uses_material, expanded),
            ethernet,
            mobile: network_card::update_mobile_row(snapshot),
            list,
        }
    }
}

proof fn lemma_seen_prompt_is_for_a_network(
    seen: bool,
    d: DialogView,
    v: NetworkView,
    mapped: bool,
    uses_material: bool,
)
    requires
        seen ==> d.target is Some,
    ensures
        prompt_seen(seen, d, v, mapped, uses_material) ==> password_dialog::changed(
            d,
            v,
            mapped,
        ).0.target is Some,
{
    let (d1, e1) = password_dialog::requested(d, v, mapped);
    let (d2, e2) = second_step(d, d1, v, mapped);
    let seen1 = seen_after(seen, e1, d1.target, v, uses_material);
    lemma_no_prompt_without_a_network(v, d1.target, uses_material);
    lemma_no_prompt_without_a_network(v, d2.target, uses_material);
    assert(seen1 ==> d1.target is Some);
    if d2.target is None && d1.target is Some {
        assert(e2[1] == DialogEffectView::Conceal);
        assert(e2.contains(DialogEffectView::Conceal));
    }
}

proof fn lemma_no_prompt_without_a_network(
    v: NetworkView,
    target: Option<Seq<char>>,
    uses_material: bool,
)
    ensures
        wifi_list::has_prompt(wifi_list::wifi_list(v, target, uses_material)) ==> target is Some,
{
    if wifi_list::wifi_list(v, target, uses_material) is Items {
        wifi_list::law_prompt_is_shown_while_wanted(v, target, uses_material);
    }
}

/// While a password is typed, news about other networks leave the prompt, and
/// the list around it, alone.
pub proof fn law_typing_is_not_disturbed(
    d: DialogView,
    v: NetworkView,
    mapped: bool,
    uses_material: bool,
)
    requires
        d.target is Some,
        v.failed_ssid != d.target,
        !password_dialog::settled_on(v, d.target->0),
        !password_dialog::settled_elsewhere(v, d.target->0),
        v.auth_request_ssid is None || v.auth_request_ssid == d.target,
    ensures
        password_dialog::changed(d, v, mapped) == (d, password_dialog::no_effects()),
        prompt_seen(true, d, v, mapped, uses_material),
{
    assert(password_dialog::no_effects() + password_dialog::no_effects()
        =~= password_dialog::no_effects());
}

/// Without a prompt the list always follows.
pub proof fn law_list_follows_without_prompt(
    seen: bool,
    d: DialogView,
    v: NetworkView,
    mapped: bool,
    uses_material: bool,
)
    requires
        seen ==> d.target is Some,
        password_dialog::changed(d, v, mapped).0.target is None,
    ensures
        !prompt_seen(seen, d, v, mapped, uses_material),
{
    lemma_seen_prompt_is_for_a_network(seen, d, v, mapped, uses_material);
}

/// Once the prompt is put away, by closing it or by cancelling, no row of the
/// list holds it, whatever the network looks like.
pub proof fn law_closed_prompt_is_out_of_the_list(
    seen: bool,
    d: DialogView,
    v: NetworkView,
    uses_material: bool,
)
    ensures
        password_dialog::hidden(d).0.target is None,
        password_dialog::cancel_pressed(d, v).0 == password_dialog::hidden(d).0,
        !seen_after(seen, password_dialog::hidden(d).1, None, v, uses_material),
        !seen_after(seen, password_dialog::cancel_pressed(d, v).1, None, v, uses_material),
        !wifi_list::has_prompt(wifi_list::wifi_list(v, None, uses_material)),
{
    lemma_no_prompt_without_a_network(v, None, uses_material);
    assert(password_dialog::hidden(d).1[1] == DialogEffectView::Conceal);
    assert(password_dialog::cancel_pressed(d, v).1[1] == DialogEffectView::Conceal);
}

/// A prompt that is opened from a row stays while its connection is tried:
/// pressing connect neither opens nor closes it.
pub proof fn law_connecting_keeps_the_prompt(
    seen: bool,
    d: DialogView,
    password: Seq<char>,
    v: NetworkView,
    uses_material: bool,
)
    ensures
        password_dialog::connect_pressed(d, password, v).0.target == d.target,
        seen_after(
            seen,
            password_dialog::connect_pressed(d, password, v).1,
            d.target,
            v,
            uses_material,
        ) == seen,
{
}

} // verus!

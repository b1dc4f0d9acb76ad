//! What holds of the prompt for a Wi-Fi password, whatever the network does.

use vstd::prelude::*;
use vstd::string::*;

use crate::network;
use crate::network::NetworkView;
use crate::password_dialog;
use crate::password_dialog::{DialogEffectView, DialogView};
use crate::text;
use crate::text_laws;

verus! {

/// The prompt opens for the network that it is asked for, by its name without
/// white space around it, with the error that there is, and with an empty entry.
pub proof fn law_prompt_opens_for_the_network(
    d: DialogView,
    before: Seq<char>,
    name: Seq<char>,
    after: Seq<char>,
    error: Option<Seq<char>>,
)
    requires
        text_laws::all_spaces(before),
        text_laws::all_spaces(after),
        text_laws::is_trimmed(name),
        name.len() > 0,
    ensures
        ({
            let (r, e) = password_dialog::shown(d, before + name + after, error);
            &&& r.target == Some(name)
            &&& r.label == "Enter password for "@ + name
            &&& error matches Some(m) ==> r.status == m && r.status_error
            &&& error is None ==> r.status.len() == 0 && !r.status_error
            &&& r.inputs_enabled == d.inputs_enabled
            &&& r.animating == d.animating
            &&& e == seq![DialogEffectView::ClearEntry, DialogEffectView::Repopulate]
        }),
{
    text_laws::law_trimming(before, name, after);
}

/// A name of white space alone opens nothing.
pub proof fn law_blank_name_opens_nothing(d: DialogView, blank: Seq<char>, error: Option<Seq<char>>)
    requires
        text_laws::all_spaces(blank),
    ensures
        password_dialog::shown(d, blank, error).0 == d,
        password_dialog::shown(d, blank, error).1.len() == 0,
{
    let none = Seq::<char>::empty();
    text_laws::law_trimming(blank, none, none);
    assert(blank + none + none =~= blank);
}

/// While a connection is tried the prompt takes no input and says so; at rest it
/// takes input and says nothing. Neither changes which network it is for.
pub proof fn law_prompt_is_busy_or_at_rest(d: DialogView)
    ensures
        ({
            let b = password_dialog::busy(d);
            let i = password_dialog::idle(d);
            &&& !b.inputs_enabled && b.animating && !b.status_error && b.status == "Connecting"@
            &&& i.inputs_enabled && !i.animating && !i.status_error && i.status.len() == 0
            &&& b.target == d.target && i.target == d.target
            &&& b.label == d.label && i.label == d.label
            &&& b.step == d.step
            &&& password_dialog::idle(b).step == 0
            &&& !d.animating ==> i.step == d.step
        }),
{
}

/// The dots go round: after four steps they are as they were, and each step up to
/// the third adds one.
pub proof fn law_dots_go_round(step: u8)
    requires
        step < 4,
    ensures
        ({
            let next = password_dialog::next_step(step);
            let again = password_dialog::next_step(
                password_dialog::next_step(password_dialog::next_step(next)),
            );
            &&& again == step
            &&& next < 4
            &&& password_dialog::dots(step).len() == step
            &&& forall|i: int|
                0 <= i < password_dialog::dots(step).len() ==> #[trigger] password_dialog::dots(
                    step,
                )[i] == '.'
            &&& step < 3 ==> next == step + 1
        }),
{
    reveal_strlit(".");
    reveal_strlit("..");
    reveal_strlit("...");
}

/// A prompt that is put away is for no network, its entry is emptied, and the
/// list is built without it.
pub proof fn law_prompt_is_put_away(d: DialogView)
    ensures
        ({
            let (r, e) = password_dialog::hidden(d);
            &&& r.target is None
            &&& r.inputs_enabled && !r.animating && !r.status_error && r.status.len() == 0
            &&& e == seq![
                DialogEffectView::ClearEntry,
                DialogEffectView::Conceal,
                DialogEffectView::Repopulate,
            ]
        }),
{
}

/// A failure of the prompt's own network is shown in it, with the reason where
/// one is known. The prompt stays open and takes input again.
pub proof fn law_own_failure_is_shown(d: DialogView, target: Seq<char>, v: NetworkView)
    requires
        v.failed_ssid == Some(target),
    ensures
        ({
            let (r, e) = password_dialog::followed(d, target, v);
            &&& r.target == d.target
            &&& r.status_error && r.inputs_enabled && !r.animating
            &&& v.failed_reason matches Some(why) ==> r.status == why
            &&& v.failed_reason is None ==> r.status == "Connection failed"@
            &&& e == seq![DialogEffectView::Repopulate, DialogEffectView::ClearFailed]
        }),
{
}

/// A failure of another network leaves the prompt alone.
pub proof fn law_other_failures_leave_the_prompt(d: DialogView, target: Seq<char>, v: NetworkView)
    requires
        v.failed_ssid is Some,
        v.failed_ssid != Some(target),
    ensures
        password_dialog::followed(d, target, v).0 == d,
        password_dialog::followed(d, target, v).1.len() == 0,
{
}

/// Without a failure the prompt goes away once its network is in use, or another
/// is, and stays while a connection is on its way. Under iwd only a connection
/// counts; under NetworkManager nothing else may be on its way.
pub proof fn law_prompt_goes_once_connected(d: DialogView, target: Seq<char>, v: NetworkView)
    requires
        v.failed_ssid is None,
        d.target is Some,
    ensures
        ({
            let (r, e) = password_dialog::followed(d, target, v);
            let here = v.active_ssid == Some(target);
            &&& r.target is None || r == d
            &&& v.is_iwd ==> (r.target is None <==> v.connected)
            &&& !v.is_iwd ==> (r.target is None <==> v.connecting_ssid is None && (here
                || v.connected))
            &&& r.target is None ==> (r, e) == password_dialog::hidden(d)
            &&& r.target is Some ==> e.len() == 0
        }),
{
}

/// Without a prompt, a wrong password opens it where it can be seen and is
/// forgotten where it cannot. Every other failure is shown in the list for a
/// while.
pub proof fn law_failures_without_a_prompt(d: DialogView, v: NetworkView, mapped: bool, f: Seq<char>)
    requires
        v.failed_ssid == Some(f),
    ensures
        ({
            let (r, e) = password_dialog::unprompted(d, v, mapped);
            let wrong = v.is_iwd && v.failed_reason == Some("Wrong password"@);
            &&& wrong && mapped ==> (r, e) == password_dialog::shown(
                d,
                f,
                Some("Wrong password"@),
            )
            &&& wrong && !mapped ==> r == d && e == seq![DialogEffectView::ClearFailed]
            &&& !wrong ==> r == d && e == seq![DialogEffectView::ScheduleClearFailed]
        }),
{
    reveal_strlit("Wrong password");
    reveal_strlit("Connection failed");
    assert("Wrong password"@.len() == 14);
    assert("Connection failed"@.len() == 17);
}

/// Without a failure and a prompt nothing happens.
pub proof fn law_nothing_happens_without_a_failure(d: DialogView, v: NetworkView, mapped: bool)
    requires
        v.failed_ssid is None,
    ensures
        password_dialog::unprompted(d, v, mapped).0 == d,
        password_dialog::unprompted(d, v, mapped).1.len() == 0,
{
}

/// A request of iwd's opens the prompt exactly where the panel can be seen and
/// the prompt is not for that network yet.
pub proof fn law_requests_open_the_prompt(d: DialogView, v: NetworkView, mapped: bool)
    ensures
        ({
            let wanted = v.is_iwd && mapped && v.auth_request_ssid is Some && d.target
                != v.auth_request_ssid;
            &&& wanted ==> password_dialog::requested(d, v, mapped) == password_dialog::shown(
                d,
                v.auth_request_ssid->0,
                None,
            )
            &&& !wanted ==> password_dialog::requested(d, v, mapped).0 == d
                && password_dialog::requested(d, v, mapped).1.len() == 0
        }),
{
}

/// A change of the network is first looked at for a request, and then for what
/// became of the network that the prompt was for before. What the two lead to
/// follows each other.
pub proof fn law_requests_come_before_failures(d: DialogView, v: NetworkView, mapped: bool)
    ensures
        ({
            let (d1, e1) = password_dialog::requested(d, v, mapped);
            let (r, e) = password_dialog::changed(d, v, mapped);
            &&& d.target matches Some(t) ==> r == password_dialog::followed(d1, t, v).0 && e == e1
                + password_dialog::followed(d1, t, v).1
            &&& d.target is None ==> r == password_dialog::unprompted(d1, v, mapped).0 && e == e1
                + password_dialog::unprompted(d1, v, mapped).1
        }),
{
}

/// The password goes to the request that waits for it, and otherwise makes a new
/// attempt with the network of the prompt. Until it has an answer the prompt
/// takes no input.
pub proof fn law_password_is_used_for_the_network(
    d: DialogView,
    password: Seq<char>,
    v: NetworkView,
    target: Seq<char>,
)
    requires
        d.target == Some(target),
        target.len() > 0,
    ensures
        ({
            let (r, e) = password_dialog::connect_pressed(d, password, v);
            &&& r == password_dialog::busy(d)
            &&& e.len() == 1
            &&& v.auth_request_ssid == Some(target) ==> e[0] == DialogEffectView::SubmitPassword(
                password,
            )
            &&& v.auth_request_ssid != Some(target) ==> e[0] == (DialogEffectView::Connect {
                ssid: target,
                password,
                path: network::path_of_ssid(v.networks, target),
            })
        }),
{
}

/// Without a network to ask for, connecting does nothing.
pub proof fn law_no_network_no_attempt(d: DialogView, password: Seq<char>, v: NetworkView)
    requires
        d.target is None || d.target->0.len() == 0,
    ensures
        password_dialog::connect_pressed(d, password, v).0 == d,
        password_dialog::connect_pressed(d, password, v).1.len() == 0,
{
}

/// Cancelling puts the prompt away, withdraws the request, ends a connection that
/// is on its way, and forgets the failure last.
pub proof fn law_cancel_ends_the_attempt(d: DialogView, v: NetworkView)
    ensures
        ({
            let (r, e) = password_dialog::cancel_pressed(d, v);
            let joining = v.connecting_ssid is Some || (v.is_iwd && v.wifi_device_connecting);
            &&& r == password_dialog::hidden(d).0
            &&& e.take(3) == password_dialog::hidden(d).1
            &&& e[3] == DialogEffectView::CancelAuth
            &&& joining ==> e.len() == 6 && e[4] == DialogEffectView::Disconnect
            &&& !joining ==> e.len() == 5
            &&& e.last() == DialogEffectView::ClearFailed
        }),
{
    let (r, e) = password_dialog::cancel_pressed(d, v);
    assert(e.take(3) =~= password_dialog::hidden(d).1);
}

} // verus!

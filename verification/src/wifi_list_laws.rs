//! What holds of the list of Wi-Fi networks, whatever is in range.

use vstd::prelude::*;
use vstd::string::*;

use crate::network::{NetView, NetworkView, SecurityType};
use crate::network_card;
use crate::text;
use crate::wifi_list;
use crate::wifi_list::{CommandView, ItemView, ListView, RowAction, RowSubtitleView};

verus! {

// ---------------------------------------------------------------------------
// What a row does
// ---------------------------------------------------------------------------

/// Activating the network in use ends the connection. Activating another that
/// needs no password, or whose password is saved, connects to that very network.
pub proof fn law_activation_connects_or_disconnects(n: NetView)
    ensures
        n.active <==> wifi_list::activation(n) == CommandView::Disconnect,
        !n.active && (n.known || n.security != SecurityType::Secured) ==> wifi_list::activation(n)
            == (CommandView::Connect { ssid: n.ssid, path: n.path }),
        !n.active && !n.known && n.security == SecurityType::Secured ==> wifi_list::activation(n)
            == CommandView::Nothing,
{
}

/// The button of a network asks for a password only where NetworkManager runs
/// and the network needs one. Otherwise it connects to that very network.
pub proof fn law_button_asks_for_a_password_where_it_must(n: NetView, is_iwd: bool)
    ensures
        n.security == SecurityType::Secured && !is_iwd ==> wifi_list::button_command(n, is_iwd)
            == (CommandView::AskPassword { ssid: n.ssid }),
        n.security != SecurityType::Secured || is_iwd ==> wifi_list::button_command(n, is_iwd)
            == (CommandView::Connect { ssid: n.ssid, path: n.path }),
{
}

/// A row has a menu exactly where its network is in use or saved. The menu ends
/// the connection of the one in use, and forgets the one that is saved.
pub proof fn law_row_offers_what_is_possible(n: NetView)
    ensures
        wifi_list::row_action(n) is Menu <==> n.active || n.known,
        wifi_list::row_action(n) matches RowAction::Menu { disconnect, forget } ==> disconnect
            == n.active && forget == n.known,
        !n.active && !n.known ==> wifi_list::row_action(n) == RowAction::ConnectButton,
{
}

// ---------------------------------------------------------------------------
// Rows
// ---------------------------------------------------------------------------

/// A row is named after its network and shows its strength. It waits, and cannot
/// be activated, exactly while the network is being connected to, and stands out
/// while it is that or in use.
pub proof fn law_row_shows_its_network(n: NetView, v: NetworkView, uses_material: bool)
    ensures
        ({
            let r = wifi_list::row_of(n, v, uses_material);
            let joining = v.connecting_ssid == Some(n.ssid);
            &&& r.title == n.ssid
            &&& r.connecting <==> joining
            &&& r.activatable <==> !joining
            &&& r.action == RowAction::Waiting <==> joining
            &&& !joining ==> r.action == wifi_list::row_action(n)
            &&& r.accent <==> n.active || joining
            &&& r.icon == network_card::wifi_icon(n.strength as int)
            &&& r.overlay <==> uses_material && !joining && n.strength < 70
        }),
{
}

/// The last thing said of a network is its strength in percent, and it is always
/// said.
pub proof fn law_strength_is_said_last(n: NetView, joining: bool)
    ensures
        wifi_list::row_extras(n, joining).len() > 0,
        wifi_list::row_extras(n, joining).last() == text::dec_int(n.strength as int) + "%"@,
{
}

/// Of a network that is being connected to, this is said first, and not that it
/// is saved. Of another it is said that it is protected and that it is saved,
/// where it is.
pub proof fn law_extras_say_what_is_so(n: NetView)
    ensures
        ({
            let percent = text::dec_int(n.strength as int) + "%"@;
            let locked = n.security == SecurityType::Secured;
            &&& locked ==> wifi_list::row_extras(n, true) == seq![
                "Connecting..."@,
                "Secured"@,
                percent,
            ]
            &&& !locked ==> wifi_list::row_extras(n, true) == seq!["Connecting..."@, percent]
            &&& locked && n.known ==> wifi_list::row_extras(n, false) == seq![
                "Secured"@,
                "Saved"@,
                percent,
            ]
            &&& locked && !n.known ==> wifi_list::row_extras(n, false) == seq!["Secured"@, percent]
            &&& !locked && n.known ==> wifi_list::row_extras(n, false) == seq!["Saved"@, percent]
            &&& !locked && !n.known ==> wifi_list::row_extras(n, false) == seq![percent]
        }),
{
    let percent = text::dec_int(n.strength as int) + "%"@;
    let t = wifi_list::row_extras(n, true);
    let f = wifi_list::row_extras(n, false);
    let locked = n.security == SecurityType::Secured;
    if locked {
        assert(t =~= seq!["Connecting..."@, "Secured"@, percent]);
        if n.known {
            assert(f =~= seq!["Secured"@, "Saved"@, percent]);
        } else {
            assert(f =~= seq!["Secured"@, percent]);
        }
    } else {
        assert(t =~= seq!["Connecting..."@, percent]);
        if n.known {
            assert(f =~= seq!["Saved"@, percent]);
        } else {
            assert(f =~= seq![percent]);
        }
    }
}

/// The row of the network in use says so, the row of the network that could not
/// be connected to says why, and every other row says what there is to say, with
/// a bullet in between.
pub proof fn law_subtitle_says_how_it_stands(n: NetView, v: NetworkView, uses_material: bool)
    ensures
        ({
            let r = wifi_list::row_of(n, v, uses_material);
            let joining = v.connecting_ssid == Some(n.ssid);
            let failed = v.failed_ssid == Some(n.ssid);
            &&& r.subtitle == RowSubtitleView::Connected <==> n.active && !joining
            &&& (!n.active || joining) && failed && v.failed_reason is Some ==> r.subtitle
                == RowSubtitleView::Failed(v.failed_reason->0)
            &&& (!n.active || joining) && failed && v.failed_reason is None ==> r.subtitle
                == RowSubtitleView::Failed("Connection failed"@)
            &&& (!n.active || joining) && !failed ==> r.subtitle == RowSubtitleView::Plain(
                text::join_spec(r.extras, " \u{2022} "@),
            )
            &&& r.extras == wifi_list::row_extras(n, joining)
        }),
{
}

// ---------------------------------------------------------------------------
// The list
// ---------------------------------------------------------------------------

/// One network more at the end of the list adds its row at the end, and the
/// prompt under it where a password is asked for on its behalf.
pub proof fn law_each_network_adds_its_row(
    nets: Seq<NetView>,
    n: NetView,
    v: NetworkView,
    target: Option<Seq<char>>,
    uses_material: bool,
)
    ensures
        ({
            let before = wifi_list::network_items(nets, v, target, uses_material);
            let after = wifi_list::network_items(nets.push(n), v, target, uses_material);
            let row = ItemView::Network(wifi_list::row_of(n, v, uses_material));
            if target == Some(n.ssid) && n.ssid.len() > 0 {
                after == before + seq![row, ItemView::Password]
            } else {
                after == before + seq![row]
            }
        }),
        wifi_list::network_items(Seq::empty(), v, target, uses_material).len() == 0,
{
    let before = wifi_list::network_items(nets, v, target, uses_material);
    let after = wifi_list::network_items(nets.push(n), v, target, uses_material);
    let row = ItemView::Network(wifi_list::row_of(n, v, uses_material));
    assert(nets.push(n).drop_last() =~= nets);
    assert(nets.push(n).last() == n);
    if target == Some(n.ssid) && n.ssid.len() > 0 {
        assert(after =~= before + seq![row, ItemView::Password]);
    } else {
        assert(after =~= before + seq![row]);
    }
}

/// While no password is asked for, the list has one row for each network, in
/// their order.
pub proof fn law_rows_keep_the_order(v: NetworkView, uses_material: bool)
    ensures
        ({
            let items = wifi_list::all_items(v, None, uses_material);
            &&& items.len() == v.networks.len()
            &&& forall|i: int|
                0 <= i < items.len() ==> #[trigger] items[i] == ItemView::Network(
                    wifi_list::row_of(v.networks[i], v, uses_material),
                )
        }),
{
    lemma_rows(v.networks, v, uses_material);
}

proof fn lemma_rows(nets: Seq<NetView>, v: NetworkView, uses_material: bool)
    ensures
        ({
            let items = wifi_list::network_items(nets, v, None, uses_material);
            &&& items.len() == nets.len()
            &&& forall|i: int|
                0 <= i < items.len() ==> #[trigger] items[i] == ItemView::Network(
                    wifi_list::row_of(nets[i], v, uses_material),
                )
        }),
    decreases nets.len(),
{
    if nets.len() > 0 {
        lemma_rows(nets.drop_last(), v, uses_material);
    }
}

/// A prompt always stands directly under the network it is for, but for one
/// whose network is not listed: that one stands at the end.
pub proof fn law_prompt_stands_under_its_network(
    v: NetworkView,
    ssid: Seq<char>,
    uses_material: bool,
    k: int,
)
    requires
        0 <= k < wifi_list::all_items(v, Some(ssid), uses_material).len(),
        wifi_list::all_items(v, Some(ssid), uses_material)[k] == ItemView::Password,
    ensures
        ({
            let items = wifi_list::all_items(v, Some(ssid), uses_material);
            if exists|i: int| 0 <= i < v.networks.len() && (#[trigger] v.networks[i]).ssid == ssid {
                k > 0 && (items[k - 1] matches ItemView::Network(r) && r.title == ssid)
            } else {
                k == items.len() - 1
            }
        }),
        ssid.len() > 0,
{
    let target = Some(ssid);
    lemma_prompt_place(v.networks, v, ssid, uses_material);
    let items = wifi_list::network_items(v.networks, v, target, uses_material);
    let all = wifi_list::all_items(v, target, uses_material);
    if k < items.len() {
        assert(all[k] == items[k]);
        assert(items[k] == ItemView::Password);
        let i = choose|i: int| 0 <= i < v.networks.len() && (#[trigger] v.networks[i]).ssid == ssid;
        assert(v.networks[i].ssid == ssid);
    } else if exists|i: int| 0 <= i < v.networks.len() && (#[trigger] v.networks[i]).ssid == ssid {
        let i = choose|i: int| 0 <= i < v.networks.len() && (#[trigger] v.networks[i]).ssid == ssid;
        assert(wifi_list::prompts(target, v.networks[i].ssid));
        assert(wifi_list::target_listed(v.networks, target));
    }
}

proof fn lemma_prompt_place(nets: Seq<NetView>, v: NetworkView, ssid: Seq<char>, uses_material: bool)
    ensures
        ({
            let items = wifi_list::network_items(nets, v, Some(ssid), uses_material);
            forall|k: int|
                0 <= k < items.len() && #[trigger] items[k] == ItemView::Password ==> {
                    &&& k > 0
                    &&& items[k - 1] matches ItemView::Network(r)
                    &&& r.title == ssid
                    &&& ssid.len() > 0
                    &&& exists|i: int| 0 <= i < nets.len() && (#[trigger] nets[i]).ssid == ssid
                }
        }),
    decreases nets.len(),
{
    if nets.len() > 0 {
        let rest = nets.drop_last();
        let n = nets.last();
        let before = wifi_list::network_items(rest, v, Some(ssid), uses_material);
        let items = wifi_list::network_items(nets, v, Some(ssid), uses_material);
        lemma_prompt_place(rest, v, ssid, uses_material);
        assert forall|k: int|
            0 <= k < items.len() && #[trigger] items[k] == ItemView::Password implies {
            &&& k > 0
            &&& items[k - 1] matches ItemView::Network(r)
            &&& r.title == ssid
            &&& ssid.len() > 0
            &&& exists|i: int| 0 <= i < nets.len() && (#[trigger] nets[i]).ssid == ssid
        } by {
            if k < before.len() {
                assert(items[k] == before[k]);
                assert(k > 0 ==> items[k - 1] == before[k - 1]);
                let i = choose|i: int| 0 <= i < rest.len() && (#[trigger] rest[i]).ssid == ssid;
                assert(nets[i] == rest[i]);
            } else {
                assert(k == before.len() + 1);
                assert(nets[nets.len() - 1] == n);
                assert(n.ssid == ssid);
            }
        }
    }
}

/// The networks are listed exactly while Wi-Fi is there, on and has been looked
/// at, and there is at least one. Otherwise the list says why it is empty, and
/// stays blank while another connection carries the traffic.
pub proof fn law_list_says_why_it_is_empty(
    v: NetworkView,
    target: Option<Seq<char>>,
    uses_material: bool,
)
    ensures
        ({
            let l = wifi_list::wifi_list(v, target, uses_material);
            let on = v.wifi_enabled == Some(true);
            &&& l is Items <==> v.has_wifi_device && on && v.is_ready && v.networks.len() > 0
            &&& l is Items ==> l == ListView::Items(
                wifi_list::all_items(v, target, uses_material),
            )
            &&& v.has_wifi_device && !on ==> l == (ListView::Disabled {
                icon: "network-wireless-offline-symbolic"@,
                text: "Wi-Fi is disabled"@,
            })
            &&& !v.has_wifi_device && !v.wired_connected && !v.mobile_active ==> l
                == (ListView::Disabled {
                icon: "network-offline-symbolic"@,
                text: "No network connections"@,
            })
            &&& l is Blank <==> !v.has_wifi_device && (v.wired_connected || v.mobile_active)
            &&& v.has_wifi_device && on && !v.is_ready ==> l == ListView::Placeholder(
                "Scanning for networks..."@,
            )
            &&& v.has_wifi_device && on && v.is_ready && v.networks.len() == 0 ==> l
                == ListView::Placeholder("No networks found"@)
        }),
{
}

} // verus!

//! The list of Wi-Fi networks: its rows, and what they do.

use vstd::prelude::*;
use vstd::string::*;

use crate::network;
use crate::network::{NetView, NetworkSnapshot, NetworkView, WifiNetwork, CONNECTION_FAILURE_REASON};
use crate::network_card;
use crate::network_card::{BULLET, WIFI_OFFLINE};
use crate::text;

verus! {

// ---------------------------------------------------------------------------
// What a row does
// ---------------------------------------------------------------------------

/// Something asked of the network service, or of the panel.
#[derive(Debug)]
pub enum NetworkCommand {
    Nothing,
    Disconnect,
    Connect { ssid: String, path: Option<String> },
    AskPassword { ssid: String },
    Forget { ssid: String, path: Option<String> },
}

pub enum CommandView {
    Nothing,
    Disconnect,
    Connect { ssid: Seq<char>, path: Option<Seq<char>> },
    AskPassword { ssid: Seq<char> },
    Forget { ssid: Seq<char>, path: Option<Seq<char>> },
}

impl View for NetworkCommand {
    type V = CommandView;

    open spec fn view(&self) -> CommandView {
        match self {
            NetworkCommand::Nothing => CommandView::Nothing,
            NetworkCommand::Disconnect => CommandView::Disconnect,
            NetworkCommand::Connect { ssid, path } => CommandView::Connect {
                ssid: ssid@,
                path: text::opt_string_view(*path),
            },
            NetworkCommand::AskPassword { ssid } => CommandView::AskPassword { ssid: ssid@ },
            NetworkCommand::Forget { ssid, path } => CommandView::Forget {
                ssid: ssid@,
                path: text::opt_string_view(*path),
            },
        }
    }
}

pub open spec fn connect_command(n: NetView) -> CommandView {
    CommandView::Connect { ssid: n.ssid, path: n.path }
}

pub open spec fn secured(n: NetView) -> bool {
    n.security == network::SecurityType::Secured
}

/// What activating a row does. A secured network that is not known is left to
/// its button.
pub open spec fn activation(n: NetView) -> CommandView {
    if n.active {
        CommandView::Disconnect
    } else if !secured(n) || n.known {
        connect_command(n)
    } else {
        CommandView::Nothing
    }
}

/// What the button of a network that is neither in use nor known does. iwd asks
/// for the password once it connects; NetworkManager needs it before.
pub open spec fn button_command(n: NetView, is_iwd: bool) -> CommandView {
    if secured(n) && !is_iwd {
        CommandView::AskPassword { ssid: n.ssid }
    } else {
        connect_command(n)
    }
}

fn connect_to(net: &WifiNetwork) -> (r: NetworkCommand)
    ensures
        r@ == connect_command(net@),
{
    NetworkCommand::Connect { ssid: net.ssid.clone(), path: text::clone_opt(&net.path) }
}

/// What activating a row does.
pub fn activate_row(net: &WifiNetwork) -> (r: NetworkCommand)
    ensures
        r@ == activation(net@),
{
    if net.active {
        NetworkCommand::Disconnect
    } else if !net.security.is_secured() || net.known {
        connect_to(net)
    } else {
        NetworkCommand::Nothing
    }
}

/// What the button of a network that is neither in use nor known does.
pub fn press_connect(net: &WifiNetwork, is_iwd: bool) -> (r: NetworkCommand)
    ensures
        r@ == button_command(net@, is_iwd),
{
    if net.security.is_secured() && !is_iwd {
        NetworkCommand::AskPassword { ssid: net.ssid.clone() }
    } else {
        connect_to(net)
    }
}

/// What stands at the end of a row.
#[derive(Debug, Clone, Copy, PartialEq, Eq, Structural)]
pub enum RowAction {
    /// Three dots while the network is being connected to.
    Waiting,
    ConnectButton,
    /// A menu: disconnect or connect, and forget.
    Menu { disconnect: bool, forget: bool },
}

/// What stands at the end of a row: a menu where there is more than one thing
/// to do.
pub open spec fn row_action(n: NetView) -> RowAction {
    if n.active || n.known {
        RowAction::Menu { disconnect: n.active, forget: n.known }
    } else {
        RowAction::ConnectButton
    }
}

/// What stands at the end of a row.
pub fn create_network_action_widget(net: &WifiNetwork) -> (r: RowAction)
    ensures
        r == row_action(net@),
{
    if net.active || net.known {
        RowAction::Menu { disconnect: net.active, forget: net.known }
    } else {
        RowAction::ConnectButton
    }
}

/// What the first entry of a row's menu does.
pub fn press_menu(net: &WifiNetwork) -> (r: NetworkCommand)
    ensures
        r@ == if net@.active {
            CommandView::Disconnect
        } else {
            connect_command(net@)
        },
{
    if net.active {
        NetworkCommand::Disconnect
    } else {
        connect_to(net)
    }
}

/// What the menu entry for forgetting does. The saved network has a path of
/// its own.
pub fn press_forget(net: &WifiNetwork) -> (r: NetworkCommand)
    ensures
        r@ == (CommandView::Forget { ssid: net@.ssid, path: net@.known_network_path }),
{
    NetworkCommand::Forget {
        ssid: net.ssid.clone(),
        path: text::clone_opt(&net.known_network_path),
    }
}

/// No password is ever asked for on behalf of an open or a known network by
/// activating its row.
pub proof fn law_activation_asks_for_no_password(n: NetView)
    ensures
        !(activation(n) is AskPassword),
        activation(n) is Nothing <==> secured(n) && !n.known && !n.active,
{
}

// ---------------------------------------------------------------------------
// Rows
// ---------------------------------------------------------------------------

/// The subtitle of a row.
#[derive(Debug)]
pub enum RowSubtitle {
    /// `Connected` in the accent colour, the extras behind it.
    Connected,
    /// The reason of a failure, the extras behind it.
    Failed(String),
    Plain(String),
}

pub enum RowSubtitleView {
    Connected,
    Failed(Seq<char>),
    Plain(Seq<char>),
}

impl View for RowSubtitle {
    type V = RowSubtitleView;

    open spec fn view(&self) -> RowSubtitleView {
        match self {
            RowSubtitle::Connected => RowSubtitleView::Connected,
            RowSubtitle::Failed(s) => RowSubtitleView::Failed(s@),
            RowSubtitle::Plain(s) => RowSubtitleView::Plain(s@),
        }
    }
}

/// A row of the list.
#[derive(Debug)]
pub struct WifiRow {
    pub title: String,
    pub connecting: bool,
    pub extras: Vec<String>,
    pub subtitle: RowSubtitle,
    pub icon: &'static str,
    /// The icon lies over a dimmed one of full strength.
    pub overlay: bool,
    pub accent: bool,
    pub action: RowAction,
    /// The row can be activated.
    pub activatable: bool,
}

pub struct WifiRowView {
    pub title: Seq<char>,
    pub connecting: bool,
    pub extras: Seq<Seq<char>>,
    pub subtitle: RowSubtitleView,
    pub icon: Seq<char>,
    pub overlay: bool,
    pub accent: bool,
    pub action: RowAction,
    pub activatable: bool,
}

impl View for WifiRow {
    type V = WifiRowView;

    open spec fn view(&self) -> WifiRowView {
        WifiRowView {
            title: self.title@,
            connecting: self.connecting,
            extras: text::string_views(self.extras@),
            subtitle: self.subtitle@,
            icon: self.icon@,
            overlay: self.overlay,
            accent: self.accent,
            action: self.action,
            activatable: self.activatable,
        }
    }
}

/// What is said of a network besides its name. `Saved` is left out while it is
/// being connected to: it may have been saved for that only.
pub open spec fn row_extras(n: NetView, connecting: bool) -> Seq<Seq<char>> {
    (if connecting {
        seq!["Connecting..."@]
    } else {
        Seq::empty()
    }) + (if secured(n) {
        seq!["Secured"@]
    } else {
        Seq::empty()
    }) + (if n.known && !connecting {
        seq!["Saved"@]
    } else {
        Seq::empty()
    }) + seq![text::dec_int(n.strength as int) + "%"@]
}

pub open spec fn row_subtitle(n: NetView, v: NetworkView, connecting: bool) -> RowSubtitleView {
    if n.active && !connecting {
        RowSubtitleView::Connected
    } else if v.failed_ssid == Some(n.ssid) {
        RowSubtitleView::Failed(
            match v.failed_reason {
                Some(r) => r,
                None => CONNECTION_FAILURE_REASON@,
            },
        )
    } else {
        RowSubtitleView::Plain(text::join_spec(row_extras(n, connecting), BULLET@))
    }
}

/// The row of a network.
pub open spec fn row_of(n: NetView, v: NetworkView, uses_material: bool) -> WifiRowView {
    let connecting = v.connecting_ssid == Some(n.ssid);
    WifiRowView {
        title: n.ssid,
        connecting,
        extras: row_extras(n, connecting),
        subtitle: row_subtitle(n, v, connecting),
        icon: network_card::wifi_icon(n.strength as int),
        overlay: !connecting && uses_material && n.strength < 70,
        accent: n.active || connecting,
        action: if connecting {
            RowAction::Waiting
        } else {
            row_action(n)
        },
        activatable: !connecting,
    }
}

fn extras_of(net: &WifiNetwork, connecting: bool) -> (r: Vec<String>)
    ensures
        text::string_views(r@) == row_extras(net@, connecting),
{
    let ghost n = net@;
    let mut r: Vec<String> = Vec::new();
    assert(text::string_views(r@) =~= Seq::<Seq<char>>::empty());
    if connecting {
        r.push("Connecting...".to_string());
        assert(text::string_views(r@) =~= seq!["Connecting..."@]);
    }
    let ghost a = text::string_views(r@);
    if net.security.is_secured() {
        r.push("Secured".to_string());
        assert(text::string_views(r@) =~= a + seq!["Secured"@]);
    } else {
        assert(a + Seq::<Seq<char>>::empty() =~= a);
    }
    let ghost b = text::string_views(r@);
    if net.known && !connecting {
        r.push("Saved".to_string());
        assert(text::string_views(r@) =~= b + seq!["Saved"@]);
    } else {
        assert(b + Seq::<Seq<char>>::empty() =~= b);
    }
    let ghost c = text::string_views(r@);
    let mut t = text::decimal_signed(net.strength);
    t.append("%");
    let ghost tv = t@;
    r.push(t);
    assert(text::string_views(r@) =~= c + seq![tv]);
    r
}

fn is_ssid(a: Option<&str>, b: &str) -> (r: bool)
    ensures
        r == (text::opt_view(a) == Some(b@)),
{
    match a {
        Some(x) => text::str_eq(x, b),
        None => false,
    }
}

fn build_row(net: &WifiNetwork, snapshot: &NetworkSnapshot, uses_material: bool) -> (r: WifiRow)
    ensures
        r@ == row_of(net@, snapshot@, uses_material),
{
    let connecting = is_ssid(snapshot.connecting_ssid(), net.ssid.as_str());
    let extras = extras_of(net, connecting);
    let subtitle = if net.active && !connecting {
        RowSubtitle::Connected
    } else if is_ssid(snapshot.failed_ssid(), net.ssid.as_str()) {
        RowSubtitle::Failed(
            match snapshot.failed_reason() {
                Some(s) => s.to_string(),
                None => CONNECTION_FAILURE_REASON.to_string(),
            },
        )
    } else {
        RowSubtitle::Plain(text::join(&extras, BULLET))
    };
    let action = if connecting {
        RowAction::Waiting
    } else {
        create_network_action_widget(net)
    };
    WifiRow {
        title: net.ssid.clone(),
        connecting,
        extras,
        subtitle,
        icon: network_card::wifi_strength_icon(net.strength),
        overlay: !connecting && uses_material && net.strength < 70,
        accent: net.active || connecting,
        action,
        activatable: !connecting,
    }
}

// ---------------------------------------------------------------------------
// The list
// ---------------------------------------------------------------------------

#[derive(Debug)]
pub enum ListItem {
    Network(WifiRow),
    /// The prompt for a password.
    Password,
}

pub enum ItemView {
    Network(WifiRowView),
    Password,
}

impl View for ListItem {
    type V = ItemView;

    open spec fn view(&self) -> ItemView {
        match self {
            ListItem::Network(r) => ItemView::Network(r@),
            ListItem::Password => ItemView::Password,
        }
    }
}

pub open spec fn item_views(v: Seq<ListItem>) -> Seq<ItemView> {
    v.map_values(|i: ListItem| i@)
}

#[derive(Debug)]
pub enum WifiList {
    /// Nothing: the wire or the modem carries the traffic.
    Blank,
    /// An icon and a text for something switched off or missing.
    Disabled { icon: &'static str, text: &'static str },
    Placeholder(&'static str),
    Items(Vec<ListItem>),
}

pub enum ListView {
    Blank,
    Disabled { icon: Seq<char>, text: Seq<char> },
    Placeholder(Seq<char>),
    Items(Seq<ItemView>),
}

impl View for WifiList {
    type V = ListView;

    open spec fn view(&self) -> ListView {
        match self {
            WifiList::Blank => ListView::Blank,
            WifiList::Disabled { icon, text } => ListView::Disabled { icon: icon@, text: text@ },
            WifiList::Placeholder(t) => ListView::Placeholder(t@),
            WifiList::Items(i) => ListView::Items(item_views(i@)),
        }
    }
}

/// Whether a password is asked for on behalf of this network.
pub open spec fn prompts(target: Option<Seq<char>>, ssid: Seq<char>) -> bool {
    target == Some(ssid) && ssid.len() > 0
}

/// The rows of networks, the prompt under the network it is for.
pub open spec fn network_items(
    nets: Seq<NetView>,
    v: NetworkView,
    target: Option<Seq<char>>,
    uses_material: bool,
) -> Seq<ItemView>
    decreases nets.len(),
{
    if nets.len() == 0 {
        Seq::empty()
    } else {
        let n = nets.last();
        let rows = network_items(nets.drop_last(), v, target, uses_material).push(
            ItemView::Network(row_of(n, v, uses_material)),
        );
        if prompts(target, n.ssid) {
            rows.push(ItemView::Password)
        } else {
            rows
        }
    }
}

pub open spec fn target_listed(nets: Seq<NetView>, target: Option<Seq<char>>) -> bool {
    exists|i: int| 0 <= i < nets.len() && prompts(target, (#[trigger] nets[i]).ssid)
}

/// A prompt for a network that is not listed stands at the end.
pub open spec fn all_items(
    v: NetworkView,
    target: Option<Seq<char>>,
    uses_material: bool,
) -> Seq<ItemView> {
    let items = network_items(v.networks, v, target, uses_material);
    match target {
        Some(t) => if t.len() > 0 && !target_listed(v.networks, target) {
            items.push(ItemView::Password)
        } else {
            items
        },
        None => items,
    }
}

/// The list of Wi-Fi networks.
pub open spec fn wifi_list(
    v: NetworkView,
    target: Option<Seq<char>>,
    uses_material: bool,
) -> ListView {
    if !network_card::wifi_on(v) || !v.has_wifi_device {
        if v.has_wifi_device {
            ListView::Disabled { icon: WIFI_OFFLINE@, text: "Wi-Fi is disabled"@ }
        } else if !v.wired_connected && !v.mobile_active {
            ListView::Disabled {
                icon: "network-offline-symbolic"@,
                text: "No network connections"@,
            }
        } else {
            ListView::Blank
        }
    } else if !v.is_ready {
        ListView::Placeholder("Scanning for networks..."@)
    } else if v.networks.len() == 0 {
        ListView::Placeholder("No networks found"@)
    } else {
        ListView::Items(all_items(v, target, uses_material))
    }
}

fn build_items(snapshot: &NetworkSnapshot, target: Option<&str>, uses_material: bool) -> (r: Vec<
    ListItem,
>)
    ensures
        item_views(r@) == all_items(snapshot@, text::opt_view(target), uses_material),
{
    let ghost v = snapshot@;
    let ghost t = text::opt_view(target);
    let nets = snapshot.networks();
    let ghost views = network::net_views(nets@);
    let mut items: Vec<ListItem> = Vec::new();
    assert(item_views(items@) =~= Seq::<ItemView>::empty());
    let mut inserted = false;
    let mut i: usize = 0;
    while i < nets.len()
        invariant
            i <= nets.len(),
            v == snapshot@,
            t == text::opt_view(target),
            views == network::net_views(nets@),
            item_views(items@) == network_items(views.take(i as int), v, t, uses_material),
            inserted == target_listed(views.take(i as int), t),
        decreases nets.len() - i,
    {
        proof {
            assert(views.take(i + 1).drop_last() =~= views.take(i as int));
            assert(views.take(i + 1).last() == nets@[i as int]@);
        }
        let net = &nets[i];
        let ghost before = items@;
        let row = build_row(net, snapshot, uses_material);
        let ghost rv = row@;
        items.push(ListItem::Network(row));
        assert(item_views(items@) =~= item_views(before).push(ItemView::Network(rv)));
        let ghost with_row = items@;
        let wanted = is_ssid(target, net.ssid.as_str()) && net.ssid.as_str().unicode_len() > 0;
        assert(wanted == prompts(t, net@.ssid));
        if wanted {
            items.push(ListItem::Password);
            assert(item_views(items@) =~= item_views(with_row).push(ItemView::Password));
        }
        proof {
            let next = views.take(i + 1);
            assert(next[i as int].ssid == net@.ssid);
            assert forall|j: int| 0 <= j < i implies next[j] == views.take(i as int)[j] by {}
            if inserted {
                let j = choose|j: int|
                    0 <= j < i && prompts(t, (#[trigger] views.take(i as int)[j]).ssid);
                assert(prompts(t, next[j].ssid));
            }
            if wanted {
                assert(prompts(t, next[i as int].ssid));
            }
            if target_listed(next, t) && !wanted {
                let j = choose|j: int| 0 <= j < next.len() && prompts(t, (#[trigger] next[j]).ssid);
                assert(prompts(t, views.take(i as int)[j].ssid));
            }
        }
        if wanted {
            inserted = true;
        }
        i += 1;
    }
    assert(views.take(nets@.len() as int) =~= views);
    if let Some(s) = target {
        if s.unicode_len() > 0 && !inserted {
            let ghost before = items@;
            items.push(ListItem::Password);
            assert(item_views(items@) =~= item_views(before).push(ItemView::Password));
        }
    }
    items
}

/// The list of Wi-Fi networks. `target` is the network that a password is
/// asked for.
pub fn populate_wifi_list(
    snapshot: &NetworkSnapshot,
    target: Option<&str>,
    uses_material: bool,
) -> (r: WifiList)
    ensures
        r@ == wifi_list(snapshot@, text::opt_view(target), uses_material),
{
    let enabled = match snapshot.wifi_enabled() {
        Some(b) => b,
        None => false,
    };
    let has_wifi = snapshot.has_wifi_device();
    if !enabled || !has_wifi {
        return if has_wifi {
            WifiList::Disabled { icon: WIFI_OFFLINE, text: "Wi-Fi is disabled" }
        } else if !snapshot.wired_connected() && !snapshot.mobile_active() {
            WifiList::Disabled { icon: "network-offline-symbolic", text: "No network connections" }
        } else {
            WifiList::Blank
        };
    }
    if !snapshot.is_ready() {
        return WifiList::Placeholder("Scanning for networks...");
    }
    if snapshot.networks().len() == 0 {
        return WifiList::Placeholder("No networks found");
    }
    WifiList::Items(build_items(snapshot, target, uses_material))
}

/// Whether the list holds the prompt.
pub open spec fn has_prompt(l: ListView) -> bool {
    l matches ListView::Items(items) && items.contains(ItemView::Password)
}

proof fn lemma_prompt_under_network(
    nets: Seq<NetView>,
    v: NetworkView,
    target: Option<Seq<char>>,
    uses_material: bool,
)
    ensures
        network_items(nets, v, target, uses_material).contains(ItemView::Password)
            == target_listed(nets, target),
    decreases nets.len(),
{
    let items = network_items(nets, v, target, uses_material);
    if nets.len() > 0 {
        let rest = nets.drop_last();
        lemma_prompt_under_network(rest, v, target, uses_material);
        let before = network_items(rest, v, target, uses_material);
        let row = ItemView::Network(row_of(nets.last(), v, uses_material));
        let k = nets.len() - 1;
        if prompts(target, nets.last().ssid) {
            assert(prompts(target, nets[k].ssid));
            assert(items[items.len() - 1] == ItemView::Password);
        } else {
            assert(items =~= before.push(row));
            if target_listed(rest, target) {
                let j = choose|j: int| 0 <= j < rest.len() && prompts(target, (#[trigger] rest[j]).ssid);
                assert(prompts(target, nets[j].ssid));
                let m = choose|m: int| 0 <= m < before.len() && before[m] == ItemView::Password;
                assert(items[m] == ItemView::Password);
            }
            if target_listed(nets, target) {
                let j = choose|j: int| 0 <= j < nets.len() && prompts(target, (#[trigger] nets[j]).ssid);
                assert(prompts(target, rest[j].ssid));
            }
            if items.contains(ItemView::Password) {
                let m = choose|m: int| 0 <= m < items.len() && items[m] == ItemView::Password;
                assert(before[m] == ItemView::Password);
            }
        }
    }
}

/// Wherever networks are listed, the prompt is in the list exactly while a
/// password is asked for.
pub proof fn law_prompt_is_shown_while_wanted(
    v: NetworkView,
    target: Option<Seq<char>>,
    uses_material: bool,
)
    requires
        wifi_list(v, target, uses_material) is Items,
    ensures
        has_prompt(wifi_list(v, target, uses_material)) <==> (target matches Some(t)
            && t.len() > 0),
{
    let items = network_items(v.networks, v, target, uses_material);
    lemma_prompt_under_network(v.networks, v, target, uses_material);
    let all = all_items(v, target, uses_material);
    if target is Some && target->0.len() > 0 && !target_listed(v.networks, target) {
        assert(all[all.len() - 1] == ItemView::Password);
    }
}

} // verus!

//! The Quick Settings panel: its content, its place, how it opens and closes.

use vstd::prelude::*;
use vstd::string::*;

use crate::bar_widget::{
    AudioSnapshot, BluetoothDevice, BluetoothSnapshot, QuickSettingsCardsConfig,
    QuickSettingsConfig, ToggleAt,
};
use crate::layer_shell_popover;
use crate::layer_shell_popover::{
    AfterMap, AnimDirection, AnimState, BarGeometry, Segment, Tick,
};
use crate::network;
use crate::network::{NetworkSnapshot, NetworkView};
use crate::network_card;
use crate::password_dialog;
use crate::password_dialog::{DialogEffect, PasswordDialog};
use crate::text;
use crate::vpn_card;
use crate::vpn_card::{VpnAuthDialog, VpnSnapshot};

verus! {

pub const CONTENT_WIDTH: i32 = 320;

/// The padding of the surface on both sides together.
pub const POPOVER_PADDING: i32 = 32;

/// The room around the panel for its shadow.
pub const OUTER_MARGIN: i32 = 4;

pub const FAR_EDGE_MARGIN: i32 = 8;

pub const CONTAINER_PADDING: i32 = 24;

/// A panel that could not be higher than this is not limited.
pub const MIN_HEIGHT_THRESHOLD: i32 = 100;

pub const MIN_EDGE_MARGIN: i32 = 4;

/// The margin from the right edge where the anchor is unknown.
pub const DEFAULT_RIGHT_MARGIN: i32 = 8;

pub const CARD_ROW_SPACING: i32 = 8;

pub const CARD_ROW_GAP: i32 = 8;

pub const AUDIO_SECTION_TOP_MARGIN: i32 = 12;

/// How long a card takes to unfold, in milliseconds.
pub const CARD_REVEAL_MS: u32 = 250;

/// How long the lists of sound devices take to unfold, in milliseconds.
pub const AUDIO_REVEAL_MS: u32 = 200;

// ---------------------------------------------------------------------------
// The content
// ---------------------------------------------------------------------------

#[derive(Debug, Clone, Copy, PartialEq, Eq, Structural)]
pub enum CardKind {
    Network,
    Bluetooth,
    Vpn,
    IdleInhibitor,
    Updates,
    Power,
}

/// What the panel is built for.
#[derive(Debug, Clone, Copy, PartialEq, Eq, Structural)]
pub struct Surroundings {
    pub vpn_available: bool,
    pub brightness_available: bool,
    /// The power card unfolds; otherwise it opens a popover.
    pub power_expands: bool,
}

pub open spec fn card_order() -> Seq<CardKind> {
    seq![
        CardKind::Network,
        CardKind::Bluetooth,
        CardKind::Vpn,
        CardKind::IdleInhibitor,
        CardKind::Updates,
        CardKind::Power,
    ]
}

/// Whether a card is in the panel. The VPN card takes a VPN service.
pub open spec fn card_shown(
    cfg: QuickSettingsCardsConfig,
    around: Surroundings,
    kind: CardKind,
) -> bool {
    match kind {
        CardKind::Network => cfg.network,
        CardKind::Bluetooth => cfg.bluetooth,
        CardKind::Vpn => cfg.vpn && around.vpn_available,
        CardKind::IdleInhibitor => cfg.idle_inhibitor,
        CardKind::Updates => cfg.updates,
        CardKind::Power => cfg.power,
    }
}

/// The cards of the panel, in order.
pub open spec fn cards_of(cfg: QuickSettingsCardsConfig, around: Surroundings) -> Seq<CardKind> {
    card_order().filter(|k: CardKind| card_shown(cfg, around, k))
}

/// Whether a card unfolds.
pub open spec fn card_expands(around: Surroundings, kind: CardKind) -> bool {
    match kind {
        CardKind::IdleInhibitor => false,
        CardKind::Power => around.power_expands,
        _ => true,
    }
}

/// A piece of the panel, from top to bottom.
#[derive(Debug, Clone, Copy, PartialEq, Eq, Structural)]
pub enum ContentItem {
    /// One or two cards. A card alone has an empty place beside it. The cards of
    /// a row unfold one at a time.
    Row { left: CardKind, right: Option<CardKind>, margin_top: i32 },
    /// What a card of the row above unfolds to.
    Details(CardKind),
    AudioRow { margin_top: i32 },
    AudioHint,
    AudioDetails,
    MicRow,
    MicHint,
    MicDetails,
    BrightnessRow,
}

pub open spec fn details_of(around: Surroundings, kind: Option<CardKind>) -> Seq<ContentItem> {
    match kind {
        Some(k) => if card_expands(around, k) {
            seq![ContentItem::Details(k)]
        } else {
            Seq::empty()
        },
        None => Seq::empty(),
    }
}

/// The cards, two in a row, the details of both under them.
pub open spec fn rows_of(cards: Seq<CardKind>, first: bool, around: Surroundings) -> Seq<
    ContentItem,
>
    decreases cards.len(),
{
    if cards.len() == 0 {
        Seq::empty()
    } else {
        let left = cards[0];
        let right = if cards.len() > 1 {
            Some(cards[1])
        } else {
            None
        };
        let row = ContentItem::Row {
            left,
            right,
            margin_top: if first {
                0
            } else {
                CARD_ROW_SPACING
            },
        };
        let rest = if cards.len() > 1 {
            cards.skip(2)
        } else {
            Seq::empty()
        };
        seq![row] + details_of(around, Some(left)) + details_of(around, right) + rows_of(
            rest,
            false,
            around,
        )
    }
}

/// The sliders under the cards.
pub open spec fn sliders_of(cfg: QuickSettingsCardsConfig, around: Surroundings) -> Seq<
    ContentItem,
> {
    (if cfg.audio {
        seq![
            ContentItem::AudioRow { margin_top: AUDIO_SECTION_TOP_MARGIN },
            ContentItem::AudioHint,
            ContentItem::AudioDetails,
        ]
    } else {
        Seq::empty()
    }) + (if cfg.mic {
        seq![ContentItem::MicRow, ContentItem::MicHint, ContentItem::MicDetails]
    } else {
        Seq::empty()
    }) + (if cfg.brightness && around.brightness_available {
        seq![ContentItem::BrightnessRow]
    } else {
        Seq::empty()
    })
}

pub open spec fn content_of(cfg: QuickSettingsCardsConfig, around: Surroundings) -> Seq<
    ContentItem,
> {
    rows_of(cards_of(cfg, around), true, around) + sliders_of(cfg, around)
}

fn shows_card(cfg: &QuickSettingsCardsConfig, around: &Surroundings, kind: CardKind) -> (r: bool)
    ensures
        r == card_shown(*cfg, *around, kind),
{
    match kind {
        CardKind::Network => cfg.network,
        CardKind::Bluetooth => cfg.bluetooth,
        CardKind::Vpn => cfg.vpn && around.vpn_available,
        CardKind::IdleInhibitor => cfg.idle_inhibitor,
        CardKind::Updates => cfg.updates,
        CardKind::Power => cfg.power,
    }
}

fn expands(around: &Surroundings, kind: CardKind) -> (r: bool)
    ensures
        r == card_expands(*around, kind),
{
    match kind {
        CardKind::IdleInhibitor => false,
        CardKind::Power => around.power_expands,
        _ => true,
    }
}

fn shown_cards(cfg: &QuickSettingsCardsConfig, around: &Surroundings) -> (r: Vec<CardKind>)
    ensures
        r@ == cards_of(*cfg, *around),
{
    let order: Vec<CardKind> = vec![
        CardKind::Network,
        CardKind::Bluetooth,
        CardKind::Vpn,
        CardKind::IdleInhibitor,
        CardKind::Updates,
        CardKind::Power,
    ];
    let ghost wanted = |k: CardKind| card_shown(*cfg, *around, k);
    assert(order@ =~= card_order());
    let mut r: Vec<CardKind> = Vec::new();
    let mut i: usize = 0;
    proof {
        reveal_with_fuel(Seq::filter, 1);
        assert(order@.take(0) =~= Seq::<CardKind>::empty());
    }
    while i < order.len()
        invariant
            i <= order.len(),
            wanted == (|k: CardKind| card_shown(*cfg, *around, k)),
            r@ == order@.take(i as int).filter(wanted),
        decreases order.len() - i,
    {
        proof {
            reveal_with_fuel(Seq::filter, 1);
            assert(order@.take(i + 1).drop_last() =~= order@.take(i as int));
        }
        if shows_card(cfg, around, order[i]) {
            r.push(order[i]);
        }
        i += 1;
    }
    assert(order@.take(i as int) =~= order@);
    r
}

fn build_rows(cards: &Vec<CardKind>, around: &Surroundings) -> (r: Vec<ContentItem>)
    ensures
        r@ == rows_of(cards@, true, *around),
{
    let mut r: Vec<ContentItem> = Vec::new();
    let mut i: usize = 0;
    assert(cards@.skip(0) =~= cards@);
    assert(r@ + rows_of(cards@, true, *around) =~= rows_of(cards@, true, *around));
    while i < cards.len()
        invariant
            i <= cards.len(),
            r@ + rows_of(cards@.skip(i as int), i == 0, *around) == rows_of(cards@, true, *around),
        decreases cards.len() - i,
    {
        let ghost rest = cards@.skip(i as int);
        let ghost before = r@;
        let left = cards[i];
        let two = cards.len() - i > 1;
        let right = if two {
            Some(cards[i + 1])
        } else {
            None
        };
        let margin_top: i32 = if i == 0 {
            0
        } else {
            CARD_ROW_SPACING
        };
        let row = ContentItem::Row { left, right, margin_top };
        r.push(row);
        if expands(around, left) {
            r.push(ContentItem::Details(left));
        }
        assert(r@ =~= before + (seq![row] + details_of(*around, Some(left))));
        let ghost with_left = r@;
        if let Some(k) = right {
            if expands(around, k) {
                r.push(ContentItem::Details(k));
            }
        }
        assert(r@ =~= with_left + details_of(*around, right));
        let step: usize = if two {
            2
        } else {
            1
        };
        proof {
            let after = if rest.len() > 1 {
                rest.skip(2)
            } else {
                Seq::empty()
            };
            assert(after =~= cards@.skip(i + step));
            let tail = rows_of(after, false, *around);
            assert(rows_of(rest, i == 0, *around) =~= seq![row] + details_of(*around, Some(left))
                + details_of(*around, right) + tail);
            assert(r@ + tail =~= before + rows_of(rest, i == 0, *around));
        }
        i += step;
    }
    assert(cards@.skip(i as int) =~= Seq::<CardKind>::empty());
    assert(r@ + Seq::<ContentItem>::empty() =~= r@);
    r
}

/// The pieces of the panel, from top to bottom.
pub fn build_content(cfg: &QuickSettingsCardsConfig, around: &Surroundings) -> (r: Vec<ContentItem>)
    ensures
        r@ == content_of(*cfg, *around),
{
    let cards = shown_cards(cfg, around);
    let mut r = build_rows(&cards, around);
    let ghost rows = r@;
    if cfg.audio {
        r.push(ContentItem::AudioRow { margin_top: AUDIO_SECTION_TOP_MARGIN });
        r.push(ContentItem::AudioHint);
        r.push(ContentItem::AudioDetails);
    }
    if cfg.mic {
        r.push(ContentItem::MicRow);
        r.push(ContentItem::MicHint);
        r.push(ContentItem::MicDetails);
    }
    if cfg.brightness && around.brightness_available {
        r.push(ContentItem::BrightnessRow);
    }
    assert(r@ =~= rows + sliders_of(*cfg, *around));
    r
}

/// The cards that stand in the rows of a panel.
pub open spec fn placed(items: Seq<ContentItem>) -> Seq<CardKind>
    decreases items.len(),
{
    if items.len() == 0 {
        Seq::empty()
    } else {
        (match items[0] {
            ContentItem::Row { left, right, .. } => match right {
                Some(r) => seq![left, r],
                None => seq![left],
            },
            _ => Seq::empty(),
        }) + placed(items.drop_first())
    }
}

proof fn lemma_placed_concat(a: Seq<ContentItem>, b: Seq<ContentItem>)
    ensures
        placed(a + b) == placed(a) + placed(b),
    decreases a.len(),
{
    if a.len() == 0 {
        assert(a + b =~= b);
        assert(placed(a) + placed(b) =~= placed(b));
    } else {
        lemma_placed_concat(a.drop_first(), b);
        assert((a + b).drop_first() =~= a.drop_first() + b);
        assert((a + b)[0] == a[0]);
        assert(placed(a + b) =~= placed(a) + placed(b));
    }
}

proof fn lemma_details_place_nothing(around: Surroundings, kind: Option<CardKind>)
    ensures
        placed(details_of(around, kind)) == Seq::<CardKind>::empty(),
{
    reveal_with_fuel(placed, 2);
    let d = details_of(around, kind);
    if d.len() > 0 {
        assert(d.drop_first() =~= Seq::<ContentItem>::empty());
        assert(placed(d) =~= Seq::<CardKind>::empty());
    }
}

/// Every card stands in exactly one row, in order.
pub proof fn law_every_card_has_its_place(
    cards: Seq<CardKind>,
    first: bool,
    around: Surroundings,
)
    ensures
        placed(rows_of(cards, first, around)) == cards,
    decreases cards.len(),
{
    if cards.len() == 0 {
        assert(placed(rows_of(cards, first, around)) =~= cards);
    } else {
        let left = cards[0];
        let right = if cards.len() > 1 {
            Some(cards[1])
        } else {
            None
        };
        let row = ContentItem::Row {
            left,
            right,
            margin_top: if first {
                0
            } else {
                CARD_ROW_SPACING
            },
        };
        let rest = if cards.len() > 1 {
            cards.skip(2)
        } else {
            Seq::empty()
        };
        law_every_card_has_its_place(rest, false, around);
        let head = seq![row];
        let a = head + details_of(around, Some(left));
        let b = a + details_of(around, right);
        lemma_placed_concat(head, details_of(around, Some(left)));
        lemma_placed_concat(a, details_of(around, right));
        lemma_placed_concat(b, rows_of(rest, false, around));
        lemma_details_place_nothing(around, Some(left));
        lemma_details_place_nothing(around, right);
        reveal_with_fuel(placed, 2);
        assert(head.drop_first() =~= Seq::<ContentItem>::empty());
        let here = match right {
            Some(r) => seq![left, r],
            None => seq![left],
        };
        assert(placed(head) =~= here);
        assert(placed(b) =~= here);
        assert(here + rest =~= cards);
    }
}

/// The services that the panel listens to.
#[derive(Debug, Clone, Copy, PartialEq, Eq, Structural)]
pub enum Subscription {
    Network,
    Bluetooth,
    Vpn,
    IdleInhibitor,
    AudioOutput,
    AudioMic,
    Brightness,
    Updates,
}

pub open spec fn listens_to(cfg: QuickSettingsCardsConfig, s: Subscription) -> bool {
    match s {
        Subscription::Network => cfg.network,
        Subscription::Bluetooth => cfg.bluetooth,
        Subscription::Vpn => cfg.vpn,
        Subscription::IdleInhibitor => cfg.idle_inhibitor,
        Subscription::AudioOutput => cfg.audio,
        Subscription::AudioMic => cfg.mic,
        Subscription::Brightness => cfg.brightness,
        Subscription::Updates => cfg.updates,
    }
}

pub open spec fn subscription_order() -> Seq<Subscription> {
    seq![
        Subscription::Network,
        Subscription::Bluetooth,
        Subscription::Vpn,
        Subscription::IdleInhibitor,
        Subscription::AudioOutput,
        Subscription::AudioMic,
        Subscription::Brightness,
        Subscription::Updates,
    ]
}

pub open spec fn subscriptions_of(cfg: QuickSettingsCardsConfig) -> Seq<Subscription> {
    subscription_order().filter(|s: Subscription| listens_to(cfg, s))
}

fn is_subscribed(cfg: &QuickSettingsCardsConfig, s: Subscription) -> (r: bool)
    ensures
        r == listens_to(*cfg, s),
{
    match s {
        Subscription::Network => cfg.network,
        Subscription::Bluetooth => cfg.bluetooth,
        Subscription::Vpn => cfg.vpn,
        Subscription::IdleInhibitor => cfg.idle_inhibitor,
        Subscription::AudioOutput => cfg.audio,
        Subscription::AudioMic => cfg.mic,
        Subscription::Brightness => cfg.brightness,
        Subscription::Updates => cfg.updates,
    }
}

/// The services that the panel listens to, in the order in which it begins to.
pub fn subscribe_to_services(cfg: &QuickSettingsCardsConfig) -> (r: Vec<Subscription>)
    ensures
        r@ == subscriptions_of(*cfg),
{
    let order: Vec<Subscription> = vec![
        Subscription::Network,
        Subscription::Bluetooth,
        Subscription::Vpn,
        Subscription::IdleInhibitor,
        Subscription::AudioOutput,
        Subscription::AudioMic,
        Subscription::Brightness,
        Subscription::Updates,
    ];
    let ghost wanted = |s: Subscription| listens_to(*cfg, s);
    assert(order@ =~= subscription_order());
    let mut r: Vec<Subscription> = Vec::new();
    let mut i: usize = 0;
    proof {
        reveal_with_fuel(Seq::filter, 1);
        assert(order@.take(0) =~= Seq::<Subscription>::empty());
    }
    while i < order.len()
        invariant
            i <= order.len(),
            wanted == (|s: Subscription| listens_to(*cfg, s)),
            r@ == order@.take(i as int).filter(wanted),
        decreases order.len() - i,
    {
        proof {
            reveal_with_fuel(Seq::filter, 1);
            assert(order@.take(i + 1).drop_last() =~= order@.take(i as int));
        }
        if is_subscribed(cfg, order[i]) {
            r.push(order[i]);
        }
        i += 1;
    }
    assert(order@.take(i as int) =~= order@);
    r
}

/// How long what a card unfolds to takes, with animations.
pub fn reveal_duration(item: ContentItem, animations: bool) -> (r: Option<u32>)
    ensures
        r == match item {
            ContentItem::Details(_) => Some(
                if animations {
                    CARD_REVEAL_MS
                } else {
                    0
                },
            ),
            ContentItem::AudioDetails | ContentItem::MicDetails => Some(
                if animations {
                    AUDIO_REVEAL_MS
                } else {
                    0
                },
            ),
            _ => None,
        },
{
    match item {
        ContentItem::Details(_) => Some(
            if animations {
                CARD_REVEAL_MS
            } else {
                0
            },
        ),
        ContentItem::AudioDetails | ContentItem::MicDetails => Some(
            if animations {
                AUDIO_REVEAL_MS
            } else {
                0
            },
        ),
        _ => None,
    }
}

/// The subtitle of the power card.
pub fn power_subtitle(expanded: bool) -> (r: &'static str)
    ensures
        r@ == if expanded {
            "Hold to confirm"@
        } else {
            "Hold to shut down"@
        },
{
    if expanded {
        "Hold to confirm"
    } else {
        "Hold to shut down"
    }
}

/// What a slider asks for: nothing while it is only brought in line with the
/// service.
pub fn slider_request(updating: bool, value: u32) -> (r: Option<u32>)
    ensures
        r == if updating {
            None
        } else {
            Some(value)
        },
{
    if updating {
        None
    } else {
        Some(value)
    }
}

// ---------------------------------------------------------------------------
// The cards as they are built
// ---------------------------------------------------------------------------

/// The network card as it is built.
#[derive(Debug, Clone, Copy)]
pub struct InitialNetworkCard {
    pub icon: &'static str,
    pub title: &'static str,
    pub toggle_active: bool,
    pub toggle_sensitive: bool,
    pub icon_active: bool,
    pub disabled: bool,
    pub spinning: bool,
}

impl InitialNetworkCard {
    pub open spec fn shows(self, v: NetworkView, uses_material: bool) -> bool {
        &&& self.icon@ == network_card::card_icon(v, uses_material)
        &&& self.title@ == if network::has_other_device(v) {
            "Network"@
        } else {
            "Wi-Fi"@
        }
        &&& self.toggle_active == network_card::wifi_on(v)
        &&& self.toggle_sensitive == v.has_wifi_device
        &&& self.icon_active == network_card::card_active(v)
        &&& self.disabled == (!v.mobile_active && network_card::card_disabled(v, uses_material))
        &&& self.spinning == (network::wifi_connecting_of(v) || v.mobile_connecting)
    }
}

/// The network card as it is built.
pub fn build_network_card(snapshot: &NetworkSnapshot, uses_material: bool) -> (r:
    InitialNetworkCard)
    ensures
        r.shows(snapshot@, uses_material),
{
    let enabled = match snapshot.wifi_enabled() {
        Some(on) => on,
        None => false,
    };
    let wired = snapshot.wired_connected();
    let mobile = snapshot.mobile_active();
    let one = network_card::is_material_unified(snapshot, uses_material);
    let showing_wifi = !one || (!mobile && !snapshot.mobile_connecting());
    InitialNetworkCard {
        icon: network_card::resolve_material_network_icon(snapshot, uses_material),
        title: if snapshot.has_non_wifi_device() {
            "Network"
        } else {
            "Wi-Fi"
        },
        toggle_active: enabled,
        toggle_sensitive: snapshot.has_wifi_device(),
        icon_active: (enabled && snapshot.connected()) || wired || mobile,
        disabled: !enabled && !wired && !mobile && showing_wifi,
        spinning: snapshot.wifi_connecting() || snapshot.mobile_connecting(),
    }
}

/// The first connected device.
pub open spec fn first_connected(devices: Seq<BluetoothDevice>) -> Option<Seq<char>>
    decreases devices.len(),
{
    if devices.len() == 0 {
        None
    } else if devices[0].connected {
        Some(devices[0].name@)
    } else {
        first_connected(devices.drop_first())
    }
}

pub open spec fn bluetooth_subtitle_of(s: BluetoothSnapshot) -> Seq<char> {
    if !s.has_adapter {
        "Unavailable"@
    } else if !s.is_ready {
        "Bluetooth"@
    } else if s.connected_devices == 1 {
        match first_connected(s.devices@) {
            Some(n) => n,
            None => "Bluetooth"@,
        }
    } else if s.connected_devices > 1 {
        text::dec(s.connected_devices as nat) + " connected"@
    } else if s.powered {
        "Enabled"@
    } else {
        "Disabled"@
    }
}

fn find_connected(devices: &Vec<BluetoothDevice>) -> (r: Option<String>)
    ensures
        text::opt_string_view(r) == first_connected(devices@),
{
    let mut i: usize = 0;
    assert(devices@.skip(0) =~= devices@);
    while i < devices.len()
        invariant
            i <= devices.len(),
            first_connected(devices@.skip(i as int)) == first_connected(devices@),
        decreases devices.len() - i,
    {
        assert(devices@.skip(i as int).drop_first() =~= devices@.skip(i + 1));
        if devices[i].connected {
            return Some(devices[i].name.clone());
        }
        i += 1;
    }
    None
}

/// A card with a toggle as it is built.
#[derive(Debug)]
pub struct InitialCard {
    pub subtitle: String,
    pub toggle_active: bool,
    pub toggle_sensitive: bool,
    pub icon_active: bool,
    /// Shown as switched off.
    pub disabled: bool,
}

/// The Bluetooth card as it is built.
pub fn build_bluetooth_card(s: &BluetoothSnapshot) -> (r: InitialCard)
    ensures
        r.subtitle@ == bluetooth_subtitle_of(*s),
        r.toggle_active == (s.powered && s.has_adapter),
        r.toggle_sensitive == s.has_adapter,
        r.icon_active == (s.connected_devices > 0),
        r.disabled == !s.powered,
{
    let subtitle = if !s.has_adapter {
        "Unavailable".to_string()
    } else if !s.is_ready {
        "Bluetooth".to_string()
    } else if s.connected_devices == 1 {
        match find_connected(&s.devices) {
            Some(n) => n,
            None => "Bluetooth".to_string(),
        }
    } else if s.connected_devices > 1 {
        let mut t = text::decimal(s.connected_devices as u64);
        t.append(" connected");
        t
    } else if s.powered {
        "Enabled".to_string()
    } else {
        "Disabled".to_string()
    };
    InitialCard {
        subtitle,
        toggle_active: s.powered && s.has_adapter,
        toggle_sensitive: s.has_adapter,
        icon_active: s.connected_devices > 0,
        disabled: !s.powered,
    }
}

pub open spec fn primary_active(s: VpnSnapshot) -> bool {
    s.primary matches Some(k) && s.connections@[k as int].active
}

/// The VPN card as it is built. It is built only where there is a VPN service.
pub fn build_vpn_card(s: &VpnSnapshot) -> (r: InitialCard)
    requires
        s.wf(),
    ensures
        r.subtitle@ == if !s.is_ready {
            "VPN"@
        } else {
            vpn_card::vpn_subtitle(VpnSnapshot { available: true, ..*s })
        },
        r.toggle_active == primary_active(*s),
        r.toggle_sensitive == (s.connections@.len() > 0),
        r.icon_active == s.any_active,
        !r.disabled,
{
    let (subtitle, active) = match s.primary {
        Some(k) => {
            let up = s.connections[k].active;
            (
                if up {
                    s.connections[k].name.clone()
                } else {
                    "Disconnected".to_string()
                },
                up,
            )
        },
        None => ("No connections".to_string(), false),
    };
    InitialCard {
        subtitle: if s.is_ready {
            subtitle
        } else {
            "VPN".to_string()
        },
        toggle_active: active,
        toggle_sensitive: s.connections.len() > 0,
        icon_active: s.any_active,
        disabled: false,
    }
}

/// What the VPN card's toggle asks for: the main connection up or down. Nothing
/// while the toggle is only brought in line with the service.
pub fn vpn_toggle_request(s: &VpnSnapshot, updating: bool, is_active: bool) -> (r: Option<
    (String, bool),
>)
    requires
        s.wf(),
    ensures
        match r {
            Some(q) => !updating && s.primary is Some && q.0@
                == s.connections@[s.primary->0 as int].uuid@ && q.1 == is_active,
            None => updating || s.primary is None,
        },
{
    if updating {
        return None;
    }
    match s.primary {
        Some(k) => Some((s.connections[k].uuid.clone(), is_active)),
        None => None,
    }
}

/// The idle inhibitor's card.
pub fn build_idle_inhibitor_card(active: bool, available: bool) -> (r: InitialCard)
    ensures
        r.subtitle@ == if active {
            "Enabled"@
        } else {
            "Disabled"@
        },
        r.toggle_active == active,
        r.toggle_sensitive == available,
        r.icon_active == active,
        !r.disabled,
{
    InitialCard {
        subtitle: if active {
            "Enabled".to_string()
        } else {
            "Disabled".to_string()
        },
        toggle_active: active,
        toggle_sensitive: available,
        icon_active: active,
        disabled: false,
    }
}

/// A row with a volume slider.
#[derive(Debug, Clone, Copy, PartialEq, Eq, Structural)]
pub struct VolumeRow {
    pub value: u32,
    pub muted: bool,
    /// The slider and the mute button can be used; otherwise the row is dimmed.
    pub sensitive: bool,
    /// The hint why they cannot.
    pub hint_visible: bool,
}

/// The row of the sound output.
pub fn build_audio_section(s: &AudioSnapshot) -> (r: VolumeRow)
    ensures
        r == (VolumeRow {
            value: s.volume,
            muted: s.muted,
            sensitive: s.available && s.control_available,
            hint_visible: s.available && !s.control_available,
        }),
{
    VolumeRow {
        value: s.volume,
        muted: s.muted,
        sensitive: s.available && s.control_available,
        hint_visible: s.available && !s.control_available,
    }
}

/// What the audio service says of the microphone.
#[derive(Debug, Clone, Copy)]
pub struct MicSnapshot {
    pub available: bool,
    pub mic_control_available: bool,
    pub mic_volume: Option<u32>,
    pub mic_muted: Option<bool>,
}

/// The row of the microphone. What is unknown counts as silent and not muted.
pub fn build_mic_section(s: &MicSnapshot) -> (r: VolumeRow)
    ensures
        r == (VolumeRow {
            value: match s.mic_volume {
                Some(v) => v,
                None => 0,
            },
            muted: s.mic_muted == Some(true),
            sensitive: s.available && s.mic_control_available,
            hint_visible: s.available && !s.mic_control_available,
        }),
{
    VolumeRow {
        value: match s.mic_volume {
            Some(v) => v,
            None => 0,
        },
        muted: match s.mic_muted {
            Some(m) => m,
            None => false,
        },
        sensitive: s.available && s.mic_control_available,
        hint_visible: s.available && !s.mic_control_available,
    }
}

/// The row with the brightness slider.
#[derive(Debug, Clone, Copy, PartialEq, Eq, Structural)]
pub struct BrightnessRow {
    /// Where the slider stands, if it is set at all.
    pub value: Option<u32>,
    pub sensitive: bool,
}

/// The row with the brightness slider.
pub fn build_brightness_section(available: bool, percent: u32) -> (r: BrightnessRow)
    ensures
        r.sensitive == available,
        r.value == if available {
            Some(percent)
        } else {
            None
        },
{
    BrightnessRow {
        value: if available {
            Some(percent)
        } else {
            None
        },
        sensitive: available,
    }
}

// ---------------------------------------------------------------------------
// The panel's place
// ---------------------------------------------------------------------------

#[derive(Debug, Clone, Copy, PartialEq, Eq, Structural)]
pub struct PanelPlace {
    pub bar_margin: i32,
    /// The height that the content may take, where it is limited.
    pub max_height: Option<i32>,
    pub right: i32,
    /// The width to go by when the panel has none.
    pub cached_width: i32,
}

/// The height that is left for the content.
pub open spec fn height_left(bar: BarGeometry, monitor_height: int) -> int {
    monitor_height - (bar.exclusive_zone() + bar.popover_offset) - bar.bar_margin()
        - CONTAINER_PADDING - FAR_EDGE_MARGIN
}

/// The width of the panel: the one it has, else the one it last had, else an
/// estimate.
pub open spec fn panel_width(live: i32, cached: i32, shadow_margin: int) -> int {
    if live > 0 {
        live as int
    } else if cached > 0 {
        cached as int
    } else {
        CONTENT_WIDTH + POPOVER_PADDING + 2 * shadow_margin
    }
}

/// Where the panel stands.
pub fn update_position(
    bar: &BarGeometry,
    anchor_x: i32,
    monitor_width: i32,
    monitor_height: i32,
    live_width: i32,
    cached_width: i32,
    shadow_margin: i32,
) -> (r: PanelPlace)
    requires
        bar.bar_margin() >= i32::MIN,
        bar.bar_margin() <= i32::MAX,
        height_left(*bar, monitor_height as int) <= i32::MAX,
        anchor_x > 0 ==> i32::MIN <= panel_width(live_width, cached_width, shadow_margin as int)
            <= i32::MAX,
    ensures
        r.bar_margin == bar.bar_margin(),
        r.max_height == if height_left(*bar, monitor_height as int) > MIN_HEIGHT_THRESHOLD {
            Some(height_left(*bar, monitor_height as int) as i32)
        } else {
            None
        },
        r.right == if anchor_x > 0 {
            layer_shell_popover::right_margin(
                anchor_x as int,
                monitor_width as int,
                panel_width(live_width, cached_width, shadow_margin as int),
                MIN_EDGE_MARGIN as int,
            )
        } else {
            DEFAULT_RIGHT_MARGIN as int
        },
        r.cached_width == if anchor_x > 0 && live_width > 0 {
            live_width
        } else {
            cached_width
        },
{
    let bar_margin: i32 = layer_shell_popover::calculate_popover_bar_margin(bar);
    let padding: i64 = if bar.has_background {
        bar.padding as i64
    } else {
        0
    };
    let zone: i64 = bar.size as i64 + 2 * padding + 2 * (bar.screen_margin as i64)
        + bar.popover_offset as i64;
    let max_height: i64 = monitor_height as i64 - zone - bar_margin as i64
        - CONTAINER_PADDING as i64 - FAR_EDGE_MARGIN as i64;
    let limit = if max_height > MIN_HEIGHT_THRESHOLD as i64 {
        Some(max_height as i32)
    } else {
        None
    };
    if anchor_x > 0 {
        let width: i32 = if live_width > 0 {
            live_width
        } else if cached_width > 0 {
            cached_width
        } else {
            (CONTENT_WIDTH as i64 + POPOVER_PADDING as i64 + 2 * (shadow_margin as i64)) as i32
        };
        let right: i32 = layer_shell_popover::calculate_popover_right_margin(
            anchor_x,
            monitor_width,
            width,
            MIN_EDGE_MARGIN,
        );
        PanelPlace {
            bar_margin,
            max_height: limit,
            right,
            cached_width: if live_width > 0 {
                live_width
            } else {
                cached_width
            },
        }
    } else {
        PanelPlace { bar_margin, max_height: limit, right: DEFAULT_RIGHT_MARGIN, cached_width }
    }
}

// ---------------------------------------------------------------------------
// The panel
// ---------------------------------------------------------------------------

/// A panel and what it does.
#[derive(Debug, Clone, Copy, PartialEq, Eq, Structural)]
pub struct QuickSettingsWindow {
    /// The middle of its widget in the bar; 0 where unknown.
    pub anchor_x: i32,
    /// The width it last had.
    pub cached_width: i32,
    pub has_been_mapped: bool,
    pub is_animating_out: bool,
    /// It is open for the user, whatever is still animated.
    pub logically_open: bool,
    pub anim: AnimState,
    /// Counts shows and hides, so that what belongs to an earlier one is known.
    pub generation: u32,
    /// The surface that catches clicks beside it was made.
    pub click_catcher: bool,
    /// Waits for the first key that moves the focus.
    pub awaits_keynav: bool,
    pub config: QuickSettingsConfig,
}

/// What showing the panel takes.
#[derive(Debug, Clone, Copy, PartialEq, Eq, Structural)]
pub struct ShowPanel {
    /// The panel was never up: it is placed only once its window has a size.
    pub first: bool,
    pub create_catcher: bool,
    pub generation: u32,
}

/// What follows once the window of a shown panel is up.
#[derive(Debug, Clone, Copy, PartialEq, Eq, Structural)]
pub struct PanelMapped {
    pub after: AfterMap,
    /// The size is known now for the first time: the panel is placed and made
    /// opaque.
    pub place_and_uncover: bool,
    /// The network card gets the current state of the network, so that what
    /// came up while the panel was away is shown.
    pub deliver_network: bool,
}

/// What hiding the panel takes. The surface that catches clicks goes first, and
/// the keyboard is let go.
#[derive(Debug, Clone, Copy, PartialEq, Eq, Structural)]
pub enum HidePanel {
    /// It is on its way out already.
    Nothing,
    /// It goes at once, and its cards fold up.
    Snap,
    /// It fades out under this generation.
    Animate(u32),
}

impl QuickSettingsWindow {
    pub open spec fn fresh(config: QuickSettingsConfig) -> Self {
        QuickSettingsWindow {
            anchor_x: 0,
            cached_width: 0,
            has_been_mapped: false,
            is_animating_out: false,
            logically_open: false,
            anim: AnimState::idle(),
            generation: 0,
            click_catcher: false,
            awaits_keynav: false,
            config,
        }
    }

    /// A panel that is open is not on its way out.
    pub open spec fn valid(self) -> bool {
        self.logically_open ==> !self.is_animating_out
    }

    pub open spec fn shown(self) -> (Self, ShowPanel) {
        let g = layer_shell_popover::next_generation(self.generation);
        (
            QuickSettingsWindow {
                logically_open: true,
                is_animating_out: false,
                generation: g,
                click_catcher: true,
                has_been_mapped: true,
                awaits_keynav: true,
                ..self
            },
            ShowPanel {
                first: !self.has_been_mapped,
                create_catcher: !self.click_catcher,
                generation: g,
            },
        )
    }

    pub open spec fn hidden(self, animations: bool) -> (Self, HidePanel) {
        if self.is_animating_out {
            (self, HidePanel::Nothing)
        } else {
            let g = layer_shell_popover::next_generation(self.generation);
            (
                QuickSettingsWindow {
                    logically_open: false,
                    awaits_keynav: false,
                    generation: g,
                    is_animating_out: animations,
                    ..self
                },
                if animations {
                    HidePanel::Animate(g)
                } else {
                    HidePanel::Snap
                },
            )
        }
    }

    /// A tick of an animation. When the panel is closed its cards fold up and
    /// its window is hidden.
    pub open spec fn ticked(self, generation: u32, complete: bool) -> (Self, Tick) {
        let (anim, tick) = layer_shell_popover::ticked(
            self.anim,
            self.generation,
            generation,
            complete,
        );
        (
            QuickSettingsWindow {
                anim,
                is_animating_out: if tick == Tick::Closed {
                    false
                } else {
                    self.is_animating_out
                },
                ..self
            },
            tick,
        )
    }

    pub fn new(config: QuickSettingsConfig) -> (w: Self)
        ensures
            w == QuickSettingsWindow::fresh(config),
    {
        QuickSettingsWindow {
            anchor_x: 0,
            cached_width: 0,
            has_been_mapped: false,
            is_animating_out: false,
            logically_open: false,
            anim: AnimState::new_idle(),
            generation: 0,
            click_catcher: false,
            awaits_keynav: false,
            config,
        }
    }

    pub fn set_anchor_position(&mut self, x: i32)
        ensures
            *final(self) == (QuickSettingsWindow { anchor_x: x, ..*old(self) }),
    {
        self.anchor_x = x;
    }

    /// Shows the panel.
    pub fn show_panel(&mut self) -> (r: ShowPanel)
        ensures
            (*final(self), r) == old(self).shown(),
    {
        let s = *self;
        let generation: u32 = layer_shell_popover::bump(s.generation);
        *self = QuickSettingsWindow {
            logically_open: true,
            is_animating_out: false,
            generation,
            click_catcher: true,
            has_been_mapped: true,
            awaits_keynav: true,
            ..s
        };
        ShowPanel {
            first: !s.has_been_mapped,
            create_catcher: !s.click_catcher,
            generation,
        }
    }

    /// The window of a shown panel is up. `generation` and `first` are what
    /// `show_panel` gave.
    pub fn on_mapped(&self, generation: u32, first: bool, animations: bool) -> (r: PanelMapped)
        ensures
            r.after == layer_shell_popover::after_map(self.generation, generation, animations),
            r.place_and_uncover == (first && r.after != AfterMap::Stale),
            r.deliver_network == (r.after != AfterMap::Stale),
    {
        if self.generation != generation {
            PanelMapped { after: AfterMap::Stale, place_and_uncover: false, deliver_network: false }
        } else if animations {
            PanelMapped { after: AfterMap::Animate, place_and_uncover: first, deliver_network: true }
        } else {
            PanelMapped { after: AfterMap::Snap, place_and_uncover: first, deliver_network: true }
        }
    }

    /// The first key that moves the focus came: no other is waited for.
    pub fn on_first_keynav(&mut self)
        ensures
            *final(self) == (QuickSettingsWindow { awaits_keynav: false, ..*old(self) }),
    {
        let s = *self;
        *self = QuickSettingsWindow { awaits_keynav: false, ..s };
    }

    /// Hides the panel.
    pub fn hide_panel(&mut self, animations: bool) -> (r: HidePanel)
        ensures
            (*final(self), r) == old(self).hidden(animations),
    {
        let s = *self;
        if s.is_animating_out {
            return HidePanel::Nothing;
        }
        let generation: u32 = layer_shell_popover::bump(s.generation);
        *self = QuickSettingsWindow {
            logically_open: false,
            awaits_keynav: false,
            generation,
            is_animating_out: animations,
            ..s
        };
        if animations {
            HidePanel::Animate(generation)
        } else {
            HidePanel::Snap
        }
    }

    /// An animation begins at the time of the frame clock.
    pub fn start_animation(
        &mut self,
        direction: AnimDirection,
        generation: u32,
        start_time_us: i64,
    ) -> (r: Segment)
        ensures
            (final(self).anim, r) == old(self).anim.prepared(direction, generation, start_time_us),
            *final(self) == (QuickSettingsWindow { anim: final(self).anim, ..*old(self) }),
    {
        let s = *self;
        let mut anim = s.anim;
        let r = anim.prepare(direction, generation, start_time_us);
        *self = QuickSettingsWindow { anim, ..s };
        r
    }

    /// A tick of an animation.
    pub fn on_tick(&mut self, generation: u32, complete: bool) -> (r: Tick)
        ensures
            (*final(self), r) == old(self).ticked(generation, complete),
    {
        let s = *self;
        let mut anim = s.anim;
        let r = anim.tick(s.generation, generation, complete);
        let closed = match r {
            Tick::Closed => true,
            _ => false,
        };
        *self = QuickSettingsWindow {
            anim,
            is_animating_out: s.is_animating_out && !closed,
            ..s
        };
        r
    }

    /// The VPNs changed: whether the panel closes, since a connection that the
    /// user asked for came up.
    pub fn closes_on_vpn(&self, connect_completed: bool) -> (r: bool)
        ensures
            r == (connect_completed && self.config.cards.vpn_close_on_connect),
    {
        connect_completed && self.config.cards.vpn_close_on_connect
    }
}

/// What is unfolded in a panel, and what it asks.
#[derive(Debug)]
pub struct PanelUi {
    pub network: bool,
    pub bluetooth: bool,
    pub vpn: bool,
    pub updates: bool,
    /// The power card, where it unfolds.
    pub power: Option<bool>,
    pub audio: bool,
    pub mic: bool,
    pub password: PasswordDialog,
    pub vpn_auth: VpnAuthDialog,
}

/// What is left to do when a panel is brought back to its first state, besides
/// wiping the Bluetooth entry, scrolling to the top and dropping the focus.
#[derive(Debug)]
pub struct PanelReset {
    pub password: Vec<DialogEffect>,
    /// The subtitle of the power card, where it unfolds.
    pub power_subtitle: Option<&'static str>,
}

impl PanelUi {
    /// Every card is folded up.
    pub open spec fn folded(self) -> bool {
        &&& !self.network && !self.bluetooth && !self.vpn && !self.updates
        &&& self.power != Some(true)
        &&& !self.audio && !self.mic
    }

    /// A panel was closed: it is found folded up and asking nothing when it is
    /// next opened.
    pub fn reset_ui_state(&mut self) -> (r: PanelReset)
        ensures
            final(self).folded(),
            final(self).power is Some == old(self).power is Some,
            (final(self).password@, password_dialog::effect_views(r.password@))
                == password_dialog::hidden(old(self).password@),
            final(self).vpn_auth.target is None,
            match r.power_subtitle {
                Some(t) => old(self).power is Some && t@ == "Hold to shut down"@,
                None => old(self).power is None,
            },
    {
        self.network = false;
        self.bluetooth = false;
        self.vpn = false;
        self.updates = false;
        let power_subtitle = match self.power {
            Some(_) => {
                self.power = Some(false);
                Some(power_subtitle(false))
            },
            None => None,
        };
        self.audio = false;
        self.mic = false;
        let password = self.password.hide_password_dialog();
        self.vpn_auth.hide_vpn_auth_dialog();
        PanelReset { password, power_subtitle }
    }
}

/// A panel that is open is never on its way out, whatever happens to it.
pub proof fn law_open_panel_is_not_leaving(
    w: QuickSettingsWindow,
    config: QuickSettingsConfig,
    generation: u32,
    flag: bool,
)
    requires
        w.valid(),
    ensures
        QuickSettingsWindow::fresh(config).valid(),
        w.shown().0.valid(),
        w.hidden(flag).0.valid(),
        w.ticked(generation, flag).0.valid(),
{
}

/// A panel that fades out is closed by the end of that animation and can be
/// hidden again after it.
pub proof fn law_hidden_panel_closes(w: QuickSettingsWindow, since_us: i64)
    requires
        !w.is_animating_out,
    ensures
        ({
            let (h, plan) = w.hidden(true);
            let g = h.generation;
            let (anim, segment) = h.anim.prepared(AnimDirection::Closing, g, since_us);
            let fading = QuickSettingsWindow { anim, ..h };
            let (end, tick) = fading.ticked(g, true);
            &&& plan == HidePanel::Animate(g)
            &&& !h.logically_open
            &&& tick == Tick::Closed
            &&& !end.is_animating_out
            &&& !end.logically_open
            &&& !end.anim.active
        }),
{
}

/// A panel that is shown again while it fades out is open, and what was left of
/// the fade does nothing more.
pub proof fn law_reopened_panel_stays_open(
    w: QuickSettingsWindow,
    since_us: i64,
    complete: bool,
)
    requires
        !w.is_animating_out,
    ensures
        ({
            let h = w.hidden(true).0;
            let g = h.generation;
            let (anim, _) = h.anim.prepared(AnimDirection::Closing, g, since_us);
            let fading = QuickSettingsWindow { anim, ..h };
            let again = fading.shown().0;
            &&& again.logically_open
            &&& !again.is_animating_out
            &&& again.ticked(g, complete) == (again, Tick::Stale)
        }),
{
}

// ---------------------------------------------------------------------------
// The handle
// ---------------------------------------------------------------------------

/// Opens and closes the panel for a bar. The panel is made when it is first
/// opened and kept.
#[derive(Debug, Clone, Copy, PartialEq, Eq, Structural)]
pub struct QuickSettingsWindowHandle {
    pub config: QuickSettingsConfig,
    pub window: Option<QuickSettingsWindow>,
    /// Its place among open popovers.
    pub tracker_id: Option<u64>,
}

/// What closing the panel takes.
#[derive(Debug, Clone, Copy, PartialEq, Eq, Structural)]
pub struct ClosePanel {
    pub hide_panel: HidePanel,
    /// The place to clear, if it is still the panel's.
    pub clear: Option<u64>,
}

/// What toggling the panel takes.
#[derive(Debug, Clone, Copy, PartialEq, Eq, Structural)]
pub enum TogglePanel {
    Close(ClosePanel),
    /// Other popovers go, then the panel opens.
    DismissOthers,
}

/// What opening the panel takes. It is then to be registered among popovers.
#[derive(Debug, Clone, Copy, PartialEq, Eq, Structural)]
pub struct OpenPanel {
    pub create: bool,
    pub show: ShowPanel,
}

impl QuickSettingsWindowHandle {
    pub open spec fn open(self) -> bool {
        self.window matches Some(w) && w.logically_open
    }

    /// The panel as it is, or a new one.
    pub open spec fn panel(self) -> QuickSettingsWindow {
        match self.window {
            Some(w) => w,
            None => QuickSettingsWindow::fresh(self.config),
        }
    }

    pub open spec fn closed(self, animations: bool) -> (Self, ClosePanel) {
        let (w, hide_panel) = self.panel().hidden(animations);
        (
            QuickSettingsWindowHandle { window: Some(w), tracker_id: None, ..self },
            ClosePanel { hide_panel, clear: self.tracker_id },
        )
    }

    pub open spec fn opened(self, x: i32) -> (Self, OpenPanel) {
        let (w, show) = (QuickSettingsWindow { anchor_x: x, ..self.panel() }).shown();
        (
            QuickSettingsWindowHandle { window: Some(w), ..self },
            OpenPanel { create: self.window is None, show },
        )
    }

    pub fn new(config: QuickSettingsConfig) -> (h: Self)
        ensures
            h == (QuickSettingsWindowHandle { config, window: None, tracker_id: None }),
    {
        QuickSettingsWindowHandle { config, window: None, tracker_id: None }
    }

    /// The panel goes for good. Gives the place to clear.
    pub fn destroy(&mut self) -> (clear: Option<u64>)
        ensures
            clear == old(self).tracker_id,
            *final(self) == (QuickSettingsWindowHandle {
                window: None,
                tracker_id: None,
                ..*old(self)
            }),
    {
        let s = *self;
        *self = QuickSettingsWindowHandle { window: None, tracker_id: None, ..s };
        s.tracker_id
    }

    pub fn ipc_is_visible(&self) -> (r: bool)
        ensures
            r == self.open(),
    {
        match self.window {
            Some(w) => w.logically_open,
            None => false,
        }
    }

    fn close(&mut self, window: QuickSettingsWindow, animations: bool) -> (r: ClosePanel)
        requires
            old(self).window == Some(window),
        ensures
            (*final(self), r) == old(self).closed(animations),
    {
        let s = *self;
        let mut w = window;
        let hide_panel = w.hide_panel(animations);
        *self = QuickSettingsWindowHandle { window: Some(w), tracker_id: None, ..s };
        ClosePanel { hide_panel, clear: s.tracker_id }
    }

    /// An open panel closes; otherwise it is to be opened with `open_at` once
    /// other popovers are gone.
    pub fn toggle_at(&mut self, animations: bool) -> (r: TogglePanel)
        ensures
            if old(self).open() {
                (*final(self), r) == (
                    old(self).closed(animations).0,
                    TogglePanel::Close(old(self).closed(animations).1),
                )
            } else {
                *final(self) == *old(self) && r == TogglePanel::DismissOthers
            },
    {
        let s = *self;
        match s.window {
            Some(w) => if w.logically_open {
                TogglePanel::Close(self.close(w, animations))
            } else {
                TogglePanel::DismissOthers
            },
            None => TogglePanel::DismissOthers,
        }
    }

    /// Opens the panel with its anchor at `x`.
    pub fn open_at(&mut self, x: i32) -> (r: OpenPanel)
        ensures
            (*final(self), r) == old(self).opened(x),
    {
        let s = *self;
        let (mut w, create) = match s.window {
            Some(w) => (w, false),
            None => (QuickSettingsWindow::new(s.config), true),
        };
        w.set_anchor_position(x);
        let show = w.show_panel();
        *self = QuickSettingsWindowHandle { window: Some(w), ..s };
        OpenPanel { create, show }
    }

    /// The panel got its place among open popovers.
    pub fn on_registered(&mut self, id: u64)
        ensures
            *final(self) == (QuickSettingsWindowHandle { tracker_id: Some(id), ..*old(self) }),
    {
        let s = *self;
        *self = QuickSettingsWindowHandle { tracker_id: Some(id), ..s };
    }

    /// Whether a request to show the panel opens it.
    pub fn ipc_show(&self) -> (toggle: bool)
        ensures
            toggle == !self.open(),
    {
        !self.ipc_is_visible()
    }

    /// A request to hide the panel.
    pub fn ipc_hide(&mut self, animations: bool) -> (r: Option<ClosePanel>)
        ensures
            if old(self).open() {
                (*final(self), r) == (
                    old(self).closed(animations).0,
                    Some(old(self).closed(animations).1),
                )
            } else {
                *final(self) == *old(self) && r is None
            },
    {
        let s = *self;
        match s.window {
            Some(w) => if w.logically_open {
                Some(self.close(w, animations))
            } else {
                None
            },
            None => None,
        }
    }

    /// Another popover opens: the panel goes, and its place with it.
    pub fn dismiss(&mut self, animations: bool) -> (r: Option<HidePanel>)
        ensures
            match old(self).window {
                Some(w) => (*final(self), r) == (
                    QuickSettingsWindowHandle {
                        window: Some(w.hidden(animations).0),
                        tracker_id: None,
                        ..*old(self)
                    },
                    Some(w.hidden(animations).1),
                ),
                None => (*final(self), r) == (
                    QuickSettingsWindowHandle { tracker_id: None, ..*old(self) },
                    None::<HidePanel>,
                ),
            },
    {
        let s = *self;
        match s.window {
            Some(window) => {
                let mut w = window;
                let r = w.hide_panel(animations);
                *self = QuickSettingsWindowHandle { window: Some(w), tracker_id: None, ..s };
                Some(r)
            },
            None => {
                *self = QuickSettingsWindowHandle { tracker_id: None, ..s };
                None
            },
        }
    }
}

/// Where a request to show the panel opens it, given the middle of the widget in
/// the bar's window, where that is known.
pub fn get_anchor_info(center: Option<i32>, screen_margin: i32) -> (r: ToggleAt)
    requires
        center matches Some(c) ==> i32::MIN <= c + screen_margin <= i32::MAX,
    ensures
        r == match center {
            Some(c) => ToggleAt { x: (c + screen_margin) as i32, on_monitor: true },
            None => ToggleAt { x: 0, on_monitor: false },
        },
{
    match center {
        Some(c) => ToggleAt { x: c + screen_margin, on_monitor: true },
        None => ToggleAt { x: 0, on_monitor: false },
    }
}

/// An open panel that is toggled is closed, and a closed one that is toggled and
/// opened is open: a click undoes a click.
pub proof fn law_toggle_alternates(h: QuickSettingsWindowHandle, x: i32, animations: bool)
    requires
        h.window matches Some(w) ==> w.valid(),
    ensures
        h.open() ==> !h.closed(animations).0.open(),
        h.opened(x).0.open(),
        !h.opened(x).0.closed(animations).0.open(),
{
}

} // verus!

//! The list of networks, joined from what iwd says of their order and of
//! their properties.

use vstd::prelude::*;
use vstd::string::*;

use crate::iwd::IFACE_NETWORK;
use crate::names::NameMap;
use crate::network;
use crate::network::{NetView, SecurityType, WifiNetwork};
use crate::text;

verus! {

/// The strength of a signal in percent, from hundredths of a dBm: -100 dBm and
/// below is 0, -50 dBm and above is 100, linear between.
pub open spec fn percent_of(dbm_times_100: int) -> int {
    if dbm_times_100 <= -10000 {
        0
    } else if dbm_times_100 >= -5000 {
        100
    } else {
        (dbm_times_100 + 10000) / 50
    }
}

/// The strength of a signal in percent.
pub fn dbm_to_percent(dbm_times_100: i16) -> (r: i32)
    ensures
        r == percent_of(dbm_times_100 as int),
{
    let dbm: i32 = dbm_times_100 as i32;
    if dbm <= -10000 {
        0
    } else if dbm >= -5000 {
        100
    } else {
        (dbm + 10000) / 50
    }
}

/// A strength is a percentage, and a stronger signal has no lower one.
pub proof fn law_stronger_signal_is_no_weaker(a: i16, b: i16)
    requires
        a <= b,
    ensures
        0 <= percent_of(a as int) <= percent_of(b as int) <= 100,
{
}

/// The value of a property, as far as it is read.
#[derive(Debug)]
pub enum PropValue {
    Text(String),
    Flag(bool),
    Path(String),
    Other,
}

/// The properties of one interface of an object.
#[derive(Debug)]
pub struct InterfaceProps {
    pub name: String,
    pub props: Vec<(String, PropValue)>,
}

/// An object of the daemon.
#[derive(Debug)]
pub struct ObjectProps {
    pub path: String,
    pub interfaces: Vec<InterfaceProps>,
}

/// What is known of a network.
#[derive(Debug)]
pub struct NetworkProps {
    pub name: String,
    pub net_type: String,
    pub connected: bool,
    pub known_network_path: Option<String>,
}

pub struct PropsView {
    pub name: Seq<char>,
    pub net_type: Seq<char>,
    pub connected: bool,
    pub known_network_path: Option<Seq<char>>,
}

impl View for NetworkProps {
    type V = PropsView;

    open spec fn view(&self) -> PropsView {
        PropsView {
            name: self.name@,
            net_type: self.net_type@,
            connected: self.connected,
            known_network_path: text::opt_string_view(self.known_network_path),
        }
    }
}

/// What is known before any property is read.
pub open spec fn no_props() -> PropsView {
    PropsView {
        name: Seq::empty(),
        net_type: "open"@,
        connected: false,
        known_network_path: None,
    }
}

pub open spec fn text_or(v: PropValue, otherwise: Seq<char>) -> Seq<char> {
    match v {
        PropValue::Text(s) => s@,
        _ => otherwise,
    }
}

/// The path of a saved network; `/` and nothing stand for none.
pub open spec fn known_path(v: PropValue) -> Option<Seq<char>> {
    match v {
        PropValue::Path(p) => if p@ == "/"@ || p@.len() == 0 {
            None
        } else {
            Some(p@)
        },
        _ => None,
    }
}

/// What is known after one more property. A property of another kind than
/// expected counts as its default.
pub open spec fn with_prop(p: PropsView, key: Seq<char>, v: PropValue) -> PropsView {
    if key == "Name"@ {
        PropsView { name: text_or(v, Seq::empty()), ..p }
    } else if key == "Type"@ {
        PropsView { net_type: text_or(v, "open"@), ..p }
    } else if key == "Connected"@ {
        PropsView { connected: v == PropValue::Flag(true), ..p }
    } else if key == "KnownNetwork"@ {
        PropsView { known_network_path: known_path(v), ..p }
    } else {
        p
    }
}

pub open spec fn props_of(props: Seq<(String, PropValue)>) -> PropsView
    decreases props.len(),
{
    if props.len() == 0 {
        no_props()
    } else {
        with_prop(props_of(props.drop_last()), props.last().0@, props.last().1)
    }
}

fn read_prop(p: NetworkProps, key: &str, v: &PropValue) -> (r: NetworkProps)
    ensures
        r@ == with_prop(p@, key@, *v),
{
    let mut r = p;
    if text::str_eq(key, "Name") {
        r.name = match v {
            PropValue::Text(s) => s.clone(),
            _ => String::new(),
        };
        assert(r.name@ =~= text_or(*v, Seq::empty()));
    } else if text::str_eq(key, "Type") {
        r.net_type = match v {
            PropValue::Text(s) => s.clone(),
            _ => "open".to_string(),
        };
    } else if text::str_eq(key, "Connected") {
        r.connected = match v {
            PropValue::Flag(b) => *b,
            _ => false,
        };
    } else if text::str_eq(key, "KnownNetwork") {
        r.known_network_path = match v {
            PropValue::Path(p) => if text::str_eq(p.as_str(), "/") || p.as_str().unicode_len()
                == 0 {
                None
            } else {
                Some(p.clone())
            },
            _ => None,
        };
    }
    r
}

/// Reads the properties of a network.
pub fn read_network_props(props: &Vec<(String, PropValue)>) -> (r: NetworkProps)
    ensures
        r@ == props_of(props@),
{
    let mut r = NetworkProps {
        name: String::new(),
        net_type: "open".to_string(),
        connected: false,
        known_network_path: None,
    };
    assert(r.name@ =~= Seq::<char>::empty());
    let mut i: usize = 0;
    while i < props.len()
        invariant
            i <= props.len(),
            r@ == props_of(props@.take(i as int)),
        decreases props.len() - i,
    {
        assert(props@.take(i + 1).drop_last() =~= props@.take(i as int));
        r = read_prop(r, props[i].0.as_str(), &props[i].1);
        i += 1;
    }
    assert(props@.take(i as int) =~= props@);
    r
}

/// Where an object's network interface is, counting from `from`.
pub open spec fn network_interface(interfaces: Seq<InterfaceProps>, from: int) -> Option<int>
    decreases interfaces.len() - from,
{
    if from < 0 || from >= interfaces.len() {
        None
    } else if interfaces[from].name@ == IFACE_NETWORK@ {
        Some(from)
    } else {
        network_interface(interfaces, from + 1)
    }
}

/// The properties of all networks by path. Of two objects of one path the
/// later counts.
pub open spec fn props_by_path(objects: Seq<ObjectProps>) -> Map<Seq<char>, PropsView>
    decreases objects.len(),
{
    if objects.len() == 0 {
        Map::empty()
    } else {
        let before = props_by_path(objects.drop_last());
        let o = objects.last();
        match network_interface(o.interfaces@, 0) {
            Some(k) => before.insert(o.path@, props_of(o.interfaces@[k].props@)),
            None => before,
        }
    }
}

pub open spec fn props_views(m: Map<Seq<char>, NetworkProps>) -> Map<Seq<char>, PropsView> {
    m.map_values(|p: NetworkProps| p@)
}

fn find_network_interface(interfaces: &Vec<InterfaceProps>) -> (r: Option<usize>)
    ensures
        match r {
            Some(k) => k < interfaces.len() && network_interface(interfaces@, 0) == Some(k as int),
            None => network_interface(interfaces@, 0) is None,
        },
{
    let mut i: usize = 0;
    while i < interfaces.len()
        invariant
            i <= interfaces.len(),
            network_interface(interfaces@, 0) == network_interface(interfaces@, i as int),
        decreases interfaces.len() - i,
    {
        if text::str_eq(interfaces[i].name.as_str(), IFACE_NETWORK) {
            return Some(i);
        }
        i += 1;
    }
    None
}

/// Reads the properties of all networks out of the daemon's objects.
pub fn network_properties(objects: &Vec<ObjectProps>) -> (r: NameMap<NetworkProps>)
    ensures
        r.wf(),
        props_views(r@) == props_by_path(objects@),
{
    let mut r: NameMap<NetworkProps> = NameMap::new();
    assert(props_views(r@) =~= Map::<Seq<char>, PropsView>::empty());
    let mut i: usize = 0;
    while i < objects.len()
        invariant
            i <= objects.len(),
            r.wf(),
            props_views(r@) == props_by_path(objects@.take(i as int)),
        decreases objects.len() - i,
    {
        assert(objects@.take(i + 1).drop_last() =~= objects@.take(i as int));
        if let Some(k) = find_network_interface(&objects[i].interfaces) {
            let ghost before = r@;
            let p = read_network_props(&objects[i].interfaces[k].props);
            let ghost pv = p;
            r.insert(objects[i].path.clone(), p);
            assert(props_views(r@) =~= props_views(before).insert(objects@[i as int].path@, pv@));
        }
        i += 1;
    }
    assert(objects@.take(i as int) =~= objects@);
    r
}

/// A network as iwd orders them: its path, and its signal where it is known.
#[derive(Debug)]
pub struct OrderedNetwork {
    pub path: String,
    pub signal: Option<i16>,
}

/// A network as it is shown.
pub open spec fn listed(path: Seq<char>, signal: Option<i16>, p: PropsView) -> NetView {
    NetView {
        ssid: p.name,
        strength: percent_of(
            match signal {
                Some(s) => s as int,
                None => -10000,
            },
        ) as i32,
        security: if p.net_type == "open"@ {
            SecurityType::Open
        } else {
            SecurityType::Secured
        },
        active: p.connected,
        known: p.known_network_path is Some,
        known_network_path: p.known_network_path,
        path: Some(path),
    }
}

/// The networks in iwd's order, without those whose properties are not known.
pub open spec fn joined(
    ordered: Seq<OrderedNetwork>,
    props: Map<Seq<char>, PropsView>,
) -> Seq<NetView>
    decreases ordered.len(),
{
    if ordered.len() == 0 {
        Seq::empty()
    } else {
        let before = joined(ordered.drop_last(), props);
        let o = ordered.last();
        if props.dom().contains(o.path@) {
            before.push(listed(o.path@, o.signal, props[o.path@]))
        } else {
            before
        }
    }
}

/// The list of networks.
pub fn join_networks(ordered: &Vec<OrderedNetwork>, props: &NameMap<NetworkProps>) -> (r: Vec<
    WifiNetwork,
>)
    requires
        props.wf(),
    ensures
        network::net_views(r@) == joined(ordered@, props_views(props@)),
{
    let ghost pv = props_views(props@);
    let mut r: Vec<WifiNetwork> = Vec::new();
    assert(network::net_views(r@) =~= Seq::<NetView>::empty());
    let mut i: usize = 0;
    while i < ordered.len()
        invariant
            i <= ordered.len(),
            props.wf(),
            pv == props_views(props@),
            network::net_views(r@) == joined(ordered@.take(i as int), pv),
        decreases ordered.len() - i,
    {
        assert(ordered@.take(i + 1).drop_last() =~= ordered@.take(i as int));
        let o = &ordered[i];
        if let Some(p) = props.get(o.path.as_str()) {
            let ghost before = r@;
            let signal: i16 = match o.signal {
                Some(s) => s,
                None => -10000,
            };
            let n = WifiNetwork {
                ssid: p.name.clone(),
                strength: dbm_to_percent(signal),
                security: if text::str_eq(p.net_type.as_str(), "open") {
                    SecurityType::Open
                } else {
                    SecurityType::Secured
                },
                active: p.connected,
                known: p.known_network_path.is_some(),
                known_network_path: text::clone_opt(&p.known_network_path),
                path: Some(o.path.clone()),
            };
            let ghost nv = n@;
            r.push(n);
            assert(nv == listed(o.path@, o.signal, pv[o.path@]));
            assert(network::net_views(r@) =~= network::net_views(before).push(nv));
        }
        i += 1;
    }
    assert(ordered@.take(i as int) =~= ordered@);
    r
}

/// Every network that is shown was listed by iwd and has known properties.
pub proof fn law_shown_networks_are_listed(
    ordered: Seq<OrderedNetwork>,
    props: Map<Seq<char>, PropsView>,
    k: int,
)
    requires
        0 <= k < joined(ordered, props).len(),
    ensures
        ({
            let n = joined(ordered, props)[k];
            exists|j: int|
                0 <= j < ordered.len() && n.path == Some((#[trigger] ordered[j]).path@)
                    && props.dom().contains(ordered[j].path@) && n == listed(
                    ordered[j].path@,
                    ordered[j].signal,
                    props[ordered[j].path@],
                )
        }),
    decreases ordered.len(),
{
    let before = joined(ordered.drop_last(), props);
    if k < before.len() {
        law_shown_networks_are_listed(ordered.drop_last(), props, k);
        let j = choose|j: int|
            0 <= j < ordered.drop_last().len() && before[k].path == Some(
                (#[trigger] ordered.drop_last()[j]).path@,
            ) && props.dom().contains(ordered.drop_last()[j].path@) && before[k] == listed(
                ordered.drop_last()[j].path@,
                ordered.drop_last()[j].signal,
                props[ordered.drop_last()[j].path@],
            );
        assert(ordered.drop_last()[j] == ordered[j]);
    } else {
        assert(ordered.last() == ordered[ordered.len() - 1]);
    }
}

} // verus!

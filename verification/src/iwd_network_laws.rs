//! What holds of the list of networks, whatever iwd says.

use vstd::prelude::*;
use vstd::string::*;

use crate::iwd_networks;
use crate::iwd_networks::{
    InterfaceProps, ObjectProps, OrderedNetwork, PropValue, PropsView,
};
use crate::network::SecurityType;

verus! {

/// Every network in the list shows what its properties say: its name, whether it
/// is the one in use, whether it is saved and where, whether it is protected. Its
/// place in iwd's list gives its path and its signal.
pub proof fn law_networks_show_their_properties(
    ordered: Seq<OrderedNetwork>,
    props: Map<Seq<char>, PropsView>,
    k: int,
)
    requires
        0 <= k < iwd_networks::joined(ordered, props).len(),
    ensures
        ({
            let n = iwd_networks::joined(ordered, props)[k];
            &&& n.path matches Some(path)
            &&& props.dom().contains(path)
            &&& n.active == props[path].connected
            &&& n.ssid == props[path].name
            &&& n.known_network_path == props[path].known_network_path
            &&& n.known == (props[path].known_network_path is Some)
            &&& (n.security == SecurityType::Open) == (props[path].net_type == "open"@)
            &&& exists|j: int|
                0 <= j < ordered.len() && (#[trigger] ordered[j]).path@ == path
                    && shows_signal(n.strength as int, ordered[j].signal)
        }),
    decreases ordered.len(),
{
    let before = iwd_networks::joined(ordered.drop_last(), props);
    if k < before.len() {
        law_networks_show_their_properties(ordered.drop_last(), props, k);
        let n = before[k];
        let j = choose|j: int|
            0 <= j < ordered.drop_last().len() && (#[trigger] ordered.drop_last()[j]).path@
                == n.path->0 && shows_signal(n.strength as int, ordered.drop_last()[j].signal);
        assert(ordered.drop_last()[j] == ordered[j]);
    } else {
        let o = ordered[ordered.len() - 1];
        assert(ordered.last() == o);
        lemma_strength(o.signal);
    }
}

/// A strength stands for a signal: none or -100 dBm and less is 0, -50 dBm and
/// more is 100, and between them each half dBm is one percent.
pub open spec fn shows_signal(strength: int, signal: Option<i16>) -> bool {
    match signal {
        None => strength == 0,
        Some(s) => {
            &&& s <= -10000 ==> strength == 0
            &&& s >= -5000 ==> strength == 100
            &&& -10000 <= s <= -5000 ==> 50 * strength <= s + 10000 < 50 * strength + 50
        },
    }
}

proof fn lemma_strength(signal: Option<i16>)
    ensures
        ({
            let s = iwd_networks::percent_of(
                match signal {
                    Some(s) => s as int,
                    None => -10000,
                },
            );
            0 <= s <= 100 && shows_signal(s, signal)
        }),
{
}

/// The list keeps iwd's order and leaves out only networks of which nothing is
/// known: one more network adds one more row at the end, or none.
pub proof fn law_networks_keep_their_order(
    ordered: Seq<OrderedNetwork>,
    o: OrderedNetwork,
    props: Map<Seq<char>, PropsView>,
)
    ensures
        ({
            let before = iwd_networks::joined(ordered, props);
            let after = iwd_networks::joined(ordered.push(o), props);
            if props.dom().contains(o.path@) {
                after.len() == before.len() + 1 && after.drop_last() == before
                    && after.last().path == Some(o.path@)
            } else {
                after == before
            }
        }),
        iwd_networks::joined(Seq::<OrderedNetwork>::empty(), props).len() == 0,
{
    assert(ordered.push(o).drop_last() =~= ordered);
    let before = iwd_networks::joined(ordered, props);
    let after = iwd_networks::joined(ordered.push(o), props);
    if props.dom().contains(o.path@) {
        assert(after.drop_last() =~= before);
    }
}

/// The last value that is given to `key`.
pub open spec fn is_last_value(
    props: Seq<(String, PropValue)>,
    key: Seq<char>,
    k: int,
) -> bool {
    &&& 0 <= k < props.len()
    &&& props[k].0@ == key
    &&& forall|j: int| k < j < props.len() ==> (#[trigger] props[j]).0@ != key
}

pub open spec fn has_no_value(props: Seq<(String, PropValue)>, key: Seq<char>) -> bool {
    forall|j: int| 0 <= j < props.len() ==> (#[trigger] props[j]).0@ != key
}

proof fn lemma_keys()
    ensures
        "Name"@ != "Type"@,
        "Name"@ != "Connected"@,
        "Name"@ != "KnownNetwork"@,
        "Type"@ != "Connected"@,
        "Type"@ != "KnownNetwork"@,
        "Connected"@ != "KnownNetwork"@,
{
    reveal_strlit("Name");
    reveal_strlit("Type");
    reveal_strlit("Connected");
    reveal_strlit("KnownNetwork");
    assert("Name"@[0] != "Type"@[0]);
    assert("Name"@.len() == 4 && "Type"@.len() == 4);
    assert("Connected"@.len() == 9 && "KnownNetwork"@.len() == 12);
}

/// A network is in use exactly where its property says so.
pub proof fn law_connected_is_read(props: Seq<(String, PropValue)>, k: int)
    requires
        is_last_value(props, "Connected"@, k) || has_no_value(props, "Connected"@),
    ensures
        is_last_value(props, "Connected"@, k) ==> iwd_networks::props_of(props).connected == (
        props[k].1 == PropValue::Flag(true)),
        has_no_value(props, "Connected"@) ==> !iwd_networks::props_of(props).connected,
    decreases props.len(),
{
    lemma_keys();
    if props.len() > 0 {
        let shorter = props.drop_last();
        assert(props.last() == props[props.len() - 1]);
        if props.last().0@ != "Connected"@ {
            assert forall|j: int| 0 <= j < shorter.len() implies #[trigger] shorter[j]
                == props[j] by {}
            law_connected_is_read(shorter, k);
        }
    }
}

/// The name of a network is the text of its property.
pub proof fn law_name_is_read(props: Seq<(String, PropValue)>, k: int)
    requires
        is_last_value(props, "Name"@, k) || has_no_value(props, "Name"@),
    ensures
        is_last_value(props, "Name"@, k) ==> iwd_networks::props_of(props).name
            == match props[k].1 {
            PropValue::Text(s) => s@,
            _ => Seq::empty(),
        },
        has_no_value(props, "Name"@) ==> iwd_networks::props_of(props).name.len() == 0,
    decreases props.len(),
{
    lemma_keys();
    if props.len() > 0 {
        let shorter = props.drop_last();
        assert(props.last() == props[props.len() - 1]);
        if props.last().0@ != "Name"@ {
            assert forall|j: int| 0 <= j < shorter.len() implies #[trigger] shorter[j]
                == props[j] by {}
            law_name_is_read(shorter, k);
        }
    }
}

/// A network of which no kind is known counts as open.
pub proof fn law_kind_is_read(props: Seq<(String, PropValue)>, k: int)
    requires
        is_last_value(props, "Type"@, k) || has_no_value(props, "Type"@),
    ensures
        is_last_value(props, "Type"@, k) ==> iwd_networks::props_of(props).net_type
            == match props[k].1 {
            PropValue::Text(s) => s@,
            _ => "open"@,
        },
        has_no_value(props, "Type"@) ==> iwd_networks::props_of(props).net_type == "open"@,
    decreases props.len(),
{
    lemma_keys();
    if props.len() > 0 {
        let shorter = props.drop_last();
        assert(props.last() == props[props.len() - 1]);
        if props.last().0@ != "Type"@ {
            assert forall|j: int| 0 <= j < shorter.len() implies #[trigger] shorter[j]
                == props[j] by {}
            law_kind_is_read(shorter, k);
        }
    }
}

/// A network is saved where its property is a path other than the root.
pub proof fn law_saved_path_is_read(props: Seq<(String, PropValue)>, k: int)
    requires
        is_last_value(props, "KnownNetwork"@, k) || has_no_value(props, "KnownNetwork"@),
    ensures
        is_last_value(props, "KnownNetwork"@, k) ==> iwd_networks::props_of(
            props,
        ).known_network_path == match props[k].1 {
            PropValue::Path(p) => if p@.len() > 1 || (p@.len() == 1 && p@[0] != '/') {
                Some(p@)
            } else {
                None
            },
            _ => None,
        },
        has_no_value(props, "KnownNetwork"@) ==> iwd_networks::props_of(
            props,
        ).known_network_path is None,
    decreases props.len(),
{
    lemma_keys();
    reveal_strlit("/");
    if props.len() > 0 {
        let shorter = props.drop_last();
        assert(props.last() == props[props.len() - 1]);
        if props.last().0@ != "KnownNetwork"@ {
            assert forall|j: int| 0 <= j < shorter.len() implies #[trigger] shorter[j]
                == props[j] by {}
            law_saved_path_is_read(shorter, k);
        } else if let PropValue::Path(p) = props.last().1 {
            assert((p@ == "/"@) == (p@.len() == 1 && p@[0] == '/')) by {
                if p@.len() == 1 && p@[0] == '/' {
                    assert(p@ =~= "/"@);
                }
            }
        }
    }
}

/// Where the properties of a network stand among an object's interfaces.
pub open spec fn is_network_interface(interfaces: Seq<InterfaceProps>, k: int) -> bool {
    &&& 0 <= k < interfaces.len()
    &&& interfaces[k].name@ == "net.connman.iwd.Network"@
    &&& forall|j: int|
        0 <= j < k ==> (#[trigger] interfaces[j]).name@ != "net.connman.iwd.Network"@
}

/// The properties of a path are those of the last object there that is a network.
pub proof fn law_properties_are_found_by_path(objects: Seq<ObjectProps>, i: int, k: int)
    requires
        0 <= i < objects.len(),
        is_network_interface(objects[i].interfaces@, k),
        forall|j: int| i < j < objects.len() ==> (#[trigger] objects[j]).path@ != objects[i].path@,
    ensures
        iwd_networks::props_by_path(objects).dom().contains(objects[i].path@),
        iwd_networks::props_by_path(objects)[objects[i].path@] == iwd_networks::props_of(
            objects[i].interfaces@[k].props@,
        ),
    decreases objects.len(),
{
    let shorter = objects.drop_last();
    assert(objects.last() == objects[objects.len() - 1]);
    if i == objects.len() - 1 {
        lemma_network_interface(objects[i].interfaces@, k, 0);
    } else {
        assert(shorter[i] == objects[i]);
        assert forall|j: int| i < j < shorter.len() implies (#[trigger] shorter[j]).path@
            != shorter[i].path@ by {
            assert(shorter[j] == objects[j]);
        }
        law_properties_are_found_by_path(shorter, i, k);
        assert(objects[objects.len() - 1].path@ != objects[i].path@);
    }
}

proof fn lemma_network_interface(interfaces: Seq<InterfaceProps>, k: int, from: int)
    requires
        is_network_interface(interfaces, k),
        0 <= from <= k,
    ensures
        iwd_networks::network_interface(interfaces, from) == Some(k),
    decreases k - from,
{
    if from < k {
        assert(interfaces[from].name@ != "net.connman.iwd.Network"@);
        lemma_network_interface(interfaces, k, from + 1);
    }
}

} // verus!

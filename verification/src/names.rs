//! A map keyed by names, kept in the order in which the names first came.

use vstd::prelude::*;
use vstd::string::*;

use crate::text;

verus! {

/// A map from names to values.
#[derive(Debug)]
pub struct NameMap<V> {
    pub entries: Vec<(String, V)>,
}

/// The position of `name`'s entry, or `entries.len()`.
pub open spec fn name_index<V>(entries: Seq<(String, V)>, name: Seq<char>) -> int
    decreases entries.len(),
{
    if entries.len() == 0 || entries[0].0@ == name {
        0
    } else {
        1 + name_index(entries.drop_first(), name)
    }
}

pub proof fn lemma_name_index<V>(entries: Seq<(String, V)>, name: Seq<char>)
    ensures
        0 <= name_index(entries, name) <= entries.len(),
        name_index(entries, name) < entries.len() ==> entries[name_index(entries, name)].0@ == name,
        forall|j: int| 0 <= j < name_index(entries, name) ==> (#[trigger] entries[j]).0@ != name,
    decreases entries.len(),
{
    if entries.len() > 0 && entries[0].0@ != name {
        let t = entries.drop_first();
        lemma_name_index(t, name);
        assert forall|j: int| 0 <= j < name_index(entries, name) implies (#[trigger]
        entries[j]).0@ != name by {
            if j > 0 {
                assert(entries[j] == t[j - 1]);
            }
        }
        if name_index(entries, name) < entries.len() {
            assert(entries[name_index(entries, name)] == t[name_index(t, name)]);
        }
    }
}

proof fn lemma_name_index_unique<V>(entries: Seq<(String, V)>, name: Seq<char>, k: int)
    requires
        0 <= k <= entries.len(),
        k < entries.len() ==> entries[k].0@ == name,
        forall|j: int| 0 <= j < k ==> (#[trigger] entries[j]).0@ != name,
    ensures
        name_index(entries, name) == k,
{
    lemma_name_index(entries, name);
    let i = name_index(entries, name);
    if i < k {
        assert(entries[i].0@ == name);
    }
    if k < i {
        assert(entries[k].0@ != name);
    }
}

impl<V> View for NameMap<V> {
    type V = Map<Seq<char>, V>;

    open spec fn view(&self) -> Map<Seq<char>, V> {
        Map::new(
            |n: Seq<char>| name_index(self.entries@, n) < self.entries@.len(),
            |n: Seq<char>| self.entries@[name_index(self.entries@, n)].1,
        )
    }
}

impl<V> NameMap<V> {
    /// No name has two entries.
    pub open spec fn wf(&self) -> bool {
        forall|i: int, j: int|
            0 <= i < j < self.entries@.len() ==> (#[trigger] self.entries@[i]).0@ != (
            #[trigger] self.entries@[j]).0@
    }

    pub fn new() -> (m: Self)
        ensures
            m.wf(),
            m@ == Map::<Seq<char>, V>::empty(),
            m.entries@.len() == 0,
    {
        let m = NameMap { entries: Vec::new() };
        assert(m@ =~= Map::<Seq<char>, V>::empty());
        m
    }

    fn position(&self, name: &str) -> (k: usize)
        ensures
            k == name_index(self.entries@, name@),
            k <= self.entries@.len(),
    {
        let mut i: usize = 0;
        while i < self.entries.len()
            invariant
                i <= self.entries.len(),
                forall|j: int| 0 <= j < i ==> (#[trigger] self.entries@[j]).0@ != name@,
            decreases self.entries.len() - i,
        {
            if text::str_eq(self.entries[i].0.as_str(), name) {
                proof {
                    lemma_name_index_unique(self.entries@, name@, i as int);
                }
                return i;
            }
            i += 1;
        }
        proof {
            lemma_name_index_unique(self.entries@, name@, i as int);
        }
        i
    }

    /// The value under `name`.
    pub fn get(&self, name: &str) -> (r: Option<&V>)
        ensures
            match r {
                Some(v) => self@.dom().contains(name@) && *v == self@[name@],
                None => !self@.dom().contains(name@),
            },
    {
        let k = self.position(name);
        if k < self.entries.len() {
            Some(&self.entries[k].1)
        } else {
            None
        }
    }

    /// Puts `value` under `name`, in place of what was there.
    pub fn insert(&mut self, name: String, value: V)
        requires
            old(self).wf(),
        ensures
            final(self).wf(),
            final(self)@ == old(self)@.insert(name@, value),
    {
        let ghost before = self.entries@;
        let ghost n = name@;
        let k = self.position(name.as_str());
        proof {
            lemma_name_index(before, n);
        }
        if k < self.entries.len() {
            self.entries.set(k, (name, value));
        } else {
            self.entries.push((name, value));
        }
        proof {
            let now = self.entries@;
            assert forall|m: Seq<char>| #[trigger]
                self@.dom().contains(m) == old(self)@.insert(n, value).dom().contains(m) by {
                lemma_name_index(before, m);
                lemma_name_index(now, m);
                lemma_after_insert(before, now, n, k as int, m);
            }
            assert forall|m: Seq<char>| self@.dom().contains(m) implies #[trigger] self@[m]
                == old(self)@.insert(n, value)[m] by {
                lemma_name_index(before, m);
                lemma_name_index(now, m);
                lemma_after_insert(before, now, n, k as int, m);
            }
            assert(self@ =~= old(self)@.insert(n, value));
        }
    }
}

/// After an insertion at `k`, every name is found where it was, and the
/// inserted one at `k`.
proof fn lemma_after_insert<V>(
    before: Seq<(String, V)>,
    now: Seq<(String, V)>,
    name: Seq<char>,
    k: int,
    m: Seq<char>,
)
    requires
        k == name_index(before, name),
        0 <= k <= before.len(),
        now.len() == (if k < before.len() {
            before.len()
        } else {
            before.len() + 1
        }),
        now[k].0@ == name,
        forall|j: int| 0 <= j < before.len() && j != k ==> #[trigger] now[j] == before[j],
    ensures
        m == name ==> name_index(now, m) == k,
        m != name && name_index(before, m) < before.len() ==> name_index(now, m) == name_index(
            before,
            m,
        ),
        m != name && name_index(before, m) == before.len() ==> name_index(now, m) == now.len(),
{
    lemma_name_index(before, name);
    lemma_name_index(before, m);
    if m == name {
        lemma_name_index_unique(now, m, k);
    } else if name_index(before, m) < before.len() {
        let i = name_index(before, m);
        assert(now[i] == before[i]);
        lemma_name_index_unique(now, m, i);
    } else {
        assert forall|j: int| 0 <= j < now.len() implies (#[trigger] now[j]).0@ != m by {
            if j != k {
                assert(now[j] == before[j]);
            }
        }
        lemma_name_index_unique(now, m, now.len() as int);
    }
}

} // verus!

//! Who listens to a service: registrations by id.

use vstd::prelude::*;

verus! {

/// Names one registration.
#[derive(Debug, Clone, Copy, PartialEq, Eq, Structural)]
pub struct CallbackId(pub u64);

/// The registrations of a service, oldest first.
#[derive(Debug)]
pub struct Callbacks {
    pub ids: Vec<CallbackId>,
    pub next: u64,
}

impl View for Callbacks {
    type V = Seq<CallbackId>;

    open spec fn view(&self) -> Seq<CallbackId> {
        self.ids@
    }
}

impl Callbacks {
    /// Ids are given once, in ascending order.
    pub closed spec fn wf(&self) -> bool {
        &&& forall|i: int| 0 <= i < self.ids@.len() ==> (#[trigger] self.ids@[i]).0 < self.next
        &&& forall|i: int, j: int|
            0 <= i < j < self.ids@.len() ==> (#[trigger] self.ids@[i]).0 < (
            #[trigger] self.ids@[j]).0
    }

    /// Whether another id can be given.
    pub open spec fn has_room(&self) -> bool {
        self.next < u64::MAX
    }

    pub fn new() -> (c: Self)
        ensures
            c.wf(),
            c.has_room(),
            c.next == 0,
            c@ == Seq::<CallbackId>::empty(),
    {
        Callbacks { ids: Vec::new(), next: 0 }
    }

    /// Adds a registration under an id that was never given before.
    pub fn register(&mut self) -> (id: CallbackId)
        requires
            old(self).wf(),
            old(self).has_room(),
        ensures
            final(self).wf(),
            id.0 == old(self).next,
            final(self).next == old(self).next + 1,
            final(self)@ == old(self)@.push(id),
            !old(self)@.contains(id),
    {
        let id = CallbackId(self.next);
        self.ids.push(id);
        self.next = self.next + 1;
        id
    }

    /// Removes a registration. Says whether there was one.
    pub fn unregister(&mut self, id: CallbackId) -> (found: bool)
        requires
            old(self).wf(),
        ensures
            final(self).wf(),
            final(self).next == old(self).next,
            found == old(self)@.contains(id),
            !found ==> final(self)@ == old(self)@,
            found ==> exists|k: int|
                0 <= k < old(self)@.len() && old(self)@[k] == id && final(self)@ == #[trigger] old(self)@.remove(k),
            !final(self)@.contains(id),
    {
        let mut i: usize = 0;
        while i < self.ids.len()
            invariant
                i <= self.ids.len(),
                self.wf(),
                *self == *old(self),
                forall|j: int| 0 <= j < i ==> self.ids@[j] != id,
            decreases self.ids.len() - i,
        {
            if self.ids[i].0 == id.0 {
                let ghost before = self.ids@;
                self.ids.remove(i);
                assert(self.ids@ == before.remove(i as int));
                assert forall|j: int| 0 <= j < self.ids@.len() implies self.ids@[j] != id by {
                    if j >= i {
                        assert(self.ids@[j] == before[j + 1]);
                    } else {
                        assert(self.ids@[j] == before[j]);
                    }
                }
                return true;
            }
            i += 1;
        }
        false
    }

    /// The registrations, oldest first.
    pub fn all(&self) -> (r: Vec<CallbackId>)
        ensures
            r@ == self@,
    {
        let mut r: Vec<CallbackId> = Vec::new();
        let mut i: usize = 0;
        while i < self.ids.len()
            invariant
                i <= self.ids.len(),
                r@ == self.ids@.take(i as int),
            decreases self.ids.len() - i,
        {
            r.push(self.ids[i]);
            assert(self.ids@.take(i + 1) =~= self.ids@.take(i as int).push(self.ids@[i as int]));
            i += 1;
        }
        assert(self.ids@.take(i as int) =~= self.ids@);
        r
    }
}

} // verus!

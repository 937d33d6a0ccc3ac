use vstd::prelude::*;

verus! {

/// A stable address of a value in an [`Arena`]: a slot and the generation of
/// that slot at the time the value was stored.
#[derive(Clone, Copy, Debug, PartialEq, Eq, Structural)]
pub struct Handle {
    pub index: usize,
    pub generation: u64,
}

/// One slot of an arena: its current generation and what it holds.
pub struct Slot<V> {
    generation: u64,
    value: Option<V>,
}

/// Generational storage for long-lived records.
///
/// A slot is reused after its value is disposed, under a higher generation,
/// so that a handle to the disposed value never resolves again. A slot whose
/// generation has reached `u64::MAX` is never reused.
pub struct Arena<V> {
    slots: Vec<Slot<V>>,
}

impl<V> View for Arena<V> {
    /// Each slot as its generation and its contents.
    type V = Seq<(u64, Option<V>)>;

    closed spec fn view(&self) -> Seq<(u64, Option<V>)> {
        Seq::new(self.slots@.len(), |i: int| (self.slots@[i].generation, self.slots@[i].value))
    }
}

impl<V> Arena<V> {
    /// Every occupied slot can still move on to a higher generation.
    pub open spec fn wf(&self) -> bool {
        forall|i: int|
            0 <= i < self@.len() && (#[trigger] self@[i]).1 is Some ==> self@[i].0 < u64::MAX
    }

    /// `h` resolves to a stored value.
    pub open spec fn live(&self, h: Handle) -> bool {
        &&& h.index < self@.len()
        &&& self@[h.index as int].0 == h.generation
        &&& self@[h.index as int].1 is Some
    }

    /// The value that a live handle resolves to.
    pub open spec fn value(&self, h: Handle) -> V
        recommends
            self.live(h),
    {
        self@[h.index as int].1->Some_0
    }

    /// The slot of `h` has moved past its generation: `h` can never resolve
    /// again.
    pub open spec fn retired(&self, h: Handle) -> bool {
        h.index < self@.len() && h.generation < self@[h.index as int].0
    }

    /// No slot lost ground from `self` to `next`: slots are kept and their
    /// generations never go down.
    pub open spec fn grows_to(&self, next: &Self) -> bool {
        &&& self@.len() <= next@.len()
        &&& forall|i: int| 0 <= i < self@.len() ==> self@[i].0 <= (#[trigger] next@[i]).0
    }

    /// The two arenas resolve every handle other than `h` alike.
    pub open spec fn same_except(&self, next: &Self, h: Handle) -> bool {
        forall|k: Handle|
            k != h ==> (#[trigger] next.live(k) == self.live(k) && (self.live(k) ==> next.value(k)
                == self.value(k)))
    }

    /// An empty arena.
    pub fn new() -> (r: Self)
        ensures
            r.wf(),
            r@.len() == 0,
    {
        Arena { slots: Vec::new() }
    }

    /// The number of slots, occupied or not.
    pub fn len(&self) -> (r: usize)
        ensures
            r == self@.len(),
    {
        self.slots.len()
    }

    /// Stores `value` and returns its handle. The first free slot that can
    /// still be reused is taken; otherwise a new slot is added.
    pub fn new_with_storage(&mut self, value: V) -> (h: Handle)
        requires
            old(self).wf(),
            old(self)@.len() < usize::MAX,
        ensures
            final(self).wf(),
            !old(self).live(h),
            final(self).live(h),
            final(self).value(h) == value,
            old(self).same_except(final(self), h),
            old(self).grows_to(final(self)),
    {
        let mut i: usize = 0;
        while i < self.slots.len()
            invariant
                0 <= i <= self.slots@.len(),
                self.slots@ == old(self).slots@,
                old(self).wf(),
                forall|j: int|
                    0 <= j < i ==> (#[trigger] self@[j]).1 is Some || self@[j].0 == u64::MAX,
            decreases self.slots@.len() - i,
        {
            if self.slots[i].value.is_none() && self.slots[i].generation < u64::MAX {
                let generation = self.slots[i].generation;
                self.slots[i].value = Some(value);
                let h = Handle { index: i, generation };
                assert(forall|j: int| 0 <= j < self@.len() && j != i ==> self@[j] == old(self)@[j]);
                return h;
            }
            i = i + 1;
        }
        let h = Handle { index: self.slots.len(), generation: 0 };
        self.slots.push(Slot { generation: 0, value: Some(value) });
        assert(forall|j: int| 0 <= j < old(self)@.len() ==> self@[j] == old(self)@[j]);
        h
    }

    /// Whether `h` resolves to a stored value.
    pub fn contains(&self, h: Handle) -> (r: bool)
        ensures
            r == self.live(h),
    {
        h.index < self.slots.len() && self.slots[h.index].generation == h.generation
            && self.slots[h.index].value.is_some()
    }

    /// The value that `h` resolves to, if any.
    pub fn get(&self, h: Handle) -> (r: Option<&V>)
        ensures
            r is Some <==> self.live(h),
            self.live(h) ==> *r->Some_0 == self.value(h),
    {
        if self.contains(h) {
            self.slots[h.index].value.as_ref()
        } else {
            None
        }
    }

    /// The live handle of slot `index`, if the slot is occupied.
    pub fn handle_at(&self, index: usize) -> (r: Option<Handle>)
        ensures
            match r {
                Some(h) => h.index == index && self.live(h),
                None => !(index < self@.len() && self@[index as int].1 is Some),
            },
    {
        if index < self.slots.len() && self.slots[index].value.is_some() {
            Some(Handle { index, generation: self.slots[index].generation })
        } else {
            None
        }
    }

    /// Puts `value` in the place of what the live handle `h` resolves to, and
    /// returns what was there.
    pub fn replace(&mut self, h: Handle, value: V) -> (r: V)
        requires
            old(self).wf(),
            old(self).live(h),
        ensures
            final(self).wf(),
            r == old(self).value(h),
            final(self).live(h),
            final(self).value(h) == value,
            old(self).same_except(final(self), h),
            old(self)@.len() == final(self)@.len(),
            forall|i: int| 0 <= i < old(self)@.len() ==> old(self)@[i].0 == #[trigger] final(self)@[i].0,
    {
        let r = self.slots[h.index].value.take();
        self.slots[h.index].value = Some(value);
        assert(forall|j: int| 0 <= j < self@.len() && j != h.index ==> self@[j] == old(self)@[j]);
        r.unwrap()
    }

    /// Removes what `h` resolves to and returns it; the slot moves on to the
    /// next generation, so `h` is retired. A handle that does not resolve
    /// leaves the arena as it is.
    pub fn dispose(&mut self, h: Handle) -> (r: Option<V>)
        requires
            old(self).wf(),
        ensures
            final(self).wf(),
            r is Some <==> old(self).live(h),
            old(self).live(h) ==> r == Some(old(self).value(h)) && final(self).retired(h),
            !old(self).live(h) ==> final(self)@ == old(self)@,
            !final(self).live(h),
            old(self).same_except(final(self), h),
            old(self).grows_to(final(self)),
    {
        if !self.contains(h) {
            return None;
        }
        let r = self.slots[h.index].value.take();
        self.slots[h.index].generation = h.generation + 1;
        assert(forall|j: int| 0 <= j < self@.len() && j != h.index ==> self@[j] == old(self)@[j]);
        r
    }
}

} // verus!

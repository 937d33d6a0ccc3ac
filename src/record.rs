use vstd::prelude::*;

verus! {

/// What the engine keeps for one live effect.
///
/// `pending` is the effect's queued wake: notifying sets it, the driving loop
/// consumes it, and many notifications before one consumption coalesce into
/// one wake. `paused` is the state of the effect's ownership scope.
pub struct EffectRecord {
    pub dirty: bool,
    pub pending: bool,
    pub paused: bool,
    pub sources: Vec<usize>,
}

/// The mathematical model of an [`EffectRecord`]: its flags and the set of
/// signals it tracks.
pub struct RecordView {
    pub dirty: bool,
    pub pending: bool,
    pub paused: bool,
    pub sources: Set<usize>,
}

impl View for EffectRecord {
    type V = RecordView;

    open spec fn view(&self) -> RecordView {
        RecordView {
            dirty: self.dirty,
            pending: self.pending,
            paused: self.paused,
            sources: self.sources@.to_set(),
        }
    }
}

impl EffectRecord {
    /// A fresh record: dirty, with one wake queued so that the effect runs
    /// once even if it reads nothing, not paused, tracking nothing.
    pub fn new() -> (r: Self)
        ensures
            r@ == (RecordView { dirty: true, pending: true, paused: false, sources: Set::empty() }),
    {
        let r = EffectRecord { dirty: true, pending: true, paused: false, sources: Vec::new() };
        assert(r.sources@.to_set() =~= Set::empty());
        r
    }

    /// Whether the record tracks signal `s`.
    pub fn tracks(&self, s: usize) -> (r: bool)
        ensures
            r == self@.sources.contains(s),
    {
        let mut i: usize = 0;
        while i < self.sources.len()
            invariant
                0 <= i <= self.sources@.len(),
                forall|j: int| 0 <= j < i ==> self.sources@[j] != s,
            decreases self.sources@.len() - i,
        {
            if self.sources[i] == s {
                assert(self.sources@.contains(s));
                return true;
            }
            i = i + 1;
        }
        assert(!self.sources@.contains(s));
        false
    }

    /// Records a read of signal `s`.
    pub fn add_source(&mut self, s: usize)
        ensures
            final(self)@ == (RecordView { sources: old(self)@.sources.insert(s), ..old(self)@ }),
    {
        if !self.tracks(s) {
            self.sources.push(s);
            assert(self.sources@.to_set() =~= old(self).sources@.to_set().insert(s)) by {
                assert(forall|x: usize| #[trigger] self.sources@.contains(x) <==> (old(self).sources@.contains(x) || x == s)) by {
                    assert forall|x: usize| #[trigger] self.sources@.contains(x) implies (old(self).sources@.contains(x) || x == s) by {
                        let j = choose|j: int| 0 <= j < self.sources@.len() && self.sources@[j] == x;
                        if j < old(self).sources@.len() {
                            assert(old(self).sources@[j] == x);
                        }
                    }
                    assert forall|x: usize| (old(self).sources@.contains(x) || x == s) implies #[trigger] self.sources@.contains(x) by {
                        if x == s {
                            assert(self.sources@[old(self).sources@.len() as int] == x);
                        } else {
                            let j = choose|j: int| 0 <= j < old(self).sources@.len() && old(self).sources@[j] == x;
                            assert(self.sources@[j] == x);
                        }
                    }
                }
            }
        } else {
            assert(old(self)@.sources.insert(s) =~= old(self)@.sources);
        }
    }

    /// Forgets every tracked source, before a run records them anew.
    pub fn clear_sources(&mut self)
        ensures
            final(self)@ == (RecordView { sources: Set::empty(), ..old(self)@ }),
    {
        self.sources.clear();
        assert(self.sources@.to_set() =~= Set::empty());
    }

    /// Resolves staleness: returns whether the record was dirty, and clears
    /// the flag.
    pub fn update_if_necessary(&mut self) -> (stale: bool)
        ensures
            stale == old(self)@.dirty,
            final(self)@ == (RecordView { dirty: false, ..old(self)@ }),
    {
        let stale = self.dirty;
        self.dirty = false;
        stale
    }
}

} // verus!

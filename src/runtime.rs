use vstd::prelude::*;

use crate::arena::{Arena, Handle};
use crate::driver::{
    gate_of, handler_due, record_after_gate, EffectLoop, Gate, HandlerCall, Step, WatchLoop, WatchPhase,
};
use crate::record::{EffectRecord, RecordView};
use crate::scope::EffectScope;

verus! {

/// The address of a reactive value in a [`Runtime`].
#[derive(Clone, Copy, Debug, PartialEq, Eq, Structural)]
pub struct SignalId {
    pub index: usize,
}

/// The state that effects share: the arena of effect records, the reactive
/// values they read, the observer that records reads, the effect-scope flag,
/// and whether effects of the single-thread flavour run at all.
pub struct Runtime {
    pub(crate) effects: Arena<EffectRecord>,
    pub(crate) signals: Vec<i64>,
    pub(crate) observer: Option<Handle>,
    pub(crate) scope: EffectScope,
    pub(crate) effects_enabled: bool,
}

/// A record after a write to signal `s`: marked dirty with a wake queued if
/// the write changed the value and the record tracks `s`, as it was otherwise.
pub open spec fn notified(rec: RecordView, s: usize, changed: bool) -> RecordView {
    if changed && rec.sources.contains(s) {
        RecordView { dirty: true, pending: true, ..rec }
    } else {
        rec
    }
}

impl Runtime {
    /// The arena of effect records.
    pub closed spec fn arena(&self) -> Arena<EffectRecord> {
        self.effects
    }

    /// The value of every reactive value, by index.
    pub closed spec fn values(&self) -> Seq<i64> {
        self.signals@
    }

    /// The effect whose run is currently recording reads, if any.
    pub closed spec fn current_observer(&self) -> Option<Handle> {
        self.observer
    }

    /// Whether an effect body is currently running.
    pub closed spec fn scope_active(&self) -> bool {
        self.scope.active
    }

    /// Whether effects of the single-thread flavour are built live.
    pub closed spec fn enabled(&self) -> bool {
        self.effects_enabled
    }

    pub open spec fn wf(&self) -> bool {
        self.arena().wf()
    }

    /// `h` resolves to a live effect record.
    pub open spec fn live(&self, h: Handle) -> bool {
        self.arena().live(h)
    }

    /// The model of the record that a live handle resolves to.
    pub open spec fn record(&self, h: Handle) -> RecordView {
        self.arena().value(h)@
    }

    /// `s` names a reactive value of this runtime.
    pub open spec fn has_signal(&self, s: SignalId) -> bool {
        s.index < self.values().len()
    }

    /// Every handle other than `h` resolves alike in `self` and `next`, to
    /// records with the same model.
    pub open spec fn same_records_except(&self, next: &Self, h: Option<Handle>) -> bool {
        forall|k: Handle|
            Some(k) != h ==> (#[trigger] next.live(k) == self.live(k) && (self.live(k)
                ==> next.record(k) == self.record(k)))
    }

    /// Everything but the records and the values is as in `self`.
    pub open spec fn same_context(&self, next: &Self) -> bool {
        &&& next.current_observer() == self.current_observer()
        &&& next.scope_active() == self.scope_active()
        &&& next.enabled() == self.enabled()
    }

    /// Changing anything but the arena keeps what `same_records_except` says.
    proof fn lemma_same_arena(a: &Self, b: &Self, c: &Self, h: Option<Handle>)
        requires
            a.same_records_except(b, h),
            b.arena() == c.arena(),
        ensures
            a.same_records_except(c, h),
    {
        assert forall|k: Handle| Some(k) != h implies #[trigger] c.live(k) == a.live(k) && (a.live(k)
            ==> c.record(k) == a.record(k)) by {
            assert(b.live(k) == a.live(k));
        }
    }

    /// A runtime with no effects and no values. `effects_enabled` decides
    /// whether the single-thread flavours build live effects or inert ones.
    pub fn new(effects_enabled: bool) -> (r: Self)
        ensures
            r.wf(),
            r.arena()@.len() == 0,
            r.values().len() == 0,
            r.current_observer() is None,
            !r.scope_active(),
            r.enabled() == effects_enabled,
    {
        Runtime {
            effects: Arena::new(),
            signals: Vec::new(),
            observer: None,
            scope: EffectScope::new(),
            effects_enabled,
        }
    }

    /// Whether effects of the single-thread flavour are built live.
    pub fn effects_enabled(&self) -> (r: bool)
        ensures
            r == self.enabled(),
    {
        self.effects_enabled
    }

    /// Whether an effect body is currently running.
    pub fn in_effect_scope(&self) -> (r: bool)
        ensures
            r == self.scope_active(),
    {
        crate::scope::in_effect_scope(&self.scope)
    }

    /// The number of arena slots, so callers can tell whether one more fits.
    pub fn arena_len(&self) -> (r: usize)
        ensures
            r == self.arena()@.len(),
    {
        self.effects.len()
    }

    /// The number of reactive values.
    pub fn signal_count(&self) -> (r: usize)
        ensures
            r == self.values().len(),
    {
        self.signals.len()
    }

    /// Builds the shared plumbing of a new effect: a record that is dirty,
    /// has one wake queued, is not paused and tracks nothing.
    pub fn effect_base(&mut self) -> (h: Handle)
        requires
            old(self).wf(),
            old(self).arena()@.len() < usize::MAX,
        ensures
            final(self).wf(),
            !old(self).live(h),
            final(self).live(h),
            final(self).record(h) == (RecordView {
                dirty: true,
                pending: true,
                paused: false,
                sources: Set::empty(),
            }),
            old(self).same_records_except(final(self), Some(h)),
            old(self).arena().grows_to(&final(self).arena()),
            final(self).values() == old(self).values(),
            old(self).same_context(final(self)),
    {
        self.effects.new_with_storage(EffectRecord::new())
    }

    /// Whether `h` resolves to a live effect record.
    pub fn contains_effect(&self, h: Handle) -> (r: bool)
        ensures
            r == self.live(h),
    {
        self.effects.contains(h)
    }

    /// Whether the live effect `h` tracks the value `s`.
    pub fn tracks(&self, h: Handle, s: SignalId) -> (r: bool)
        ensures
            r == (self.live(h) && self.record(h).sources.contains(s.index)),
    {
        match self.effects.get(h) {
            Some(rec) => rec.tracks(s.index),
            None => false,
        }
    }

    /// Adds a reactive value holding `value`.
    pub fn create_signal(&mut self, value: i64) -> (s: SignalId)
        requires
            old(self).values().len() < usize::MAX,
        ensures
            final(self).values() == old(self).values().push(value),
            s.index == old(self).values().len(),
            final(self).arena() == old(self).arena(),
            old(self).same_context(final(self)),
    {
        let s = SignalId { index: self.signals.len() };
        self.signals.push(value);
        s
    }

    /// Reads a value without recording the read.
    pub fn get_untracked(&self, s: SignalId) -> (r: i64)
        requires
            self.has_signal(s),
        ensures
            r == self.values()[s.index as int],
    {
        self.signals[s.index]
    }

    /// Reads a value. If an effect is observing, it now tracks `s`.
    pub fn get(&mut self, s: SignalId) -> (r: i64)
        requires
            old(self).wf(),
            old(self).has_signal(s),
        ensures
            final(self).wf(),
            r == old(self).values()[s.index as int],
            final(self).values() == old(self).values(),
            old(self).same_context(final(self)),
            old(self).arena().grows_to(&final(self).arena()),
            old(self).same_records_except(final(self), old(self).current_observer()),
            match old(self).current_observer() {
                Some(h) => {
                    &&& final(self).live(h) == old(self).live(h)
                    &&& old(self).live(h) ==> final(self).record(h) == (RecordView {
                        sources: old(self).record(h).sources.insert(s.index),
                        ..old(self).record(h)
                    })
                },
                None => true,
            },
    {
        let r = self.signals[s.index];
        if let Some(h) = self.observer {
            if self.effects.contains(h) {
                let mut rec = self.effects.replace(h, EffectRecord::new());
                rec.add_source(s.index);
                self.effects.replace(h, rec);
            }
        }
        r
    }

    /// Writes `value`. If it differs from the current value, every live
    /// effect that tracks `s` is marked dirty and gets a wake; writing the
    /// value that is already there notifies nobody.
    pub fn set(&mut self, s: SignalId, value: i64)
        requires
            old(self).wf(),
            old(self).has_signal(s),
        ensures
            final(self).wf(),
            final(self).values() == old(self).values().update(s.index as int, value),
            old(self).same_context(final(self)),
            old(self).arena().grows_to(&final(self).arena()),
            forall|h: Handle| #[trigger] final(self).live(h) == old(self).live(h),
            forall|h: Handle|
                old(self).live(h) ==> #[trigger] final(self).record(h) == notified(
                    old(self).record(h),
                    s.index,
                    old(self).values()[s.index as int] != value,
                ),
    {
        let changed = self.signals[s.index] != value;
        self.signals.set(s.index, value);
        if !changed {
            assert(forall|h: Handle| old(self).live(h) ==> notified(old(self).record(h), s.index, false) == old(self).record(h));
            return;
        }
        let n = self.effects.len();
        let mut i: usize = 0;
        while i < n
            invariant
                0 <= i <= n,
                n == old(self).arena()@.len(),
                self.wf(),
                changed,
                self.values() == old(self).values().update(s.index as int, value),
                old(self).same_context(self),
                old(self).arena().grows_to(&self.arena()),
                self.arena()@.len() == n,
                forall|j: int| 0 <= j < n ==> #[trigger] self.arena()@[j].0 == old(self).arena()@[j].0,
                forall|h: Handle| #[trigger] self.live(h) == old(self).live(h),
                forall|h: Handle|
                    old(self).live(h) && h.index < i ==> #[trigger] self.record(h) == notified(
                        old(self).record(h),
                        s.index,
                        true,
                    ),
                forall|h: Handle|
                    old(self).live(h) && h.index >= i ==> #[trigger] self.record(h) == old(
                        self,
                    ).record(h),
            decreases n - i,
        {
            let ghost before = *self;
            match self.effects.handle_at(i) {
                Some(h) => {
                    let mut rec = self.effects.replace(h, EffectRecord::new());
                    let ghost taken = rec@;
                    let ghost mid = self.arena();
                    assert(taken == before.record(h));
                    if rec.tracks(s.index) {
                        rec.dirty = true;
                        rec.pending = true;
                    }
                    assert(rec@ == notified(taken, s.index, true));
                    self.effects.replace(h, rec);
                    assert(self.record(h) == notified(before.record(h), s.index, true));
                    assert forall|k: Handle| k != h implies #[trigger] self.live(k) == before.live(k) && (before.live(k) ==> self.record(k) == before.record(k)) by {
                        assert(mid.live(k) == before.arena().live(k));
                        assert(self.arena().live(k) == mid.live(k));
                    }
                    assert forall|k: Handle| #[trigger] self.live(k) implies old(self).live(k) by {
                        assert(before.live(k));
                    }
                    assert forall|k: Handle| old(self).live(k) implies #[trigger] self.live(k) by {
                        assert(before.live(k));
                    }
                    assert forall|k: Handle| old(self).live(k) && k.index < i + 1 implies #[trigger] self.record(k) == notified(old(self).record(k), s.index, true) by {
                        assert(before.live(k));
                        if k.index == i {
                            assert(old(self).arena()@[k.index as int].0 == k.generation);
                            assert(k == h);
                        } else {
                            assert(k != h);
                            assert(self.live(k) == before.live(k));
                            assert(before.record(k) == notified(old(self).record(k), s.index, true));
                        }
                    }
                    assert forall|k: Handle| old(self).live(k) && k.index >= i + 1 implies #[trigger] self.record(k) == old(self).record(k) by {
                        assert(before.live(k));
                        assert(k != h);
                        assert(self.live(k) == before.live(k));
                        assert(before.record(k) == old(self).record(k));
                    }
                },
                None => {
                    assert forall|k: Handle| old(self).live(k) && k.index < i + 1 implies #[trigger] self.record(k) == notified(old(self).record(k), s.index, true) by {
                        assert(before.live(k));
                        if k.index != i {
                            assert(before.record(k) == notified(old(self).record(k), s.index, true));
                        }
                    }
                },
            }
            i = i + 1;
        }
    }

    /// Sets the pause state of the ownership scope of the live effect `h`.
    /// A paused effect consumes its wakes without running.
    pub fn set_paused(&mut self, h: Handle, paused: bool)
        requires
            old(self).wf(),
        ensures
            final(self).wf(),
            final(self).values() == old(self).values(),
            old(self).same_context(final(self)),
            old(self).arena().grows_to(&final(self).arena()),
            old(self).same_records_except(final(self), Some(h)),
            final(self).live(h) == old(self).live(h),
            old(self).live(h) ==> final(self).record(h) == (RecordView { paused, ..old(self).record(h) }),
    {
        if self.effects.contains(h) {
            let mut rec = self.effects.replace(h, EffectRecord::new());
            rec.paused = paused;
            self.effects.replace(h, rec);
        }
    }

    /// Handles one turn of the driving loop of `h` up to the decision:
    /// consumes a queued wake, gates on the pause state, resolves staleness,
    /// and on a run clears the tracked sources.
    pub fn gate(&mut self, h: Handle, first_run: bool) -> (g: Gate)
        requires
            old(self).wf(),
        ensures
            final(self).wf(),
            g == gate_of(old(self).live(h), old(self).record(h), first_run),
            final(self).live(h) == old(self).live(h),
            old(self).live(h) ==> final(self).record(h) == record_after_gate(
                old(self).record(h),
                first_run,
            ),
            old(self).same_records_except(final(self), Some(h)),
            old(self).arena().grows_to(&final(self).arena()),
            final(self).values() == old(self).values(),
            old(self).same_context(final(self)),
    {
        if !self.effects.contains(h) {
            return Gate::Closed;
        }
        let mut rec = self.effects.replace(h, EffectRecord::new());
        let g = if !rec.pending {
            Gate::Idle
        } else {
            rec.pending = false;
            if rec.paused {
                Gate::Skipped
            } else if rec.update_if_necessary() || first_run {
                rec.clear_sources();
                Gate::Run
            } else {
                Gate::Skipped
            }
        };
        self.effects.replace(h, rec);
        g
    }

    /// One turn of a plain effect's driving loop up to its run. On a run the
    /// loop hands out its previous output, is marked in flight, and the
    /// runtime observes reads for the effect inside an active effect scope,
    /// until `end_run`. Otherwise nothing but the record changes.
    pub fn begin_run<T>(&mut self, lp: &mut EffectLoop<T>) -> (r: Step<T>)
        requires
            old(self).wf(),
            !old(lp).in_flight,
        ensures
            final(self).wf(),
            r.gate() == gate_of(old(self).live(old(lp).effect), old(self).record(old(lp).effect), old(lp).first_run),
            final(self).live(old(lp).effect) == old(self).live(old(lp).effect),
            old(self).live(old(lp).effect) ==> final(self).record(old(lp).effect) == record_after_gate(
                old(self).record(old(lp).effect),
                old(lp).first_run,
            ),
            old(self).same_records_except(final(self), Some(old(lp).effect)),
            old(self).arena().grows_to(&final(self).arena()),
            final(self).values() == old(self).values(),
            final(self).enabled() == old(self).enabled(),
            final(lp).effect == old(lp).effect,
            match r {
                Step::Run(prev) => {
                    &&& prev == old(lp).value
                    &&& final(lp).value is None
                    &&& !final(lp).first_run
                    &&& final(lp).in_flight
                    &&& final(lp).saved_scope == old(self).scope_active()
                    &&& final(lp).saved_observer == old(self).current_observer()
                    &&& final(self).current_observer() == Some(old(lp).effect)
                    &&& final(self).scope_active()
                },
                _ => {
                    &&& *final(lp) == *old(lp)
                    &&& old(self).same_context(final(self))
                },
            },
    {
        let ghost start = *self;
        let g = self.gate(lp.effect, lp.first_run);
        let ghost mid = *self;
        let r = match g {
            Gate::Closed => Step::Closed,
            Gate::Idle => Step::Idle,
            Gate::Skipped => Step::Skipped,
            Gate::Run => {
                let prev = lp.value.take();
                lp.first_run = false;
                lp.in_flight = true;
                lp.saved_observer = self.observer;
                self.observer = Some(lp.effect);
                lp.saved_scope = self.scope.enter();
                Step::Run(prev)
            },
        };
        proof {
            Self::lemma_same_arena(&start, &mid, self, Some(lp.effect));
        }
        r
    }

    /// Ends the run that `begin_run` started: stores `output` as the
    /// previous output and restores the observer and the scope state.
    pub fn end_run<T>(&mut self, lp: &mut EffectLoop<T>, output: T)
        requires
            old(lp).in_flight,
        ensures
            final(lp).value == Some(output),
            !final(lp).in_flight,
            final(lp).first_run == old(lp).first_run,
            final(lp).effect == old(lp).effect,
            final(self).current_observer() == old(lp).saved_observer,
            final(self).scope_active() == old(lp).saved_scope,
            final(self).enabled() == old(self).enabled(),
            final(self).arena() == old(self).arena(),
            final(self).values() == old(self).values(),
    {
        lp.value = Some(output);
        lp.in_flight = false;
        self.observer = lp.saved_observer;
        self.scope.restore(lp.saved_scope);
    }

    /// One turn of a watch effect's driving loop up to its dependency
    /// function. On a run the runtime observes reads for the effect until
    /// `end_tracking`. The effect scope is left as it is.
    pub fn begin_tracking<D, T>(&mut self, wl: &mut WatchLoop<D, T>) -> (g: Gate)
        requires
            old(self).wf(),
            old(wl).phase == WatchPhase::Waiting,
        ensures
            final(self).wf(),
            g == gate_of(old(self).live(old(wl).effect), old(self).record(old(wl).effect), old(wl).first_run),
            final(self).live(old(wl).effect) == old(self).live(old(wl).effect),
            old(self).live(old(wl).effect) ==> final(self).record(old(wl).effect) == record_after_gate(
                old(self).record(old(wl).effect),
                old(wl).first_run,
            ),
            old(self).same_records_except(final(self), Some(old(wl).effect)),
            old(self).arena().grows_to(&final(self).arena()),
            final(self).values() == old(self).values(),
            final(self).enabled() == old(self).enabled(),
            final(self).scope_active() == old(self).scope_active(),
            g == Gate::Run ==> {
                &&& final(wl).phase == WatchPhase::Tracking
                &&& final(wl).saved_observer == old(self).current_observer()
                &&& final(self).current_observer() == Some(old(wl).effect)
                &&& final(wl).effect == old(wl).effect
                &&& final(wl).first_run == old(wl).first_run
                &&& final(wl).immediate == old(wl).immediate
                &&& final(wl).dep == old(wl).dep
                &&& final(wl).value == old(wl).value
            },
            g != Gate::Run ==> *final(wl) == *old(wl) && final(self).current_observer()
                == old(self).current_observer(),
    {
        let ghost start = *self;
        let g = self.gate(wl.effect, wl.first_run);
        let ghost mid = *self;
        if g == Gate::Run {
            wl.phase = WatchPhase::Tracking;
            wl.saved_observer = self.observer;
            self.observer = Some(wl.effect);
        }
        proof {
            Self::lemma_same_arena(&start, &mid, self, Some(wl.effect));
        }
        g
    }

    /// Ends the dependency function of a watch turn with its value `dep` and
    /// restores the observer. If the handler is due, the loop hands out what
    /// the handler is called with and waits for `WatchLoop::finish`;
    /// otherwise `dep` becomes the previous dependency value and the turn is
    /// over.
    pub fn end_tracking<D, T>(&mut self, wl: &mut WatchLoop<D, T>, dep: D) -> (r: Option<
        HandlerCall<D, T>,
    >)
        requires
            old(wl).phase == WatchPhase::Tracking,
        ensures
            final(self).current_observer() == old(wl).saved_observer,
            final(self).scope_active() == old(self).scope_active(),
            final(self).enabled() == old(self).enabled(),
            final(self).arena() == old(self).arena(),
            final(self).values() == old(self).values(),
            final(wl).effect == old(wl).effect,
            final(wl).immediate == old(wl).immediate,
            final(wl).value is None,
            r is Some <==> handler_due(old(wl).immediate, old(wl).first_run),
            match r {
                Some(call) => {
                    &&& call.current == dep
                    &&& call.previous == old(wl).dep
                    &&& call.output == old(wl).value
                    &&& final(wl).phase == WatchPhase::Handling
                    &&& final(wl).dep is None
                    &&& final(wl).first_run == old(wl).first_run
                },
                None => {
                    &&& final(wl).phase == WatchPhase::Waiting
                    &&& final(wl).dep == Some(dep)
                    &&& !final(wl).first_run
                },
            },
    {
        self.observer = wl.saved_observer;
        let previous = wl.dep.take();
        let output = wl.value.take();
        if wl.immediate || !wl.first_run {
            wl.phase = WatchPhase::Handling;
            Some(HandlerCall { current: dep, previous, output })
        } else {
            wl.dep = Some(dep);
            wl.first_run = false;
            wl.phase = WatchPhase::Waiting;
            None
        }
    }

    /// Drops the record of `h`, if it is live. Its driving loop then finds
    /// the channel closed and ends.
    pub fn dispose_effect(&mut self, h: Handle)
        requires
            old(self).wf(),
        ensures
            final(self).wf(),
            !final(self).live(h),
            old(self).live(h) ==> final(self).arena().retired(h),
            !old(self).live(h) ==> final(self).arena()@ == old(self).arena()@,
            old(self).same_records_except(final(self), Some(h)),
            old(self).arena().grows_to(&final(self).arena()),
            final(self).values() == old(self).values(),
            old(self).same_context(final(self)),
    {
        let _ = self.effects.dispose(h);
    }
}

} // verus!

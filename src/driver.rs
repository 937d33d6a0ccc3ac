use vstd::prelude::*;

use crate::arena::Handle;
use crate::record::RecordView;

verus! {

/// What the driving loop of an effect does with the wake it was handed.
#[derive(Clone, Copy, Debug, PartialEq, Eq, Structural)]
pub enum Gate {
    /// The record is gone: the channel is closed and the loop ends for good.
    Closed,
    /// No wake is queued: the loop waits.
    Idle,
    /// A wake was consumed, but the scope is paused or nothing changed.
    Skipped,
    /// A wake was consumed and the effect runs now.
    Run,
}

/// The decision of the driving loop on one wake. A run happens only when the
/// record is live, a wake is queued, the scope is not paused, and the record
/// is stale or this is the first run.
pub open spec fn gate_of(live: bool, rec: RecordView, first_run: bool) -> Gate {
    if !live {
        Gate::Closed
    } else if !rec.pending {
        Gate::Idle
    } else if !rec.paused && (rec.dirty || first_run) {
        Gate::Run
    } else {
        Gate::Skipped
    }
}

/// The record after the driving loop handled it: a queued wake is consumed;
/// unless the scope is paused, staleness is resolved (the dirty flag
/// cleared); on a run, the tracked sources are cleared to be recorded anew.
pub open spec fn record_after_gate(rec: RecordView, first_run: bool) -> RecordView {
    if !rec.pending {
        rec
    } else if rec.paused {
        RecordView { pending: false, ..rec }
    } else if rec.dirty || first_run {
        RecordView { pending: false, dirty: false, sources: Set::empty(), ..rec }
    } else {
        RecordView { pending: false, dirty: false, ..rec }
    }
}

/// The outcome of one turn of a plain effect's driving loop. On a run it
/// carries the previous output, which the loop no longer holds.
pub enum Step<T> {
    Closed,
    Idle,
    Skipped,
    Run(Option<T>),
}

impl<T> Step<T> {
    /// The decision that this outcome reports.
    pub open spec fn gate(&self) -> Gate {
        match self {
            Step::Closed => Gate::Closed,
            Step::Idle => Gate::Idle,
            Step::Skipped => Gate::Skipped,
            Step::Run(_) => Gate::Run,
        }
    }
}

/// The state that the driving loop of a plain effect owns: whether the next
/// run is the first, the output of the last run, and while a run is in
/// flight, the observer and scope state to restore when it ends.
pub struct EffectLoop<T> {
    pub effect: Handle,
    pub first_run: bool,
    pub value: Option<T>,
    pub in_flight: bool,
    pub saved_scope: bool,
    pub saved_observer: Option<Handle>,
}

impl<T> EffectLoop<T> {
    /// A loop that has not run yet.
    pub open spec fn fresh(&self, effect: Handle) -> bool {
        &&& self.effect == effect
        &&& self.first_run
        &&& self.value is None
        &&& !self.in_flight
    }

    /// The loop of the effect `effect`, before its first run.
    pub fn new(effect: Handle) -> (r: Self)
        ensures
            r.fresh(effect),
    {
        EffectLoop {
            effect,
            first_run: true,
            value: None,
            in_flight: false,
            saved_scope: false,
            saved_observer: None,
        }
    }

    /// The output of the last run, if any.
    pub fn value(&self) -> (r: Option<&T>)
        ensures
            r == match self.value {
                Some(v) => Some(&v),
                None => None::<&T>,
            },
    {
        self.value.as_ref()
    }
}

/// Where the driving loop of a watch effect stands.
#[derive(Clone, Copy, Debug, PartialEq, Eq, Structural)]
pub enum WatchPhase {
    /// Waiting for a wake.
    Waiting,
    /// The dependency function runs under the observer.
    Tracking,
    /// The handler runs, outside the observer.
    Handling,
}

/// What the handler of a watch effect is called with: the new dependency
/// value, the previous one, and the handler's previous output.
pub struct HandlerCall<D, T> {
    pub current: D,
    pub previous: Option<D>,
    pub output: Option<T>,
}

/// The state that the driving loop of a watch effect owns.
pub struct WatchLoop<D, T> {
    pub effect: Handle,
    pub first_run: bool,
    pub immediate: bool,
    pub dep: Option<D>,
    pub value: Option<T>,
    pub phase: WatchPhase,
    pub saved_observer: Option<Handle>,
}

/// Whether the handler runs on a turn: always when `immediate`, otherwise
/// on every turn but the first.
pub open spec fn handler_due(immediate: bool, first_run: bool) -> bool {
    immediate || !first_run
}

impl<D, T> WatchLoop<D, T> {
    /// A loop that has not run yet.
    pub open spec fn fresh(&self, effect: Handle, immediate: bool) -> bool {
        &&& self.effect == effect
        &&& self.first_run
        &&& self.immediate == immediate
        &&& self.dep is None
        &&& self.value is None
        &&& self.phase == WatchPhase::Waiting
    }

    /// The loop of the watch effect `effect`, before its first run.
    pub fn new(effect: Handle, immediate: bool) -> (r: Self)
        ensures
            r.fresh(effect, immediate),
    {
        WatchLoop {
            effect,
            first_run: true,
            immediate,
            dep: None,
            value: None,
            phase: WatchPhase::Waiting,
            saved_observer: None,
        }
    }

    /// Ends a turn on which the handler ran: `current` becomes the previous
    /// dependency value and `output` the previous handler output.
    pub fn finish(&mut self, current: D, output: T)
        requires
            old(self).phase == WatchPhase::Handling,
        ensures
            final(self).dep == Some(current),
            final(self).value == Some(output),
            !final(self).first_run,
            final(self).phase == WatchPhase::Waiting,
            final(self).effect == old(self).effect,
            final(self).immediate == old(self).immediate,
    {
        self.dep = Some(current);
        self.value = Some(output);
        self.first_run = false;
        self.phase = WatchPhase::Waiting;
    }
}

} // verus!

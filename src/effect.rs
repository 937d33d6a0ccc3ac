use vstd::prelude::*;

use crate::arena::Handle;
use crate::driver::{EffectLoop, WatchLoop};
use crate::record::RecordView;
use crate::runtime::Runtime;

verus! {

/// An effect: a function that runs once after its creation, on a later turn
/// of its driving loop, and again whenever the values it read change.
///
/// The handle is a copyable address of the effect's record. An inert effect
/// (`inner` is `None`) was built while effects were disabled; every operation
/// on it does nothing.
#[derive(Clone, Copy, Debug)]
pub struct Effect {
    pub inner: Option<Handle>,
}

/// The record of a newly built effect.
pub open spec fn fresh_record() -> RecordView {
    RecordView { dirty: true, pending: true, paused: false, sources: Set::empty() }
}

/// `next` is `rt` with one more live effect `h`, whose record is fresh.
pub open spec fn adds_effect(rt: &Runtime, next: &Runtime, h: Handle) -> bool {
    &&& next.wf()
    &&& !rt.live(h)
    &&& next.live(h)
    &&& next.record(h) == fresh_record()
    &&& rt.same_records_except(next, Some(h))
    &&& rt.arena().grows_to(&next.arena())
    &&& next.values() == rt.values()
    &&& rt.same_context(next)
}

impl Effect {
    /// Builds a live effect whatever the runtime's configuration: a fresh
    /// record with one wake queued, and the loop that drives it.
    pub fn new_isomorphic<T>(rt: &mut Runtime) -> (r: (Effect, EffectLoop<T>))
        requires
            old(rt).wf(),
            old(rt).arena()@.len() < usize::MAX,
        ensures
            r.0.inner == Some(r.1.effect),
            r.1.fresh(r.1.effect),
            adds_effect(old(rt), final(rt), r.1.effect),
    {
        let h = rt.effect_base();
        (Effect { inner: Some(h) }, EffectLoop::new(h))
    }

    /// Builds an effect of the single-thread flavour. When the runtime has
    /// effects disabled, the effect is inert, no loop is made and the runtime
    /// is left as it is.
    pub fn new<T>(rt: &mut Runtime) -> (r: (Effect, Option<EffectLoop<T>>))
        requires
            old(rt).wf(),
            old(rt).arena()@.len() < usize::MAX,
        ensures
            !old(rt).enabled() ==> r.0.inner is None && r.1 is None && *final(rt) == *old(rt),
            old(rt).enabled() ==> match r.1 {
                Some(lp) => {
                    &&& r.0.inner == Some(lp.effect)
                    &&& lp.fresh(lp.effect)
                    &&& adds_effect(old(rt), final(rt), lp.effect)
                },
                None => false,
            },
    {
        if !rt.effects_enabled() {
            return (Effect { inner: None }, None);
        }
        let (e, lp) = Effect::new_isomorphic(rt);
        (e, Some(lp))
    }

    /// Builds an effect of the cross-thread flavour; like `new`, it is inert
    /// when the runtime has effects disabled.
    pub fn new_sync<T>(rt: &mut Runtime) -> (r: (Effect, Option<EffectLoop<T>>))
        requires
            old(rt).wf(),
            old(rt).arena()@.len() < usize::MAX,
        ensures
            !old(rt).enabled() ==> r.0.inner is None && r.1 is None && *final(rt) == *old(rt),
            old(rt).enabled() ==> match r.1 {
                Some(lp) => {
                    &&& r.0.inner == Some(lp.effect)
                    &&& lp.fresh(lp.effect)
                    &&& adds_effect(old(rt), final(rt), lp.effect)
                },
                None => false,
            },
    {
        if !rt.effects_enabled() {
            return (Effect { inner: None }, None);
        }
        let (e, lp) = Effect::new_isomorphic(rt);
        (e, Some(lp))
    }

    /// Builds a watch effect: only what its dependency function reads is
    /// tracked, and its handler runs on the first turn only if `immediate`.
    /// It is inert when the runtime has effects disabled.
    pub fn watch<D, T>(rt: &mut Runtime, immediate: bool) -> (r: (Effect, Option<WatchLoop<D, T>>))
        requires
            old(rt).wf(),
            old(rt).arena()@.len() < usize::MAX,
        ensures
            !old(rt).enabled() ==> r.0.inner is None && r.1 is None && *final(rt) == *old(rt),
            old(rt).enabled() ==> match r.1 {
                Some(wl) => {
                    &&& r.0.inner == Some(wl.effect)
                    &&& wl.fresh(wl.effect, immediate)
                    &&& adds_effect(old(rt), final(rt), wl.effect)
                },
                None => false,
            },
    {
        if !rt.effects_enabled() {
            return (Effect { inner: None }, None);
        }
        let h = rt.effect_base();
        (Effect { inner: Some(h) }, Some(WatchLoop::new(h, immediate)))
    }

    /// The cross-thread flavour of `watch`, with the same contract.
    pub fn watch_sync<D, T>(rt: &mut Runtime, immediate: bool) -> (r: (
        Effect,
        Option<WatchLoop<D, T>>,
    ))
        requires
            old(rt).wf(),
            old(rt).arena()@.len() < usize::MAX,
        ensures
            !old(rt).enabled() ==> r.0.inner is None && r.1 is None && *final(rt) == *old(rt),
            old(rt).enabled() ==> match r.1 {
                Some(wl) => {
                    &&& r.0.inner == Some(wl.effect)
                    &&& wl.fresh(wl.effect, immediate)
                    &&& adds_effect(old(rt), final(rt), wl.effect)
                },
                None => false,
            },
    {
        Effect::watch(rt, immediate)
    }

    /// Stops the effect: its record is dropped, so its handle never resolves
    /// again and its loop finds the channel closed. A run already past its
    /// gate may still end. Stopping an inert or stopped effect does nothing.
    pub fn stop(self, rt: &mut Runtime)
        requires
            old(rt).wf(),
        ensures
            final(rt).wf(),
            old(rt).same_records_except(final(rt), self.inner),
            old(rt).arena().grows_to(&final(rt).arena()),
            final(rt).values() == old(rt).values(),
            old(rt).same_context(final(rt)),
            match self.inner {
                Some(h) => {
                    &&& !final(rt).live(h)
                    &&& old(rt).live(h) ==> final(rt).arena().retired(h)
                    &&& !old(rt).live(h) ==> final(rt).arena()@ == old(rt).arena()@
                },
                None => *final(rt) == *old(rt),
            },
    {
        if let Some(h) = self.inner {
            rt.dispose_effect(h);
        }
    }

    /// Disposal by the ownership tree: the same as `stop`, and as harmless
    /// when repeated.
    pub fn dispose(self, rt: &mut Runtime)
        requires
            old(rt).wf(),
        ensures
            final(rt).wf(),
            old(rt).same_records_except(final(rt), self.inner),
            old(rt).arena().grows_to(&final(rt).arena()),
            final(rt).values() == old(rt).values(),
            old(rt).same_context(final(rt)),
            match self.inner {
                Some(h) => {
                    &&& !final(rt).live(h)
                    &&& old(rt).live(h) ==> final(rt).arena().retired(h)
                    &&& !old(rt).live(h) ==> final(rt).arena()@ == old(rt).arena()@
                },
                None => *final(rt) == *old(rt),
            },
    {
        self.stop(rt)
    }

    /// The record of the effect as a subscriber, or `None` if the effect is
    /// inert or stopped.
    pub fn try_to_any_subscriber(&self, rt: &Runtime) -> (r: Option<Handle>)
        ensures
            r == match self.inner {
                Some(h) => if rt.live(h) {
                    Some(h)
                } else {
                    None
                },
                None => None,
            },
    {
        match self.inner {
            Some(h) => if rt.contains_effect(h) {
                Some(h)
            } else {
                None
            },
            None => None,
        }
    }

    /// The record of a live effect, as a subscriber that other computations
    /// can depend on. Resolving a stopped or inert effect is a misuse that
    /// the precondition excludes.
    pub fn to_any_subscriber(&self, rt: &Runtime) -> (r: Handle)
        requires
            self.inner is Some,
            rt.live(self.inner->Some_0),
        ensures
            Some(r) == self.inner,
            rt.live(r),
    {
        match self.inner {
            Some(h) => h,
            None => {
                assert(false);
                Handle { index: 0, generation: 0 }
            },
        }
    }
}

/// Builds an effect of the single-thread flavour; the same as `Effect::new`.
pub fn create_effect<T>(rt: &mut Runtime) -> (r: (Effect, Option<EffectLoop<T>>))
    requires
        old(rt).wf(),
        old(rt).arena()@.len() < usize::MAX,
    ensures
        !old(rt).enabled() ==> r.0.inner is None && r.1 is None && *final(rt) == *old(rt),
        old(rt).enabled() ==> match r.1 {
            Some(lp) => {
                &&& r.0.inner == Some(lp.effect)
                &&& lp.fresh(lp.effect)
                &&& adds_effect(old(rt), final(rt), lp.effect)
            },
            None => false,
        },
{
    Effect::new(rt)
}

/// Builds a watch effect, the same as `Effect::watch`. The returned effect
/// is what stops it.
pub fn watch<D, T>(rt: &mut Runtime, immediate: bool) -> (r: (Effect, Option<WatchLoop<D, T>>))
    requires
        old(rt).wf(),
        old(rt).arena()@.len() < usize::MAX,
    ensures
        !old(rt).enabled() ==> r.0.inner is None && r.1 is None && *final(rt) == *old(rt),
        old(rt).enabled() ==> match r.1 {
            Some(wl) => {
                &&& r.0.inner == Some(wl.effect)
                &&& wl.fresh(wl.effect, immediate)
                &&& adds_effect(old(rt), final(rt), wl.effect)
            },
            None => false,
        },
{
    Effect::watch(rt, immediate)
}

} // verus!

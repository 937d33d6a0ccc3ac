use vstd::prelude::*;

use crate::arena::Handle;
use crate::driver::{gate_of, handler_due, record_after_gate, Gate, WatchLoop};
use crate::effect::fresh_record;
use crate::record::RecordView;
use crate::runtime::{notified, Runtime};

verus! {

/// A new effect runs on its first turn, not before, even if it reads
/// nothing; if its run read nothing, no write ever wakes it again and every
/// later turn finds nothing to do. So an effect without dependencies runs
/// exactly once.
pub proof fn lemma_effect_without_dependencies_runs_once(s: usize, changed: bool)
    ensures
        gate_of(true, fresh_record(), true) == Gate::Run,
        ({
            let after = record_after_gate(fresh_record(), true);
            &&& after.sources.is_empty()
            &&& notified(after, s, changed) == after
            &&& gate_of(true, after, false) == Gate::Idle
        }),
{
}

/// A write that leaves a value as it was notifies no effect.
pub proof fn lemma_unchanged_write_wakes_nothing(rec: RecordView, s: usize)
    ensures
        notified(rec, s, false) == rec,
{
}

/// A write that changes a value tracked by an effect queues one wake and
/// marks it stale, so its next turn runs it (unless its scope is paused).
pub proof fn lemma_changed_dependency_runs_again(rec: RecordView, s: usize, first_run: bool)
    requires
        rec.sources.contains(s),
        !rec.paused,
    ensures
        gate_of(true, notified(rec, s, true), first_run) == Gate::Run,
{
}

/// A run starts from an empty source set, so the effect then tracks only
/// what that run read: once a run does not read `s`, writes to `s` alone no
/// longer wake the effect, however many there are.
pub proof fn lemma_dropped_dependency_stays_dropped(
    rec: RecordView,
    first_run: bool,
    reads: Set<usize>,
    s: usize,
    changed: bool,
)
    requires
        gate_of(true, rec, first_run) == Gate::Run,
        !reads.contains(s),
    ensures
        record_after_gate(rec, first_run).sources.is_empty(),
        ({
            let after = RecordView { sources: reads, ..record_after_gate(rec, first_run) };
            notified(after, s, changed) == after
        }),
{
}

/// Once an effect is stopped, no later state of the runtime that its
/// operations lead to resolves it again, so its loop only ever finds the
/// channel closed and it never runs.
pub proof fn lemma_stopped_effect_never_runs(a: Runtime, b: Runtime, h: Handle, first_run: bool)
    requires
        a.arena().retired(h),
        a.arena().grows_to(&b.arena()),
    ensures
        b.arena().retired(h),
        !b.live(h),
        gate_of(b.live(h), b.record(h), first_run) == Gate::Closed,
{
}

/// Each runtime operation only lets the arena grow, and growth composes, so
/// a retired handle stays retired across any sequence of operations.
pub proof fn lemma_growth_composes(a: Runtime, b: Runtime, c: Runtime)
    requires
        a.arena().grows_to(&b.arena()),
        b.arena().grows_to(&c.arena()),
    ensures
        a.arena().grows_to(&c.arena()),
{
}

/// On the first turn of a watch effect the handler runs exactly when
/// `immediate` holds, and is then handed no previous dependency value.
pub proof fn lemma_watch_first_turn<D, T>(wl: WatchLoop<D, T>, h: Handle, immediate: bool)
    requires
        wl.fresh(h, immediate),
    ensures
        handler_due(wl.immediate, wl.first_run) == immediate,
        wl.dep is None,
        wl.value is None,
{
}

/// A read made while a different effect observes (or none does), such as a
/// read inside a watch handler after `end_tracking`, leaves the record of
/// `h` as it was: it is not a dependency.
pub proof fn lemma_unobserved_read_is_not_tracked(a: Runtime, b: Runtime, h: Handle)
    requires
        a.current_observer() != Some(h),
        a.same_records_except(&b, a.current_observer()),
        a.live(h),
    ensures
        b.live(h),
        b.record(h) == a.record(h),
{
    assert(b.live(h) == a.live(h));
}

/// A start (`begin_run` answering `Step::Run`) or an end (`end_run`) of a run
/// of one effect.
pub enum RunEvent {
    Start,
    End,
}

/// Whether a loop whose run is in flight or not (`in_flight`) admits the
/// sequence of events `t`: `begin_run` requires that no run is in flight and
/// leaves one in flight; `end_run` requires one in flight and leaves none.
pub open spec fn admitted(in_flight: bool, t: Seq<RunEvent>) -> bool
    decreases t.len(),
{
    if t.len() == 0 {
        true
    } else {
        match t[0] {
            RunEvent::Start => !in_flight && admitted(true, t.drop_first()),
            RunEvent::End => in_flight && admitted(false, t.drop_first()),
        }
    }
}

/// Runs of one effect never overlap: between any two starts that a loop
/// admits there is an end.
pub proof fn lemma_runs_never_overlap(in_flight: bool, t: Seq<RunEvent>, i: int, j: int)
    requires
        admitted(in_flight, t),
        0 <= i < j < t.len(),
        t[i] is Start,
        t[j] is Start,
    ensures
        exists|k: int| i < k < j && #[trigger] t[k] is End,
    decreases t.len(),
{
    let rest = t.drop_first();
    if i == 0 {
        assert(admitted(true, rest));
        assert(rest[0] == t[1]);
        assert(t[1] is End);
        assert(0 < 1 < j);
    } else {
        let next = match t[0] {
            RunEvent::Start => true,
            RunEvent::End => false,
        };
        assert(admitted(next, rest));
        assert(rest[i - 1] == t[i] && rest[j - 1] == t[j]);
        lemma_runs_never_overlap(next, rest, i - 1, j - 1);
        let k = choose|k: int| i - 1 < k < j - 1 && #[trigger] rest[k] is End;
        assert(t[k + 1] == rest[k]);
    }
}

} // verus!

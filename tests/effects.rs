use reactive_effect::{
    create_effect, in_effect_scope, run_in_effect_scope, watch, Arena, Effect, EffectLoop,
    EffectRecord, EffectScope, Gate, Runtime, SignalId, Step, WatchLoop,
};

/// Runs turns of a plain effect's loop until it waits or ends; returns the
/// number of runs.
fn drive<T>(
    rt: &mut Runtime,
    lp: &mut EffectLoop<T>,
    mut f: impl FnMut(&mut Runtime, Option<T>) -> T,
) -> usize {
    let mut runs = 0;
    loop {
        match rt.begin_run(lp) {
            Step::Run(prev) => {
                let out = f(rt, prev);
                rt.end_run(lp, out);
                runs += 1;
            }
            Step::Skipped => {}
            Step::Idle | Step::Closed => return runs,
        }
    }
}

/// Runs turns of a watch loop until it waits or ends; returns the number of
/// handler calls.
fn drive_watch<D, T>(
    rt: &mut Runtime,
    wl: &mut WatchLoop<D, T>,
    mut dep: impl FnMut(&mut Runtime) -> D,
    mut handler: impl FnMut(&mut Runtime, &D, Option<&D>, Option<T>) -> T,
) -> usize {
    let mut calls = 0;
    loop {
        match rt.begin_tracking(wl) {
            Gate::Run => {
                let d = dep(rt);
                if let Some(call) = rt.end_tracking(wl, d) {
                    let out = handler(rt, &call.current, call.previous.as_ref(), call.output);
                    wl.finish(call.current, out);
                    calls += 1;
                }
            }
            Gate::Skipped => {}
            Gate::Idle | Gate::Closed => return calls,
        }
    }
}

fn live_effect<T>(rt: &mut Runtime) -> (Effect, EffectLoop<T>) {
    let (e, lp) = Effect::new::<T>(rt);
    (e, lp.expect("effects are enabled"))
}

#[test]
fn effect_without_dependencies_runs_once_after_construction() {
    let mut rt = Runtime::new(true);
    let mut count = 0;
    let (_e, mut lp) = live_effect::<()>(&mut rt);
    // construction itself runs nothing
    assert_eq!(count, 0);
    assert!(lp.first_run);
    assert_eq!(drive(&mut rt, &mut lp, |_, _| count += 1), 1);
    assert_eq!(count, 1);
    let v = rt.create_signal(3);
    rt.set(v, 4);
    assert_eq!(drive(&mut rt, &mut lp, |_, _| count += 1), 0);
    assert_eq!(count, 1);
}

#[test]
fn changed_value_reruns_once_and_same_value_does_not() {
    let mut rt = Runtime::new(true);
    let v = rt.create_signal(0);
    let (_e, mut lp) = live_effect::<()>(&mut rt);
    let body = |rt: &mut Runtime, _: Option<()>| {
        rt.get(v);
    };
    assert_eq!(drive(&mut rt, &mut lp, body), 1);
    rt.set(v, 0);
    assert_eq!(drive(&mut rt, &mut lp, body), 0);
    rt.set(v, 1);
    assert_eq!(drive(&mut rt, &mut lp, body), 1);
    rt.set(v, 1);
    assert_eq!(drive(&mut rt, &mut lp, body), 0);
}

#[test]
fn many_writes_before_a_turn_coalesce_into_one_run() {
    let mut rt = Runtime::new(true);
    let v = rt.create_signal(0);
    let (_e, mut lp) = live_effect::<()>(&mut rt);
    let body = |rt: &mut Runtime, _: Option<()>| {
        rt.get(v);
    };
    assert_eq!(drive(&mut rt, &mut lp, body), 1);
    rt.set(v, 1);
    rt.set(v, 2);
    rt.set(v, 3);
    assert_eq!(drive(&mut rt, &mut lp, body), 1);
}

#[test]
fn dependency_dropped_on_rerun_is_no_longer_tracked() {
    let mut rt = Runtime::new(true);
    let flag = rt.create_signal(1);
    let v = rt.create_signal(0);
    let (e, mut lp) = live_effect::<()>(&mut rt);
    let body = |rt: &mut Runtime, _: Option<()>| {
        if rt.get(flag) != 0 {
            rt.get(v);
        }
    };
    assert_eq!(drive(&mut rt, &mut lp, body), 1);
    rt.set(v, 1);
    assert_eq!(drive(&mut rt, &mut lp, body), 1);
    rt.set(flag, 0);
    assert_eq!(drive(&mut rt, &mut lp, body), 1);
    rt.set(v, 2);
    rt.set(v, 3);
    assert_eq!(drive(&mut rt, &mut lp, body), 0);
    let h = e.to_any_subscriber(&rt);
    assert!(rt.tracks(h, flag));
    assert!(!rt.tracks(h, v));
}

#[test]
fn previous_output_is_threaded_between_runs() {
    let mut rt = Runtime::new(true);
    let v = rt.create_signal(0);
    let (_e, mut lp) = live_effect::<i64>(&mut rt);
    let mut outputs = Vec::new();
    let mut body = |rt: &mut Runtime, prev: Option<i64>| {
        rt.get(v);
        let out = prev.unwrap_or(0) + 1;
        outputs.push(out);
        out
    };
    assert_eq!(drive(&mut rt, &mut lp, &mut body), 1);
    rt.set(v, 7);
    assert_eq!(drive(&mut rt, &mut lp, &mut body), 1);
    assert_eq!(outputs, vec![1, 2]);
    assert_eq!(lp.value(), Some(&2));
}

#[test]
fn stopped_effect_never_runs_again() {
    let mut rt = Runtime::new(true);
    let v = rt.create_signal(0);
    let (e, mut lp) = live_effect::<()>(&mut rt);
    let mut count = 0;
    assert_eq!(
        drive(&mut rt, &mut lp, |rt, _| {
            rt.get(v);
            count += 1;
        }),
        1
    );
    assert!(e.try_to_any_subscriber(&rt).is_some());
    e.stop(&mut rt);
    assert!(e.try_to_any_subscriber(&rt).is_none());
    rt.set(v, 1);
    rt.set(v, 2);
    assert!(matches!(rt.begin_run(&mut lp), Step::Closed));
    assert_eq!(count, 1);
    // stopping twice, or disposing afterwards, is harmless
    e.stop(&mut rt);
    e.dispose(&mut rt);
    assert!(matches!(rt.begin_run(&mut lp), Step::Closed));
}

#[test]
fn run_in_flight_when_stopped_may_finish() {
    let mut rt = Runtime::new(true);
    let v = rt.create_signal(0);
    let (e, mut lp) = live_effect::<i64>(&mut rt);
    match rt.begin_run(&mut lp) {
        Step::Run(prev) => {
            assert_eq!(prev, None);
            e.stop(&mut rt);
            let x = rt.get(v);
            rt.end_run(&mut lp, x + 10);
        }
        _ => panic!("the first turn runs the effect"),
    }
    assert_eq!(lp.value(), Some(&10));
    rt.set(v, 5);
    assert!(matches!(rt.begin_run(&mut lp), Step::Closed));
}

#[test]
fn watch_without_immediate_skips_the_first_turn() {
    let mut rt = Runtime::new(true);
    let num = rt.create_signal(0);
    let (_e, wl) = Effect::watch::<i64, ()>(&mut rt, false);
    let mut wl = wl.unwrap();
    let mut seen: Vec<(i64, Option<i64>)> = Vec::new();
    let mut handler = |_: &mut Runtime, cur: &i64, prev: Option<&i64>, _: Option<()>| {
        seen.push((*cur, prev.copied()));
    };
    assert_eq!(drive_watch(&mut rt, &mut wl, |rt| rt.get(num), &mut handler), 0);
    rt.set(num, 1);
    assert_eq!(drive_watch(&mut rt, &mut wl, |rt| rt.get(num), &mut handler), 1);
    assert_eq!(seen, vec![(1, Some(0))]);
}

#[test]
fn watch_with_immediate_runs_handler_on_first_turn() {
    let mut rt = Runtime::new(true);
    let num = rt.create_signal(0);
    let (_e, wl) = Effect::watch::<i64, i64>(&mut rt, true);
    let mut wl = wl.unwrap();
    let mut seen: Vec<(i64, Option<i64>, Option<i64>)> = Vec::new();
    let mut handler = |_: &mut Runtime, cur: &i64, prev: Option<&i64>, out: Option<i64>| {
        seen.push((*cur, prev.copied(), out));
        out.unwrap_or(0) + 1
    };
    assert_eq!(drive_watch(&mut rt, &mut wl, |rt| rt.get(num), &mut handler), 1);
    rt.set(num, 1);
    assert_eq!(drive_watch(&mut rt, &mut wl, |rt| rt.get(num), &mut handler), 1);
    assert_eq!(seen, vec![(0, None, None), (1, Some(0), Some(1))]);
}

#[test]
fn value_read_only_in_watch_handler_is_not_tracked() {
    let mut rt = Runtime::new(true);
    let num = rt.create_signal(0);
    let cb = rt.create_signal(0);
    let (e, wl) = watch::<i64, ()>(&mut rt, false);
    let mut wl = wl.unwrap();
    let mut seen: Vec<(i64, i64)> = Vec::new();
    let mut handler = |rt: &mut Runtime, cur: &i64, _: Option<&i64>, _: Option<()>| {
        let c = rt.get(cb);
        seen.push((*cur, c));
    };
    assert_eq!(drive_watch(&mut rt, &mut wl, |rt| rt.get(num), &mut handler), 0);
    rt.set(num, 1);
    assert_eq!(drive_watch(&mut rt, &mut wl, |rt| rt.get(num), &mut handler), 1);
    rt.set(cb, 1);
    assert_eq!(drive_watch(&mut rt, &mut wl, |rt| rt.get(num), &mut handler), 0);
    rt.set(num, 2);
    assert_eq!(drive_watch(&mut rt, &mut wl, |rt| rt.get(num), &mut handler), 1);
    let h = e.to_any_subscriber(&rt);
    assert!(rt.tracks(h, num));
    assert!(!rt.tracks(h, cb));
    // stopping through the handle that `watch` returned
    e.stop(&mut rt);
    rt.set(num, 3);
    assert_eq!(drive_watch(&mut rt, &mut wl, |rt| rt.get(num), &mut handler), 0);
    assert_eq!(seen, vec![(1, 0), (2, 1)]);
}

#[test]
fn runs_of_one_effect_never_interleave() {
    let mut rt = Runtime::new(true);
    let v = rt.create_signal(0);
    let (_e, mut lp) = live_effect::<()>(&mut rt);
    let mut clock: u64 = 0;
    let mut stamps: Vec<(u64, u64)> = Vec::new();
    for i in 0..5 {
        rt.set(v, i);
        drive(&mut rt, &mut lp, |rt, _| {
            clock += 1;
            let entry = clock;
            assert!(in_scope(rt));
            rt.get(v);
            clock += 1;
            stamps.push((entry, clock));
        });
        rt.set(v, i + 100);
    }
    assert!(stamps.len() >= 5);
    for pair in stamps.windows(2) {
        assert!(pair[1].0 >= pair[0].1);
    }
}

fn in_scope(rt: &Runtime) -> bool {
    rt.in_effect_scope()
}

#[test]
fn effect_scope_is_set_during_a_run_and_restored_after() {
    let mut rt = Runtime::new(true);
    assert!(!rt.in_effect_scope());
    let (_e, mut lp) = live_effect::<bool>(&mut rt);
    drive(&mut rt, &mut lp, |rt, _| rt.in_effect_scope());
    assert_eq!(lp.value(), Some(&true));
    assert!(!rt.in_effect_scope());
}

#[test]
fn nested_scope_is_restored_not_cleared() {
    let mut scope = EffectScope::new();
    assert!(!in_effect_scope(&scope));
    let inner = run_in_effect_scope(&mut scope, |s| in_effect_scope(s));
    assert!(inner);
    assert!(!in_effect_scope(&scope));
    let saved = scope.enter();
    assert!(!saved);
    let r = run_in_effect_scope(&mut scope, |s| in_effect_scope(s) as u8 + 1);
    assert_eq!(r, 2);
    assert!(in_effect_scope(&scope));
    scope.restore(saved);
    assert!(!in_effect_scope(&scope));
}

#[test]
fn disabled_runtime_builds_inert_effects() {
    let mut rt = Runtime::new(false);
    assert!(!rt.effects_enabled());
    let (e, lp) = Effect::new::<()>(&mut rt);
    assert!(e.inner.is_none());
    assert!(lp.is_none());
    assert!(e.try_to_any_subscriber(&rt).is_none());
    let (e2, lp2) = Effect::new_sync::<()>(&mut rt);
    assert!(e2.inner.is_none() && lp2.is_none());
    let (e3, lp3) = create_effect::<()>(&mut rt);
    assert!(e3.inner.is_none() && lp3.is_none());
    let (e4, wl4) = Effect::watch_sync::<i64, ()>(&mut rt, true);
    assert!(e4.inner.is_none() && wl4.is_none());
    assert_eq!(rt.arena_len(), 0);
    e.stop(&mut rt);
    e.dispose(&mut rt);
    // the isomorphic flavour runs whatever the configuration
    let (iso, mut lp) = Effect::new_isomorphic::<u8>(&mut rt);
    assert!(iso.inner.is_some());
    assert_eq!(drive(&mut rt, &mut lp, |_, _| 9), 1);
    assert_eq!(lp.value(), Some(&9));
}

#[test]
fn paused_scope_consumes_wakes_without_running() {
    let mut rt = Runtime::new(true);
    let v = rt.create_signal(0);
    let (e, mut lp) = live_effect::<()>(&mut rt);
    let body = |rt: &mut Runtime, _: Option<()>| {
        rt.get(v);
    };
    assert_eq!(drive(&mut rt, &mut lp, body), 1);
    let h = e.to_any_subscriber(&rt);
    rt.set_paused(h, true);
    rt.set(v, 1);
    assert!(matches!(rt.begin_run(&mut lp), Step::Skipped));
    assert!(matches!(rt.begin_run(&mut lp), Step::Idle));
    rt.set_paused(h, false);
    rt.set(v, 2);
    assert_eq!(drive(&mut rt, &mut lp, body), 1);
}

#[test]
fn arena_reuses_slots_under_a_new_generation() {
    let mut arena: Arena<u32> = Arena::new();
    let a = arena.new_with_storage(1);
    let b = arena.new_with_storage(2);
    assert_eq!(arena.get(a), Some(&1));
    assert_eq!(arena.dispose(a), Some(1));
    assert_eq!(arena.dispose(a), None);
    assert!(!arena.contains(a));
    let c = arena.new_with_storage(3);
    assert_eq!(c.index, a.index);
    assert_eq!(c.generation, a.generation + 1);
    assert_eq!(arena.get(a), None);
    assert_eq!(arena.get(c), Some(&3));
    assert_eq!(arena.replace(b, 20), 2);
    assert_eq!(arena.get(b), Some(&20));
    assert_eq!(arena.handle_at(b.index), Some(b));
    assert_eq!(arena.len(), 2);
}

#[test]
fn record_tracks_sources_as_a_set() {
    let mut rec = EffectRecord::new();
    assert!(rec.dirty && rec.pending && !rec.paused);
    rec.add_source(4);
    rec.add_source(4);
    rec.add_source(2);
    assert_eq!(rec.sources, vec![4, 2]);
    assert!(rec.tracks(2));
    rec.clear_sources();
    assert!(!rec.tracks(4));
    assert!(rec.update_if_necessary());
    assert!(!rec.update_if_necessary());
}

#[test]
fn untracked_read_records_nothing() {
    let mut rt = Runtime::new(true);
    let v = rt.create_signal(5);
    let (e, mut lp) = live_effect::<i64>(&mut rt);
    drive(&mut rt, &mut lp, |rt, _| rt.get_untracked(v));
    assert_eq!(lp.value(), Some(&5));
    assert!(!rt.tracks(e.to_any_subscriber(&rt), v));
    assert_eq!(rt.signal_count(), 1);
    let _ = SignalId { index: 0 };
}

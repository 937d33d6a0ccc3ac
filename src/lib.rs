//! The effect engine of a fine-grained reactive runtime.
//!
//! An effect re-executes a side-effecting function whenever the reactive
//! values that it read on its last run change. This crate holds the state and
//! the decisions of that engine: the arena that stores effect records, the
//! records with their tracked sources, the per-effect driving loop, and the
//! flag that says whether an effect body is running. Whoever owns the tasks
//! (an executor, a test) hands each loop its wakes and runs the user function
//! when the loop says so.

mod arena;
mod driver;
mod effect;
mod laws;
mod record;
mod runtime;
mod scope;

pub use arena::{Arena, Handle, Slot};
pub use driver::{
    gate_of, handler_due, record_after_gate, EffectLoop, Gate, HandlerCall, Step, WatchLoop, WatchPhase,
};
pub use effect::{adds_effect, create_effect, fresh_record, watch, Effect};
pub use laws::{
    admitted, lemma_changed_dependency_runs_again, lemma_dropped_dependency_stays_dropped,
    lemma_effect_without_dependencies_runs_once, lemma_growth_composes, lemma_runs_never_overlap,
    lemma_stopped_effect_never_runs, lemma_unchanged_write_wakes_nothing,
    lemma_unobserved_read_is_not_tracked, lemma_watch_first_turn, RunEvent,
};
pub use record::{EffectRecord, RecordView};
pub use runtime::{notified, Runtime, SignalId};
pub use scope::{in_effect_scope, run_in_effect_scope, EffectScope};

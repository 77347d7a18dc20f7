//! A behavior-tree execution engine: small decision and action nodes are
//! composed into a tree that an external driver repeatedly "ticks", each
//! tick being one bounded step that reports `Success`, `Failure` or
//! `Running`.
//!
//! The library's cross-tick semantics — which children a composite
//! re-evaluates, which it resets, and when — is written down once, as a
//! reference interpreter over ghost tree models (`TreeModel`, `tick_spec`,
//! `reset_spec`), and every executable node carries a proof that its
//! `tick` and `reset` agree with that interpreter whenever its subtree is
//! fully modeled. Trees built from scripted leaves (`ScriptedLeaf`) and
//! deterministic clocks (`ManualClock`) are fully modeled, so their whole
//! multi-tick behavior is pinned down by the contracts alone.

mod clock;
mod composite;
mod decorator;
mod laws;
mod leaf;
mod list;
mod model;
mod node;
mod script;
mod status;

pub use clock::{Clock, ManualClock, TokioClock};
pub use composite::{
    Parallel, ParallelPolicy, ReactiveSelector, ReactiveSequence, Selector, Sequence,
};
pub use decorator::{ForceFailure, ForceSuccess, Inverter, Repeat, Retry, Timeout};
pub use laws::{
    forget_reset_counts, lemma_reset_idempotent, lemma_reset_observably_idempotent,
    lemma_retry_failure_clears_counter, lemma_retry_restart_masks_first_failure,
    lemma_timeout_deadline_is_inclusive, lemma_timeout_preserves_timer_while_running,
    uninstrumented,
};
pub use leaf::{Action, Condition, Constant};
pub use list::{ModeledList, NodeList};
pub use model::{
    concrete, concrete_children, count_children_prefix, count_prefix,
    lemma_concrete_children_pointwise, lemma_reset_spec_concrete, lemma_tick_spec_concrete,
    memory_outcome, model_child, model_children, model_duration, model_index, model_policy,
    model_resets, model_started, model_ticks, policy_ok, policy_threshold, reset_all_spec,
    reset_range_spec, reset_spec, sat_inc, sat_sub, script_status, tick_spec, TreeModel,
};
pub use node::{Modeled, Node};
pub use script::ScriptedLeaf;
pub use status::Status;

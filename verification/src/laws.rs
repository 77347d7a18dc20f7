use vstd::prelude::*;

use crate::model::{model_children, reset_spec, sat_sub, tick_spec, TreeModel};
use crate::status::Status;

verus! {

broadcast use vstd::seq::axiom_seq_index_decreases;

/// The model with the reset-call counters of its scripted leaves erased.
///
/// A scripted leaf records every reset invocation by design, so that trees
/// under test can be audited; that tally is diagnostic, not part of the
/// protocol state a parent observes.
pub open spec fn forget_reset_counts(m: TreeModel) -> TreeModel
    decreases m,
{
    match m {
        TreeModel::Script { script, rewind, cursor, ticks, resets } => TreeModel::Script {
            script,
            rewind,
            cursor,
            ticks,
            resets: 0,
        },
        TreeModel::Fixed { .. } => m,
        TreeModel::Opaque => m,
        TreeModel::Sequence { children, index } => TreeModel::Sequence {
            children: Seq::new(
                children.len(),
                |j: int| if 0 <= j < children.len() {
                    forget_reset_counts(children[j])
                } else {
                    TreeModel::Opaque
                },
            ),
            index,
        },
        TreeModel::Selector { children, index } => TreeModel::Selector {
            children: Seq::new(
                children.len(),
                |j: int| if 0 <= j < children.len() {
                    forget_reset_counts(children[j])
                } else {
                    TreeModel::Opaque
                },
            ),
            index,
        },
        TreeModel::ReactiveSequence { children } => TreeModel::ReactiveSequence {
            children: Seq::new(
                children.len(),
                |j: int| if 0 <= j < children.len() {
                    forget_reset_counts(children[j])
                } else {
                    TreeModel::Opaque
                },
            ),
        },
        TreeModel::ReactiveSelector { children } => TreeModel::ReactiveSelector {
            children: Seq::new(
                children.len(),
                |j: int| if 0 <= j < children.len() {
                    forget_reset_counts(children[j])
                } else {
                    TreeModel::Opaque
                },
            ),
        },
        TreeModel::Parallel { children, policy } => TreeModel::Parallel {
            children: Seq::new(
                children.len(),
                |j: int| if 0 <= j < children.len() {
                    forget_reset_counts(children[j])
                } else {
                    TreeModel::Opaque
                },
            ),
            policy,
        },
        TreeModel::Inverter { child } => TreeModel::Inverter {
            child: Box::new(forget_reset_counts(*child)),
        },
        TreeModel::Retry { child, max_failures, failures } => TreeModel::Retry {
            child: Box::new(forget_reset_counts(*child)),
            max_failures,
            failures,
        },
        TreeModel::Repeat { child, max_successes, successes } => TreeModel::Repeat {
            child: Box::new(forget_reset_counts(*child)),
            max_successes,
            successes,
        },
        TreeModel::Timeout { child, duration, started, now, clock_modeled } => TreeModel::Timeout {
            child: Box::new(forget_reset_counts(*child)),
            duration,
            started,
            now,
            clock_modeled,
        },
        TreeModel::ForceSuccess { child } => TreeModel::ForceSuccess {
            child: Box::new(forget_reset_counts(*child)),
        },
        TreeModel::ForceFailure { child } => TreeModel::ForceFailure {
            child: Box::new(forget_reset_counts(*child)),
        },
    }
}

/// Whether the tree contains no scripted leaf (and so carries no
/// diagnostic counters at all).
pub open spec fn uninstrumented(m: TreeModel) -> bool
    decreases m, 0nat,
{
    match m {
        TreeModel::Script { .. } => false,
        TreeModel::Fixed { .. } => true,
        TreeModel::Opaque => true,
        TreeModel::Sequence { children, .. } => uninstrumented_children(children, 0),
        TreeModel::Selector { children, .. } => uninstrumented_children(children, 0),
        TreeModel::ReactiveSequence { children } => uninstrumented_children(children, 0),
        TreeModel::ReactiveSelector { children } => uninstrumented_children(children, 0),
        TreeModel::Parallel { children, .. } => uninstrumented_children(children, 0),
        TreeModel::Inverter { child } => uninstrumented(*child),
        TreeModel::Retry { child, .. } => uninstrumented(*child),
        TreeModel::Repeat { child, .. } => uninstrumented(*child),
        TreeModel::Timeout { child, .. } => uninstrumented(*child),
        TreeModel::ForceSuccess { child } => uninstrumented(*child),
        TreeModel::ForceFailure { child } => uninstrumented(*child),
    }
}

/// Whether the children at positions `i` and beyond are all free of
/// scripted leaves.
pub open spec fn uninstrumented_children(children: Seq<TreeModel>, i: nat) -> bool
    decreases children, children.len() - i + 1,
{
    i >= children.len() || (uninstrumented(children[i as int]) && uninstrumented_children(
        children,
        i + 1,
    ))
}

/// `uninstrumented_children` holds exactly when each child from `i` on is
/// uninstrumented.
pub proof fn lemma_uninstrumented_children_pointwise(children: Seq<TreeModel>, i: nat)
    ensures
        uninstrumented_children(children, i) <==> (forall|j: int|
            i <= j < children.len() ==> #[trigger] uninstrumented(children[j])),
    decreases children.len() - i,
{
    if i < children.len() {
        lemma_uninstrumented_children_pointwise(children, i + 1);
        if uninstrumented_children(children, i) {
            assert forall|j: int| i <= j < children.len() implies #[trigger] uninstrumented(
                children[j],
            ) by {
                if j > i {
                    assert(uninstrumented_children(children, i + 1));
                }
            }
        }
        if forall|j: int| i <= j < children.len() ==> #[trigger] uninstrumented(children[j]) {
            assert(uninstrumented(children[i as int]));
            assert(uninstrumented_children(children, i + 1));
        }
    }
}

/// Resetting is idempotent in every observable respect: a second reset
/// changes nothing beyond the scripted leaves' tally of reset calls.
/// Cursors, resume positions, retry and repeat counters, and timers are
/// already at rest after one reset and stay there.
///
/// Together with `Node::reset`'s contract (the new state is exactly
/// `reset_spec` of the old one), this covers two consecutive `reset`
/// calls on any node of the library.
pub proof fn lemma_reset_observably_idempotent(m: TreeModel)
    ensures
        forget_reset_counts(reset_spec(reset_spec(m))) == forget_reset_counts(reset_spec(m)),
    decreases m,
{
    match m {
        TreeModel::Sequence { children, .. } => {
            lemma_reset_observably_idempotent_children(children);
            assert(model_children(forget_reset_counts(reset_spec(reset_spec(m))))
                =~= model_children(forget_reset_counts(reset_spec(m))));
        },
        TreeModel::Selector { children, .. } => {
            lemma_reset_observably_idempotent_children(children);
            assert(model_children(forget_reset_counts(reset_spec(reset_spec(m))))
                =~= model_children(forget_reset_counts(reset_spec(m))));
        },
        TreeModel::ReactiveSequence { children } => {
            lemma_reset_observably_idempotent_children(children);
            assert(model_children(forget_reset_counts(reset_spec(reset_spec(m))))
                =~= model_children(forget_reset_counts(reset_spec(m))));
        },
        TreeModel::ReactiveSelector { children } => {
            lemma_reset_observably_idempotent_children(children);
            assert(model_children(forget_reset_counts(reset_spec(reset_spec(m))))
                =~= model_children(forget_reset_counts(reset_spec(m))));
        },
        TreeModel::Parallel { children, .. } => {
            lemma_reset_observably_idempotent_children(children);
            assert(model_children(forget_reset_counts(reset_spec(reset_spec(m))))
                =~= model_children(forget_reset_counts(reset_spec(m))));
        },
        TreeModel::Inverter { child } => {
            lemma_reset_observably_idempotent(*child);
        },
        TreeModel::Retry { child, .. } => {
            lemma_reset_observably_idempotent(*child);
        },
        TreeModel::Repeat { child, .. } => {
            lemma_reset_observably_idempotent(*child);
        },
        TreeModel::Timeout { child, .. } => {
            lemma_reset_observably_idempotent(*child);
        },
        TreeModel::ForceSuccess { child } => {
            lemma_reset_observably_idempotent(*child);
        },
        TreeModel::ForceFailure { child } => {
            lemma_reset_observably_idempotent(*child);
        },
        _ => {},
    }
}

proof fn lemma_reset_observably_idempotent_children(children: Seq<TreeModel>)
    ensures
        forall|j: int|
            0 <= j < children.len() ==> forget_reset_counts(
                reset_spec(reset_spec(#[trigger] children[j])),
            ) == forget_reset_counts(reset_spec(children[j])),
    decreases children,
{
    assert forall|j: int| 0 <= j < children.len() implies forget_reset_counts(
        reset_spec(reset_spec(#[trigger] children[j])),
    ) == forget_reset_counts(reset_spec(children[j])) by {
        lemma_reset_observably_idempotent(children[j]);
    }
}

/// On a tree without scripted leaves, resetting is idempotent outright:
/// a second reset call produces exactly the state the first one left.
pub proof fn lemma_reset_idempotent(m: TreeModel)
    requires
        uninstrumented(m),
    ensures
        reset_spec(reset_spec(m)) == reset_spec(m),
    decreases m,
{
    match m {
        TreeModel::Sequence { children, .. } => {
            lemma_reset_idempotent_children(children);
            assert(model_children(reset_spec(reset_spec(m))) =~= model_children(reset_spec(m)));
        },
        TreeModel::Selector { children, .. } => {
            lemma_reset_idempotent_children(children);
            assert(model_children(reset_spec(reset_spec(m))) =~= model_children(reset_spec(m)));
        },
        TreeModel::ReactiveSequence { children } => {
            lemma_reset_idempotent_children(children);
            assert(model_children(reset_spec(reset_spec(m))) =~= model_children(reset_spec(m)));
        },
        TreeModel::ReactiveSelector { children } => {
            lemma_reset_idempotent_children(children);
            assert(model_children(reset_spec(reset_spec(m))) =~= model_children(reset_spec(m)));
        },
        TreeModel::Parallel { children, .. } => {
            lemma_reset_idempotent_children(children);
            assert(model_children(reset_spec(reset_spec(m))) =~= model_children(reset_spec(m)));
        },
        TreeModel::Inverter { child } => {
            lemma_reset_idempotent(*child);
        },
        TreeModel::Retry { child, .. } => {
            lemma_reset_idempotent(*child);
        },
        TreeModel::Repeat { child, .. } => {
            lemma_reset_idempotent(*child);
        },
        TreeModel::Timeout { child, .. } => {
            lemma_reset_idempotent(*child);
        },
        TreeModel::ForceSuccess { child } => {
            lemma_reset_idempotent(*child);
        },
        TreeModel::ForceFailure { child } => {
            lemma_reset_idempotent(*child);
        },
        _ => {},
    }
}

proof fn lemma_reset_idempotent_children(children: Seq<TreeModel>)
    requires
        uninstrumented_children(children, 0),
    ensures
        forall|j: int|
            0 <= j < children.len() ==> reset_spec(reset_spec(#[trigger] children[j]))
                == reset_spec(children[j]),
    decreases children,
{
    lemma_uninstrumented_children_pointwise(children, 0);
    assert forall|j: int| 0 <= j < children.len() implies reset_spec(
        reset_spec(#[trigger] children[j]),
    ) == reset_spec(children[j]) by {
        lemma_reset_idempotent(children[j]);
    }
}

/// A retry that reports a terminal `Failure` leaves its counter cleared
/// and its child reset, so the next tick restarts the retry cycle from
/// the beginning.
pub proof fn lemma_retry_failure_clears_counter(child: TreeModel, max_failures: nat, failures: nat)
    requires
        max_failures > 0,
        tick_spec(TreeModel::Retry { child: Box::new(child), max_failures, failures }).1
            == Status::Failure,
    ensures
        tick_spec(TreeModel::Retry { child: Box::new(child), max_failures, failures }).0
            == (TreeModel::Retry {
            child: Box::new(reset_spec(tick_spec(child).0)),
            max_failures,
            failures: 0,
        }),
{
}

/// With the counter at rest and a budget of at least two, a retry masks
/// its child's next failure as `Running`: after an exhaustion the cycle
/// visibly restarts.
pub proof fn lemma_retry_restart_masks_first_failure(child: TreeModel, max_failures: nat)
    requires
        max_failures >= 2,
        tick_spec(child).1 == Status::Failure,
    ensures
        tick_spec(TreeModel::Retry { child: Box::new(child), max_failures, failures: 0 }).1
            == Status::Running,
{
}

/// While the deadline has not passed — neither before nor after the
/// child's tick — a running child leaves a timeout `Running`, with the
/// child advanced exactly one step, the timer preserved unchanged for the
/// next call, and no reset. This holds for every start time and reading.
pub proof fn lemma_timeout_preserves_timer_while_running(
    child: TreeModel,
    duration: nat,
    t0: nat,
    now: nat,
)
    requires
        sat_sub(now, t0) < duration,
        tick_spec(child).1 == Status::Running,
    ensures
        tick_spec(
            TreeModel::Timeout {
                child: Box::new(child),
                duration,
                started: Some(t0),
                now,
                clock_modeled: true,
            },
        ) == (
            TreeModel::Timeout {
                child: Box::new(tick_spec(child).0),
                duration,
                started: Some(t0),
                now,
                clock_modeled: true,
            },
            Status::Running,
        ),
{
}

/// Once the elapsed time reaches the configured duration — the comparison
/// is at-least, not strictly-greater — the next tick concludes the run
/// with `Failure` without ticking the child, clearing the timer and
/// resetting the child. This holds for every start time and reading.
pub proof fn lemma_timeout_deadline_is_inclusive(
    child: TreeModel,
    duration: nat,
    t0: nat,
    now: nat,
)
    requires
        sat_sub(now, t0) >= duration,
    ensures
        tick_spec(
            TreeModel::Timeout {
                child: Box::new(child),
                duration,
                started: Some(t0),
                now,
                clock_modeled: true,
            },
        ) == (
            TreeModel::Timeout {
                child: Box::new(reset_spec(child)),
                duration,
                started: None,
                now,
                clock_modeled: true,
            },
            Status::Failure,
        ),
{
}

} // verus!

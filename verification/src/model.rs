use vstd::prelude::*;

use crate::composite::ParallelPolicy;
use crate::status::Status;

verus! {

broadcast use vstd::seq::axiom_seq_index_decreases;

/// Ghost model of a behavior-tree node: the persistent state that survives
/// between ticks, together with the configuration that never changes.
///
/// The spec functions below (`tick_spec`, `reset_spec`) are a complete
/// reference interpreter for trees whose leaves are all modeled
/// (`concrete`). Every executable node proves that its `tick` and `reset`
/// agree with this interpreter, so the interpreter is the single place
/// where the cross-tick semantics of the library is written down.
pub enum TreeModel {
    /// A deterministic scripted leaf: replays `script`, then repeats its
    /// last entry; counts how often it was ticked and reset.
    Script { script: Seq<Status>, rewind: bool, cursor: nat, ticks: nat, resets: nat },
    /// A leaf that always reports the same status and keeps no state.
    Fixed { status: Status },
    /// A host-defined leaf (callback or predicate); its behavior is not
    /// modeled, so trees containing it are not `concrete`.
    Opaque,
    Sequence { children: Seq<TreeModel>, index: nat },
    Selector { children: Seq<TreeModel>, index: nat },
    ReactiveSequence { children: Seq<TreeModel> },
    ReactiveSelector { children: Seq<TreeModel> },
    Parallel { children: Seq<TreeModel>, policy: ParallelPolicy },
    Inverter { child: Box<TreeModel> },
    Retry { child: Box<TreeModel>, max_failures: nat, failures: nat },
    Repeat { child: Box<TreeModel>, max_successes: nat, successes: nat },
    /// `now` is the current reading of the owned clock; `clock_modeled`
    /// records whether that clock exposes its reading to specifications.
    Timeout {
        child: Box<TreeModel>,
        duration: nat,
        started: Option<nat>,
        now: nat,
        clock_modeled: bool,
    },
    ForceSuccess { child: Box<TreeModel> },
    ForceFailure { child: Box<TreeModel> },
}

/// Increment a counter that is stored as a `u64` in executable code.
pub open spec fn sat_inc(n: nat) -> nat {
    if n < u64::MAX { n + 1 } else { n }
}

/// Saturating subtraction, as a monotonic clock reports elapsed time.
pub open spec fn sat_sub(a: nat, b: nat) -> nat {
    if a >= b { (a - b) as nat } else { 0 }
}

/// The status a scripted leaf reports in the given state.
pub open spec fn script_status(script: Seq<Status>, cursor: nat) -> Status {
    if cursor < script.len() {
        script[cursor as int]
    } else {
        Status::Failure
    }
}

/// The success threshold selected by a parallel policy over `n` children.
pub open spec fn policy_threshold(policy: ParallelPolicy, n: nat) -> nat {
    match policy {
        ParallelPolicy::SuccessOnAllFailureOnAny => n,
        ParallelPolicy::SuccessOnAnyFailureOnAll => 1,
        ParallelPolicy::SuccessThreshold(t) => t as nat,
    }
}

/// A parallel configuration is well formed when there is at least one child
/// and the success threshold lies in `1 ..= n`.
pub open spec fn policy_ok(policy: ParallelPolicy, n: nat) -> bool {
    n >= 1 && 1 <= policy_threshold(policy, n) <= n
}

/// Scan a memory composite's child statuses from position `i`: statuses
/// equal to `advance` move the scan one child further, any other status
/// stops it. Returns the scan outcome and the position where it stopped
/// (`sts.len()` when every child advanced, which yields `exhaust`).
pub open spec fn memory_outcome(sts: Seq<Status>, i: nat, advance: Status, exhaust: Status) -> (
    Status,
    nat,
)
    decreases sts.len() - i,
{
    if i >= sts.len() {
        (exhaust, i)
    } else if sts[i as int] == advance {
        memory_outcome(sts, i + 1, advance, exhaust)
    } else {
        (sts[i as int], i)
    }
}

/// How many of the first `k` statuses equal `which`.
pub open spec fn count_prefix(sts: Seq<Status>, which: Status, k: nat) -> nat
    decreases k,
{
    if k == 0 || k > sts.len() {
        0
    } else {
        count_prefix(sts, which, (k - 1) as nat) + (if sts[k - 1] == which {
            1nat
        } else {
            0nat
        })
    }
}

/// A scan over statuses that all equal `advance` from `i` on ends
/// exhausted, at the list's end (or at `i` itself when `i` is already past
/// the end).
pub proof fn lemma_memory_outcome_exhausts(
    sts: Seq<Status>,
    i: nat,
    advance: Status,
    exhaust: Status,
)
    requires
        forall|j: int| i <= j < sts.len() ==> sts[j] == advance,
    ensures
        memory_outcome(sts, i, advance, exhaust) == (
            exhaust,
            if i <= sts.len() {
                sts.len()
            } else {
                i
            },
        ),
    decreases sts.len() - i,
{
    if i < sts.len() {
        lemma_memory_outcome_exhausts(sts, i + 1, advance, exhaust);
    }
}

/// A scan stops at the first status from `i` on that differs from
/// `advance`, and reports that status.
pub proof fn lemma_memory_outcome_stops(
    sts: Seq<Status>,
    i: nat,
    stop: nat,
    advance: Status,
    exhaust: Status,
)
    requires
        i <= stop < sts.len(),
        forall|j: int| i <= j < stop ==> sts[j] == advance,
        sts[stop as int] != advance,
    ensures
        memory_outcome(sts, i, advance, exhaust) == (sts[stop as int], stop),
    decreases stop - i,
{
    if i < stop {
        lemma_memory_outcome_stops(sts, i + 1, stop, advance, exhaust);
    }
}

/// How many of the first `k` children report `which` when ticked.
pub open spec fn count_children_prefix(children: Seq<TreeModel>, which: Status, k: nat) -> nat
    decreases k,
{
    if k == 0 || k > children.len() {
        0
    } else {
        count_children_prefix(children, which, (k - 1) as nat) + (if tick_spec(
            children[k - 1],
        ).1 == which {
            1nat
        } else {
            0nat
        })
    }
}

/// Bridge for the parallel proof: counting over any status list that
/// reports the children's tick outcomes counts the children themselves.
pub proof fn lemma_children_count(children: Seq<TreeModel>, which: Status, k: nat)
    ensures
        forall|sts: Seq<Status>|
            sts.len() == children.len() && (forall|j: int|
                0 <= j < children.len() ==> sts[j] == tick_spec(#[trigger] children[j]).1)
                ==> #[trigger] count_prefix(sts, which, k) == count_children_prefix(
                children,
                which,
                k,
            ),
    decreases k,
{
    if k > 0 {
        lemma_children_count(children, which, (k - 1) as nat);
        assert forall|sts: Seq<Status>|
            sts.len() == children.len() && (forall|j: int|
                0 <= j < children.len() ==> sts[j] == tick_spec(#[trigger] children[j]).1)
                implies #[trigger] count_prefix(sts, which, k) == count_children_prefix(
            children,
            which,
            k,
        ) by {
            assert(count_prefix(sts, which, (k - 1) as nat) == count_children_prefix(
                children,
                which,
                (k - 1) as nat,
            ));
            if k <= children.len() {
                assert(sts[k - 1] == tick_spec(children[k - 1]).1);
            }
        }
    }
}

/// Bridge for composite proofs: any status list that reports the children's
/// tick outcomes is scanned to position `stop`, the first position from
/// `k0` on whose outcome differs from `advance`.
pub proof fn lemma_children_scan_stops(
    children: Seq<TreeModel>,
    k0: nat,
    stop: nat,
    advance: Status,
    exhaust: Status,
)
    requires
        k0 <= stop < children.len(),
        forall|j: int| k0 <= j < stop ==> tick_spec(#[trigger] children[j]).1 == advance,
        tick_spec(children[stop as int]).1 != advance,
    ensures
        forall|sts: Seq<Status>|
            sts.len() == children.len() && (forall|j: int|
                0 <= j < children.len() ==> sts[j] == tick_spec(#[trigger] children[j]).1)
                ==> #[trigger] memory_outcome(sts, k0, advance, exhaust) == (
                tick_spec(children[stop as int]).1,
                stop,
            ),
{
    assert forall|sts: Seq<Status>|
        sts.len() == children.len() && (forall|j: int|
            0 <= j < children.len() ==> sts[j] == tick_spec(#[trigger] children[j]).1)
            implies #[trigger] memory_outcome(sts, k0, advance, exhaust) == (
        tick_spec(children[stop as int]).1,
        stop,
    ) by {
        assert forall|j: int| k0 <= j < stop implies sts[j] == advance by {
            assert(sts[j] == tick_spec(children[j]).1);
        }
        assert(sts[stop as int] == tick_spec(children[stop as int]).1);
        lemma_memory_outcome_stops(sts, k0, stop, advance, exhaust);
    }
}

/// Bridge for composite proofs: when every child from `k0` on reports
/// `advance`, the scan exhausts the children and yields `exhaust`.
pub proof fn lemma_children_scan_exhausts(
    children: Seq<TreeModel>,
    k0: nat,
    advance: Status,
    exhaust: Status,
)
    requires
        forall|j: int| k0 <= j < children.len() ==> tick_spec(#[trigger] children[j]).1 == advance,
    ensures
        forall|sts: Seq<Status>|
            sts.len() == children.len() && (forall|j: int|
                0 <= j < children.len() ==> sts[j] == tick_spec(#[trigger] children[j]).1)
                ==> #[trigger] memory_outcome(sts, k0, advance, exhaust) == (
                exhaust,
                if k0 <= children.len() {
                    children.len()
                } else {
                    k0
                },
            ),
{
    assert forall|sts: Seq<Status>|
        sts.len() == children.len() && (forall|j: int|
            0 <= j < children.len() ==> sts[j] == tick_spec(#[trigger] children[j]).1)
            implies #[trigger] memory_outcome(sts, k0, advance, exhaust) == (
        exhaust,
        if k0 <= children.len() {
            children.len()
        } else {
            k0
        },
    ) by {
        assert forall|j: int| k0 <= j < sts.len() implies sts[j] == advance by {
            assert(sts[j] == tick_spec(children[j]).1);
        }
        lemma_memory_outcome_exhausts(sts, k0, advance, exhaust);
    }
}

/// One tick of the reference interpreter: the node state after the tick and
/// the status it reports. For `Opaque` (host-defined) nodes the result is a
/// placeholder; contracts only appeal to `tick_spec` under `concrete`.
pub open spec fn tick_spec(m: TreeModel) -> (TreeModel, Status)
    decreases m,
{
    match m {
        TreeModel::Script { script, rewind, cursor, ticks, resets } => {
            let next = if cursor + 1 < script.len() {
                cursor + 1
            } else {
                cursor
            };
            (
                TreeModel::Script {
                    script,
                    rewind,
                    cursor: next as nat,
                    ticks: sat_inc(ticks),
                    resets,
                },
                script_status(script, cursor),
            )
        },
        TreeModel::Fixed { status } => (m, status),
        TreeModel::Opaque => (TreeModel::Opaque, Status::Running),
        TreeModel::Sequence { children, index } => {
            let sts = Seq::new(
                children.len(),
                |j: int| if 0 <= j < children.len() {
                    tick_spec(children[j]).1
                } else {
                    Status::Running
                },
            );
            let (out, stop) = memory_outcome(sts, index, Status::Success, Status::Success);
            let ticked = Seq::new(
                children.len(),
                |j: int| if index <= j <= stop && 0 <= j < children.len() {
                    tick_spec(children[j]).0
                } else {
                    children[j]
                },
            );
            if out == Status::Running {
                (TreeModel::Sequence { children: ticked, index: stop }, out)
            } else {
                (TreeModel::Sequence { children: reset_all_spec(ticked), index: 0 }, out)
            }
        },
        TreeModel::Selector { children, index } => {
            let sts = Seq::new(
                children.len(),
                |j: int| if 0 <= j < children.len() {
                    tick_spec(children[j]).1
                } else {
                    Status::Running
                },
            );
            let (out, stop) = memory_outcome(sts, index, Status::Failure, Status::Failure);
            let ticked = Seq::new(
                children.len(),
                |j: int| if index <= j <= stop && 0 <= j < children.len() {
                    tick_spec(children[j]).0
                } else {
                    children[j]
                },
            );
            if out == Status::Running {
                (TreeModel::Selector { children: ticked, index: stop }, out)
            } else {
                (TreeModel::Selector { children: reset_all_spec(ticked), index: 0 }, out)
            }
        },
        TreeModel::ReactiveSequence { children } => {
            let sts = Seq::new(
                children.len(),
                |j: int| if 0 <= j < children.len() {
                    tick_spec(children[j]).1
                } else {
                    Status::Running
                },
            );
            let (out, stop) = memory_outcome(sts, 0, Status::Success, Status::Success);
            let ticked = Seq::new(
                children.len(),
                |j: int| if 0 <= j <= stop && 0 <= j < children.len() {
                    tick_spec(children[j]).0
                } else {
                    children[j]
                },
            );
            if out == Status::Success {
                (TreeModel::ReactiveSequence { children: reset_all_spec(ticked) }, out)
            } else {
                (
                    TreeModel::ReactiveSequence {
                        children: reset_range_spec(ticked, stop + 1),
                    },
                    out,
                )
            }
        },
        TreeModel::ReactiveSelector { children } => {
            let sts = Seq::new(
                children.len(),
                |j: int| if 0 <= j < children.len() {
                    tick_spec(children[j]).1
                } else {
                    Status::Running
                },
            );
            let (out, stop) = memory_outcome(sts, 0, Status::Failure, Status::Failure);
            let ticked = Seq::new(
                children.len(),
                |j: int| if 0 <= j <= stop && 0 <= j < children.len() {
                    tick_spec(children[j]).0
                } else {
                    children[j]
                },
            );
            if out == Status::Failure {
                (TreeModel::ReactiveSelector { children: reset_all_spec(ticked) }, out)
            } else {
                (
                    TreeModel::ReactiveSelector {
                        children: reset_range_spec(ticked, stop + 1),
                    },
                    out,
                )
            }
        },
        TreeModel::Parallel { children, policy } => {
            let n = children.len();
            let sts = Seq::new(
                n,
                |j: int| if 0 <= j < children.len() {
                    tick_spec(children[j]).1
                } else {
                    Status::Running
                },
            );
            let ticked = Seq::new(
                n,
                |j: int| if 0 <= j < children.len() {
                    tick_spec(children[j]).0
                } else {
                    children[j]
                },
            );
            let thr = policy_threshold(policy, n);
            let successes = count_prefix(sts, Status::Success, n);
            let failures = count_prefix(sts, Status::Failure, n);
            // `failures + thr > n` is "failures > n - thr" without subtraction:
            // the threshold is unreachable even if every running child succeeds.
            let out = if successes >= thr {
                Status::Success
            } else if failures + thr > n {
                Status::Failure
            } else {
                Status::Running
            };
            if out == Status::Running {
                (TreeModel::Parallel { children: ticked, policy }, out)
            } else {
                (TreeModel::Parallel { children: reset_all_spec(ticked), policy }, out)
            }
        },
        TreeModel::Inverter { child } => {
            let (c, s) = tick_spec(*child);
            match s {
                Status::Success => (
                    TreeModel::Inverter { child: Box::new(reset_spec(c)) },
                    Status::Failure,
                ),
                Status::Failure => (
                    TreeModel::Inverter { child: Box::new(reset_spec(c)) },
                    Status::Success,
                ),
                Status::Running => (TreeModel::Inverter { child: Box::new(c) }, Status::Running),
            }
        },
        TreeModel::Retry { child, max_failures, failures } => {
            if max_failures == 0 {
                (
                    TreeModel::Retry {
                        child: Box::new(reset_spec(*child)),
                        max_failures,
                        failures,
                    },
                    Status::Failure,
                )
            } else {
                let (c, s) = tick_spec(*child);
                match s {
                    Status::Success => (
                        TreeModel::Retry {
                            child: Box::new(reset_spec(c)),
                            max_failures,
                            failures: 0,
                        },
                        Status::Success,
                    ),
                    Status::Running => (
                        TreeModel::Retry { child: Box::new(c), max_failures, failures },
                        Status::Running,
                    ),
                    Status::Failure => {
                        if failures + 1 >= max_failures {
                            (
                                TreeModel::Retry {
                                    child: Box::new(reset_spec(c)),
                                    max_failures,
                                    failures: 0,
                                },
                                Status::Failure,
                            )
                        } else {
                            (
                                TreeModel::Retry {
                                    child: Box::new(reset_spec(c)),
                                    max_failures,
                                    failures: failures + 1,
                                },
                                Status::Running,
                            )
                        }
                    },
                }
            }
        },
        TreeModel::Repeat { child, max_successes, successes } => {
            if max_successes == 0 {
                (
                    TreeModel::Repeat {
                        child: Box::new(reset_spec(*child)),
                        max_successes,
                        successes,
                    },
                    Status::Success,
                )
            } else {
                let (c, s) = tick_spec(*child);
                match s {
                    Status::Success => {
                        if successes + 1 >= max_successes {
                            (
                                TreeModel::Repeat {
                                    child: Box::new(reset_spec(c)),
                                    max_successes,
                                    successes: 0,
                                },
                                Status::Success,
                            )
                        } else {
                            (
                                TreeModel::Repeat {
                                    child: Box::new(reset_spec(c)),
                                    max_successes,
                                    successes: successes + 1,
                                },
                                Status::Running,
                            )
                        }
                    },
                    Status::Running => (
                        TreeModel::Repeat { child: Box::new(c), max_successes, successes },
                        Status::Running,
                    ),
                    Status::Failure => (
                        TreeModel::Repeat {
                            child: Box::new(reset_spec(c)),
                            max_successes,
                            successes: 0,
                        },
                        Status::Failure,
                    ),
                }
            }
        },
        TreeModel::Timeout { child, duration, started, now, clock_modeled } => {
            if started is Some && sat_sub(now, started->0) >= duration {
                (
                    TreeModel::Timeout {
                        child: Box::new(reset_spec(*child)),
                        duration,
                        started: None,
                        now,
                        clock_modeled,
                    },
                    Status::Failure,
                )
            } else {
                let (c, s) = tick_spec(*child);
                match s {
                    Status::Running => {
                        let st = if started is Some { started->0 } else { now };
                        if sat_sub(now, st) >= duration {
                            (
                                TreeModel::Timeout {
                                    child: Box::new(reset_spec(c)),
                                    duration,
                                    started: None,
                                    now,
                                    clock_modeled,
                                },
                                Status::Failure,
                            )
                        } else {
                            (
                                TreeModel::Timeout {
                                    child: Box::new(c),
                                    duration,
                                    started: Some(st),
                                    now,
                                    clock_modeled,
                                },
                                Status::Running,
                            )
                        }
                    },
                    _ => (
                        TreeModel::Timeout {
                            child: Box::new(reset_spec(c)),
                            duration,
                            started: None,
                            now,
                            clock_modeled,
                        },
                        s,
                    ),
                }
            }
        },
        TreeModel::ForceSuccess { child } => {
            let (c, s) = tick_spec(*child);
            if s == Status::Running {
                (TreeModel::ForceSuccess { child: Box::new(c) }, Status::Running)
            } else {
                (
                    TreeModel::ForceSuccess { child: Box::new(reset_spec(c)) },
                    Status::Success,
                )
            }
        },
        TreeModel::ForceFailure { child } => {
            let (c, s) = tick_spec(*child);
            if s == Status::Running {
                (TreeModel::ForceFailure { child: Box::new(c) }, Status::Running)
            } else {
                (
                    TreeModel::ForceFailure { child: Box::new(reset_spec(c)) },
                    Status::Failure,
                )
            }
        },
    }
}

/// The node state after a `reset` call: cursors, indexes, counters and
/// timers return to their rest values; a scripted leaf also records that it
/// was reset.
pub open spec fn reset_spec(m: TreeModel) -> TreeModel
    decreases m,
{
    match m {
        TreeModel::Script { script, rewind, cursor, ticks, resets } => TreeModel::Script {
            script,
            rewind,
            cursor: if rewind { 0 } else { cursor },
            ticks,
            resets: sat_inc(resets),
        },
        TreeModel::Fixed { status } => m,
        TreeModel::Opaque => m,
        TreeModel::Sequence { children, index } => TreeModel::Sequence {
            children: Seq::new(
                children.len(),
                |j: int| if 0 <= j < children.len() {
                    reset_spec(children[j])
                } else {
                    TreeModel::Opaque
                },
            ),
            index: 0,
        },
        TreeModel::Selector { children, index } => TreeModel::Selector {
            children: Seq::new(
                children.len(),
                |j: int| if 0 <= j < children.len() {
                    reset_spec(children[j])
                } else {
                    TreeModel::Opaque
                },
            ),
            index: 0,
        },
        TreeModel::ReactiveSequence { children } => TreeModel::ReactiveSequence {
            children: Seq::new(
                children.len(),
                |j: int| if 0 <= j < children.len() {
                    reset_spec(children[j])
                } else {
                    TreeModel::Opaque
                },
            ),
        },
        TreeModel::ReactiveSelector { children } => TreeModel::ReactiveSelector {
            children: Seq::new(
                children.len(),
                |j: int| if 0 <= j < children.len() {
                    reset_spec(children[j])
                } else {
                    TreeModel::Opaque
                },
            ),
        },
        TreeModel::Parallel { children, policy } => TreeModel::Parallel {
            children: Seq::new(
                children.len(),
                |j: int| if 0 <= j < children.len() {
                    reset_spec(children[j])
                } else {
                    TreeModel::Opaque
                },
            ),
            policy,
        },
        TreeModel::Inverter { child } => TreeModel::Inverter {
            child: Box::new(reset_spec(*child)),
        },
        TreeModel::Retry { child, max_failures, failures } => TreeModel::Retry {
            child: Box::new(reset_spec(*child)),
            max_failures,
            failures: 0,
        },
        TreeModel::Repeat { child, max_successes, successes } => TreeModel::Repeat {
            child: Box::new(reset_spec(*child)),
            max_successes,
            successes: 0,
        },
        TreeModel::Timeout { child, duration, started, now, clock_modeled } => TreeModel::Timeout {
            child: Box::new(reset_spec(*child)),
            duration,
            started: None,
            now,
            clock_modeled,
        },
        TreeModel::ForceSuccess { child } => TreeModel::ForceSuccess {
            child: Box::new(reset_spec(*child)),
        },
        TreeModel::ForceFailure { child } => TreeModel::ForceFailure {
            child: Box::new(reset_spec(*child)),
        },
    }
}

/// Reset every child, as a composite's terminal outcome does.
pub open spec fn reset_all_spec(children: Seq<TreeModel>) -> Seq<TreeModel> {
    Seq::new(
                children.len(),
                |j: int| if 0 <= j < children.len() {
                    reset_spec(children[j])
                } else {
                    TreeModel::Opaque
                },
            )
}

/// Reset the children at positions `start` and beyond, leaving the earlier
/// ones untouched, as the reactive composites do when a scan stops.
pub open spec fn reset_range_spec(children: Seq<TreeModel>, start: nat) -> Seq<TreeModel> {
    Seq::new(
        children.len(),
        |j: int| if j >= start { reset_spec(children[j]) } else { children[j] },
    )
}

/// A model is concrete when every leaf in it is modeled and every parallel
/// configuration is well formed; `tick_spec` fully determines the behavior
/// of concrete trees.
pub open spec fn concrete(m: TreeModel) -> bool
    decreases m, 0nat,
{
    match m {
        TreeModel::Script { .. } => true,
        TreeModel::Fixed { .. } => true,
        TreeModel::Opaque => false,
        TreeModel::Sequence { children, .. } => concrete_children(children, 0),
        TreeModel::Selector { children, .. } => concrete_children(children, 0),
        TreeModel::ReactiveSequence { children } => concrete_children(children, 0),
        TreeModel::ReactiveSelector { children } => concrete_children(children, 0),
        TreeModel::Parallel { children, policy } => policy_ok(policy, children.len())
            && concrete_children(children, 0),
        TreeModel::Inverter { child } => concrete(*child),
        TreeModel::Retry { child, .. } => concrete(*child),
        TreeModel::Repeat { child, .. } => concrete(*child),
        TreeModel::Timeout { child, clock_modeled, .. } => clock_modeled && concrete(*child),
        TreeModel::ForceSuccess { child } => concrete(*child),
        TreeModel::ForceFailure { child } => concrete(*child),
    }
}

/// Whether the children at positions `i` and beyond are all concrete.
pub open spec fn concrete_children(children: Seq<TreeModel>, i: nat) -> bool
    decreases children, children.len() - i + 1,
{
    i >= children.len() || (concrete(children[i as int]) && concrete_children(children, i + 1))
}

/// `concrete_children` holds exactly when each child from `i` on is
/// concrete.
pub proof fn lemma_concrete_children_pointwise(children: Seq<TreeModel>, i: nat)
    ensures
        concrete_children(children, i) <==> (forall|j: int|
            i <= j < children.len() ==> #[trigger] concrete(children[j])),
    decreases children.len() - i,
{
    if i < children.len() {
        lemma_concrete_children_pointwise(children, i + 1);
        if concrete_children(children, i) {
            assert forall|j: int| i <= j < children.len() implies #[trigger] concrete(
                children[j],
            ) by {
                if j > i {
                    assert(concrete_children(children, i + 1));
                }
            }
        }
        if forall|j: int| i <= j < children.len() ==> #[trigger] concrete(children[j]) {
            assert(concrete(children[i as int]));
            assert(concrete_children(children, i + 1));
        }
    }
}

/// The children carried by a composite model (empty for leaves, the single
/// child for decorators).
pub open spec fn model_children(m: TreeModel) -> Seq<TreeModel> {
    match m {
        TreeModel::Sequence { children, .. } => children,
        TreeModel::Selector { children, .. } => children,
        TreeModel::ReactiveSequence { children } => children,
        TreeModel::ReactiveSelector { children } => children,
        TreeModel::Parallel { children, .. } => children,
        TreeModel::Inverter { child } => seq![*child],
        TreeModel::Retry { child, .. } => seq![*child],
        TreeModel::Repeat { child, .. } => seq![*child],
        TreeModel::Timeout { child, .. } => seq![*child],
        TreeModel::ForceSuccess { child } => seq![*child],
        TreeModel::ForceFailure { child } => seq![*child],
        _ => Seq::empty(),
    }
}

/// The single child of a decorator model (`Opaque` for everything else).
pub open spec fn model_child(m: TreeModel) -> TreeModel {
    match m {
        TreeModel::Inverter { child } => *child,
        TreeModel::Retry { child, .. } => *child,
        TreeModel::Repeat { child, .. } => *child,
        TreeModel::Timeout { child, .. } => *child,
        TreeModel::ForceSuccess { child } => *child,
        TreeModel::ForceFailure { child } => *child,
        _ => TreeModel::Opaque,
    }
}

/// The configured duration of a timeout model, in milliseconds.
pub open spec fn model_duration(m: TreeModel) -> nat {
    match m {
        TreeModel::Timeout { duration, .. } => duration,
        _ => 0,
    }
}

/// The running timer of a timeout model, if one is active.
pub open spec fn model_started(m: TreeModel) -> Option<nat> {
    match m {
        TreeModel::Timeout { started, .. } => started,
        _ => None,
    }
}

/// The policy of a parallel model (the default policy for everything else).
pub open spec fn model_policy(m: TreeModel) -> ParallelPolicy {
    match m {
        TreeModel::Parallel { policy, .. } => policy,
        _ => ParallelPolicy::SuccessOnAllFailureOnAny,
    }
}

/// How often a scripted leaf has been ticked (zero for everything else).
pub open spec fn model_ticks(m: TreeModel) -> nat {
    match m {
        TreeModel::Script { ticks, .. } => ticks,
        _ => 0,
    }
}

/// How often a scripted leaf has been reset (zero for everything else).
pub open spec fn model_resets(m: TreeModel) -> nat {
    match m {
        TreeModel::Script { resets, .. } => resets,
        _ => 0,
    }
}

/// The resume position of a memory composite (zero for everything else).
pub open spec fn model_index(m: TreeModel) -> nat {
    match m {
        TreeModel::Sequence { index, .. } => index,
        TreeModel::Selector { index, .. } => index,
        _ => 0,
    }
}

/// Resetting keeps a tree concrete, so the reference interpreter keeps
/// applying to it.
pub proof fn lemma_reset_spec_concrete(m: TreeModel)
    requires
        concrete(m),
    ensures
        concrete(reset_spec(m)),
    decreases m,
{
    match m {
        TreeModel::Sequence { children, .. } => {
            lemma_concrete_children_pointwise(children, 0);
            lemma_reset_spec_concrete_children(children, reset_spec(m));
        },
        TreeModel::Selector { children, .. } => {
            lemma_concrete_children_pointwise(children, 0);
            lemma_reset_spec_concrete_children(children, reset_spec(m));
        },
        TreeModel::ReactiveSequence { children } => {
            lemma_concrete_children_pointwise(children, 0);
            lemma_reset_spec_concrete_children(children, reset_spec(m));
        },
        TreeModel::ReactiveSelector { children } => {
            lemma_concrete_children_pointwise(children, 0);
            lemma_reset_spec_concrete_children(children, reset_spec(m));
        },
        TreeModel::Parallel { children, .. } => {
            lemma_concrete_children_pointwise(children, 0);
            lemma_reset_spec_concrete_children(children, reset_spec(m));
        },
        TreeModel::Inverter { child } => {
            lemma_reset_spec_concrete(*child);
        },
        TreeModel::Retry { child, .. } => {
            lemma_reset_spec_concrete(*child);
        },
        TreeModel::Repeat { child, .. } => {
            lemma_reset_spec_concrete(*child);
        },
        TreeModel::Timeout { child, .. } => {
            lemma_reset_spec_concrete(*child);
        },
        TreeModel::ForceSuccess { child } => {
            lemma_reset_spec_concrete(*child);
        },
        TreeModel::ForceFailure { child } => {
            lemma_reset_spec_concrete(*child);
        },
        _ => {},
    }
}

proof fn lemma_reset_spec_concrete_children(children: Seq<TreeModel>, r: TreeModel)
    requires
        forall|j: int| 0 <= j < children.len() ==> #[trigger] concrete(children[j]),
        model_children(r).len() == children.len(),
        forall|j: int|
            0 <= j < children.len() ==> #[trigger] model_children(r)[j] == reset_spec(children[j]),
    ensures
        concrete_children(model_children(r), 0),
    decreases children,
{
    assert forall|j: int| 0 <= j < model_children(r).len() implies #[trigger] concrete(
        model_children(r)[j],
    ) by {
        lemma_reset_spec_concrete(children[j]);
    }
    lemma_concrete_children_pointwise(model_children(r), 0);
}

/// Ticking keeps a tree concrete, so the per-tick agreement between the
/// executable nodes and the reference interpreter carries over from each
/// tick to the next: a concrete tree is pinned down over whole traces.
pub proof fn lemma_tick_spec_concrete(m: TreeModel)
    requires
        concrete(m),
    ensures
        concrete(tick_spec(m).0),
    decreases m,
{
    match m {
        TreeModel::Sequence { children, .. } => {
            lemma_concrete_children_pointwise(children, 0);
            lemma_tick_spec_concrete_children(children, tick_spec(m).0);
        },
        TreeModel::Selector { children, .. } => {
            lemma_concrete_children_pointwise(children, 0);
            lemma_tick_spec_concrete_children(children, tick_spec(m).0);
        },
        TreeModel::ReactiveSequence { children } => {
            lemma_concrete_children_pointwise(children, 0);
            lemma_tick_spec_concrete_children(children, tick_spec(m).0);
        },
        TreeModel::ReactiveSelector { children } => {
            lemma_concrete_children_pointwise(children, 0);
            lemma_tick_spec_concrete_children(children, tick_spec(m).0);
        },
        TreeModel::Parallel { children, .. } => {
            lemma_concrete_children_pointwise(children, 0);
            lemma_tick_spec_concrete_children(children, tick_spec(m).0);
        },
        TreeModel::Inverter { child } => {
            lemma_tick_spec_concrete(*child);
            lemma_reset_spec_concrete(tick_spec(*child).0);
        },
        TreeModel::Retry { child, .. } => {
            lemma_tick_spec_concrete(*child);
            lemma_reset_spec_concrete(*child);
            lemma_reset_spec_concrete(tick_spec(*child).0);
        },
        TreeModel::Repeat { child, .. } => {
            lemma_tick_spec_concrete(*child);
            lemma_reset_spec_concrete(*child);
            lemma_reset_spec_concrete(tick_spec(*child).0);
        },
        TreeModel::Timeout { child, .. } => {
            lemma_tick_spec_concrete(*child);
            lemma_reset_spec_concrete(*child);
            lemma_reset_spec_concrete(tick_spec(*child).0);
        },
        TreeModel::ForceSuccess { child } => {
            lemma_tick_spec_concrete(*child);
            lemma_reset_spec_concrete(tick_spec(*child).0);
        },
        TreeModel::ForceFailure { child } => {
            lemma_tick_spec_concrete(*child);
            lemma_reset_spec_concrete(tick_spec(*child).0);
        },
        _ => {},
    }
}

proof fn lemma_tick_spec_concrete_children(children: Seq<TreeModel>, r: TreeModel)
    requires
        forall|j: int| 0 <= j < children.len() ==> #[trigger] concrete(children[j]),
        model_children(r).len() == children.len(),
        forall|j: int|
            0 <= j < children.len() ==> #[trigger] model_children(r)[j] == children[j]
                || model_children(r)[j] == tick_spec(children[j]).0 || model_children(r)[j]
                == reset_spec(children[j]) || model_children(r)[j] == reset_spec(
                tick_spec(children[j]).0,
            ),
    ensures
        concrete_children(model_children(r), 0),
    decreases children,
{
    assert forall|j: int| 0 <= j < model_children(r).len() implies #[trigger] concrete(
        model_children(r)[j],
    ) by {
        lemma_tick_spec_concrete(children[j]);
        lemma_reset_spec_concrete(children[j]);
        lemma_reset_spec_concrete(tick_spec(children[j]).0);
    }
    lemma_concrete_children_pointwise(model_children(r), 0);
}

} // verus!

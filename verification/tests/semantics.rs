use arbor::{
    Condition, ForceFailure, ForceSuccess, Inverter, ManualClock, Node, Parallel, ParallelPolicy,
    ReactiveSelector, ReactiveSequence, Repeat, Retry, ScriptedLeaf, Selector, Sequence, Status,
    Timeout,
};

fn leaf(script: &[Status]) -> ScriptedLeaf {
    ScriptedLeaf::new(script.to_vec())
}

fn sticky_leaf(script: &[Status]) -> ScriptedLeaf {
    ScriptedLeaf::with_reset_behavior(script.to_vec(), false)
}

#[test]
fn sequence_all_children_success_returns_success() {
    let mut tree = Sequence::new((
        leaf(&[Status::Success]),
        leaf(&[Status::Success]),
        leaf(&[Status::Success]),
    ));
    let mut ctx = ();

    let status = tree.tick(&mut ctx);

    assert_eq!(status, Status::Success);
    let children = tree.into_children();
    assert_eq!(
        [
            children.0.tick_count(),
            children.1.tick_count(),
            children.2.tick_count(),
        ],
        [1, 1, 1]
    );
}

#[test]
fn sequence_first_child_failure_short_circuits() {
    let mut tree = Sequence::new((
        leaf(&[Status::Failure]),
        leaf(&[Status::Success]),
        leaf(&[Status::Success]),
    ));
    let mut ctx = ();

    let status = tree.tick(&mut ctx);

    assert_eq!(status, Status::Failure);
    let children = tree.into_children();
    assert_eq!(
        [
            children.0.tick_count(),
            children.1.tick_count(),
            children.2.tick_count(),
        ],
        [1, 0, 0]
    );
}

#[test]
fn sequence_middle_running_short_circuits() {
    let mut tree = Sequence::new((
        leaf(&[Status::Success]),
        leaf(&[Status::Running]),
        leaf(&[Status::Success]),
    ));
    let mut ctx = ();

    let status = tree.tick(&mut ctx);

    assert_eq!(status, Status::Running);
    let children = tree.into_children();
    assert_eq!(
        [
            children.0.tick_count(),
            children.1.tick_count(),
            children.2.tick_count(),
        ],
        [1, 1, 0]
    );
}

#[test]
fn sequence_with_memory_resumes_running_child() {
    let mut tree = Sequence::new((
        leaf(&[Status::Success]),
        sticky_leaf(&[Status::Running, Status::Success]),
        leaf(&[Status::Success]),
    ));
    let mut ctx = ();

    let first = tree.tick(&mut ctx);
    let second = tree.tick(&mut ctx);

    assert_eq!(first, Status::Running);
    assert_eq!(second, Status::Success);
    let children = tree.into_children();
    assert_eq!(
        [
            children.0.tick_count(),
            children.1.tick_count(),
            children.2.tick_count(),
        ],
        [1, 2, 1]
    );
}

#[test]
fn selector_all_children_fail_returns_failure() {
    let mut tree = Selector::new((
        leaf(&[Status::Failure]),
        leaf(&[Status::Failure]),
        leaf(&[Status::Failure]),
    ));
    let mut ctx = ();

    let status = tree.tick(&mut ctx);

    assert_eq!(status, Status::Failure);
    let children = tree.into_children();
    assert_eq!(
        [
            children.0.tick_count(),
            children.1.tick_count(),
            children.2.tick_count(),
        ],
        [1, 1, 1]
    );
}

#[test]
fn selector_first_child_success_short_circuits() {
    let mut tree = Selector::new((
        leaf(&[Status::Success]),
        leaf(&[Status::Failure]),
        leaf(&[Status::Failure]),
    ));
    let mut ctx = ();

    let status = tree.tick(&mut ctx);

    assert_eq!(status, Status::Success);
    let children = tree.into_children();
    assert_eq!(
        [
            children.0.tick_count(),
            children.1.tick_count(),
            children.2.tick_count(),
        ],
        [1, 0, 0]
    );
}

#[test]
fn selector_middle_running_short_circuits() {
    let mut tree = Selector::new((
        leaf(&[Status::Failure]),
        leaf(&[Status::Running]),
        leaf(&[Status::Failure]),
    ));
    let mut ctx = ();

    let status = tree.tick(&mut ctx);

    assert_eq!(status, Status::Running);
    let children = tree.into_children();
    assert_eq!(
        [
            children.0.tick_count(),
            children.1.tick_count(),
            children.2.tick_count(),
        ],
        [1, 1, 0]
    );
}

#[test]
fn selector_with_memory_resumes_running_child() {
    let mut tree = Selector::new((
        leaf(&[Status::Failure]),
        sticky_leaf(&[Status::Running, Status::Success]),
        leaf(&[Status::Failure]),
    ));
    let mut ctx = ();

    let first = tree.tick(&mut ctx);
    let second = tree.tick(&mut ctx);

    assert_eq!(first, Status::Running);
    assert_eq!(second, Status::Success);
    let children = tree.into_children();
    assert_eq!(
        [
            children.0.tick_count(),
            children.1.tick_count(),
            children.2.tick_count(),
        ],
        [1, 2, 0]
    );
}

#[test]
fn reactive_sequence_restarts_from_first_child_every_tick() {
    let mut tree = ReactiveSequence::new((
        leaf(&[Status::Success]),
        leaf(&[Status::Running]),
        leaf(&[Status::Success]),
    ));
    let mut ctx = ();

    let first = tree.tick(&mut ctx);
    let second = tree.tick(&mut ctx);

    assert_eq!(first, Status::Running);
    assert_eq!(second, Status::Running);
    let children = tree.into_children();
    assert_eq!(
        [
            children.0.tick_count(),
            children.1.tick_count(),
            children.2.tick_count(),
        ],
        [2, 2, 0]
    );
}

#[test]
fn reactive_sequence_previously_succeeded_condition_can_fail() {
    let mut tree = ReactiveSequence::new((
        sticky_leaf(&[Status::Success, Status::Failure]),
        leaf(&[Status::Running]),
        leaf(&[Status::Success]),
    ));
    let mut ctx = ();

    let first = tree.tick(&mut ctx);
    let second = tree.tick(&mut ctx);

    assert_eq!(first, Status::Running);
    assert_eq!(second, Status::Failure);
    let children = tree.into_children();
    assert_eq!(
        [
            children.0.tick_count(),
            children.1.tick_count(),
            children.2.tick_count(),
        ],
        [2, 1, 0]
    );
}

#[test]
fn reactive_selector_restarts_from_first_child_every_tick() {
    let mut tree = ReactiveSelector::new((
        leaf(&[Status::Failure]),
        leaf(&[Status::Running]),
        leaf(&[Status::Success]),
    ));
    let mut ctx = ();

    let first = tree.tick(&mut ctx);
    let second = tree.tick(&mut ctx);

    assert_eq!(first, Status::Running);
    assert_eq!(second, Status::Running);
    let children = tree.into_children();
    assert_eq!(
        [
            children.0.tick_count(),
            children.1.tick_count(),
            children.2.tick_count(),
        ],
        [2, 2, 0]
    );
}

#[test]
fn reactive_selector_falls_through_when_previous_success_turns_failure() {
    let mut tree = ReactiveSelector::new((
        sticky_leaf(&[Status::Success, Status::Failure]),
        leaf(&[Status::Success]),
        leaf(&[Status::Failure]),
    ));
    let mut ctx = ();

    let first = tree.tick(&mut ctx);
    let second = tree.tick(&mut ctx);

    assert_eq!(first, Status::Success);
    assert_eq!(second, Status::Success);
    let children = tree.into_children();
    assert_eq!(
        [
            children.0.tick_count(),
            children.1.tick_count(),
            children.2.tick_count(),
        ],
        [2, 1, 0]
    );
}

#[test]
fn parallel_ticks_all_children_every_tick() {
    let mut tree = Parallel::new((
        leaf(&[Status::Running]),
        leaf(&[Status::Success]),
        leaf(&[Status::Failure]),
    ));
    let mut ctx = ();

    let status = tree.tick(&mut ctx);

    assert_eq!(status, Status::Failure);
    let children = tree.into_children();
    assert_eq!(
        [
            children.0.tick_count(),
            children.1.tick_count(),
            children.2.tick_count(),
        ],
        [1, 1, 1]
    );
}

#[test]
fn parallel_policy_thresholds_work() {
    let mut ctx = ();

    let mut all_any = Parallel::with_policy(
        (
            leaf(&[Status::Success]),
            leaf(&[Status::Success]),
            leaf(&[Status::Failure]),
        ),
        ParallelPolicy::SuccessOnAllFailureOnAny,
    );

    let mut any_all = Parallel::with_policy(
        (
            leaf(&[Status::Success]),
            leaf(&[Status::Success]),
            leaf(&[Status::Failure]),
        ),
        ParallelPolicy::SuccessOnAnyFailureOnAll,
    );

    let mut threshold_two = Parallel::with_policy(
        (
            leaf(&[Status::Success]),
            leaf(&[Status::Success]),
            leaf(&[Status::Failure]),
        ),
        ParallelPolicy::SuccessThreshold(2),
    );

    assert_eq!(all_any.tick(&mut ctx), Status::Failure);
    assert_eq!(any_all.tick(&mut ctx), Status::Success);
    assert_eq!(threshold_two.tick(&mut ctx), Status::Success);
}

#[test]
fn parallel_all_running_returns_running() {
    let mut tree = Parallel::new((
        leaf(&[Status::Running]),
        leaf(&[Status::Running]),
        leaf(&[Status::Running]),
    ));
    let mut ctx = ();

    let status = tree.tick(&mut ctx);

    assert_eq!(status, Status::Running);
    let children = tree.into_children();
    assert_eq!(
        [
            children.0.tick_count(),
            children.1.tick_count(),
            children.2.tick_count(),
        ],
        [1, 1, 1]
    );
}

#[test]
fn inverter_covers_all_statuses() {
    let mut ctx = ();

    let mut success = Inverter::new(leaf(&[Status::Success]));
    let mut failure = Inverter::new(leaf(&[Status::Failure]));
    let mut running = Inverter::new(leaf(&[Status::Running]));

    assert_eq!(success.tick(&mut ctx), Status::Failure);
    assert_eq!(failure.tick(&mut ctx), Status::Success);
    assert_eq!(running.tick(&mut ctx), Status::Running);
}

#[test]
fn retry_gives_up_after_n_failures() {
    let mut tree = Retry::new(leaf(&[Status::Failure]), 2);
    let mut ctx = ();

    assert_eq!(tree.tick(&mut ctx), Status::Running);
    assert_eq!(tree.tick(&mut ctx), Status::Failure);
}

#[test]
fn retry_counter_resets_after_success() {
    let mut tree = Retry::new(
        sticky_leaf(&[Status::Failure, Status::Success, Status::Failure]),
        2,
    );
    let mut ctx = ();

    assert_eq!(tree.tick(&mut ctx), Status::Running);
    assert_eq!(tree.tick(&mut ctx), Status::Success);
    assert_eq!(tree.tick(&mut ctx), Status::Running);
}

#[test]
fn repeat_repeats_success_n_times() {
    let mut tree = Repeat::new(
        sticky_leaf(&[Status::Success, Status::Success, Status::Success]),
        3,
    );
    let mut ctx = ();

    assert_eq!(tree.tick(&mut ctx), Status::Running);
    assert_eq!(tree.tick(&mut ctx), Status::Running);
    assert_eq!(tree.tick(&mut ctx), Status::Success);
}

#[test]
fn timeout_fails_after_deadline_with_mock_clock() {
    let mut tree = Timeout::new(leaf(&[Status::Running]), ManualClock::new(0), 100);
    let mut ctx = ();

    assert_eq!(tree.tick(&mut ctx), Status::Running);

    tree.set_clock(ManualClock::new(50));
    assert_eq!(tree.tick(&mut ctx), Status::Running);

    tree.set_clock(ManualClock::new(110));
    assert_eq!(tree.tick(&mut ctx), Status::Failure);

    assert_eq!(tree.into_child().tick_count(), 2);
}

#[test]
fn force_success_and_force_failure_behave_as_defined() {
    let mut ctx = ();

    let mut force_success = ForceSuccess::new(leaf(&[Status::Failure]));
    let mut force_failure = ForceFailure::new(leaf(&[Status::Success]));
    let mut running_passthrough = ForceSuccess::new(leaf(&[Status::Running]));

    assert_eq!(force_success.tick(&mut ctx), Status::Success);
    assert_eq!(force_failure.tick(&mut ctx), Status::Failure);
    assert_eq!(running_passthrough.tick(&mut ctx), Status::Running);
}

#[test]
fn deeply_nested_tree_obeys_composition_rules() {
    let mut tree = Selector::new((
        Sequence::new((
            Condition::new(|try_primary: &bool| *try_primary),
            ReactiveSequence::new((
                leaf(&[Status::Success]),
                sticky_leaf(&[Status::Running, Status::Success]),
            )),
        )),
        Sequence::new((leaf(&[Status::Success]), leaf(&[Status::Success]))),
    ));

    let mut should_try_primary = true;

    assert_eq!(tree.tick(&mut should_try_primary), Status::Running);

    should_try_primary = false;
    assert_eq!(tree.tick(&mut should_try_primary), Status::Success);

    let (primary, fallback) = tree.into_children();
    let (_, reactive) = primary.into_children();
    let (leaf0, leaf1) = reactive.into_children();
    let (leaf2, leaf3) = fallback.into_children();
    assert_eq!(
        [
            leaf0.tick_count(),
            leaf1.tick_count(),
            leaf2.tick_count(),
            leaf3.tick_count(),
        ],
        [2, 2, 0, 0]
    );
}

#[test]
fn sequence_exact_tick_count_on_short_circuit() {
    let mut tree = Sequence::new((
        leaf(&[Status::Success]),
        leaf(&[Status::Failure]),
        leaf(&[Status::Success]),
        leaf(&[Status::Success]),
    ));
    let mut ctx = ();

    assert_eq!(tree.tick(&mut ctx), Status::Failure);
    let children = tree.into_children();
    assert_eq!(
        [
            children.0.tick_count(),
            children.1.tick_count(),
            children.2.tick_count(),
            children.3.tick_count(),
        ],
        [1, 1, 0, 0]
    );
}

#[test]
fn selector_exact_tick_count_on_short_circuit() {
    let mut tree = Selector::new((
        leaf(&[Status::Failure]),
        leaf(&[Status::Success]),
        leaf(&[Status::Failure]),
        leaf(&[Status::Failure]),
    ));
    let mut ctx = ();

    assert_eq!(tree.tick(&mut ctx), Status::Success);
    let children = tree.into_children();
    assert_eq!(
        [
            children.0.tick_count(),
            children.1.tick_count(),
            children.2.tick_count(),
            children.3.tick_count(),
        ],
        [1, 1, 0, 0]
    );
}

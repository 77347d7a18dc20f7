use arbor::{
    ForceFailure, ForceSuccess, Inverter, ManualClock, Node, Parallel, ParallelPolicy,
    ReactiveSelector, ReactiveSequence, Retry, ScriptedLeaf, Selector, Sequence, Status, Timeout,
};

fn leaf(script: &[Status]) -> ScriptedLeaf {
    ScriptedLeaf::new(script.to_vec())
}

fn sticky_leaf(script: &[Status]) -> ScriptedLeaf {
    ScriptedLeaf::with_reset_behavior(script.to_vec(), false)
}

#[test]
fn btcpp_sequence_condition_true_equivalent() {
    let mut tree = Sequence::new((leaf(&[Status::Success]), leaf(&[Status::Success])));
    let mut ctx = ();

    assert_eq!(tree.tick(&mut ctx), Status::Success);
    let children = tree.into_children();
    assert_eq!([children.0.tick_count(), children.1.tick_count()], [1, 1]);
}

#[test]
fn btcpp_sequence_with_memory_does_not_retick_previous_success_children() {
    let mut tree = Sequence::new((
        sticky_leaf(&[Status::Success, Status::Failure]),
        sticky_leaf(&[Status::Running, Status::Success]),
    ));
    let mut ctx = ();

    assert_eq!(tree.tick(&mut ctx), Status::Running);
    assert_eq!(tree.tick(&mut ctx), Status::Success);

    // The first child is not re-ticked while the second one is running.
    let children = tree.into_children();
    assert_eq!([children.0.tick_count(), children.1.tick_count()], [1, 2]);
}

#[test]
fn btcpp_fallback_with_memory_resumes_running_branch() {
    let mut tree = Selector::new((
        sticky_leaf(&[Status::Failure, Status::Success]),
        sticky_leaf(&[Status::Running, Status::Success]),
        leaf(&[Status::Failure]),
    ));
    let mut ctx = ();

    assert_eq!(tree.tick(&mut ctx), Status::Running);
    assert_eq!(tree.tick(&mut ctx), Status::Success);

    // The first child is not re-ticked while the second one is running.
    let children = tree.into_children();
    assert_eq!(
        [
            children.0.tick_count(),
            children.1.tick_count(),
            children.2.tick_count(),
        ],
        [1, 2, 0]
    );
}

#[test]
fn btcpp_reactive_sequence_rechecks_from_first_child_every_tick() {
    let mut tree = ReactiveSequence::new((
        leaf(&[Status::Success]),
        leaf(&[Status::Running]),
        leaf(&[Status::Success]),
    ));
    let mut ctx = ();

    assert_eq!(tree.tick(&mut ctx), Status::Running);
    assert_eq!(tree.tick(&mut ctx), Status::Running);

    let children = tree.into_children();
    assert_eq!(
        [
            children.0.tick_count(),
            children.1.tick_count(),
            children.2.tick_count(),
        ],
        [2, 2, 0]
    );
}

#[test]
fn btcpp_reactive_fallback_second_child_succeeds_equivalent() {
    let mut tree = ReactiveSelector::new((
        leaf(&[Status::Failure]),
        leaf(&[Status::Success]),
        leaf(&[Status::Failure]),
    ));
    let mut ctx = ();

    assert_eq!(tree.tick(&mut ctx), Status::Success);
    let children = tree.into_children();
    assert_eq!(
        [
            children.0.tick_count(),
            children.1.tick_count(),
            children.2.tick_count(),
        ],
        [1, 1, 0]
    );
}

#[test]
fn btcpp_parallel_threshold_two_equivalent() {
    let mut tree = Parallel::with_policy(
        (
            leaf(&[Status::Success]),
            leaf(&[Status::Failure]),
            leaf(&[Status::Success]),
        ),
        ParallelPolicy::SuccessThreshold(2),
    );
    let mut ctx = ();

    assert_eq!(tree.tick(&mut ctx), Status::Success);
    let children = tree.into_children();
    assert_eq!(
        [
            children.0.tick_count(),
            children.1.tick_count(),
            children.2.tick_count(),
        ],
        [1, 1, 1]
    );
}

#[test]
fn btcpp_decorator_inverter_child_failure_equivalent() {
    let mut tree = Inverter::new(leaf(&[Status::Failure]));
    let mut ctx = ();

    assert_eq!(tree.tick(&mut ctx), Status::Success);
}

#[test]
fn btcpp_decorator_force_success_child_failure_equivalent() {
    let mut tree = ForceSuccess::new(leaf(&[Status::Failure]));
    let mut ctx = ();

    assert_eq!(tree.tick(&mut ctx), Status::Success);
}

#[test]
fn btcpp_decorator_force_failure_child_success_equivalent() {
    let mut tree = ForceFailure::new(leaf(&[Status::Success]));
    let mut ctx = ();

    assert_eq!(tree.tick(&mut ctx), Status::Failure);
}

#[test]
fn btcpp_retry_until_limit_equivalent() {
    let mut tree = Retry::new(leaf(&[Status::Failure]), 3);
    let mut ctx = ();

    assert_eq!(tree.tick(&mut ctx), Status::Running);
    assert_eq!(tree.tick(&mut ctx), Status::Running);
    assert_eq!(tree.tick(&mut ctx), Status::Failure);
}

#[test]
fn btcpp_timeout_deadline_triggered_equivalent() {
    let mut tree = Timeout::new(leaf(&[Status::Running]), ManualClock::new(0), 100);
    let mut ctx = ();

    assert_eq!(tree.tick(&mut ctx), Status::Running);
    tree.set_clock(ManualClock::new(120));
    assert_eq!(tree.tick(&mut ctx), Status::Failure);
}

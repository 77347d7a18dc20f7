use arbor::{
    Action, Condition, Constant, ForceFailure, ForceSuccess, Inverter, ManualClock, Node,
    Parallel, ParallelPolicy, ReactiveSelector, ReactiveSequence, Repeat, Retry, ScriptedLeaf,
    Selector, Sequence, Status, Timeout,
};

fn leaf(script: &[Status]) -> ScriptedLeaf {
    ScriptedLeaf::new(script.to_vec())
}

#[test]
fn leaf_constructor_and_into_inner_paths_are_covered() {
    let mut ctx_value = 0u32;

    let mut action = Action::new(|ctx: &mut u32| {
        *ctx += 1;
        Status::Success
    });
    assert_eq!(action.tick(&mut ctx_value), Status::Success);
    let action_inner = Action::new(|ctx: &mut u32| {
        *ctx += 1;
        Status::Success
    })
    .into_inner();
    assert_eq!(action_inner(&mut ctx_value), Status::Success);

    let mut condition = Condition::new(|ctx: &u32| *ctx > 0);
    assert_eq!(condition.tick(&mut ctx_value), Status::Success);
    let condition_inner = Condition::new(|ctx: &u32| *ctx > 10).into_inner();
    assert!(!condition_inner(&ctx_value));

    let mut constant = Constant::new(Status::Failure);
    assert_eq!(constant.tick(&mut ctx_value), Status::Failure);
}

#[test]
fn composite_accessor_policy_and_reset_paths_are_covered() {
    let mut ctx = ();

    let mut seq = Sequence::new((leaf(&[Status::Running]), leaf(&[Status::Success])));
    assert_eq!(seq.tick(&mut ctx), Status::Running);
    Node::<()>::reset(&mut seq);

    let mut sel = Selector::new((leaf(&[Status::Running]), leaf(&[Status::Success])));
    assert_eq!(sel.tick(&mut ctx), Status::Running);
    Node::<()>::reset(&mut sel);

    let mut rseq = ReactiveSequence::new((leaf(&[Status::Running]), leaf(&[Status::Success])));
    assert_eq!(rseq.tick(&mut ctx), Status::Running);
    Node::<()>::reset(&mut rseq);

    let mut rsel = ReactiveSelector::new((leaf(&[Status::Running]), leaf(&[Status::Success])));
    assert_eq!(rsel.tick(&mut ctx), Status::Running);
    Node::<()>::reset(&mut rsel);

    let mut par = Parallel::with_policy(
        (
            leaf(&[Status::Running]),
            leaf(&[Status::Running]),
            leaf(&[Status::Running]),
        ),
        ParallelPolicy::SuccessOnAnyFailureOnAll,
    );
    assert_eq!(par.policy(), ParallelPolicy::SuccessOnAnyFailureOnAll);
    assert_eq!(par.tick(&mut ctx), Status::Running);
    Node::<()>::reset(&mut par);

    let _ = Sequence::new((leaf(&[Status::Success]),)).into_children();
    let _ = Selector::new((leaf(&[Status::Success]),)).into_children();
    let _ = ReactiveSequence::new((leaf(&[Status::Success]),)).into_children();
    let _ = ReactiveSelector::new((leaf(&[Status::Success]),)).into_children();
    let _ = Parallel::new((leaf(&[Status::Success]),)).into_children();
}

#[test]
fn decorator_accessor_and_reset_paths_are_covered() {
    let mut ctx = ();

    let mut inverter = Inverter::new(leaf(&[Status::Running]));
    assert_eq!(inverter.tick(&mut ctx), Status::Running);
    Node::<()>::reset(&mut inverter);
    let _ = Inverter::new(leaf(&[Status::Success])).into_child();

    let mut retry = Retry::new(leaf(&[Status::Running]), 2);
    assert_eq!(retry.tick(&mut ctx), Status::Running);
    Node::<()>::reset(&mut retry);
    let _ = Retry::new(leaf(&[Status::Success]), 1).into_child();

    let mut repeat = Repeat::new(leaf(&[Status::Running]), 2);
    assert_eq!(repeat.tick(&mut ctx), Status::Running);
    Node::<()>::reset(&mut repeat);
    let _ = Repeat::new(leaf(&[Status::Success]), 1).into_child();

    let mut timeout = Timeout::new(leaf(&[Status::Running]), ManualClock::new(0), 10);
    assert_eq!(timeout.tick(&mut ctx), Status::Running);
    Node::<()>::reset(&mut timeout);
    let _ = Timeout::new(leaf(&[Status::Success]), ManualClock::new(0), 1).into_child();

    let mut force_success = ForceSuccess::new(leaf(&[Status::Running]));
    assert_eq!(force_success.tick(&mut ctx), Status::Running);
    Node::<()>::reset(&mut force_success);
    let _ = ForceSuccess::new(leaf(&[Status::Success])).into_child();

    let mut force_failure = ForceFailure::new(leaf(&[Status::Running]));
    assert_eq!(force_failure.tick(&mut ctx), Status::Running);
    Node::<()>::reset(&mut force_failure);
    let _ = ForceFailure::new(leaf(&[Status::Success])).into_child();
}

#[test]
fn array_nodelist_paths_are_covered() {
    let mut tree = Sequence::new([
        leaf(&[Status::Success]),
        leaf(&[Status::Success]),
        leaf(&[Status::Success]),
    ]);
    let mut ctx = ();

    assert_eq!(tree.tick(&mut ctx), Status::Success);
    let c = tree.into_children();
    assert_eq!(
        [c[0].tick_count(), c[1].tick_count(), c[2].tick_count()],
        [1, 1, 1]
    );
}

#[test]
fn array_nodelist_reset_range_covered() {
    let mut tree = ReactiveSequence::new([
        leaf(&[Status::Success]),
        leaf(&[Status::Running]),
        leaf(&[Status::Success]),
    ]);
    let mut ctx = ();

    assert_eq!(tree.tick(&mut ctx), Status::Running);
    assert_eq!(tree.tick(&mut ctx), Status::Running);

    let c = tree.into_children();
    assert_eq!(c[2].reset_count(), 2);
    assert_eq!(
        [c[0].tick_count(), c[1].tick_count(), c[2].tick_count()],
        [2, 2, 0]
    );
}

#[test]
fn tuple_arity_1_covered() {
    let mut tree = Sequence::new((leaf(&[Status::Success]),));
    assert_eq!(tree.tick(&mut ()), Status::Success);
    let c = tree.into_children();
    assert_eq!(c.0.tick_count(), 1);
}

#[test]
fn tuple_arity_2_covered() {
    let mut tree = Sequence::new((leaf(&[Status::Success]), leaf(&[Status::Success])));
    assert_eq!(tree.tick(&mut ()), Status::Success);
    let c = tree.into_children();
    assert_eq!([c.0.tick_count(), c.1.tick_count()], [1, 1]);
}

#[test]
fn tuple_arity_3_covered() {
    let mut tree = Sequence::new((
        leaf(&[Status::Success]),
        leaf(&[Status::Success]),
        leaf(&[Status::Success]),
    ));
    assert_eq!(tree.tick(&mut ()), Status::Success);
    let c = tree.into_children();
    assert_eq!([c.0.tick_count(), c.1.tick_count(), c.2.tick_count()], [1, 1, 1]);
}

#[test]
fn tuple_arity_4_covered() {
    let mut tree = Sequence::new((
        leaf(&[Status::Success]),
        leaf(&[Status::Success]),
        leaf(&[Status::Success]),
        leaf(&[Status::Success]),
    ));
    assert_eq!(tree.tick(&mut ()), Status::Success);
    let c = tree.into_children();
    assert_eq!(
        [
            c.0.tick_count(),
            c.1.tick_count(),
            c.2.tick_count(),
            c.3.tick_count(),
        ],
        [1, 1, 1, 1]
    );
}

#[test]
fn tuple_arity_5_covered() {
    let mut tree = Sequence::new((
        leaf(&[Status::Success]),
        leaf(&[Status::Success]),
        leaf(&[Status::Success]),
        leaf(&[Status::Success]),
        leaf(&[Status::Success]),
    ));
    assert_eq!(tree.tick(&mut ()), Status::Success);
    let c = tree.into_children();
    assert_eq!(
        [
            c.0.tick_count(),
            c.1.tick_count(),
            c.2.tick_count(),
            c.3.tick_count(),
            c.4.tick_count(),
        ],
        [1, 1, 1, 1, 1]
    );
}

#[test]
fn tuple_arity_6_covered() {
    let mut tree = Sequence::new((
        leaf(&[Status::Success]),
        leaf(&[Status::Success]),
        leaf(&[Status::Success]),
        leaf(&[Status::Success]),
        leaf(&[Status::Success]),
        leaf(&[Status::Success]),
    ));
    assert_eq!(tree.tick(&mut ()), Status::Success);
    let c = tree.into_children();
    assert_eq!(
        [
            c.0.tick_count(),
            c.1.tick_count(),
            c.2.tick_count(),
            c.3.tick_count(),
            c.4.tick_count(),
            c.5.tick_count(),
        ],
        [1, 1, 1, 1, 1, 1]
    );
}

use vstd::prelude::*;

use crate::list::{ModeledList, NodeList};
use crate::model::{
    concrete, count_children_prefix, lemma_children_count, lemma_children_scan_exhausts,
    lemma_children_scan_stops, lemma_concrete_children_pointwise, model_children, model_index,
    model_policy,
    policy_ok, tick_spec, TreeModel,
};
use crate::node::{Modeled, Node};
use crate::status::Status;

verus! {

/// Policy selecting the success threshold of a `Parallel` composite.
#[derive(Debug, Clone, Copy, PartialEq, Eq, Structural)]
pub enum ParallelPolicy {
    SuccessOnAllFailureOnAny,
    SuccessOnAnyFailureOnAll,
    SuccessThreshold(usize),
}

impl Default for ParallelPolicy {
    /// The default policy requires every child to succeed.
    fn default() -> (r: Self)
        ensures
            r == ParallelPolicy::SuccessOnAllFailureOnAny,
    {
        ParallelPolicy::SuccessOnAllFailureOnAny
    }
}

/// Memory-preserving AND composite: ticks its children in order, resuming
/// at the child that was last `Running`; a failing child concludes the
/// whole run.
pub struct Sequence<Children> {
    children: Children,
    running_index: usize,
}

impl<Children: ModeledList> Modeled for Sequence<Children> {
    closed spec fn model(&self) -> TreeModel {
        TreeModel::Sequence {
            children: self.children.models(),
            index: self.running_index as nat,
        }
    }
}

impl<Children: ModeledList> Sequence<Children> {
    /// A sequence over `children`, starting at the first child.
    pub fn new(children: Children) -> (r: Self)
        ensures
            r.model() == (TreeModel::Sequence { children: children.models(), index: 0 }),
    {
        Sequence { children, running_index: 0 }
    }

    /// Recover the child list.
    pub fn into_children(self) -> (r: Children)
        ensures
            r.models() == model_children(self.model()),
    {
        self.children
    }
}

impl<Ctx, Children: NodeList<Ctx>> Node<Ctx> for Sequence<Children> {
    fn tick(&mut self, ctx: &mut Ctx) -> (s: Status)
        ensures
            s != Status::Running ==> model_index(final (self).model()) == 0,
            model_children(final (self).model()).len() == model_children(old(self).model()).len(),
    {
        let ghost m0 = self.model();
        let ghost c0 = self.children.models();
        let ghost k0 = self.running_index as nat;
        let n = self.children.len();
        let mut index = self.running_index;
        while index < n
            invariant
                n as nat == c0.len(),
                self.children.models().len() == c0.len(),
                k0 <= index as nat,
                index as nat <= c0.len() || index as nat == k0,
                m0 == (TreeModel::Sequence { children: c0, index: k0 }),
                m0 == old(self).model(),
                forall|j: int|
                    0 <= j < c0.len() && !(k0 <= j < index as nat)
                        ==> self.children.models()[j] == c0[j],
                concrete(m0) ==> forall|j: int|
                    k0 <= j < index as nat ==> tick_spec(#[trigger] c0[j]).1 == Status::Success
                        && self.children.models()[j] == tick_spec(c0[j]).0,
            decreases c0.len() - index as nat,
        {
            let s = self.children.tick_at(index, ctx);
            match s {
                Status::Success => {
                    proof {
                        if concrete(m0) {
                            lemma_concrete_children_pointwise(c0, 0);
                            assert(concrete(c0[index as int]));
                        }
                    }
                    index = index + 1;
                },
                Status::Failure => {
                    proof {
                        if concrete(m0) {
                            lemma_concrete_children_pointwise(c0, 0);
                            lemma_children_scan_stops(
                                c0,
                                k0,
                                index as nat,
                                Status::Success,
                                Status::Success,
                            );
                        }
                    }
                    self.running_index = 0;
                    self.children.reset_all();
                    proof {
                        if concrete(m0) {
                            assert(model_children(tick_spec(m0).0) =~= self.children.models());
                        }
                    }
                    return Status::Failure;
                },
                Status::Running => {
                    proof {
                        if concrete(m0) {
                            lemma_concrete_children_pointwise(c0, 0);
                            lemma_children_scan_stops(
                                c0,
                                k0,
                                index as nat,
                                Status::Success,
                                Status::Success,
                            );
                        }
                    }
                    self.running_index = index;
                    proof {
                        if concrete(m0) {
                            assert(model_children(tick_spec(m0).0) =~= self.children.models());
                        }
                    }
                    return Status::Running;
                },
            }
        }
        proof {
            if concrete(m0) {
                lemma_concrete_children_pointwise(c0, 0);
                lemma_children_scan_exhausts(c0, k0, Status::Success, Status::Success);
            }
        }
        self.running_index = 0;
        self.children.reset_all();
        proof {
            if concrete(m0) {
                assert(model_children(tick_spec(m0).0) =~= self.children.models());
            }
        }
        Status::Success
    }

    fn reset(&mut self) {
        self.running_index = 0;
        self.children.reset_all();
        proof {
            assert(model_children(crate::model::reset_spec(old(self).model()))
                =~= self.children.models());
        }
    }
}

/// Memory-preserving OR composite: ticks its children in order, resuming
/// at the child that was last `Running`; a succeeding child concludes the
/// whole run, a failing child moves the scan on.
pub struct Selector<Children> {
    children: Children,
    running_index: usize,
}

impl<Children: ModeledList> Modeled for Selector<Children> {
    closed spec fn model(&self) -> TreeModel {
        TreeModel::Selector {
            children: self.children.models(),
            index: self.running_index as nat,
        }
    }
}

impl<Children: ModeledList> Selector<Children> {
    /// A selector over `children`, starting at the first child.
    pub fn new(children: Children) -> (r: Self)
        ensures
            r.model() == (TreeModel::Selector { children: children.models(), index: 0 }),
    {
        Selector { children, running_index: 0 }
    }

    /// Recover the child list.
    pub fn into_children(self) -> (r: Children)
        ensures
            r.models() == model_children(self.model()),
    {
        self.children
    }
}

impl<Ctx, Children: NodeList<Ctx>> Node<Ctx> for Selector<Children> {
    fn tick(&mut self, ctx: &mut Ctx) -> (s: Status)
        ensures
            s != Status::Running ==> model_index(final (self).model()) == 0,
            model_children(final (self).model()).len() == model_children(old(self).model()).len(),
    {
        let ghost m0 = self.model();
        let ghost c0 = self.children.models();
        let ghost k0 = self.running_index as nat;
        let n = self.children.len();
        let mut index = self.running_index;
        while index < n
            invariant
                n as nat == c0.len(),
                self.children.models().len() == c0.len(),
                k0 <= index as nat,
                index as nat <= c0.len() || index as nat == k0,
                m0 == (TreeModel::Selector { children: c0, index: k0 }),
                m0 == old(self).model(),
                forall|j: int|
                    0 <= j < c0.len() && !(k0 <= j < index as nat)
                        ==> self.children.models()[j] == c0[j],
                concrete(m0) ==> forall|j: int|
                    k0 <= j < index as nat ==> tick_spec(#[trigger] c0[j]).1 == Status::Failure
                        && self.children.models()[j] == tick_spec(c0[j]).0,
            decreases c0.len() - index as nat,
        {
            let s = self.children.tick_at(index, ctx);
            match s {
                Status::Failure => {
                    proof {
                        if concrete(m0) {
                            lemma_concrete_children_pointwise(c0, 0);
                            assert(concrete(c0[index as int]));
                        }
                    }
                    index = index + 1;
                },
                Status::Success => {
                    proof {
                        if concrete(m0) {
                            lemma_concrete_children_pointwise(c0, 0);
                            lemma_children_scan_stops(
                                c0,
                                k0,
                                index as nat,
                                Status::Failure,
                                Status::Failure,
                            );
                        }
                    }
                    self.running_index = 0;
                    self.children.reset_all();
                    proof {
                        if concrete(m0) {
                            assert(model_children(tick_spec(m0).0) =~= self.children.models());
                        }
                    }
                    return Status::Success;
                },
                Status::Running => {
                    proof {
                        if concrete(m0) {
                            lemma_concrete_children_pointwise(c0, 0);
                            lemma_children_scan_stops(
                                c0,
                                k0,
                                index as nat,
                                Status::Failure,
                                Status::Failure,
                            );
                        }
                    }
                    self.running_index = index;
                    proof {
                        if concrete(m0) {
                            assert(model_children(tick_spec(m0).0) =~= self.children.models());
                        }
                    }
                    return Status::Running;
                },
            }
        }
        proof {
            if concrete(m0) {
                lemma_concrete_children_pointwise(c0, 0);
                lemma_children_scan_exhausts(c0, k0, Status::Failure, Status::Failure);
            }
        }
        self.running_index = 0;
        self.children.reset_all();
        proof {
            if concrete(m0) {
                assert(model_children(tick_spec(m0).0) =~= self.children.models());
            }
        }
        Status::Failure
    }

    fn reset(&mut self) {
        self.running_index = 0;
        self.children.reset_all();
        proof {
            assert(model_children(crate::model::reset_spec(old(self).model()))
                =~= self.children.models());
        }
    }
}

/// Reactive AND composite: re-evaluates every tick from the first child,
/// so an earlier condition can veto a later child; a stop at some child
/// resets only the children strictly after it.
pub struct ReactiveSequence<Children> {
    children: Children,
}

impl<Children: ModeledList> Modeled for ReactiveSequence<Children> {
    closed spec fn model(&self) -> TreeModel {
        TreeModel::ReactiveSequence { children: self.children.models() }
    }
}

impl<Children: ModeledList> ReactiveSequence<Children> {
    /// A reactive sequence over `children`.
    pub fn new(children: Children) -> (r: Self)
        ensures
            r.model() == (TreeModel::ReactiveSequence { children: children.models() }),
    {
        ReactiveSequence { children }
    }

    /// Recover the child list.
    pub fn into_children(self) -> (r: Children)
        ensures
            r.models() == model_children(self.model()),
    {
        self.children
    }
}

impl<Ctx, Children: NodeList<Ctx>> Node<Ctx> for ReactiveSequence<Children> {
    fn tick(&mut self, ctx: &mut Ctx) -> (s: Status)
        ensures
            model_children(final (self).model()).len() == model_children(old(self).model()).len(),
    {
        let ghost m0 = self.model();
        let ghost c0 = self.children.models();
        let n = self.children.len();
        let mut index: usize = 0;
        while index < n
            invariant
                n as nat == c0.len(),
                self.children.models().len() == c0.len(),
                index as nat <= c0.len(),
                m0 == (TreeModel::ReactiveSequence { children: c0 }),
                m0 == old(self).model(),
                forall|j: int|
                    0 <= j < c0.len() && !(j < index as nat)
                        ==> self.children.models()[j] == c0[j],
                concrete(m0) ==> forall|j: int|
                    0 <= j < index as nat ==> tick_spec(#[trigger] c0[j]).1 == Status::Success
                        && self.children.models()[j] == tick_spec(c0[j]).0,
            decreases c0.len() - index as nat,
        {
            let s = self.children.tick_at(index, ctx);
            match s {
                Status::Success => {
                    proof {
                        if concrete(m0) {
                            lemma_concrete_children_pointwise(c0, 0);
                            assert(concrete(c0[index as int]));
                        }
                    }
                    index = index + 1;
                },
                _ => {
                    proof {
                        if concrete(m0) {
                            lemma_concrete_children_pointwise(c0, 0);
                            lemma_children_scan_stops(
                                c0,
                                0,
                                index as nat,
                                Status::Success,
                                Status::Success,
                            );
                        }
                    }
                    self.children.reset_range(index + 1);
                    proof {
                        if concrete(m0) {
                            assert(model_children(tick_spec(m0).0) =~= self.children.models());
                        }
                    }
                    return s;
                },
            }
        }
        proof {
            if concrete(m0) {
                lemma_concrete_children_pointwise(c0, 0);
                lemma_children_scan_exhausts(c0, 0, Status::Success, Status::Success);
            }
        }
        self.children.reset_all();
        proof {
            if concrete(m0) {
                assert(model_children(tick_spec(m0).0) =~= self.children.models());
            }
        }
        Status::Success
    }

    fn reset(&mut self) {
        self.children.reset_all();
        proof {
            assert(model_children(crate::model::reset_spec(old(self).model()))
                =~= self.children.models());
        }
    }
}

/// Reactive OR composite: re-evaluates every tick from the first child, so
/// an earlier child's success preempts the rest; a stop at some child
/// resets only the children strictly after it.
pub struct ReactiveSelector<Children> {
    children: Children,
}

impl<Children: ModeledList> Modeled for ReactiveSelector<Children> {
    closed spec fn model(&self) -> TreeModel {
        TreeModel::ReactiveSelector { children: self.children.models() }
    }
}

impl<Children: ModeledList> ReactiveSelector<Children> {
    /// A reactive selector over `children`.
    pub fn new(children: Children) -> (r: Self)
        ensures
            r.model() == (TreeModel::ReactiveSelector { children: children.models() }),
    {
        ReactiveSelector { children }
    }

    /// Recover the child list.
    pub fn into_children(self) -> (r: Children)
        ensures
            r.models() == model_children(self.model()),
    {
        self.children
    }
}

impl<Ctx, Children: NodeList<Ctx>> Node<Ctx> for ReactiveSelector<Children> {
    fn tick(&mut self, ctx: &mut Ctx) -> (s: Status)
        ensures
            model_children(final (self).model()).len() == model_children(old(self).model()).len(),
    {
        let ghost m0 = self.model();
        let ghost c0 = self.children.models();
        let n = self.children.len();
        let mut index: usize = 0;
        while index < n
            invariant
                n as nat == c0.len(),
                self.children.models().len() == c0.len(),
                index as nat <= c0.len(),
                m0 == (TreeModel::ReactiveSelector { children: c0 }),
                m0 == old(self).model(),
                forall|j: int|
                    0 <= j < c0.len() && !(j < index as nat)
                        ==> self.children.models()[j] == c0[j],
                concrete(m0) ==> forall|j: int|
                    0 <= j < index as nat ==> tick_spec(#[trigger] c0[j]).1 == Status::Failure
                        && self.children.models()[j] == tick_spec(c0[j]).0,
            decreases c0.len() - index as nat,
        {
            let s = self.children.tick_at(index, ctx);
            match s {
                Status::Failure => {
                    proof {
                        if concrete(m0) {
                            lemma_concrete_children_pointwise(c0, 0);
                            assert(concrete(c0[index as int]));
                        }
                    }
                    index = index + 1;
                },
                _ => {
                    proof {
                        if concrete(m0) {
                            lemma_concrete_children_pointwise(c0, 0);
                            lemma_children_scan_stops(
                                c0,
                                0,
                                index as nat,
                                Status::Failure,
                                Status::Failure,
                            );
                        }
                    }
                    self.children.reset_range(index + 1);
                    proof {
                        if concrete(m0) {
                            assert(model_children(tick_spec(m0).0) =~= self.children.models());
                        }
                    }
                    return s;
                },
            }
        }
        proof {
            if concrete(m0) {
                lemma_concrete_children_pointwise(c0, 0);
                lemma_children_scan_exhausts(c0, 0, Status::Failure, Status::Failure);
            }
        }
        self.children.reset_all();
        proof {
            if concrete(m0) {
                assert(model_children(tick_spec(m0).0) =~= self.children.models());
            }
        }
        Status::Failure
    }

    fn reset(&mut self) {
        self.children.reset_all();
        proof {
            assert(model_children(crate::model::reset_spec(old(self).model()))
                =~= self.children.models());
        }
    }
}

/// Composite that ticks every child exactly once per call and aggregates
/// the outcomes under its policy: enough successes conclude the run with
/// `Success`; once the threshold is mathematically unreachable it
/// concludes with `Failure`, even while some children are still running.
///
/// A well-formed configuration (at least one child, threshold within
/// `1 ..= n`) is demanded at construction; `new` always selects the
/// all-must-succeed policy.
pub struct Parallel<Children> {
    children: Children,
    policy: ParallelPolicy,
}

impl<Children: ModeledList> Modeled for Parallel<Children> {
    closed spec fn model(&self) -> TreeModel {
        TreeModel::Parallel { children: self.children.models(), policy: self.policy }
    }
}

impl<Children: ModeledList> Parallel<Children> {
    /// A parallel composite in which every child must succeed; a parallel
    /// node needs at least one child (none is a construction bug, not an
    /// outcome).
    pub fn new(children: Children) -> (r: Self)
        requires
            children.models().len() >= 1,
        ensures
            r.model() == (TreeModel::Parallel {
                children: children.models(),
                policy: ParallelPolicy::SuccessOnAllFailureOnAny,
            }),
    {
        Parallel { children, policy: ParallelPolicy::SuccessOnAllFailureOnAny }
    }

    /// A parallel composite under an explicit policy; the policy must be
    /// well formed for the number of children (a threshold of zero, or one
    /// beyond the child count, is a construction bug, not an outcome).
    pub fn with_policy(children: Children, policy: ParallelPolicy) -> (r: Self)
        requires
            policy_ok(policy, children.models().len()),
        ensures
            r.model() == (TreeModel::Parallel { children: children.models(), policy }),
    {
        Parallel { children, policy }
    }

    /// Recover the child list.
    pub fn into_children(self) -> (r: Children)
        ensures
            r.models() == model_children(self.model()),
    {
        self.children
    }

    /// The configured policy.
    pub fn policy(&self) -> (r: ParallelPolicy)
        ensures
            r == model_policy(self.model()),
    {
        self.policy
    }
}

impl<Ctx, Children: NodeList<Ctx>> Node<Ctx> for Parallel<Children> {
    fn tick(&mut self, ctx: &mut Ctx) -> (s: Status)
        ensures
            model_children(final (self).model()).len() == model_children(old(self).model()).len(),
    {
        let ghost m0 = self.model();
        let ghost c0 = self.children.models();
        let ghost p0 = self.policy;
        let n = self.children.len();
        let mut successes: usize = 0;
        let mut failures: usize = 0;
        let mut index: usize = 0;
        while index < n
            invariant
                n as nat == c0.len(),
                self.children.models().len() == c0.len(),
                index as nat <= c0.len(),
                successes as nat + failures as nat <= index as nat,
                self.policy == p0,
                m0 == (TreeModel::Parallel { children: c0, policy: p0 }),
                m0 == old(self).model(),
                forall|j: int|
                    index as nat <= j < c0.len() ==> self.children.models()[j] == c0[j],
                concrete(m0) ==> (forall|j: int|
                    0 <= j < index as nat ==> self.children.models()[j] == tick_spec(
                        #[trigger] c0[j],
                    ).0),
                concrete(m0) ==> successes as nat == count_children_prefix(
                    c0,
                    Status::Success,
                    index as nat,
                ) && failures as nat == count_children_prefix(c0, Status::Failure, index as nat),
            decreases c0.len() - index as nat,
        {
            let s = self.children.tick_at(index, ctx);
            proof {
                if concrete(m0) {
                    lemma_concrete_children_pointwise(c0, 0);
                    assert(concrete(c0[index as int]));
                }
            }
            match s {
                Status::Success => {
                    successes = successes + 1;
                },
                Status::Failure => {
                    failures = failures + 1;
                },
                Status::Running => {},
            }
            index = index + 1;
        }
        let threshold = match self.policy {
            ParallelPolicy::SuccessOnAllFailureOnAny => n,
            ParallelPolicy::SuccessOnAnyFailureOnAll => 1,
            ParallelPolicy::SuccessThreshold(t) => t,
        };
        // `threshold > n || failures > n - threshold` is "failures + threshold > n"
        // without overflow: the threshold cannot be reached even if every
        // running child eventually succeeds.
        let status = if successes >= threshold {
            Status::Success
        } else if threshold > n || failures > n - threshold {
            Status::Failure
        } else {
            Status::Running
        };
        proof {
            if concrete(m0) {
                lemma_children_count(c0, Status::Success, c0.len());
                lemma_children_count(c0, Status::Failure, c0.len());
            }
        }
        if status != Status::Running {
            self.children.reset_all();
        }
        proof {
            if concrete(m0) {
                assert(model_children(tick_spec(m0).0) =~= self.children.models());
            }
        }
        status
    }

    fn reset(&mut self) {
        self.children.reset_all();
        proof {
            assert(model_children(crate::model::reset_spec(old(self).model()))
                =~= self.children.models());
        }
    }
}

} // verus!

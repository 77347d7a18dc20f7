use vstd::prelude::*;

use crate::clock::Clock;
use crate::model::{model_child, model_duration, model_started, TreeModel};
use crate::node::{Modeled, Node};
use crate::status::Status;

verus! {

/// Decorator that swaps its child's `Success` and `Failure` and passes
/// `Running` through unchanged; a terminal outcome resets the child.
pub struct Inverter<Child> {
    child: Child,
}

impl<Child: Modeled> Modeled for Inverter<Child> {
    closed spec fn model(&self) -> TreeModel {
        TreeModel::Inverter { child: Box::new(self.child.model()) }
    }
}

impl<Child: Modeled> Inverter<Child> {
    /// Wrap `child` so its terminal outcomes are inverted.
    pub fn new(child: Child) -> (r: Self)
        ensures
            r.model() == (TreeModel::Inverter { child: Box::new(child.model()) }),
    {
        Inverter { child }
    }

    /// Recover the wrapped child.
    pub fn into_child(self) -> (r: Child)
        ensures
            r.model() == model_child(self.model()),
    {
        self.child
    }
}

impl<Ctx, Child: Node<Ctx>> Node<Ctx> for Inverter<Child> {
    fn tick(&mut self, ctx: &mut Ctx) -> (s: Status) {
        match self.child.tick(ctx) {
            Status::Success => {
                self.child.reset();
                Status::Failure
            },
            Status::Failure => {
                self.child.reset();
                Status::Success
            },
            Status::Running => Status::Running,
        }
    }

    fn reset(&mut self) {
        self.child.reset();
    }
}

/// Decorator that masks its child's failures as `Running` and retries the
/// child, until `max_failures` consecutive failures have been consumed;
/// that exhaustion, like a child success, ends the run.
///
/// With `max_failures == 0` it never ticks the child at all: each tick
/// resets the child and reports `Failure`.
pub struct Retry<Child> {
    child: Child,
    max_failures: usize,
    failures: usize,
}

impl<Child: Modeled> Modeled for Retry<Child> {
    closed spec fn model(&self) -> TreeModel {
        TreeModel::Retry {
            child: Box::new(self.child.model()),
            max_failures: self.max_failures as nat,
            failures: self.failures as nat,
        }
    }
}

impl<Child: Modeled> Retry<Child> {
    /// Wrap `child` so up to `max_failures` consecutive failures are
    /// retried before one is reported.
    pub fn new(child: Child, max_failures: usize) -> (r: Self)
        ensures
            r.model() == (TreeModel::Retry {
                child: Box::new(child.model()),
                max_failures: max_failures as nat,
                failures: 0,
            }),
    {
        Retry { child, max_failures, failures: 0 }
    }

    /// Recover the wrapped child.
    pub fn into_child(self) -> (r: Child)
        ensures
            r.model() == model_child(self.model()),
    {
        self.child
    }
}

impl<Ctx, Child: Node<Ctx>> Node<Ctx> for Retry<Child> {
    fn tick(&mut self, ctx: &mut Ctx) -> (s: Status) {
        if self.max_failures == 0 {
            self.child.reset();
            return Status::Failure;
        }
        match self.child.tick(ctx) {
            Status::Success => {
                self.failures = 0;
                self.child.reset();
                Status::Success
            },
            Status::Running => Status::Running,
            Status::Failure => {
                self.child.reset();
                if self.failures >= self.max_failures - 1 {
                    self.failures = 0;
                    Status::Failure
                } else {
                    self.failures = self.failures + 1;
                    Status::Running
                }
            },
        }
    }

    fn reset(&mut self) {
        self.failures = 0;
        self.child.reset();
    }
}

/// Decorator that masks its child's successes as `Running` and re-runs the
/// child, until `max_successes` successes have accumulated; a child
/// failure propagates immediately and clears the count.
///
/// With `max_successes == 0` it never ticks the child at all: each tick
/// resets the child and reports `Success`.
pub struct Repeat<Child> {
    child: Child,
    max_successes: usize,
    successes: usize,
}

impl<Child: Modeled> Modeled for Repeat<Child> {
    closed spec fn model(&self) -> TreeModel {
        TreeModel::Repeat {
            child: Box::new(self.child.model()),
            max_successes: self.max_successes as nat,
            successes: self.successes as nat,
        }
    }
}

impl<Child: Modeled> Repeat<Child> {
    /// Wrap `child` so it must succeed `max_successes` times before one
    /// `Success` is reported.
    pub fn new(child: Child, max_successes: usize) -> (r: Self)
        ensures
            r.model() == (TreeModel::Repeat {
                child: Box::new(child.model()),
                max_successes: max_successes as nat,
                successes: 0,
            }),
    {
        Repeat { child, max_successes, successes: 0 }
    }

    /// Recover the wrapped child.
    pub fn into_child(self) -> (r: Child)
        ensures
            r.model() == model_child(self.model()),
    {
        self.child
    }
}

impl<Ctx, Child: Node<Ctx>> Node<Ctx> for Repeat<Child> {
    fn tick(&mut self, ctx: &mut Ctx) -> (s: Status) {
        if self.max_successes == 0 {
            self.child.reset();
            return Status::Success;
        }
        match self.child.tick(ctx) {
            Status::Success => {
                self.child.reset();
                if self.successes >= self.max_successes - 1 {
                    self.successes = 0;
                    Status::Success
                } else {
                    self.successes = self.successes + 1;
                    Status::Running
                }
            },
            Status::Running => Status::Running,
            Status::Failure => {
                self.successes = 0;
                self.child.reset();
                Status::Failure
            },
        }
    }

    fn reset(&mut self) {
        self.successes = 0;
        self.child.reset();
    }
}

/// Decorator that bounds how long its child may keep running: once the
/// configured duration has elapsed since the child's run began, the run is
/// concluded with `Failure` instead. Terminal outcomes of the child pass
/// through and clear the timer; the timer persists across `Running` ticks.
pub struct Timeout<Child, Clk: Clock> {
    child: Child,
    clock: Clk,
    duration_ms: u64,
    started_at: Option<Clk::Instant>,
}

impl<Child: Modeled, Clk: Clock> Modeled for Timeout<Child, Clk> {
    closed spec fn model(&self) -> TreeModel {
        TreeModel::Timeout {
            child: Box::new(self.child.model()),
            duration: self.duration_ms as nat,
            started: match self.started_at {
                Some(i) => Some(Clk::instant_model(i)),
                None => None,
            },
            now: self.clock.time_model(),
            clock_modeled: self.clock.modeled(),
        }
    }
}

impl<Child: Modeled, Clk: Clock> Timeout<Child, Clk> {
    /// Wrap `child` so a run longer than `duration_ms` milliseconds, as
    /// measured by `clock`, is concluded with `Failure`.
    pub fn new(child: Child, clock: Clk, duration_ms: u64) -> (r: Self)
        ensures
            r.model() == (TreeModel::Timeout {
                child: Box::new(child.model()),
                duration: duration_ms as nat,
                started: None,
                now: clock.time_model(),
                clock_modeled: clock.modeled(),
            }),
    {
        Timeout { child, clock, duration_ms, started_at: None }
    }

    /// Recover the wrapped child.
    pub fn into_child(self) -> (r: Child)
        ensures
            r.model() == model_child(self.model()),
    {
        self.child
    }

    /// Replace the time source, keeping the child, the configured duration
    /// and a running timer; a test advances a deterministic clock this way.
    pub fn set_clock(&mut self, clock: Clk)
        ensures
            final (self).model() == (TreeModel::Timeout {
                child: Box::new(model_child(old(self).model())),
                duration: model_duration(old(self).model()),
                started: model_started(old(self).model()),
                now: clock.time_model(),
                clock_modeled: clock.modeled(),
            }),
    {
        self.clock = clock;
    }
}

impl<Ctx, Child: Node<Ctx>, Clk: Clock> Node<Ctx> for Timeout<Child, Clk> {
    fn tick(&mut self, ctx: &mut Ctx) -> (s: Status)
        ensures
            s != Status::Running ==> model_started(final (self).model()) is None,
            s == Status::Running ==> model_started(final (self).model()) is Some,
            model_duration(final (self).model()) == model_duration(old(self).model()),
    {
        match self.started_at {
            Some(st) => {
                // The deadline passed before this call: conclude the run
                // without ticking the child.
                if self.clock.elapsed(st) >= self.duration_ms {
                    self.started_at = None;
                    self.child.reset();
                    return Status::Failure;
                }
            },
            None => {},
        }
        match self.child.tick(ctx) {
            Status::Success => {
                self.started_at = None;
                self.child.reset();
                Status::Success
            },
            Status::Failure => {
                self.started_at = None;
                self.child.reset();
                Status::Failure
            },
            Status::Running => {
                let st = match self.started_at {
                    Some(st) => st,
                    None => {
                        let n = self.clock.now();
                        self.started_at = Some(n);
                        n
                    },
                };
                // The child's own tick may have consumed the whole budget.
                if self.clock.elapsed(st) >= self.duration_ms {
                    self.started_at = None;
                    self.child.reset();
                    Status::Failure
                } else {
                    Status::Running
                }
            },
        }
    }

    fn reset(&mut self) {
        self.started_at = None;
        self.child.reset();
    }
}

/// Decorator that collapses any terminal outcome of its child to
/// `Success`, resetting the child; `Running` passes through unchanged.
pub struct ForceSuccess<Child> {
    child: Child,
}

impl<Child: Modeled> Modeled for ForceSuccess<Child> {
    closed spec fn model(&self) -> TreeModel {
        TreeModel::ForceSuccess { child: Box::new(self.child.model()) }
    }
}

impl<Child: Modeled> ForceSuccess<Child> {
    /// Wrap `child` so every terminal outcome reads as `Success`.
    pub fn new(child: Child) -> (r: Self)
        ensures
            r.model() == (TreeModel::ForceSuccess { child: Box::new(child.model()) }),
    {
        ForceSuccess { child }
    }

    /// Recover the wrapped child.
    pub fn into_child(self) -> (r: Child)
        ensures
            r.model() == model_child(self.model()),
    {
        self.child
    }
}

impl<Ctx, Child: Node<Ctx>> Node<Ctx> for ForceSuccess<Child> {
    fn tick(&mut self, ctx: &mut Ctx) -> (s: Status) {
        match self.child.tick(ctx) {
            Status::Running => Status::Running,
            _ => {
                self.child.reset();
                Status::Success
            },
        }
    }

    fn reset(&mut self) {
        self.child.reset();
    }
}

/// Decorator that collapses any terminal outcome of its child to
/// `Failure`, resetting the child; `Running` passes through unchanged.
pub struct ForceFailure<Child> {
    child: Child,
}

impl<Child: Modeled> Modeled for ForceFailure<Child> {
    closed spec fn model(&self) -> TreeModel {
        TreeModel::ForceFailure { child: Box::new(self.child.model()) }
    }
}

impl<Child: Modeled> ForceFailure<Child> {
    /// Wrap `child` so every terminal outcome reads as `Failure`.
    pub fn new(child: Child) -> (r: Self)
        ensures
            r.model() == (TreeModel::ForceFailure { child: Box::new(child.model()) }),
    {
        ForceFailure { child }
    }

    /// Recover the wrapped child.
    pub fn into_child(self) -> (r: Child)
        ensures
            r.model() == model_child(self.model()),
    {
        self.child
    }
}

impl<Ctx, Child: Node<Ctx>> Node<Ctx> for ForceFailure<Child> {
    fn tick(&mut self, ctx: &mut Ctx) -> (s: Status) {
        match self.child.tick(ctx) {
            Status::Running => Status::Running,
            _ => {
                self.child.reset();
                Status::Failure
            },
        }
    }

    fn reset(&mut self) {
        self.child.reset();
    }
}

} // verus!

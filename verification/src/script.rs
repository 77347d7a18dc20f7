use vstd::prelude::*;

use crate::model::{model_resets, model_ticks, TreeModel};
use crate::node::{Modeled, Node};
use crate::status::Status;

verus! {

/// Deterministic leaf for driving and observing trees: replays a scripted
/// list of statuses (repeating the last entry once the script is
/// exhausted, or failing forever when the script is empty) and counts how
/// often it was ticked and reset.
///
/// Because its whole behavior is modeled, trees built from scripted leaves
/// are `concrete`, and every tick of such a tree is pinned down by the
/// reference interpreter.
pub struct ScriptedLeaf {
    script: Vec<Status>,
    rewind_on_reset: bool,
    cursor: usize,
    ticks: u64,
    resets: u64,
}

impl Modeled for ScriptedLeaf {
    closed spec fn model(&self) -> TreeModel {
        TreeModel::Script {
            script: self.script@,
            rewind: self.rewind_on_reset,
            cursor: self.cursor as nat,
            ticks: self.ticks as nat,
            resets: self.resets as nat,
        }
    }
}

impl ScriptedLeaf {
    /// A leaf that replays `script` and rewinds it when reset.
    pub fn new(script: Vec<Status>) -> (r: Self)
        ensures
            r.model() == (TreeModel::Script {
                script: script@,
                rewind: true,
                cursor: 0,
                ticks: 0,
                resets: 0,
            }),
    {
        ScriptedLeaf { script, rewind_on_reset: true, cursor: 0, ticks: 0, resets: 0 }
    }

    /// A leaf that replays `script`; when `rewind_on_reset` is false a
    /// reset is counted but leaves the script position alone.
    pub fn with_reset_behavior(script: Vec<Status>, rewind_on_reset: bool) -> (r: Self)
        ensures
            r.model() == (TreeModel::Script {
                script: script@,
                rewind: rewind_on_reset,
                cursor: 0,
                ticks: 0,
                resets: 0,
            }),
    {
        ScriptedLeaf { script, rewind_on_reset, cursor: 0, ticks: 0, resets: 0 }
    }

    /// A leaf that reports `status` on every tick.
    pub fn sticky(status: Status) -> (r: Self)
        ensures
            r.model() == (TreeModel::Script {
                script: seq![status],
                rewind: true,
                cursor: 0,
                ticks: 0,
                resets: 0,
            }),
    {
        let mut script: Vec<Status> = Vec::new();
        script.push(status);
        proof {
            assert(script@ =~= seq![status]);
        }
        ScriptedLeaf::new(script)
    }

    /// How often this leaf has been ticked.
    pub fn tick_count(&self) -> (n: u64)
        ensures
            n as nat == model_ticks(self.model()),
    {
        self.ticks
    }

    /// How often this leaf has been reset.
    pub fn reset_count(&self) -> (n: u64)
        ensures
            n as nat == model_resets(self.model()),
    {
        self.resets
    }
}

impl<Ctx> Node<Ctx> for ScriptedLeaf {
    /// One tick reads the script and advances it, leaving the context
    /// untouched.
    fn tick(&mut self, ctx: &mut Ctx) -> (s: Status)
        ensures
            *final (ctx) == *old(ctx),
    {
        let len = self.script.len();
        let s = if self.cursor < len {
            self.script[self.cursor]
        } else {
            Status::Failure
        };
        if self.ticks < u64::MAX {
            self.ticks = self.ticks + 1;
        }
        if len > 0 && self.cursor < len - 1 {
            self.cursor = self.cursor + 1;
        }
        s
    }

    fn reset(&mut self) {
        if self.rewind_on_reset {
            self.cursor = 0;
        }
        if self.resets < u64::MAX {
            self.resets = self.resets + 1;
        }
    }
}

} // verus!

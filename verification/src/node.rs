use vstd::prelude::*;

use crate::model::{concrete, reset_spec, tick_spec, TreeModel};
use crate::status::Status;

verus! {

/// Every tree element carries a ghost model of its persistent state.
///
/// The model is what contracts speak about: a node whose whole subtree is
/// modeled (`concrete`) has its behavior pinned down exactly by the
/// reference interpreter in `model`.
pub trait Modeled: Sized {
    spec fn model(&self) -> TreeModel;
}

/// A behavior-tree element over a host-defined context type `Ctx`.
///
/// `tick` performs one bounded step and reports a `Status`; `reset` returns
/// the node's persistent state to rest. Parents reset every child whose run
/// they conclude, so a tree is re-entered cleanly after a terminal outcome.
pub trait Node<Ctx>: Modeled {
    /// Tick the node once against the context.
    ///
    /// When the node's model is concrete, the new state and the reported
    /// status are exactly those of the reference interpreter, so one proved
    /// contract covers every tick of every scripted tree.
    fn tick(&mut self, ctx: &mut Ctx) -> (s: Status)
        ensures
            concrete(old(self).model()) ==> {
                &&& final (self).model() == tick_spec(old(self).model()).0
                &&& s == tick_spec(old(self).model()).1
            },
    ;

    /// Return the node's persistent state to rest; idempotent in every
    /// observable respect and silent (no status is reported).
    fn reset(&mut self)
        ensures
            final (self).model() == reset_spec(old(self).model()),
    ;
}

} // verus!

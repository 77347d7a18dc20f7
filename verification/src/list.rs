use vstd::prelude::*;

use crate::model::{concrete, reset_spec, tick_spec, TreeModel};
use crate::node::{Modeled, Node};
use crate::status::Status;

verus! {

/// The ghost models of a fixed-arity child list, in child order.
pub trait ModeledList: Sized {
    spec fn models(&self) -> Seq<TreeModel>;
}

/// A fixed-arity, heterogeneous list of children sharing one context type.
///
/// Composites own such a list exclusively and drive it through indexed
/// ticking and ranged or bulk resetting. Tuples of nodes implement it, one
/// impl per arity; an index past the end is a construction bug, excluded by
/// contract rather than absorbed into a `Status`.
pub trait NodeList<Ctx>: ModeledList {
    /// The number of children, fixed at construction.
    fn len(&self) -> (n: usize)
        ensures
            n == self.models().len(),
    ;

    /// Tick the child at `index`, leaving every other child untouched.
    fn tick_at(&mut self, index: usize, ctx: &mut Ctx) -> (s: Status)
        requires
            index < old(self).models().len(),
        ensures
            final (self).models().len() == old(self).models().len(),
            forall|j: int|
                0 <= j < old(self).models().len() && j != index ==> final (self).models()[j]
                    == old(self).models()[j],
            concrete(old(self).models()[index as int]) ==> {
                &&& final (self).models()[index as int] == tick_spec(
                    old(self).models()[index as int],
                ).0
                &&& s == tick_spec(old(self).models()[index as int]).1
            },
    ;

    /// Reset the children at positions `start` and beyond.
    fn reset_range(&mut self, start: usize)
        ensures
            final (self).models().len() == old(self).models().len(),
            forall|j: int|
                0 <= j < start && j < old(self).models().len() ==> final (self).models()[j] == old(
                    self,
                ).models()[j],
            forall|j: int|
                start <= j < old(self).models().len() ==> final (self).models()[j] == reset_spec(
                    old(self).models()[j],
                ),
    ;

    /// Reset every child.
    fn reset_all(&mut self)
        ensures
            final (self).models().len() == old(self).models().len(),
            forall|j: int|
                0 <= j < old(self).models().len() ==> final (self).models()[j] == reset_spec(
                    old(self).models()[j],
                ),
    ;
}

impl<A: Modeled> ModeledList for (A,) {
    open spec fn models(&self) -> Seq<TreeModel> {
        seq![self.0.model()]
    }
}

impl<Ctx, A: Node<Ctx>> NodeList<Ctx> for (A,) {
    fn len(&self) -> (n: usize) {
        1
    }

    fn tick_at(&mut self, index: usize, ctx: &mut Ctx) -> (s: Status) {
        self.0.tick(ctx)
    }

    fn reset_range(&mut self, start: usize) {
        if start == 0 {
            self.0.reset();
        }
    }

    fn reset_all(&mut self) {
        self.0.reset();
    }
}

impl<A: Modeled, B: Modeled> ModeledList for (A, B) {
    open spec fn models(&self) -> Seq<TreeModel> {
        seq![self.0.model(), self.1.model()]
    }
}

impl<Ctx, A: Node<Ctx>, B: Node<Ctx>> NodeList<Ctx> for (A, B) {
    fn len(&self) -> (n: usize) {
        2
    }

    fn tick_at(&mut self, index: usize, ctx: &mut Ctx) -> (s: Status) {
        if index == 0 {
            self.0.tick(ctx)
        } else {
            self.1.tick(ctx)
        }
    }

    fn reset_range(&mut self, start: usize) {
        if start == 0 {
            self.0.reset();
        }
        if start <= 1 {
            self.1.reset();
        }
    }

    fn reset_all(&mut self) {
        self.0.reset();
        self.1.reset();
    }
}

impl<A: Modeled, B: Modeled, C: Modeled> ModeledList for (A, B, C) {
    open spec fn models(&self) -> Seq<TreeModel> {
        seq![self.0.model(), self.1.model(), self.2.model()]
    }
}

impl<Ctx, A: Node<Ctx>, B: Node<Ctx>, C: Node<Ctx>> NodeList<Ctx> for (A, B, C) {
    fn len(&self) -> (n: usize) {
        3
    }

    fn tick_at(&mut self, index: usize, ctx: &mut Ctx) -> (s: Status) {
        if index == 0 {
            self.0.tick(ctx)
        } else if index == 1 {
            self.1.tick(ctx)
        } else {
            self.2.tick(ctx)
        }
    }

    fn reset_range(&mut self, start: usize) {
        if start == 0 {
            self.0.reset();
        }
        if start <= 1 {
            self.1.reset();
        }
        if start <= 2 {
            self.2.reset();
        }
    }

    fn reset_all(&mut self) {
        self.0.reset();
        self.1.reset();
        self.2.reset();
    }
}

impl<A: Modeled, B: Modeled, C: Modeled, D: Modeled> ModeledList for (A, B, C, D) {
    open spec fn models(&self) -> Seq<TreeModel> {
        seq![self.0.model(), self.1.model(), self.2.model(), self.3.model()]
    }
}

impl<Ctx, A: Node<Ctx>, B: Node<Ctx>, C: Node<Ctx>, D: Node<Ctx>> NodeList<Ctx> for (A, B, C, D) {
    fn len(&self) -> (n: usize) {
        4
    }

    fn tick_at(&mut self, index: usize, ctx: &mut Ctx) -> (s: Status) {
        if index == 0 {
            self.0.tick(ctx)
        } else if index == 1 {
            self.1.tick(ctx)
        } else if index == 2 {
            self.2.tick(ctx)
        } else {
            self.3.tick(ctx)
        }
    }

    fn reset_range(&mut self, start: usize) {
        if start == 0 {
            self.0.reset();
        }
        if start <= 1 {
            self.1.reset();
        }
        if start <= 2 {
            self.2.reset();
        }
        if start <= 3 {
            self.3.reset();
        }
    }

    fn reset_all(&mut self) {
        self.0.reset();
        self.1.reset();
        self.2.reset();
        self.3.reset();
    }
}

impl<A: Modeled, B: Modeled, C: Modeled, D: Modeled, E: Modeled> ModeledList for (A, B, C, D, E) {
    open spec fn models(&self) -> Seq<TreeModel> {
        seq![self.0.model(), self.1.model(), self.2.model(), self.3.model(), self.4.model()]
    }
}

impl<Ctx, A: Node<Ctx>, B: Node<Ctx>, C: Node<Ctx>, D: Node<Ctx>, E: Node<Ctx>> NodeList<Ctx> for (A, B, C, D, E) {
    fn len(&self) -> (n: usize) {
        5
    }

    fn tick_at(&mut self, index: usize, ctx: &mut Ctx) -> (s: Status) {
        if index == 0 {
            self.0.tick(ctx)
        } else if index == 1 {
            self.1.tick(ctx)
        } else if index == 2 {
            self.2.tick(ctx)
        } else if index == 3 {
            self.3.tick(ctx)
        } else {
            self.4.tick(ctx)
        }
    }

    fn reset_range(&mut self, start: usize) {
        if start == 0 {
            self.0.reset();
        }
        if start <= 1 {
            self.1.reset();
        }
        if start <= 2 {
            self.2.reset();
        }
        if start <= 3 {
            self.3.reset();
        }
        if start <= 4 {
            self.4.reset();
        }
    }

    fn reset_all(&mut self) {
        self.0.reset();
        self.1.reset();
        self.2.reset();
        self.3.reset();
        self.4.reset();
    }
}

impl<A: Modeled, B: Modeled, C: Modeled, D: Modeled, E: Modeled, F: Modeled> ModeledList for (A, B, C, D, E, F) {
    open spec fn models(&self) -> Seq<TreeModel> {
        seq![self.0.model(), self.1.model(), self.2.model(), self.3.model(), self.4.model(), self.5.model()]
    }
}

impl<Ctx, A: Node<Ctx>, B: Node<Ctx>, C: Node<Ctx>, D: Node<Ctx>, E: Node<Ctx>, F: Node<Ctx>> NodeList<Ctx> for (A, B, C, D, E, F) {
    fn len(&self) -> (n: usize) {
        6
    }

    fn tick_at(&mut self, index: usize, ctx: &mut Ctx) -> (s: Status) {
        if index == 0 {
            self.0.tick(ctx)
        } else if index == 1 {
            self.1.tick(ctx)
        } else if index == 2 {
            self.2.tick(ctx)
        } else if index == 3 {
            self.3.tick(ctx)
        } else if index == 4 {
            self.4.tick(ctx)
        } else {
            self.5.tick(ctx)
        }
    }

    fn reset_range(&mut self, start: usize) {
        if start == 0 {
            self.0.reset();
        }
        if start <= 1 {
            self.1.reset();
        }
        if start <= 2 {
            self.2.reset();
        }
        if start <= 3 {
            self.3.reset();
        }
        if start <= 4 {
            self.4.reset();
        }
        if start <= 5 {
            self.5.reset();
        }
    }

    fn reset_all(&mut self) {
        self.0.reset();
        self.1.reset();
        self.2.reset();
        self.3.reset();
        self.4.reset();
        self.5.reset();
    }
}

impl<
    A: Modeled,
    B: Modeled,
    C: Modeled,
    D: Modeled,
    E: Modeled,
    F: Modeled,
    G: Modeled,
> ModeledList for (A, B, C, D, E, F, G) {
    open spec fn models(&self) -> Seq<TreeModel> {
        seq![
            self.0.model(),
            self.1.model(),
            self.2.model(),
            self.3.model(),
            self.4.model(),
            self.5.model(),
            self.6.model(),
        ]
    }
}

impl<
    Ctx,
    A: Node<Ctx>,
    B: Node<Ctx>,
    C: Node<Ctx>,
    D: Node<Ctx>,
    E: Node<Ctx>,
    F: Node<Ctx>,
    G: Node<Ctx>,
> NodeList<Ctx> for (A, B, C, D, E, F, G) {
    fn len(&self) -> (n: usize) {
        7
    }

    fn tick_at(&mut self, index: usize, ctx: &mut Ctx) -> (s: Status) {
        if index == 0 {
            self.0.tick(ctx)
        } else if index == 1 {
            self.1.tick(ctx)
        } else if index == 2 {
            self.2.tick(ctx)
        } else if index == 3 {
            self.3.tick(ctx)
        } else if index == 4 {
            self.4.tick(ctx)
        } else if index == 5 {
            self.5.tick(ctx)
        } else {
            self.6.tick(ctx)
        }
    }

    fn reset_range(&mut self, start: usize) {
        if start == 0 {
            self.0.reset();
        }
        if start <= 1 {
            self.1.reset();
        }
        if start <= 2 {
            self.2.reset();
        }
        if start <= 3 {
            self.3.reset();
        }
        if start <= 4 {
            self.4.reset();
        }
        if start <= 5 {
            self.5.reset();
        }
        if start <= 6 {
            self.6.reset();
        }
    }

    fn reset_all(&mut self) {
        self.0.reset();
        self.1.reset();
        self.2.reset();
        self.3.reset();
        self.4.reset();
        self.5.reset();
        self.6.reset();
    }
}

impl<
    A: Modeled,
    B: Modeled,
    C: Modeled,
    D: Modeled,
    E: Modeled,
    F: Modeled,
    G: Modeled,
    H: Modeled,
> ModeledList for (A, B, C, D, E, F, G, H) {
    open spec fn models(&self) -> Seq<TreeModel> {
        seq![
            self.0.model(),
            self.1.model(),
            self.2.model(),
            self.3.model(),
            self.4.model(),
            self.5.model(),
            self.6.model(),
            self.7.model(),
        ]
    }
}

impl<
    Ctx,
    A: Node<Ctx>,
    B: Node<Ctx>,
    C: Node<Ctx>,
    D: Node<Ctx>,
    E: Node<Ctx>,
    F: Node<Ctx>,
    G: Node<Ctx>,
    H: Node<Ctx>,
> NodeList<Ctx> for (A, B, C, D, E, F, G, H) {
    fn len(&self) -> (n: usize) {
        8
    }

    fn tick_at(&mut self, index: usize, ctx: &mut Ctx) -> (s: Status) {
        if index == 0 {
            self.0.tick(ctx)
        } else if index == 1 {
            self.1.tick(ctx)
        } else if index == 2 {
            self.2.tick(ctx)
        } else if index == 3 {
            self.3.tick(ctx)
        } else if index == 4 {
            self.4.tick(ctx)
        } else if index == 5 {
            self.5.tick(ctx)
        } else if index == 6 {
            self.6.tick(ctx)
        } else {
            self.7.tick(ctx)
        }
    }

    fn reset_range(&mut self, start: usize) {
        if start == 0 {
            self.0.reset();
        }
        if start <= 1 {
            self.1.reset();
        }
        if start <= 2 {
            self.2.reset();
        }
        if start <= 3 {
            self.3.reset();
        }
        if start <= 4 {
            self.4.reset();
        }
        if start <= 5 {
            self.5.reset();
        }
        if start <= 6 {
            self.6.reset();
        }
        if start <= 7 {
            self.7.reset();
        }
    }

    fn reset_all(&mut self) {
        self.0.reset();
        self.1.reset();
        self.2.reset();
        self.3.reset();
        self.4.reset();
        self.5.reset();
        self.6.reset();
        self.7.reset();
    }
}

impl<
    A: Modeled,
    B: Modeled,
    C: Modeled,
    D: Modeled,
    E: Modeled,
    F: Modeled,
    G: Modeled,
    H: Modeled,
    I: Modeled,
> ModeledList for (A, B, C, D, E, F, G, H, I) {
    open spec fn models(&self) -> Seq<TreeModel> {
        seq![
            self.0.model(),
            self.1.model(),
            self.2.model(),
            self.3.model(),
            self.4.model(),
            self.5.model(),
            self.6.model(),
            self.7.model(),
            self.8.model(),
        ]
    }
}

impl<
    Ctx,
    A: Node<Ctx>,
    B: Node<Ctx>,
    C: Node<Ctx>,
    D: Node<Ctx>,
    E: Node<Ctx>,
    F: Node<Ctx>,
    G: Node<Ctx>,
    H: Node<Ctx>,
    I: Node<Ctx>,
> NodeList<Ctx> for (A, B, C, D, E, F, G, H, I) {
    fn len(&self) -> (n: usize) {
        9
    }

    fn tick_at(&mut self, index: usize, ctx: &mut Ctx) -> (s: Status) {
        if index == 0 {
            self.0.tick(ctx)
        } else if index == 1 {
            self.1.tick(ctx)
        } else if index == 2 {
            self.2.tick(ctx)
        } else if index == 3 {
            self.3.tick(ctx)
        } else if index == 4 {
            self.4.tick(ctx)
        } else if index == 5 {
            self.5.tick(ctx)
        } else if index == 6 {
            self.6.tick(ctx)
        } else if index == 7 {
            self.7.tick(ctx)
        } else {
            self.8.tick(ctx)
        }
    }

    fn reset_range(&mut self, start: usize) {
        if start == 0 {
            self.0.reset();
        }
        if start <= 1 {
            self.1.reset();
        }
        if start <= 2 {
            self.2.reset();
        }
        if start <= 3 {
            self.3.reset();
        }
        if start <= 4 {
            self.4.reset();
        }
        if start <= 5 {
            self.5.reset();
        }
        if start <= 6 {
            self.6.reset();
        }
        if start <= 7 {
            self.7.reset();
        }
        if start <= 8 {
            self.8.reset();
        }
    }

    fn reset_all(&mut self) {
        self.0.reset();
        self.1.reset();
        self.2.reset();
        self.3.reset();
        self.4.reset();
        self.5.reset();
        self.6.reset();
        self.7.reset();
        self.8.reset();
    }
}

impl<
    A: Modeled,
    B: Modeled,
    C: Modeled,
    D: Modeled,
    E: Modeled,
    F: Modeled,
    G: Modeled,
    H: Modeled,
    I: Modeled,
    J: Modeled,
> ModeledList for (A, B, C, D, E, F, G, H, I, J) {
    open spec fn models(&self) -> Seq<TreeModel> {
        seq![
            self.0.model(),
            self.1.model(),
            self.2.model(),
            self.3.model(),
            self.4.model(),
            self.5.model(),
            self.6.model(),
            self.7.model(),
            self.8.model(),
            self.9.model(),
        ]
    }
}

impl<
    Ctx,
    A: Node<Ctx>,
    B: Node<Ctx>,
    C: Node<Ctx>,
    D: Node<Ctx>,
    E: Node<Ctx>,
    F: Node<Ctx>,
    G: Node<Ctx>,
    H: Node<Ctx>,
    I: Node<Ctx>,
    J: Node<Ctx>,
> NodeList<Ctx> for (A, B, C, D, E, F, G, H, I, J) {
    fn len(&self) -> (n: usize) {
        10
    }

    fn tick_at(&mut self, index: usize, ctx: &mut Ctx) -> (s: Status) {
        if index == 0 {
            self.0.tick(ctx)
        } else if index == 1 {
            self.1.tick(ctx)
        } else if index == 2 {
            self.2.tick(ctx)
        } else if index == 3 {
            self.3.tick(ctx)
        } else if index == 4 {
            self.4.tick(ctx)
        } else if index == 5 {
            self.5.tick(ctx)
        } else if index == 6 {
            self.6.tick(ctx)
        } else if index == 7 {
            self.7.tick(ctx)
        } else if index == 8 {
            self.8.tick(ctx)
        } else {
            self.9.tick(ctx)
        }
    }

    fn reset_range(&mut self, start: usize) {
        if start == 0 {
            self.0.reset();
        }
        if start <= 1 {
            self.1.reset();
        }
        if start <= 2 {
            self.2.reset();
        }
        if start <= 3 {
            self.3.reset();
        }
        if start <= 4 {
            self.4.reset();
        }
        if start <= 5 {
            self.5.reset();
        }
        if start <= 6 {
            self.6.reset();
        }
        if start <= 7 {
            self.7.reset();
        }
        if start <= 8 {
            self.8.reset();
        }
        if start <= 9 {
            self.9.reset();
        }
    }

    fn reset_all(&mut self) {
        self.0.reset();
        self.1.reset();
        self.2.reset();
        self.3.reset();
        self.4.reset();
        self.5.reset();
        self.6.reset();
        self.7.reset();
        self.8.reset();
        self.9.reset();
    }
}

impl<
    A: Modeled,
    B: Modeled,
    C: Modeled,
    D: Modeled,
    E: Modeled,
    F: Modeled,
    G: Modeled,
    H: Modeled,
    I: Modeled,
    J: Modeled,
    K: Modeled,
> ModeledList for (A, B, C, D, E, F, G, H, I, J, K) {
    open spec fn models(&self) -> Seq<TreeModel> {
        seq![
            self.0.model(),
            self.1.model(),
            self.2.model(),
            self.3.model(),
            self.4.model(),
            self.5.model(),
            self.6.model(),
            self.7.model(),
            self.8.model(),
            self.9.model(),
            self.10.model(),
        ]
    }
}

impl<
    Ctx,
    A: Node<Ctx>,
    B: Node<Ctx>,
    C: Node<Ctx>,
    D: Node<Ctx>,
    E: Node<Ctx>,
    F: Node<Ctx>,
    G: Node<Ctx>,
    H: Node<Ctx>,
    I: Node<Ctx>,
    J: Node<Ctx>,
    K: Node<Ctx>,
> NodeList<Ctx> for (A, B, C, D, E, F, G, H, I, J, K) {
    fn len(&self) -> (n: usize) {
        11
    }

    fn tick_at(&mut self, index: usize, ctx: &mut Ctx) -> (s: Status) {
        if index == 0 {
            self.0.tick(ctx)
        } else if index == 1 {
            self.1.tick(ctx)
        } else if index == 2 {
            self.2.tick(ctx)
        } else if index == 3 {
            self.3.tick(ctx)
        } else if index == 4 {
            self.4.tick(ctx)
        } else if index == 5 {
            self.5.tick(ctx)
        } else if index == 6 {
            self.6.tick(ctx)
        } else if index == 7 {
            self.7.tick(ctx)
        } else if index == 8 {
            self.8.tick(ctx)
        } else if index == 9 {
            self.9.tick(ctx)
        } else {
            self.10.tick(ctx)
        }
    }

    fn reset_range(&mut self, start: usize) {
        if start == 0 {
            self.0.reset();
        }
        if start <= 1 {
            self.1.reset();
        }
        if start <= 2 {
            self.2.reset();
        }
        if start <= 3 {
            self.3.reset();
        }
        if start <= 4 {
            self.4.reset();
        }
        if start <= 5 {
            self.5.reset();
        }
        if start <= 6 {
            self.6.reset();
        }
        if start <= 7 {
            self.7.reset();
        }
        if start <= 8 {
            self.8.reset();
        }
        if start <= 9 {
            self.9.reset();
        }
        if start <= 10 {
            self.10.reset();
        }
    }

    fn reset_all(&mut self) {
        self.0.reset();
        self.1.reset();
        self.2.reset();
        self.3.reset();
        self.4.reset();
        self.5.reset();
        self.6.reset();
        self.7.reset();
        self.8.reset();
        self.9.reset();
        self.10.reset();
    }
}

impl<
    A: Modeled,
    B: Modeled,
    C: Modeled,
    D: Modeled,
    E: Modeled,
    F: Modeled,
    G: Modeled,
    H: Modeled,
    I: Modeled,
    J: Modeled,
    K: Modeled,
    L: Modeled,
> ModeledList for (A, B, C, D, E, F, G, H, I, J, K, L) {
    open spec fn models(&self) -> Seq<TreeModel> {
        seq![
            self.0.model(),
            self.1.model(),
            self.2.model(),
            self.3.model(),
            self.4.model(),
            self.5.model(),
            self.6.model(),
            self.7.model(),
            self.8.model(),
            self.9.model(),
            self.10.model(),
            self.11.model(),
        ]
    }
}

impl<
    Ctx,
    A: Node<Ctx>,
    B: Node<Ctx>,
    C: Node<Ctx>,
    D: Node<Ctx>,
    E: Node<Ctx>,
    F: Node<Ctx>,
    G: Node<Ctx>,
    H: Node<Ctx>,
    I: Node<Ctx>,
    J: Node<Ctx>,
    K: Node<Ctx>,
    L: Node<Ctx>,
> NodeList<Ctx> for (A, B, C, D, E, F, G, H, I, J, K, L) {
    fn len(&self) -> (n: usize) {
        12
    }

    fn tick_at(&mut self, index: usize, ctx: &mut Ctx) -> (s: Status) {
        if index == 0 {
            self.0.tick(ctx)
        } else if index == 1 {
            self.1.tick(ctx)
        } else if index == 2 {
            self.2.tick(ctx)
        } else if index == 3 {
            self.3.tick(ctx)
        } else if index == 4 {
            self.4.tick(ctx)
        } else if index == 5 {
            self.5.tick(ctx)
        } else if index == 6 {
            self.6.tick(ctx)
        } else if index == 7 {
            self.7.tick(ctx)
        } else if index == 8 {
            self.8.tick(ctx)
        } else if index == 9 {
            self.9.tick(ctx)
        } else if index == 10 {
            self.10.tick(ctx)
        } else {
            self.11.tick(ctx)
        }
    }

    fn reset_range(&mut self, start: usize) {
        if start == 0 {
            self.0.reset();
        }
        if start <= 1 {
            self.1.reset();
        }
        if start <= 2 {
            self.2.reset();
        }
        if start <= 3 {
            self.3.reset();
        }
        if start <= 4 {
            self.4.reset();
        }
        if start <= 5 {
            self.5.reset();
        }
        if start <= 6 {
            self.6.reset();
        }
        if start <= 7 {
            self.7.reset();
        }
        if start <= 8 {
            self.8.reset();
        }
        if start <= 9 {
            self.9.reset();
        }
        if start <= 10 {
            self.10.reset();
        }
        if start <= 11 {
            self.11.reset();
        }
    }

    fn reset_all(&mut self) {
        self.0.reset();
        self.1.reset();
        self.2.reset();
        self.3.reset();
        self.4.reset();
        self.5.reset();
        self.6.reset();
        self.7.reset();
        self.8.reset();
        self.9.reset();
        self.10.reset();
        self.11.reset();
    }
}

impl<T: Modeled, const N: usize> ModeledList for [T; N] {
    open spec fn models(&self) -> Seq<TreeModel> {
        Seq::new(N as nat, |j: int| self@[j].model())
    }
}

impl<Ctx, T: Node<Ctx>, const N: usize> NodeList<Ctx> for [T; N] {
    fn len(&self) -> (n: usize) {
        N
    }

    fn tick_at(&mut self, index: usize, ctx: &mut Ctx) -> (s: Status) {
        self[index].tick(ctx)
    }

    fn reset_range(&mut self, start: usize) {
        let mut i = start;
        while i < N
            invariant
                start <= i,
                self.models().len() == N,
                forall|j: int|
                    0 <= j < N && !(start <= j < i as int) ==> self.models()[j]
                        == old(self).models()[j],
                forall|j: int|
                    start <= j < i as int && j < N ==> self.models()[j] == reset_spec(
                        old(self).models()[j],
                    ),
            decreases N - i,
        {
            let ghost pre = self@;
            let ghost pre_models = self.models();
            self[i].reset();
            proof {
                assert forall|j: int|
                    start <= j < i as int + 1 && j < N implies self.models()[j] == reset_spec(
                    old(self).models()[j],
                ) by {
                    if j == i as int {
                        assert(self@[j].model() == reset_spec(pre[j].model()));
                    } else {
                        assert(self@[j] == pre[j]);
                        assert(pre_models[j] == reset_spec(old(self).models()[j]));
                    }
                }
                assert forall|j: int|
                    0 <= j < N && !(start <= j < i as int + 1) implies self.models()[j] == old(
                    self,
                ).models()[j] by {
                    assert(self@[j] == pre[j]);
                    assert(pre_models[j] == old(self).models()[j]);
                }
            }
            i = i + 1;
        }
    }

    fn reset_all(&mut self) {
        let mut i: usize = 0;
        while i < N
            invariant
                self.models().len() == N,
                forall|j: int|
                    i as int <= j < N ==> self.models()[j] == old(self).models()[j],
                forall|j: int|
                    0 <= j < i as int ==> self.models()[j] == reset_spec(old(self).models()[j]),
            decreases N - i,
        {
            let ghost pre = self@;
            let ghost pre_models = self.models();
            self[i].reset();
            proof {
                assert forall|j: int|
                    0 <= j < i as int + 1 && j < N implies self.models()[j] == reset_spec(
                    old(self).models()[j],
                ) by {
                    if j == i as int {
                        assert(self@[j].model() == reset_spec(pre[j].model()));
                    } else {
                        assert(self@[j] == pre[j]);
                        assert(pre_models[j] == reset_spec(old(self).models()[j]));
                    }
                }
                assert forall|j: int|
                    i as int + 1 <= j < N implies self.models()[j] == old(self).models()[j] by {
                    assert(self@[j] == pre[j]);
                    assert(pre_models[j] == old(self).models()[j]);
                }
            }
            i = i + 1;
        }
    }
}

} // verus!

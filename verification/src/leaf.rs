use core::marker::PhantomData;

use vstd::prelude::*;

use crate::model::TreeModel;
use crate::node::{Modeled, Node};
use crate::status::Status;

verus! {

/// Leaf that wraps a host-supplied operation with mutable context access.
///
/// The callback must be callable on every context value; that is demanded
/// at construction and carried by the type, since a parent may tick a leaf
/// whenever it likes.
pub struct Action<Ctx, F: Fn(&mut Ctx) -> Status> {
    f: F,
    _ctx: PhantomData<Ctx>,
}

impl<Ctx, F: Fn(&mut Ctx) -> Status> Action<Ctx, F> {
    #[verifier::type_invariant]
    closed spec fn callback_total(self) -> bool {
        forall|c: &mut Ctx| call_requires(self.f, (c,))
    }

    /// The wrapped operation, for contracts that relate a tick's outcome
    /// to the host callback.
    pub closed spec fn callback_spec(&self) -> F {
        self.f
    }

    /// Wrap a host operation as a leaf node.
    pub fn new(f: F) -> (r: Self)
        requires
            forall|c: &mut Ctx| call_requires(f, (c,)),
        ensures
            r.model() == TreeModel::Opaque,
            r.callback_spec() == f,
    {
        Action { f, _ctx: PhantomData }
    }

    /// Recover the wrapped operation.
    pub fn into_inner(self) -> (r: F)
        ensures
            r == self.callback_spec(),
    {
        let Action { f, _ctx } = self;
        f
    }
}

impl<Ctx, F: Fn(&mut Ctx) -> Status> Modeled for Action<Ctx, F> {
    closed spec fn model(&self) -> TreeModel {
        TreeModel::Opaque
    }
}

impl<Ctx, F: Fn(&mut Ctx) -> Status> Node<Ctx> for Action<Ctx, F> {
    /// One tick invokes the callback once, handing it the caller's own
    /// context, and reports exactly the status the callback produced.
    fn tick(&mut self, ctx: &mut Ctx) -> (s: Status)
        ensures
            final (self).callback_spec() == old(self).callback_spec(),
            exists|c: &mut Ctx| #[trigger] call_ensures(old(self).callback_spec(), (c,), s),
    {
        proof {
            use_type_invariant(&*self);
        }
        let g: &F = &self.f;
        let s = g(&mut *ctx);
        proof {
            assert(exists|c: &mut Ctx| #[trigger] call_ensures(self.f, (c,), s));
            assert(old(self).callback_spec() == self.f);
        }
        s
    }

    fn reset(&mut self) {
    }
}

/// Leaf that evaluates a read-only predicate over the context and maps
/// `true` to `Success` and `false` to `Failure`; it never reports `Running`
/// and keeps no state.
pub struct Condition<Ctx, F: Fn(&Ctx) -> bool> {
    predicate: F,
    _ctx: PhantomData<Ctx>,
}

impl<Ctx, F: Fn(&Ctx) -> bool> Condition<Ctx, F> {
    #[verifier::type_invariant]
    closed spec fn predicate_total(self) -> bool {
        forall|c: &Ctx| call_requires(self.predicate, (c,))
    }

    /// The wrapped predicate, for contracts that relate a tick's outcome
    /// to the host predicate.
    pub closed spec fn predicate_spec(&self) -> F {
        self.predicate
    }

    /// Wrap a host predicate as a leaf node.
    pub fn new(predicate: F) -> (r: Self)
        requires
            forall|c: &Ctx| call_requires(predicate, (c,)),
        ensures
            r.model() == TreeModel::Opaque,
            r.predicate_spec() == predicate,
    {
        Condition { predicate, _ctx: PhantomData }
    }

    /// Recover the wrapped predicate.
    pub fn into_inner(self) -> (r: F)
        ensures
            r == self.predicate_spec(),
    {
        let Condition { predicate, _ctx } = self;
        predicate
    }
}

impl<Ctx, F: Fn(&Ctx) -> bool> Modeled for Condition<Ctx, F> {
    closed spec fn model(&self) -> TreeModel {
        TreeModel::Opaque
    }
}

impl<Ctx, F: Fn(&Ctx) -> bool> Node<Ctx> for Condition<Ctx, F> {
    /// One tick evaluates the predicate once on the caller's context,
    /// which it leaves untouched, and maps its verdict to `Success` or
    /// `Failure` — never `Running`.
    fn tick(&mut self, ctx: &mut Ctx) -> (s: Status)
        ensures
            s != Status::Running,
            *final (ctx) == *old(ctx),
            final (self).predicate_spec() == old(self).predicate_spec(),
            exists|r: &Ctx, b: bool|
                *r == *old(ctx) && #[trigger] call_ensures(old(self).predicate_spec(), (r,), b)
                    && s == (if b {
                    Status::Success
                } else {
                    Status::Failure
                }),
    {
        proof {
            use_type_invariant(&*self);
        }
        let r: &Ctx = &*ctx;
        let b = (self.predicate)(r);
        proof {
            assert(*r == *old(ctx));
            assert(call_ensures(old(self).predicate_spec(), (r,), b));
        }
        if b {
            Status::Success
        } else {
            Status::Failure
        }
    }

    fn reset(&mut self) {
    }
}

/// Leaf that always reports the same fixed status, ignoring the context.
pub struct Constant {
    status: Status,
}

impl Constant {
    /// A leaf that reports `status` on every tick.
    pub fn new(status: Status) -> (r: Self)
        ensures
            r.model() == (TreeModel::Fixed { status }),
    {
        Constant { status }
    }
}

impl Modeled for Constant {
    closed spec fn model(&self) -> TreeModel {
        TreeModel::Fixed { status: self.status }
    }
}

impl<Ctx> Node<Ctx> for Constant {
    /// One tick reports the fixed status and leaves the context untouched.
    fn tick(&mut self, ctx: &mut Ctx) -> (s: Status)
        ensures
            *final (ctx) == *old(ctx),
    {
        self.status
    }

    fn reset(&mut self) {
    }
}

} // verus!

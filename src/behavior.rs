//! Stages that run with a shared context, and their composition.
use core::marker::PhantomData;
use vstd::prelude::*;

use crate::callable::{Callable, Panic, Through};
use crate::result::{Error, Result};

verus! {

/// A stage that runs on an input and a shared, read-only context.
/// `apply` runs the stage and keeps its outcome; `result` hands it out.
pub trait Behavior: Sized {
    type In;
    type Out;
    type Ctx;

    /// The outcomes that running the stage on `input` under `ctx` may have;
    /// a stage that states none may have any.
    open spec fn produces(input: Self::In, ctx: Self::Ctx, r: Result<Self::Out>) -> bool {
        true
    }

    /// The outcome this instance holds.
    spec fn outcome(&self) -> Result<Self::Out>;

    fn apply(input: Self::In, ctx: &Self::Ctx) -> (s: Self)
        ensures
            Self::produces(input, *ctx, s.outcome()),
    ;

    fn result(self) -> (r: Result<Self::Out>)
        ensures
            r == self.outcome(),
    ;
}

/// The definition of a stage: what it does with its input and the context.
pub trait BehaveDef {
    type In;
    type Out;
    type Ctx;

    /// The outcomes that `def` may have; a definition that states none may
    /// have any.
    open spec fn produces(input: Self::In, ctx: Self::Ctx, r: Result<Self::Out>) -> bool {
        true
    }

    fn def(input: Self::In, ctx: &Self::Ctx) -> (r: Result<Self::Out>)
        ensures
            Self::produces(input, *ctx, r),
    ;
}

/// The stage that runs a `BehaveDef`.
pub struct Behave<D: BehaveDef> {
    result: Result<D::Out>,
}

impl<D: BehaveDef> Behavior for Behave<D> {
    type In = D::In;
    type Out = D::Out;
    type Ctx = D::Ctx;

    open spec fn produces(input: D::In, ctx: D::Ctx, r: Result<D::Out>) -> bool {
        D::produces(input, ctx, r)
    }

    closed spec fn outcome(&self) -> Result<D::Out> {
        self.result
    }

    fn apply(input: D::In, ctx: &D::Ctx) -> (s: Self) {
        Behave { result: D::def(input, ctx) }
    }

    fn result(self) -> (r: Result<D::Out>) {
        match self.result {
            Ok(v) => Ok(v),
            Err(e) => Err(e),
        }
    }
}

/// The outcomes of running `G` and then, on its success, `F`: a failure of
/// `G` is the outcome unchanged.
pub open spec fn sequenced<F: Behavior, G: Behavior<Out = F::In, Ctx = F::Ctx>>(
    input: G::In,
    ctx: F::Ctx,
    r: Result<F::Out>,
) -> bool {
    exists|m: Result<G::Out>|
        #![trigger G::produces(input, ctx, m)]
        G::produces(input, ctx, m) && match m {
            Ok(v) => F::produces(v, ctx, r),
            Err(e) => r == Err::<F::Out, Error>(e),
        }
}

/// Sequential composition: `G` (the inner stage) runs first, and `F` (the
/// outer stage) runs on its output only if `G` succeeded.
pub struct Composit<F: Behavior, G: Behavior<Out = F::In, Ctx = F::Ctx>> {
    result: core::result::Result<F, Error>,
    p: PhantomData<G>,
    inner: Ghost<Result<G::Out>>,
}

impl<F: Behavior, G: Behavior<Out = F::In, Ctx = F::Ctx>> Composit<F, G> {
    /// The outcome the inner stage `G` had.
    pub closed spec fn inner_outcome(&self) -> Result<G::Out> {
        self.inner@
    }

    /// Whether the outer stage `F` was run.
    pub closed spec fn outer_invoked(&self) -> bool {
        self.result is Ok
    }

    /// Runs the composite, and says how its stages ran: `G` ran on `input`,
    /// `F` ran exactly when `G` succeeded, and a failure of `G` is the
    /// composite's outcome unchanged.
    pub fn run(input: G::In, ctx: &F::Ctx) -> (s: Self)
        ensures
            Self::produces(input, *ctx, s.outcome()),
            G::produces(input, *ctx, s.inner_outcome()),
            s.outer_invoked() <==> s.inner_outcome() is Ok,
            s.inner_outcome() is Err ==> s.outcome() == Err::<F::Out, Error>(
                s.inner_outcome()->Err_0,
            ),
            s.inner_outcome() is Ok ==> F::produces(
                s.inner_outcome()->Ok_0,
                *ctx,
                s.outcome(),
            ),
    {
        let g = G::apply(input, ctx);
        let ghost m = g.outcome();
        let result = match g.result() {
            Ok(r) => Ok(F::apply(r, ctx)),
            Err(e) => Err(e),
        };
        Composit { result, p: PhantomData, inner: Ghost(m) }
    }
}

impl<F: Behavior, G: Behavior<Out = F::In, Ctx = F::Ctx>> Behavior for Composit<F, G> {
    type In = G::In;
    type Out = F::Out;
    type Ctx = F::Ctx;

    open spec fn produces(input: G::In, ctx: F::Ctx, r: Result<F::Out>) -> bool {
        sequenced::<F, G>(input, ctx, r)
    }

    closed spec fn outcome(&self) -> Result<F::Out> {
        match self.result {
            Ok(f) => f.outcome(),
            Err(e) => Err(e),
        }
    }

    fn apply(input: G::In, ctx: &F::Ctx) -> (s: Self) {
        Self::run(input, ctx)
    }

    fn result(self) -> (r: Result<F::Out>) {
        match self.result {
            Ok(f) => f.result(),
            Err(e) => Err(e),
        }
    }
}

/// The definition of a stage that acts on or checks its input without
/// consuming it.
pub trait Effector {
    type In;
    type Out;
    type Ctx;

    /// The outcomes that `def` may have; a definition that states none may
    /// have any.
    open spec fn produces(input: Self::In, ctx: Self::Ctx, r: Result<Self::Out>) -> bool {
        true
    }

    fn def(input: &Self::In, ctx: &Self::Ctx) -> (r: Result<Self::Out>)
        ensures
            Self::produces(*input, *ctx, r),
    ;
}

/// The outcome of an effect stage whose check had outcome `o`: the input
/// itself on success, the check's error otherwise.
pub open spec fn effect_outcome<T, O>(input: T, o: Result<O>) -> Result<T> {
    match o {
        Ok(_) => Ok(input),
        Err(e) => Err(e),
    }
}

/// The stage that runs an `Effector` and, when it succeeds, hands back the
/// input it was given; the effector's own value is dropped.
pub struct Effect<D: Effector> {
    input: D::In,
    result: Result<D::Out>,
}

impl<D: Effector> Effect<D> {
    /// Runs the effect; a success is exactly the input.
    pub fn run(input: D::In, ctx: &D::Ctx) -> (s: Self)
        ensures
            Self::produces(input, *ctx, s.outcome()),
            s.outcome() is Ok ==> s.outcome() == Ok::<D::In, Error>(input),
    {
        let result = D::def(&input, ctx);
        Effect { input, result }
    }
}

impl<D: Effector> Behavior for Effect<D> {
    type In = D::In;
    type Out = D::In;
    type Ctx = D::Ctx;

    open spec fn produces(input: D::In, ctx: D::Ctx, r: Result<D::In>) -> bool {
        exists|o: Result<D::Out>|
            #![trigger D::produces(input, ctx, o)]
            D::produces(input, ctx, o) && r == effect_outcome(input, o)
    }

    closed spec fn outcome(&self) -> Result<D::In> {
        effect_outcome(self.input, self.result)
    }

    fn apply(input: D::In, ctx: &D::Ctx) -> (s: Self) {
        Self::run(input, ctx)
    }

    fn result(self) -> (r: Result<D::In>) {
        match self.result {
            Ok(_) => Ok(self.input),
            Err(err) => Err(err),
        }
    }
}

/// The effector that succeeds with a clone of its input.
pub struct CloneEffector<T: Clone, Ctx> {
    p: PhantomData<(T, Ctx)>,
}

impl<T: Clone, Ctx> Effector for CloneEffector<T, Ctx> {
    type In = T;
    type Out = T;
    type Ctx = Ctx;

    open spec fn produces(input: T, ctx: Ctx, r: Result<T>) -> bool {
        r is Ok && cloned(input, r->Ok_0)
    }

    fn def(input: &T, ctx: &Ctx) -> (r: Result<T>) {
        Ok(input.clone())
    }
}

/// The effector that runs `E` and then, on its success, the stage `F` on
/// `E`'s value.
pub struct EffectorComposit<F: Behavior<In = E::Out, Ctx = E::Ctx>, E: Effector> {
    p: PhantomData<(F, E)>,
}

impl<F: Behavior<In = E::Out, Ctx = E::Ctx>, E: Effector> Effector for EffectorComposit<F, E> {
    type In = E::In;
    type Out = F::Out;
    type Ctx = E::Ctx;

    open spec fn produces(input: E::In, ctx: E::Ctx, r: Result<F::Out>) -> bool {
        exists|m: Result<E::Out>|
            #![trigger E::produces(input, ctx, m)]
            E::produces(input, ctx, m) && match m {
                Ok(v) => F::produces(v, ctx, r),
                Err(e) => r == Err::<F::Out, Error>(e),
            }
    }

    fn def(input: &E::In, ctx: &E::Ctx) -> (r: Result<F::Out>) {
        let m = E::def(input, ctx);
        match m {
            Ok(i) => F::apply(i, ctx).result(),
            Err(e) => Err(e),
        }
    }
}

/// A function on types: `Result` is what it yields.
pub trait Functor {
    type Result;
}

/// Yields the effector that runs `F` on a clone of the input.
#[verifier::reject_recursive_types(T)]
pub struct CompositWithCloneFn<T: Clone, F: Behavior<In = T>> {
    p: PhantomData<(T, F)>,
}

impl<T: Clone, F: Behavior<In = T>> Functor for CompositWithCloneFn<T, F> {
    type Result = EffectorComposit<F, CloneEffector<T, F::Ctx>>;
}

pub type CompositWithClone<T, F> = <CompositWithCloneFn<T, F> as Functor>::Result;

/// Lifts a synchronous stage into one that takes a context and ignores it.
pub struct Lift<F: Callable, Ctx> {
    f: F,
    p: PhantomData<Ctx>,
}

impl<F: Callable, Ctx> Behavior for Lift<F, Ctx> {
    type In = F::In;
    type Out = F::Out;
    type Ctx = Ctx;

    open spec fn produces(input: F::In, ctx: Ctx, r: Result<F::Out>) -> bool {
        F::produces(input, r)
    }

    closed spec fn outcome(&self) -> Result<F::Out> {
        self.f.outcome()
    }

    fn apply(i: F::In, ctx: &Ctx) -> (s: Self) {
        Lift { f: F::apply(i), p: PhantomData }
    }

    fn result(self) -> (r: Result<F::Out>) {
        self.f.result()
    }
}

/// The stage that hands its input back unchanged.
pub type NoBehave<T, Ctx> = Lift<Through<T>, Ctx>;

/// The stage of an operation that is deliberately not implemented.
pub type PanicBehave<In, Out, Ctx> = Lift<Panic<In, Out>, Ctx>;

} // verus!

//! Synchronous stages: a unit of work that takes an input and yields a result.
use core::marker::PhantomData;
use vstd::prelude::*;

use crate::result::{raise, Error, FcompError, Result};

verus! {

/// A synchronous stage. `apply` runs it on an input and keeps the outcome;
/// `result` hands that outcome out, consuming the stage.
pub trait Callable: Sized {
    type In;
    type Out;

    /// The outcomes that running the stage on `input` may have; a stage
    /// that states none may have any.
    open spec fn produces(input: Self::In, r: Result<Self::Out>) -> bool {
        true
    }

    /// The outcome this instance holds.
    spec fn outcome(&self) -> Result<Self::Out>;

    fn apply(input: Self::In) -> (s: Self)
        ensures
            Self::produces(input, s.outcome()),
    ;

    fn result(self) -> (r: Result<Self::Out>)
        ensures
            r == self.outcome(),
    ;
}

/// The definition of a stage that consumes its input.
pub trait Def {
    type In;
    type Out;

    /// The outcomes that `def` may have; a definition that states none may
    /// have any.
    open spec fn produces(input: Self::In, r: Result<Self::Out>) -> bool {
        true
    }

    fn def(input: Self::In) -> (r: Result<Self::Out>)
        ensures
            Self::produces(input, r),
    ;
}

/// The definition of a stage that only reads its input.
pub trait RefDef {
    type In;
    type Out;

    /// The outcomes that `def` may have; a definition that states none may
    /// have any.
    open spec fn produces(input: Self::In, r: Result<Self::Out>) -> bool {
        true
    }

    fn def(input: &Self::In) -> (r: Result<Self::Out>)
        ensures
            Self::produces(*input, r),
    ;
}

/// The stage that runs a `Def`.
pub struct Call<D: Def> {
    result: Result<D::Out>,
}

impl<D: Def> Callable for Call<D> {
    type In = D::In;
    type Out = D::Out;

    open spec fn produces(input: D::In, r: Result<D::Out>) -> bool {
        D::produces(input, r)
    }

    closed spec fn outcome(&self) -> Result<D::Out> {
        self.result
    }

    fn apply(input: D::In) -> (s: Self) {
        Call { result: D::def(input) }
    }

    fn result(self) -> (r: Result<D::Out>) {
        self.result
    }
}

/// The stage that runs a `RefDef`, keeping its input alive beside the result.
pub struct RefCall<D: RefDef> {
    result: Result<D::Out>,
    input: D::In,
}

impl<D: RefDef> Callable for RefCall<D> {
    type In = D::In;
    type Out = D::Out;

    open spec fn produces(input: D::In, r: Result<D::Out>) -> bool {
        D::produces(input, r)
    }

    closed spec fn outcome(&self) -> Result<D::Out> {
        self.result
    }

    fn apply(input: D::In) -> (s: Self) {
        let result = D::def(&input);
        RefCall { result, input }
    }

    fn result(self) -> (r: Result<D::Out>) {
        self.result
    }
}

/// The definition of an operation that is deliberately not implemented:
/// it always fails with `Error::Unimplemented`, which no domain failure uses.
pub struct PanicDef<In, Out> {
    p: PhantomData<(In, Out)>,
}

impl<In, Out> Def for PanicDef<In, Out> {
    type In = In;
    type Out = Out;

    open spec fn produces(input: In, r: Result<Out>) -> bool {
        r == Err::<Out, Error>(Error::Unimplemented)
    }

    fn def(input: In) -> (r: Result<Out>) {
        Err(Error::Unimplemented)
    }
}

pub type Panic<In, Out> = Call<PanicDef<In, Out>>;

/// Sequential composition of two synchronous stages: `G` runs first, and
/// `F` runs on its output only if `G` succeeded.
pub struct Composit<F: Callable, G: Callable<Out = F::In>> {
    result: core::result::Result<F, Error>,
    p: PhantomData<G>,
    inner: Ghost<Result<G::Out>>,
}

impl<F: Callable, G: Callable<Out = F::In>> Composit<F, G> {
    /// The outcome the inner stage `G` had.
    pub closed spec fn inner_outcome(&self) -> Result<G::Out> {
        self.inner@
    }

    /// Whether the outer stage `F` was run.
    pub closed spec fn outer_invoked(&self) -> bool {
        self.result is Ok
    }

    /// Runs the composite, and says how its stages ran: `G` ran on `input`,
    /// `F` ran exactly when `G` succeeded, and a failure of `G` is the
    /// composite's outcome unchanged.
    pub fn run(input: G::In) -> (s: Self)
        ensures
            Self::produces(input, s.outcome()),
            G::produces(input, s.inner_outcome()),
            s.outer_invoked() <==> s.inner_outcome() is Ok,
            s.inner_outcome() is Err ==> s.outcome() == Err::<F::Out, Error>(
                s.inner_outcome()->Err_0,
            ),
            s.inner_outcome() is Ok ==> F::produces(s.inner_outcome()->Ok_0, s.outcome()),
    {
        let g = G::apply(input);
        let ghost m = g.outcome();
        let result = match g.result() {
            Ok(r) => Ok(F::apply(r)),
            Err(e) => Err(e),
        };
        Composit { result, p: PhantomData, inner: Ghost(m) }
    }
}

impl<F: Callable, G: Callable<Out = F::In>> Callable for Composit<F, G> {
    type In = G::In;
    type Out = F::Out;

    open spec fn produces(input: G::In, r: Result<F::Out>) -> bool {
        exists|m: Result<G::Out>|
            #![trigger G::produces(input, m)]
            G::produces(input, m) && match m {
                Ok(v) => F::produces(v, r),
                Err(e) => r == Err::<F::Out, Error>(e),
            }
    }

    closed spec fn outcome(&self) -> Result<F::Out> {
        match self.result {
            Ok(f) => f.outcome(),
            Err(e) => Err(e),
        }
    }

    fn apply(input: G::In) -> (s: Self) {
        Self::run(input)
    }

    fn result(self) -> (r: Result<F::Out>) {
        match self.result {
            Ok(f) => f.result(),
            Err(e) => Err(e),
        }
    }
}

/// A pure conversion into `T`.
pub trait Convertible<T>: Sized {
    /// The outcomes converting `self` may have; by default, any.
    open spec fn converts(self, r: Result<T>) -> bool {
        true
    }

    fn convert(self) -> (r: Result<T>)
        ensures
            self.converts(r),
    ;
}

/// `Some` of the converted value, or the conversion's error.
pub open spec fn some_of<T>(t: Result<T>) -> Result<Option<T>> {
    match t {
        Ok(v) => Ok(Some(v)),
        Err(e) => Err(e),
    }
}

impl<T, U: Convertible<T>> Convertible<Option<T>> for Option<U> {
    open spec fn converts(self, r: Result<Option<T>>) -> bool {
        match self {
            Some(v) => exists|t: Result<T>| #[trigger] v.converts(t) && r == some_of(t),
            None => r == Ok::<Option<T>, Error>(None),
        }
    }

    fn convert(self) -> (r: Result<Option<T>>) {
        match self {
            Some(v) => {
                let t = v.convert();
                let ghost g = t;
                let r = match t {
                    Ok(x) => Ok(Some(x)),
                    Err(e) => Err(e),
                };
                assert(v.converts(g) && r == some_of(g));
                r
            },
            None => Ok(None),
        }
    }
}

/// The outcome of a converter stage whose conversion had outcome `c`: a
/// failure becomes a `ConvertType` error that carries the conversion's own.
pub open spec fn convert_failure<To>(c: Result<To>) -> Result<To> {
    match c {
        Ok(v) => Ok(v),
        Err(e) => Err(Error::Fcomp(FcompError::ConvertType { reason: Box::new(e) })),
    }
}

/// The definition of a converter stage.
pub struct DefConvert<From: Convertible<To>, To> {
    p: PhantomData<(From, To)>,
}

impl<From: Convertible<To>, To> Def for DefConvert<From, To> {
    type In = From;
    type Out = To;

    open spec fn produces(input: From, r: Result<To>) -> bool {
        exists|c: Result<To>| #[trigger] input.converts(c) && r == convert_failure(c)
    }

    fn def(input: From) -> (r: Result<To>) {
        let c = input.convert();
        let ghost g = c;
        let r = match c {
            Ok(v) => Ok(v),
            Err(e) => raise(FcompError::ConvertType { reason: Box::new(e) }),
        };
        assert(input.converts(g) && r == convert_failure(g));
        r
    }
}

pub type Convert<From, To> = Call<DefConvert<From, To>>;

/// The definition of the stage that hands its input back.
pub struct IdentityDef<T> {
    p: PhantomData<T>,
}

impl<T> Def for IdentityDef<T> {
    type In = T;
    type Out = T;

    open spec fn produces(input: T, r: Result<T>) -> bool {
        r == Ok::<T, Error>(input)
    }

    fn def(input: T) -> (r: Result<T>) {
        Ok(input)
    }
}

pub type Identity<T> = Call<IdentityDef<T>>;

/// A check on a value that it only reads: `Ok(())` lets the value through.
pub trait ValidateRefDef {
    type T;

    /// The outcomes checking `input` may have; by default, any.
    open spec fn checks(input: Self::T, r: Result<()>) -> bool {
        true
    }

    fn def(input: &Self::T) -> (r: Result<()>)
        ensures
            Self::checks(*input, r),
    ;
}

/// The value itself if its check `c` passed, the check's error otherwise.
pub open spec fn passed<T>(input: T, c: Result<()>) -> Result<T> {
    match c {
        Ok(_) => Ok(input),
        Err(e) => Err(e),
    }
}

/// The stage that runs a check and, when it passes, hands back the very
/// value it was given.
pub struct Validate<D: ValidateRefDef> {
    result: Result<D::T>,
    p: PhantomData<D>,
}

impl<D: ValidateRefDef> Callable for Validate<D> {
    type In = D::T;
    type Out = D::T;

    open spec fn produces(input: D::T, r: Result<D::T>) -> bool {
        exists|c: Result<()>| #[trigger] D::checks(input, c) && r == passed(input, c)
    }

    closed spec fn outcome(&self) -> Result<D::T> {
        self.result
    }

    fn apply(input: D::T) -> (s: Self) {
        let c = D::def(&input);
        let ghost g = c;
        let result = match c {
            Ok(()) => Ok(input),
            Err(e) => Err(e),
        };
        assert(D::checks(input, g) && result == passed(input, g));
        Validate { result, p: PhantomData }
    }

    fn result(self) -> (r: Result<D::T>) {
        self.result
    }
}

/// The stage that lets every value through unchanged.
pub struct Through<T>(T);

impl<T> Callable for Through<T> {
    type In = T;
    type Out = T;

    open spec fn produces(input: T, r: Result<T>) -> bool {
        r == Ok::<T, Error>(input)
    }

    closed spec fn outcome(&self) -> Result<T> {
        Ok(self.0)
    }

    fn apply(value: T) -> (s: Self) {
        Through(value)
    }

    fn result(self) -> (r: Result<T>) {
        Ok(self.0)
    }
}

/// The stage that refuses every value.
pub struct Deny<T>(PhantomData<T>);

impl<T> Callable for Deny<T> {
    type In = T;
    type Out = T;

    open spec fn produces(input: T, r: Result<T>) -> bool {
        r == Err::<T, Error>(Error::Message("Deny"))
    }

    closed spec fn outcome(&self) -> Result<T> {
        Err(Error::Message("Deny"))
    }

    fn apply(value: T) -> (s: Self) {
        Deny(PhantomData)
    }

    fn result(self) -> (r: Result<T>) {
        Err(Error::Message("Deny"))
    }
}

} // verus!

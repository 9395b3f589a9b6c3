//! Laws of composition, proved over the stages' outcome relations.
use vstd::prelude::*;

use crate::behavior::{Behavior, Composit, Effect, Effector, NoBehave};
use crate::callable::{self, convert_failure, Callable, Convert, Convertible};
use crate::result::{Error, Result};
use crate::service::{
    convert_then_core, pipeline_produces, HookStage, ServiceBaseDef, WithHookResult,
};

verus! {

/// Chaining is associative: running `A`, then `B`, then `C` has the same
/// outcomes (values and errors) however the three are grouped.
pub proof fn lemma_chain_associative<
    A: Behavior,
    B: Behavior<In = A::Out, Ctx = A::Ctx>,
    C: Behavior<In = B::Out, Ctx = A::Ctx>,
>(input: A::In, ctx: A::Ctx, r: Result<C::Out>)
    ensures
        Composit::<C, Composit<B, A>>::produces(input, ctx, r) <==> Composit::<
            Composit<C, B>,
            A,
        >::produces(input, ctx, r),
{
    if Composit::<C, Composit<B, A>>::produces(input, ctx, r) {
        let m1 = choose|m1: Result<B::Out>|
            #[trigger] Composit::<B, A>::produces(input, ctx, m1) && match m1 {
                Ok(v) => C::produces(v, ctx, r),
                Err(e) => r == Err::<C::Out, Error>(e),
            };
        let m0 = choose|m0: Result<A::Out>|
            #[trigger] A::produces(input, ctx, m0) && match m0 {
                Ok(u) => B::produces(u, ctx, m1),
                Err(e) => m1 == Err::<B::Out, Error>(e),
            };
        if let Ok(u) = m0 {
            assert(B::produces(u, ctx, m1));
            assert(Composit::<C, B>::produces(u, ctx, r));
        }
        assert(A::produces(input, ctx, m0));
    }
    if Composit::<Composit<C, B>, A>::produces(input, ctx, r) {
        let m0 = choose|m0: Result<A::Out>|
            #[trigger] A::produces(input, ctx, m0) && match m0 {
                Ok(u) => Composit::<C, B>::produces(u, ctx, r),
                Err(e) => r == Err::<C::Out, Error>(e),
            };
        assert(A::produces(input, ctx, m0));
        match m0 {
            Ok(u) => {
                let m1 = choose|m1: Result<B::Out>|
                    #[trigger] B::produces(u, ctx, m1) && match m1 {
                        Ok(v) => C::produces(v, ctx, r),
                        Err(e) => r == Err::<C::Out, Error>(e),
                    };
                assert(B::produces(u, ctx, m1));
                assert(Composit::<B, A>::produces(input, ctx, m1));
            },
            Err(e) => {
                let m1 = Err::<B::Out, Error>(e);
                assert(Composit::<B, A>::produces(input, ctx, m1));
            },
        }
    }
}

/// Chaining of synchronous stages is associative as well.
pub proof fn lemma_call_chain_associative<
    A: Callable,
    B: Callable<In = A::Out>,
    C: Callable<In = B::Out>,
>(input: A::In, r: Result<C::Out>)
    ensures
        callable::Composit::<C, callable::Composit<B, A>>::produces(input, r)
            <==> callable::Composit::<callable::Composit<C, B>, A>::produces(input, r),
{
    if callable::Composit::<C, callable::Composit<B, A>>::produces(input, r) {
        let m1 = choose|m1: Result<B::Out>|
            #[trigger] callable::Composit::<B, A>::produces(input, m1) && match m1 {
                Ok(v) => C::produces(v, r),
                Err(e) => r == Err::<C::Out, Error>(e),
            };
        let m0 = choose|m0: Result<A::Out>|
            #[trigger] A::produces(input, m0) && match m0 {
                Ok(u) => B::produces(u, m1),
                Err(e) => m1 == Err::<B::Out, Error>(e),
            };
        if let Ok(u) = m0 {
            assert(B::produces(u, m1));
            assert(callable::Composit::<C, B>::produces(u, r));
        }
        assert(A::produces(input, m0));
    }
    if callable::Composit::<callable::Composit<C, B>, A>::produces(input, r) {
        let m0 = choose|m0: Result<A::Out>|
            #[trigger] A::produces(input, m0) && match m0 {
                Ok(u) => callable::Composit::<C, B>::produces(u, r),
                Err(e) => r == Err::<C::Out, Error>(e),
            };
        assert(A::produces(input, m0));
        match m0 {
            Ok(u) => {
                let m1 = choose|m1: Result<B::Out>|
                    #[trigger] B::produces(u, m1) && match m1 {
                        Ok(v) => C::produces(v, r),
                        Err(e) => r == Err::<C::Out, Error>(e),
                    };
                assert(B::produces(u, m1));
                assert(callable::Composit::<B, A>::produces(input, m1));
            },
            Err(e) => {
                let m1 = Err::<B::Out, Error>(e);
                assert(callable::Composit::<B, A>::produces(input, m1));
            },
        }
    }
}

/// Running the identity stage before `X` behaves exactly as `X` alone.
pub proof fn lemma_identity_first<X: Behavior>(input: X::In, ctx: X::Ctx, r: Result<X::Out>)
    ensures
        Composit::<X, NoBehave<X::In, X::Ctx>>::produces(input, ctx, r) <==> X::produces(
            input,
            ctx,
            r,
        ),
{
    let m = Ok::<X::In, Error>(input);
    assert(NoBehave::<X::In, X::Ctx>::produces(input, ctx, m));
}

/// Running the identity stage after `X` behaves exactly as `X` alone.
pub proof fn lemma_identity_last<X: Behavior>(input: X::In, ctx: X::Ctx, r: Result<X::Out>)
    ensures
        Composit::<NoBehave<X::Out, X::Ctx>, X>::produces(input, ctx, r) <==> X::produces(
            input,
            ctx,
            r,
        ),
{
    if X::produces(input, ctx, r) {
        assert(X::produces(input, ctx, r));
    }
}

/// When the inner stage `G` can only fail, the composite's outcomes are
/// exactly `G`'s errors, whatever the outer stage `F` would do.
pub proof fn lemma_short_circuit<F: Behavior, G: Behavior<Out = F::In, Ctx = F::Ctx>>(
    input: G::In,
    ctx: F::Ctx,
    e: Error,
)
    requires
        forall|m: Result<G::Out>| #[trigger] G::produces(input, ctx, m) ==> m is Err,
    ensures
        Composit::<F, G>::produces(input, ctx, Err(e)) <==> G::produces(
            input,
            ctx,
            Err::<G::Out, Error>(e),
        ),
        forall|r: Result<F::Out>| #[trigger]
            Composit::<F, G>::produces(input, ctx, r) ==> r is Err && G::produces(
                input,
                ctx,
                Err::<G::Out, Error>(r->Err_0),
            ),
{
    assert forall|r: Result<F::Out>| #[trigger]
        Composit::<F, G>::produces(input, ctx, r) implies r is Err && G::produces(
            input,
            ctx,
            Err::<G::Out, Error>(r->Err_0),
        ) by {
        let m = choose|m: Result<G::Out>|
            #[trigger] G::produces(input, ctx, m) && match m {
                Ok(v) => F::produces(v, ctx, r),
                Err(e) => r == Err::<F::Out, Error>(e),
            };
        assert(G::produces(input, ctx, m));
    }
    if G::produces(input, ctx, Err::<G::Out, Error>(e)) {
        assert(G::produces(input, ctx, Err::<G::Out, Error>(e)));
    }
}

/// The first stage of a pipeline hands the converter the caller's input
/// unchanged, beside the hook's output.
pub proof fn lemma_hook_keeps_input<D: ServiceBaseDef>(
    input: D::In,
    ctx: D::Ctx,
    r: Result<WithHookResult<D::FilterOut, D::In>>,
)
    requires
        HookStage::<D>::produces(input, ctx, r),
        r is Ok,
    ensures
        r->Ok_0.1 == input,
{
}

/// When the hook's output is the unit value, the converter stage converts
/// the caller's input alone: its outcomes are those of converting that input.
pub proof fn lemma_unit_hook_passthrough<T, U: Convertible<T>>(input: U, r: Result<T>)
    ensures
        Convert::<WithHookResult<(), U>, T>::produces(WithHookResult((), input), r)
            <==> Convert::<U, T>::produces(input, r),
        WithHookResult((), input).converts(r) <==> input.converts(r),
{
    let w = WithHookResult((), input);
    if Convert::<WithHookResult<(), U>, T>::produces(w, r) {
        let c = choose|c: Result<T>| #[trigger] w.converts(c) && r == convert_failure(c);
        assert(input.converts(c));
    }
    if Convert::<U, T>::produces(input, r) {
        let c = choose|c: Result<T>| #[trigger] input.converts(c) && r == convert_failure(c);
        assert(w.converts(c));
    }
}

/// An effect stage that succeeds yields exactly the value it was given.
pub proof fn lemma_effect_preserves_input<D: Effector>(input: D::In, ctx: D::Ctx, r: Result<D::In>)
    requires
        Effect::<D>::produces(input, ctx, r),
        r is Ok,
    ensures
        r == Ok::<D::In, Error>(input),
{
}

/// When the hook of a pipeline can only fail, every outcome of the pipeline
/// is one of the hook's errors: neither converter nor core stage can change
/// it.
pub proof fn lemma_hook_failure_stops_pipeline<D: ServiceBaseDef>(
    input: D::In,
    ctx: D::Ctx,
    r: Result<D::Out>,
)
    requires
        forall|h: Result<D::FilterOut>| #[trigger]
            <D::BeforeFilter as Behavior>::produces((), ctx, h) ==> h is Err,
        pipeline_produces::<D>(input, ctx, r),
    ensures
        r is Err,
        <D::BeforeFilter as Behavior>::produces((), ctx, Err::<D::FilterOut, Error>(r->Err_0)),
{
    let h = choose|h: Result<D::FilterOut>|
        #[trigger] <D::BeforeFilter as Behavior>::produces((), ctx, h) && match h {
            Ok(hook) => convert_then_core::<D>(WithHookResult(hook, input), ctx, r),
            Err(e) => r == Err::<D::Out, Error>(e),
        };
    assert(<D::BeforeFilter as Behavior>::produces((), ctx, h));
}

} // verus!

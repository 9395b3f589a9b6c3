//! The four-stage pipeline (hook, converter, core stage, output converter)
//! and the CRUD facade built from five such pipelines.
use core::marker::PhantomData;
use vstd::prelude::*;

use crate::behavior::{Behave, BehaveDef, Behavior, Composit, Lift, NoBehave};
use crate::callable::{Callable, Convert, Convertible, Identity, Through};
use crate::result::{Error, Result};

verus! {

/// Builds a value from what a hook produced and the caller's input.
pub trait FromHookResult<HookOut, T>: Sized {
    /// The outcomes building from `h` and `t` may have; by default, any.
    open spec fn builds(h: HookOut, t: T, r: Result<Self>) -> bool {
        true
    }

    fn from_hook_result(h: HookOut, t: T) -> (r: Result<Self>)
        ensures
            Self::builds(h, t, r),
    ;
}

/// Marks the types that hooks produce.
pub trait HookResult {}

/// A hook's output paired with the caller's original input.
pub struct WithHookResult<H, T>(pub H, pub T);

impl<H: HookResult, T, To: FromHookResult<H, T>> Convertible<To> for WithHookResult<H, T> {
    open spec fn converts(self, r: Result<To>) -> bool {
        To::builds(self.0, self.1, r)
    }

    fn convert(self) -> (r: Result<To>) {
        To::from_hook_result(self.0, self.1)
    }
}

/// A hook that produced nothing: the caller's input is converted alone.
impl<T, U: Convertible<T>> Convertible<T> for WithHookResult<(), U> {
    open spec fn converts(self, r: Result<T>) -> bool {
        self.1.converts(r)
    }

    fn convert(self) -> (r: Result<T>) {
        self.1.convert()
    }
}

impl<H: HookResult> FromHookResult<H, ()> for () {
    open spec fn builds(h: H, t: (), r: Result<()>) -> bool {
        r == Ok::<(), Error>(())
    }

    fn from_hook_result(h: H, t: ()) -> (r: Result<()>) {
        Ok(())
    }
}

/// The configuration of one pipeline: the types of its four stages.
pub trait ServiceBaseDef {
    type In;
    type FilterOut;
    type ServiceIn;
    type ServiceOut;
    type Out;
    type BeforeFilter: Behavior<In = (), Out = Self::FilterOut, Ctx = Self::Ctx>;
    type Converter: Callable<In = WithHookResult<Self::FilterOut, Self::In>, Out = Self::ServiceIn>;
    type ServiceBehavior: Behavior<In = Self::ServiceIn, Out = Self::ServiceOut, Ctx = Self::Ctx>;
    type AfterConverter: Callable<In = Self::ServiceOut, Out = Self::Out>;
    type Ctx;
}

/// The first stage of a pipeline: runs the hook `Filter` on the context and
/// pairs its output with the caller's input.
pub struct BeforeFilterDef<In, Filter: Behavior<In = ()>> {
    p: PhantomData<(In, Filter)>,
}

/// The outcome of the first stage when the hook had outcome `h`.
pub open spec fn paired<H, T>(h: Result<H>, input: T) -> Result<WithHookResult<H, T>> {
    match h {
        Ok(v) => Ok(WithHookResult(v, input)),
        Err(e) => Err(e),
    }
}

impl<In, Filter: Behavior<In = ()>> BehaveDef for BeforeFilterDef<In, Filter> {
    type In = In;
    type Out = WithHookResult<Filter::Out, In>;
    type Ctx = Filter::Ctx;

    open spec fn produces(
        input: In,
        ctx: Filter::Ctx,
        r: Result<WithHookResult<Filter::Out, In>>,
    ) -> bool {
        exists|h: Result<Filter::Out>|
            #![trigger Filter::produces((), ctx, h)]
            Filter::produces((), ctx, h) && r == paired(h, input)
    }

    fn def(input: In, ctx: &Filter::Ctx) -> (r: Result<WithHookResult<Filter::Out, In>>) {
        let filtered = Filter::apply((), ctx);
        let result = filtered.result()?;
        Ok(WithHookResult(result, input))
    }
}

/// The pipeline of a configuration, in the order its stages run: the hook,
/// the converter, the core stage, the output converter.
pub type ServiceBase<D> = Composit<
    Composit<
        Composit<
            Lift<<D as ServiceBaseDef>::AfterConverter, <D as ServiceBaseDef>::Ctx>,
            <D as ServiceBaseDef>::ServiceBehavior,
        >,
        Lift<<D as ServiceBaseDef>::Converter, <D as ServiceBaseDef>::Ctx>,
    >,
    Behave<BeforeFilterDef<<D as ServiceBaseDef>::In, <D as ServiceBaseDef>::BeforeFilter>>,
>;

/// A configuration given by its stage types.
#[verifier::reject_recursive_types(In)]
#[verifier::reject_recursive_types(Out)]
pub struct ServiceBaseBuild<In, BeforeFilter, Converter, ServiceBehavior, AfterConverter, Out> where
    BeforeFilter: Behavior<In = (), Ctx = ServiceBehavior::Ctx>,
    Converter: Callable<In = WithHookResult<BeforeFilter::Out, In>, Out = ServiceBehavior::In>,
    AfterConverter: Callable<In = ServiceBehavior::Out, Out = Out>,
    ServiceBehavior: Behavior,
 {
    p: PhantomData<(In, BeforeFilter, Converter, ServiceBehavior, AfterConverter, Out)>,
}

impl<In, BeforeFilter, Converter, ServiceBehavior, AfterConverter, Out> ServiceBaseDef for ServiceBaseBuild<
    In,
    BeforeFilter,
    Converter,
    ServiceBehavior,
    AfterConverter,
    Out,
> where
    BeforeFilter: Behavior<In = (), Ctx = ServiceBehavior::Ctx>,
    Converter: Callable<In = WithHookResult<BeforeFilter::Out, In>, Out = ServiceBehavior::In>,
    AfterConverter: Callable<In = ServiceBehavior::Out, Out = Out>,
    ServiceBehavior: Behavior,
 {
    type In = In;
    type FilterOut = BeforeFilter::Out;
    type ServiceIn = ServiceBehavior::In;
    type ServiceOut = ServiceBehavior::Out;
    type Out = AfterConverter::Out;
    type BeforeFilter = BeforeFilter;
    type Converter = Converter;
    type ServiceBehavior = ServiceBehavior;
    type AfterConverter = AfterConverter;
    type Ctx = BeforeFilter::Ctx;
}

/// The last two stages of a pipeline: the core stage runs on `v`, and on
/// its success the output converter runs on the core stage's value.
pub open spec fn core_then_out<D: ServiceBaseDef>(
    v: D::ServiceIn,
    ctx: D::Ctx,
    r: Result<D::Out>,
) -> bool {
    exists|s: Result<D::ServiceOut>|
        #![trigger <D::ServiceBehavior as Behavior>::produces(v, ctx, s)]
        <D::ServiceBehavior as Behavior>::produces(v, ctx, s) && match s {
            Ok(o) => <D::AfterConverter as Callable>::produces(o, r),
            Err(e) => r == Err::<D::Out, Error>(e),
        }
}

/// The pipeline from the converter on: the converter runs on the pair `w`,
/// and on its success the core stage and the output converter follow.
pub open spec fn convert_then_core<D: ServiceBaseDef>(
    w: WithHookResult<D::FilterOut, D::In>,
    ctx: D::Ctx,
    r: Result<D::Out>,
) -> bool {
    exists|c: Result<D::ServiceIn>|
        #![trigger <D::Converter as Callable>::produces(w, c)]
        <D::Converter as Callable>::produces(w, c) && match c {
            Ok(v) => core_then_out::<D>(v, ctx, r),
            Err(e) => r == Err::<D::Out, Error>(e),
        }
}

/// The outcomes of a pipeline, stage by stage: the hook runs on the context
/// alone; on its success the converter receives the hook's output paired with
/// the caller's input; then the core stage; then the output converter. The
/// first failure is the outcome, and no later stage runs.
pub open spec fn pipeline_produces<D: ServiceBaseDef>(
    input: D::In,
    ctx: D::Ctx,
    r: Result<D::Out>,
) -> bool {
    exists|h: Result<D::FilterOut>|
        #![trigger <D::BeforeFilter as Behavior>::produces((), ctx, h)]
        <D::BeforeFilter as Behavior>::produces((), ctx, h) && match h {
            Ok(hook) => convert_then_core::<D>(WithHookResult(hook, input), ctx, r),
            Err(e) => r == Err::<D::Out, Error>(e),
        }
}

/// The first stage of the pipeline of a configuration.
pub type HookStage<D> = Behave<
    BeforeFilterDef<<D as ServiceBaseDef>::In, <D as ServiceBaseDef>::BeforeFilter>,
>;

/// The composed chain of a configuration has exactly the outcomes of its
/// stages run in order, hook, converter, core stage, output converter,
/// stopping at the first failure.
pub proof fn lemma_pipeline_stages<D: ServiceBaseDef>(input: D::In, ctx: D::Ctx, r: Result<D::Out>)
    ensures
        ServiceBase::<D>::produces(input, ctx, r) <==> pipeline_produces::<D>(input, ctx, r),
{
    if ServiceBase::<D>::produces(input, ctx, r) {
        let m1 = choose|m1: Result<WithHookResult<D::FilterOut, D::In>>|
            #[trigger] HookStage::<D>::produces(input, ctx, m1) && match m1 {
                Ok(v) => Composit::<
                    Composit<Lift<D::AfterConverter, D::Ctx>, D::ServiceBehavior>,
                    Lift<D::Converter, D::Ctx>,
                >::produces(v, ctx, r),
                Err(e) => r == Err::<D::Out, Error>(e),
            };
        let h = choose|h: Result<D::FilterOut>|
            #[trigger] <D::BeforeFilter as Behavior>::produces((), ctx, h) && m1 == paired(h, input);
        assert(<D::BeforeFilter as Behavior>::produces((), ctx, h));
    }
    if pipeline_produces::<D>(input, ctx, r) {
        let h = choose|h: Result<D::FilterOut>|
            #[trigger] <D::BeforeFilter as Behavior>::produces((), ctx, h) && match h {
                Ok(hook) => convert_then_core::<D>(WithHookResult(hook, input), ctx, r),
                Err(e) => r == Err::<D::Out, Error>(e),
            };
        let m1 = paired(h, input);
        assert(HookStage::<D>::produces(input, ctx, m1));
        if let Ok(hook) = h {
            let w = WithHookResult(hook, input);
            let c = choose|c: Result<D::ServiceIn>|
                #[trigger] <D::Converter as Callable>::produces(w, c) && match c {
                    Ok(v) => core_then_out::<D>(v, ctx, r),
                    Err(e) => r == Err::<D::Out, Error>(e),
                };
            assert(Lift::<D::Converter, D::Ctx>::produces(w, ctx, c));
            if let Ok(v) = c {
                let s = choose|s: Result<D::ServiceOut>|
                    #[trigger] <D::ServiceBehavior as Behavior>::produces(v, ctx, s) && match s {
                        Ok(o) => <D::AfterConverter as Callable>::produces(o, r),
                        Err(e) => r == Err::<D::Out, Error>(e),
                    };
                assert(<D::ServiceBehavior as Behavior>::produces(v, ctx, s));
                assert(Composit::<Lift<D::AfterConverter, D::Ctx>, D::ServiceBehavior>::produces(
                    v,
                    ctx,
                    r,
                ));
            }
        }
    }
}

/// The five pipelines of a CRUD service, all under one context type.
pub trait CRUDSeviceDef {
    type Ctx;
    type CreateDef: ServiceBaseDef<Ctx = Self::Ctx>;
    type UpdateDef: ServiceBaseDef<Ctx = Self::Ctx>;
    type DeleteDef: ServiceBaseDef<Ctx = Self::Ctx>;
    type FindOneDef: ServiceBaseDef<Ctx = Self::Ctx>;
    type FindManyDef: ServiceBaseDef<Ctx = Self::Ctx>;
}

/// The CRUD facade: each operation runs its own pipeline and returns its
/// outcome, the first failure of the chain or the converted output.
pub struct CRUDSevice<D: CRUDSeviceDef> {
    p: PhantomData<D>,
}

impl<D: CRUDSeviceDef> CRUDSevice<D> {
    /// Runs the `create` pipeline on the caller's input.
    pub fn create(
        i: <D::CreateDef as ServiceBaseDef>::In,
        ctx: &<D::CreateDef as ServiceBaseDef>::Ctx,
    ) -> (r: Result<<D::CreateDef as ServiceBaseDef>::Out>)
        ensures
            pipeline_produces::<D::CreateDef>(i, *ctx, r),
    {
        let s = ServiceBase::<D::CreateDef>::apply(i, ctx);
        proof {
            lemma_pipeline_stages::<D::CreateDef>(i, *ctx, s.outcome());
        }
        s.result()
    }

    /// Runs the `update` pipeline on the caller's input.
    pub fn update(
        i: <D::UpdateDef as ServiceBaseDef>::In,
        ctx: &<D::UpdateDef as ServiceBaseDef>::Ctx,
    ) -> (r: Result<<D::UpdateDef as ServiceBaseDef>::Out>)
        ensures
            pipeline_produces::<D::UpdateDef>(i, *ctx, r),
    {
        let s = ServiceBase::<D::UpdateDef>::apply(i, ctx);
        proof {
            lemma_pipeline_stages::<D::UpdateDef>(i, *ctx, s.outcome());
        }
        s.result()
    }

    /// Runs the `delete` pipeline on the caller's input.
    pub fn delete(
        i: <D::DeleteDef as ServiceBaseDef>::In,
        ctx: &<D::DeleteDef as ServiceBaseDef>::Ctx,
    ) -> (r: Result<<D::DeleteDef as ServiceBaseDef>::Out>)
        ensures
            pipeline_produces::<D::DeleteDef>(i, *ctx, r),
    {
        let s = ServiceBase::<D::DeleteDef>::apply(i, ctx);
        proof {
            lemma_pipeline_stages::<D::DeleteDef>(i, *ctx, s.outcome());
        }
        s.result()
    }

    /// Runs the `find_one` pipeline on the caller's input.
    pub fn find_one(
        i: <D::FindOneDef as ServiceBaseDef>::In,
        ctx: &<D::FindOneDef as ServiceBaseDef>::Ctx,
    ) -> (r: Result<<D::FindOneDef as ServiceBaseDef>::Out>)
        ensures
            pipeline_produces::<D::FindOneDef>(i, *ctx, r),
    {
        let s = ServiceBase::<D::FindOneDef>::apply(i, ctx);
        proof {
            lemma_pipeline_stages::<D::FindOneDef>(i, *ctx, s.outcome());
        }
        s.result()
    }

    /// Runs the `find_many` pipeline on the caller's input.
    pub fn find_many(
        i: <D::FindManyDef as ServiceBaseDef>::In,
        ctx: &<D::FindManyDef as ServiceBaseDef>::Ctx,
    ) -> (r: Result<<D::FindManyDef as ServiceBaseDef>::Out>)
        ensures
            pipeline_produces::<D::FindManyDef>(i, *ctx, r),
    {
        let s = ServiceBase::<D::FindManyDef>::apply(i, ctx);
        proof {
            lemma_pipeline_stages::<D::FindManyDef>(i, *ctx, s.outcome());
        }
        s.result()
    }
}

/// The core stages of a CRUD service and the input and output types its
/// callers see.
pub trait CRUDBehaviors {
    type Ctx;
    type CreateIn;
    type UpdateIn;
    type DeleteIn;
    type FindOneIn;
    type FindManyIn;
    type FindOneOut;
    type FindManyOut;
    type Create: Behavior<Ctx = Self::Ctx>;
    type Update: Behavior<Ctx = Self::Ctx>;
    type Delete: Behavior<Ctx = Self::Ctx>;
    type FindOne: Behavior<Ctx = Self::Ctx>;
    type FindMany: Behavior<Ctx = Self::Ctx>;
}

/// A hook shared by the five operations, and the check each operation
/// applies to the hook's output before its converter runs.
pub trait CRUDHook {
    type Ctx;
    type HookOut;
    type Hook: Behavior<In = (), Out = Self::HookOut, Ctx = Self::Ctx>;
    type OnCreate: Callable<In = Self::HookOut, Out = Self::HookOut>;
    type OnUpdate: Callable<In = Self::HookOut, Out = Self::HookOut>;
    type OnDelete: Callable<In = Self::HookOut, Out = Self::HookOut>;
    type OnFindOne: Callable<In = Self::HookOut, Out = Self::HookOut>;
    type OnFindMany: Callable<In = Self::HookOut, Out = Self::HookOut>;
}

/// The hook that produces nothing and lets every operation through.
pub struct EmptyHook<Ctx> {
    p: PhantomData<Ctx>,
}

impl<Ctx> CRUDHook for EmptyHook<Ctx> {
    type Ctx = Ctx;
    type HookOut = ();
    type Hook = NoBehave<(), Ctx>;
    type OnCreate = Through<()>;
    type OnUpdate = Through<()>;
    type OnDelete = Through<()>;
    type OnFindOne = Through<()>;
    type OnFindMany = Through<()>;
}

/// A CRUD service from core stages and a hook: each operation runs the hook
/// and that operation's check, converts the hook output and caller input
/// into the core stage's input, runs the core stage, and converts its output
/// (find-one and find-many) or hands it back (the other three).
pub struct SimpleCRUDServiceDef<B: CRUDBehaviors, H: CRUDHook<Ctx = B::Ctx> = EmptyHook<
    <B as CRUDBehaviors>::Ctx,
>> {
    p: PhantomData<(B, H)>,
}

/// The hook stage of one operation: the shared hook, then the operation's check.
pub type OperationHook<H, Check> = Composit<
    Lift<Check, <H as CRUDHook>::Ctx>,
    <H as CRUDHook>::Hook,
>;

impl<B: CRUDBehaviors, H: CRUDHook<Ctx = B::Ctx>> CRUDSeviceDef for SimpleCRUDServiceDef<B, H> where
    WithHookResult<H::HookOut, B::CreateIn>: Convertible<<B::Create as Behavior>::In>,
    WithHookResult<H::HookOut, B::UpdateIn>: Convertible<<B::Update as Behavior>::In>,
    WithHookResult<H::HookOut, B::DeleteIn>: Convertible<<B::Delete as Behavior>::In>,
    WithHookResult<H::HookOut, B::FindOneIn>: Convertible<<B::FindOne as Behavior>::In>,
    <B::FindOne as Behavior>::Out: Convertible<B::FindOneOut>,
    WithHookResult<H::HookOut, B::FindManyIn>: Convertible<<B::FindMany as Behavior>::In>,
    <B::FindMany as Behavior>::Out: Convertible<B::FindManyOut>,
 {
    type Ctx = B::Ctx;
    type CreateDef = ServiceBaseBuild<
        B::CreateIn,
        OperationHook<H, H::OnCreate>,
        Convert<WithHookResult<H::HookOut, B::CreateIn>, <B::Create as Behavior>::In>,
        B::Create,
        Identity<<B::Create as Behavior>::Out>,
        <B::Create as Behavior>::Out,
    >;
    type UpdateDef = ServiceBaseBuild<
        B::UpdateIn,
        OperationHook<H, H::OnUpdate>,
        Convert<WithHookResult<H::HookOut, B::UpdateIn>, <B::Update as Behavior>::In>,
        B::Update,
        Identity<<B::Update as Behavior>::Out>,
        <B::Update as Behavior>::Out,
    >;
    type DeleteDef = ServiceBaseBuild<
        B::DeleteIn,
        OperationHook<H, H::OnDelete>,
        Convert<WithHookResult<H::HookOut, B::DeleteIn>, <B::Delete as Behavior>::In>,
        B::Delete,
        Identity<<B::Delete as Behavior>::Out>,
        <B::Delete as Behavior>::Out,
    >;
    type FindOneDef = ServiceBaseBuild<
        B::FindOneIn,
        OperationHook<H, H::OnFindOne>,
        Convert<WithHookResult<H::HookOut, B::FindOneIn>, <B::FindOne as Behavior>::In>,
        B::FindOne,
        Convert<<B::FindOne as Behavior>::Out, B::FindOneOut>,
        B::FindOneOut,
    >;
    type FindManyDef = ServiceBaseBuild<
        B::FindManyIn,
        OperationHook<H, H::OnFindMany>,
        Convert<WithHookResult<H::HookOut, B::FindManyIn>, <B::FindMany as Behavior>::In>,
        B::FindMany,
        Convert<<B::FindMany as Behavior>::Out, B::FindManyOut>,
        B::FindManyOut,
    >;
}

} // verus!

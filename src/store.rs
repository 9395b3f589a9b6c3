//! Stages backed by a store of records that carry an id.
use core::marker::PhantomData;
use vstd::prelude::*;
use vstd::string::StringExecFns;

use crate::behavior::{Behave, BehaveDef};
use crate::callable::Convertible;
use crate::result::{simple_error, Error, Result};
use crate::service::{CRUDBehaviors, FromHookResult, HookResult, WithHookResult};

verus! {

/// The id of a stored record: twelve bytes.
#[derive(Clone, Copy, Debug, PartialEq, Eq)]
pub struct Id {
    pub bytes: [u8; 12],
}

/// A record together with its id.
#[derive(Clone, Debug)]
pub struct WithId<M>(pub Id, pub M);

impl<M> HookResult for WithId<M> {}

/// The record `t` under the id `id`, or `t`'s error.
pub open spec fn with_id<T>(id: Id, t: Result<T>) -> Result<WithId<T>> {
    match t {
        Ok(v) => Ok(WithId(id, v)),
        Err(e) => Err(e),
    }
}

/// Converts the record and keeps its id.
impl<T, U: Convertible<T>> Convertible<WithId<T>> for WithId<U> {
    open spec fn converts(self, r: Result<WithId<T>>) -> bool {
        exists|t: Result<T>| #[trigger] self.1.converts(t) && r == with_id(self.0, t)
    }

    fn convert(self) -> (r: Result<WithId<T>>) {
        let WithId(id, u) = self;
        let ghost w = u;
        let t = u.convert();
        let ghost g = t;
        let r = match t {
            Ok(x) => Ok(WithId(id, x)),
            Err(e) => Err(e),
        };
        assert(w.converts(g) && r == with_id(id, g));
        r
    }
}

/// Builds the record from the hook's output and keeps the caller's id.
impl<T: FromHookResult<H, U>, U, H> FromHookResult<H, WithId<U>> for WithId<T> {
    open spec fn builds(h: H, input: WithId<U>, r: Result<WithId<T>>) -> bool {
        exists|t: Result<T>| #[trigger] T::builds(h, input.1, t) && r == with_id(input.0, t)
    }

    fn from_hook_result(h: H, input: WithId<U>) -> (r: Result<WithId<T>>) {
        let WithId(id, u) = input;
        let ghost w = u;
        let ghost hh = h;
        let t = T::from_hook_result(h, u);
        let ghost g = t;
        let r = match t {
            Ok(x) => Ok(WithId(id, x)),
            Err(e) => Err(e),
        };
        assert(T::builds(hh, w, g) && r == with_id(id, g));
        r
    }
}

/// Which records a lookup selects.
pub enum Query {
    /// Every record.
    All,
    /// The record with this id.
    ById(Id),
    /// The records whose `field` holds `value`.
    FieldEquals { field: String, value: String },
    /// The records other than `except` whose `field` holds `value`.
    FieldEqualsOtherThan { field: String, value: String, except: Id },
}

/// What a query selects, with its texts as sequences of characters.
pub ghost enum QueryView {
    All,
    ById(Id),
    FieldEquals { field: Seq<char>, value: Seq<char> },
    FieldEqualsOtherThan { field: Seq<char>, value: Seq<char>, except: Id },
}

impl View for Query {
    type V = QueryView;

    open spec fn view(&self) -> QueryView {
        match self {
            Query::All => QueryView::All,
            Query::ById(id) => QueryView::ById(*id),
            Query::FieldEquals { field, value } => QueryView::FieldEquals {
                field: field@,
                value: value@,
            },
            Query::FieldEqualsOtherThan { field, value, except } => QueryView::FieldEqualsOtherThan {
                field: field@,
                value: value@,
                except: *except,
            },
        }
    }
}

/// The order in which a lookup returns records.
pub enum Order {
    ById,
    ByField(String),
}

/// The id of the record to delete.
pub struct DeleteId(pub Id);

impl Convertible<DeleteId> for WithHookResult<(), Id> {
    open spec fn converts(self, r: Result<DeleteId>) -> bool {
        r == Ok::<DeleteId, Error>(DeleteId(self.1))
    }

    fn convert(self) -> (r: Result<DeleteId>) {
        Ok(DeleteId(self.1))
    }
}

/// The lookup of one record.
pub struct FindOneArgument(pub Query);

/// The lookup of many records, in an optional order.
pub struct FindManyArgument(pub Query, pub Option<Order>);

/// A sequence of rows, each converted into a `T` only when it is taken.
pub struct ConvertibleStream<T, U: Convertible<T>> {
    rows: Vec<U>,
    p: PhantomData<T>,
}

impl<T, U: Convertible<T>> ConvertibleStream<T, U> {
    /// The rows not yet taken, in order.
    pub closed spec fn rows(&self) -> Seq<U> {
        self.rows@
    }

    /// The sequence over `rows`, in order.
    pub fn from(rows: Vec<U>) -> (s: Self)
        ensures
            s.rows() == rows@,
    {
        ConvertibleStream { rows, p: PhantomData }
    }

    /// Takes the next row and converts it; `None` once every row was taken.
    pub fn next_item(&mut self) -> (r: Option<Result<T>>)
        ensures
            old(self).rows().len() == 0 ==> r is None && final(self).rows() == old(self).rows(),
            old(self).rows().len() > 0 ==> r is Some && old(self).rows()[0].converts(r->Some_0)
                && final(self).rows() == old(self).rows().drop_first(),
    {
        if self.rows.len() == 0 {
            None
        } else {
            let u = self.rows.remove(0);
            proof {
                assert(self.rows() =~= old(self).rows().drop_first());
            }
            Some(u.convert())
        }
    }
}

/// What taking an item gives when the row's own conversion had outcome `m`:
/// a success is converted further (with outcome `t`), a failure is handed on.
pub open spec fn then_convert<T, F: Convertible<T>>(m: Result<F>, t: Result<T>) -> bool {
    match m {
        Ok(f) => f.converts(t),
        Err(e) => t == Err::<T, Error>(e),
    }
}

/// A sequence of rows, each converted into an `F` and then into a `T` only
/// when it is taken; a row that fails is handed on as an error, never skipped.
#[verifier::reject_recursive_types(F)]
pub struct ConvertibleTryStream<T, F: Convertible<T>, U: Convertible<F>> {
    inner: ConvertibleStream<F, U>,
    p: PhantomData<T>,
}

impl<T, F: Convertible<T>, U: Convertible<F>> ConvertibleTryStream<T, F, U> {
    /// The rows not yet taken, in order.
    pub closed spec fn rows(&self) -> Seq<U> {
        self.inner.rows()
    }

    /// The sequence over the rows of `stream`.
    pub fn from(stream: ConvertibleStream<F, U>) -> (s: Self)
        ensures
            s.rows() == stream.rows(),
    {
        ConvertibleTryStream { inner: stream, p: PhantomData }
    }

    /// Takes the next row and converts it twice; `None` once every row was
    /// taken.
    pub fn next_item(&mut self) -> (r: Option<Result<T>>)
        ensures
            old(self).rows().len() == 0 ==> r is None && final(self).rows() == old(self).rows(),
            old(self).rows().len() > 0 ==> r is Some && (exists|m: Result<F>|
                #[trigger] old(self).rows()[0].converts(m) && then_convert(m, r->Some_0))
                && final(self).rows() == old(self).rows().drop_first(),
    {
        let x = self.inner.next_item();
        let ghost g = x;
        let r = match x {
            Some(Ok(f)) => Some(f.convert()),
            Some(Err(e)) => Some(Err(e)),
            None => None,
        };
        proof {
            if old(self).rows().len() > 0 {
                assert(old(self).rows()[0].converts(g->Some_0) && then_convert(
                    g->Some_0,
                    r->Some_0,
                ));
            }
        }
        r
    }
}

/// The output converter of a find-many pipeline: wraps the rows so that
/// each is converted further when it is taken.
impl<T, F: Convertible<T>, U: Convertible<F>> Convertible<ConvertibleTryStream<T, F, U>> for ConvertibleStream<F, U> {
    open spec fn converts(self, r: Result<ConvertibleTryStream<T, F, U>>) -> bool {
        r is Ok && r->Ok_0.rows() == self.rows()
    }

    fn convert(self) -> (r: Result<ConvertibleTryStream<T, F, U>>) {
        Ok(ConvertibleTryStream::from(self))
    }
}

/// A store of records of one model, reached through a context. Each
/// operation reports a success value or the store's failure.
pub trait RepositoryWithId: Sized {
    type Model;
    type Ctx;
    /// A raw row of a lookup of many records, converted when it is taken.
    type Row: Convertible<WithId<Self::Model>>;

    /// The context this handle was opened with.
    spec fn context(&self) -> Self::Ctx;

    /// The context this handle was opened with.
    fn ctx(&self) -> (c: &Self::Ctx)
        ensures
            *c == self.context(),
    ;

    // The outcomes each operation may have under a context; a store that
    // states none may have any.
    open spec fn creates(ctx: Self::Ctx, model: Self::Model, r: Result<Id>) -> bool {
        true
    }

    open spec fn updates(ctx: Self::Ctx, model: WithId<Self::Model>, r: Result<()>) -> bool {
        true
    }

    open spec fn deletes(ctx: Self::Ctx, id: Id, r: Result<()>) -> bool {
        true
    }

    open spec fn finds_one(ctx: Self::Ctx, query: Query, r: Result<Option<WithId<Self::Model>>>) -> bool {
        true
    }

    open spec fn finds_many(
        ctx: Self::Ctx,
        query: Query,
        order: Option<Order>,
        r: Result<ConvertibleStream<WithId<Self::Model>, Self::Row>>,
    ) -> bool {
        true
    }

    fn new(ctx: &Self::Ctx) -> (s: Self)
        ensures
            s.context() == *ctx,
    ;

    fn create(&self, model: &Self::Model) -> (r: Result<Id>)
        ensures
            Self::creates(self.context(), *model, r),
    ;

    fn update(&self, model: &WithId<Self::Model>) -> (r: Result<()>)
        ensures
            Self::updates(self.context(), *model, r),
    ;

    fn delete(&self, id: &Id) -> (r: Result<()>)
        ensures
            Self::deletes(self.context(), *id, r),
    ;

    fn find_one(&self, query: Query) -> (r: Result<Option<WithId<Self::Model>>>)
        ensures
            Self::finds_one(self.context(), query, r),
    ;

    fn find_many(&self, query: Query, order: Option<Order>) -> (r: Result<
        ConvertibleStream<WithId<Self::Model>, Self::Row>,
    >)
        ensures
            Self::finds_many(self.context(), query, order, r),
    ;

    /// Looks up the record with the given id.
    fn find_one_by_id(&self, id: &Id) -> (r: Result<Option<WithId<Self::Model>>>)
        ensures
            Self::finds_one(self.context(), Query::ById(*id), r),
    {
        self.find_one(Query::ById(*id))
    }
}

/// The core stage that stores a new record and yields its id.
pub struct WithIdCreateBehaviorDef<Repo: RepositoryWithId> {
    p: PhantomData<Repo>,
}

impl<Repo: RepositoryWithId> BehaveDef for WithIdCreateBehaviorDef<Repo> {
    type In = Repo::Model;
    type Out = Id;
    type Ctx = Repo::Ctx;

    open spec fn produces(input: Repo::Model, ctx: Repo::Ctx, r: Result<Id>) -> bool {
        Repo::creates(ctx, input, r)
    }

    fn def(input: Repo::Model, ctx: &Repo::Ctx) -> (r: Result<Id>) {
        Repo::new(ctx).create(&input)
    }
}

pub type WithIdCreateBehavior<Repo> = Behave<WithIdCreateBehaviorDef<Repo>>;

/// The core stage that replaces the record with the given id.
pub struct WithIdUpdateBehaviorDef<Repo: RepositoryWithId> {
    p: PhantomData<Repo>,
}

impl<Repo: RepositoryWithId> BehaveDef for WithIdUpdateBehaviorDef<Repo> {
    type In = WithId<Repo::Model>;
    type Out = ();
    type Ctx = Repo::Ctx;

    open spec fn produces(input: WithId<Repo::Model>, ctx: Repo::Ctx, r: Result<()>) -> bool {
        Repo::updates(ctx, input, r)
    }

    fn def(input: WithId<Repo::Model>, ctx: &Repo::Ctx) -> (r: Result<()>) {
        Repo::new(ctx).update(&input)
    }
}

pub type WithIdUpdateBehavior<Repo> = Behave<WithIdUpdateBehaviorDef<Repo>>;

/// The core stage that deletes the record with the given id.
pub struct WithIdDeleteBehaviorDef<Repo: RepositoryWithId> {
    p: PhantomData<Repo>,
}

impl<Repo: RepositoryWithId> BehaveDef for WithIdDeleteBehaviorDef<Repo> {
    type In = DeleteId;
    type Out = ();
    type Ctx = Repo::Ctx;

    open spec fn produces(input: DeleteId, ctx: Repo::Ctx, r: Result<()>) -> bool {
        Repo::deletes(ctx, input.0, r)
    }

    fn def(input: DeleteId, ctx: &Repo::Ctx) -> (r: Result<()>) {
        Repo::new(ctx).delete(&input.0)
    }
}

pub type WithIdDeleteBehavior<Repo> = Behave<WithIdDeleteBehaviorDef<Repo>>;

/// The core stage that looks up one record.
pub struct WithIdFindOneBehaviorDef<Repo: RepositoryWithId> {
    p: PhantomData<Repo>,
}

impl<Repo: RepositoryWithId> BehaveDef for WithIdFindOneBehaviorDef<Repo> {
    type In = FindOneArgument;
    type Out = Option<WithId<Repo::Model>>;
    type Ctx = Repo::Ctx;

    open spec fn produces(input: FindOneArgument, ctx: Repo::Ctx, r: Result<Option<WithId<Repo::Model>>>) -> bool {
        Repo::finds_one(ctx, input.0, r)
    }

    fn def(input: FindOneArgument, ctx: &Repo::Ctx) -> (r: Result<Option<WithId<Repo::Model>>>) {
        Repo::new(ctx).find_one(input.0)
    }
}

pub type WithIdFindOneBehavior<Repo> = Behave<WithIdFindOneBehaviorDef<Repo>>;

/// The core stage that looks up the records a query selects.
pub struct WithIdFindManyBehaviorDef<Repo: RepositoryWithId> {
    p: PhantomData<Repo>,
}

impl<Repo: RepositoryWithId> BehaveDef for WithIdFindManyBehaviorDef<Repo> {
    type In = FindManyArgument;
    type Out = ConvertibleStream<WithId<Repo::Model>, Repo::Row>;
    type Ctx = Repo::Ctx;

    open spec fn produces(input: FindManyArgument, ctx: Repo::Ctx, r: Result<ConvertibleStream<WithId<Repo::Model>, Repo::Row>>) -> bool {
        Repo::finds_many(ctx, input.0, input.1, r)
    }

    fn def(input: FindManyArgument, ctx: &Repo::Ctx) -> (r: Result<ConvertibleStream<WithId<Repo::Model>, Repo::Row>>) {
        Repo::new(ctx).find_many(input.0, input.1)
    }
}

pub type WithIdFindManyBehavior<Repo> = Behave<WithIdFindManyBehaviorDef<Repo>>;

/// The core stages of a CRUD service over a store of records with ids:
/// callers create from `In`, update a `WithId<In>`, delete by id, and see
/// records as `Out`.
pub struct WithIdBehaviors<Repo: RepositoryWithId, In, Out, OnFindOneIn, OnFindManyIn> {
    p: PhantomData<(Repo, In, Out, OnFindOneIn, OnFindManyIn)>,
}

impl<Repo: RepositoryWithId, In, Out, OnFindOneIn, OnFindManyIn> CRUDBehaviors for WithIdBehaviors<
    Repo,
    In,
    Out,
    OnFindOneIn,
    OnFindManyIn,
> where WithId<Repo::Model>: Convertible<Out> {
    type Ctx = Repo::Ctx;
    type CreateIn = In;
    type UpdateIn = WithId<In>;
    type DeleteIn = Id;
    type FindOneIn = OnFindOneIn;
    type FindManyIn = OnFindManyIn;
    type FindOneOut = Option<Out>;
    type FindManyOut = ConvertibleTryStream<Out, WithId<Repo::Model>, Repo::Row>;
    type Create = WithIdCreateBehavior<Repo>;
    type Update = WithIdUpdateBehavior<Repo>;
    type Delete = WithIdDeleteBehavior<Repo>;
    type FindOne = WithIdFindOneBehavior<Repo>;
    type FindMany = WithIdFindManyBehavior<Repo>;
}

/// The outcome of replacing one record, from the store's counts of records
/// modified and matched: one and one is success, none and none means the
/// record does not exist, anything else is a failed update.
pub fn replace_outcome(modified: u64, matched: u64) -> (r: Result<()>)
    ensures
        modified == 1 && matched == 1 ==> r is Ok,
        modified == 0 && matched == 0 ==> r == Err::<(), Error>(Error::Message("not found!")),
        !(modified == 1 && matched == 1) && !(modified == 0 && matched == 0) ==> r == Err::<(), Error>(
            Error::Message("cannot update!"),
        ),
{
    if modified == 1 && matched == 1 {
        Ok(())
    } else if modified == 0 && matched == 0 {
        Err(simple_error("not found!"))
    } else {
        Err(simple_error("cannot update!"))
    }
}

/// The outcome of deleting one record, from the store's count of records
/// deleted: exactly one is success.
pub fn delete_outcome(deleted: u64) -> (r: Result<()>)
    ensures
        deleted == 1 ==> r is Ok,
        deleted != 1 ==> r == Err::<(), Error>(Error::Message("cannot update!")),
{
    if deleted == 1 {
        Ok(())
    } else {
        Err(simple_error("cannot update!"))
    }
}

/// Whether a record is about to be created, or the record with the given id
/// updated.
pub enum CreateOrUpdate {
    Create,
    Update(Id),
}

/// The lookup that finds a record clashing with one whose `field` holds
/// `value`: any such record on create, any other such record on update.
pub open spec fn clash_query(field: Seq<char>, value: Seq<char>, cu: CreateOrUpdate) -> QueryView {
    match cu {
        CreateOrUpdate::Create => QueryView::FieldEquals { field, value },
        CreateOrUpdate::Update(id) => QueryView::FieldEqualsOtherThan { field, value, except: id },
    }
}

/// The error for a clash.
pub open spec fn clash_error(cu: CreateOrUpdate) -> Error {
    match cu {
        CreateOrUpdate::Create => Error::Message("not unique on create"),
        CreateOrUpdate::Update(_) => Error::Message("not unique on update"),
    }
}

/// The outcomes of checking, under `ctx`, that no other record's `field`
/// holds `value`: the store looks up a clashing record; none found passes,
/// one found is a clash, and a failed lookup is relayed.
pub open spec fn unique_under<Repo: RepositoryWithId>(
    ctx: Repo::Ctx,
    field: Seq<char>,
    value: Seq<char>,
    cu: CreateOrUpdate,
    r: Result<()>,
) -> bool {
    exists|q: Query, f: Result<Option<WithId<Repo::Model>>>|
        q@ == clash_query(field, value, cu) && #[trigger] Repo::finds_one(ctx, q, f) && match f {
            Ok(None) => r is Ok,
            Ok(Some(_)) => r == Err::<(), Error>(clash_error(cu)),
            Err(e) => r == Err::<(), Error>(e),
        }
}

/// Checks that no other record's `field` holds `value`: looks up a clashing
/// record, and fails if the lookup fails or finds one.
pub fn validate_uniqueness<Repo: RepositoryWithId>(
    field: &str,
    value: &str,
    repo: &Repo,
    cu: CreateOrUpdate,
) -> (r: Result<()>)
    ensures
        unique_under::<Repo>(repo.context(), field@, value@, cu, r),
{
    let field_s = String::from_str(field);
    let value_s = String::from_str(value);
    let query = match cu {
        CreateOrUpdate::Create => Query::FieldEquals { field: field_s, value: value_s },
        CreateOrUpdate::Update(id) => Query::FieldEqualsOtherThan {
            field: field_s,
            value: value_s,
            except: id,
        },
    };
    let ghost q = query;
    let found = repo.find_one(query);
    let ghost f = found;
    let r = match found {
        Err(e) => Err(e),
        Ok(Some(_)) => match cu {
            CreateOrUpdate::Create => Err(simple_error("not unique on create")),
            CreateOrUpdate::Update(_) => Err(simple_error("not unique on update")),
        },
        Ok(None) => Ok(()),
    };
    assert(Repo::finds_one(repo.context(), q, f));
    r
}

/// A check of a record before it is created or updated.
pub trait Validator {
    type Model;
    type Ctx;

    /// The outcomes the check may have; a validator that states none may
    /// have any.
    open spec fn accepts(cu: CreateOrUpdate, model: Self::Model, ctx: Self::Ctx, r: Result<()>) -> bool {
        true
    }

    fn validate(cu: CreateOrUpdate, model: &Self::Model, ctx: &Self::Ctx) -> (r: Result<()>)
        ensures
            Self::accepts(cu, *model, *ctx, r),
    ;
}

/// The validator that accepts every record.
pub struct DefaultValidate<Model, Ctx> {
    p: PhantomData<(Model, Ctx)>,
}

impl<Model, Ctx> Validator for DefaultValidate<Model, Ctx> {
    type Model = Model;
    type Ctx = Ctx;

    open spec fn accepts(cu: CreateOrUpdate, model: Model, ctx: Ctx, r: Result<()>) -> bool {
        r == Ok::<(), Error>(())
    }

    fn validate(cu: CreateOrUpdate, model: &Model, ctx: &Ctx) -> (r: Result<()>) {
        Ok(())
    }
}

/// The outcome of a write that runs after a check with outcome `v`: a
/// failed check is the outcome, and the write does not happen.
pub open spec fn checked_then<T>(v: Result<()>, write: spec_fn(Result<T>) -> bool, r: Result<T>) -> bool {
    match v {
        Ok(_) => write(r),
        Err(e) => r == Err::<T, Error>(e),
    }
}

/// A store whose records are checked by `V` before they are created or
/// updated; a record that fails the check is not written.
pub struct ValidatedRepositoryWithId<R: RepositoryWithId, V: Validator<Model = R::Model, Ctx = R::Ctx>> {
    inner: R,
    p: PhantomData<V>,
}

impl<R: RepositoryWithId, V: Validator<Model = R::Model, Ctx = R::Ctx>> RepositoryWithId for ValidatedRepositoryWithId<R, V> {
    type Model = R::Model;
    type Ctx = R::Ctx;
    type Row = R::Row;

    closed spec fn context(&self) -> R::Ctx {
        self.inner.context()
    }

    fn ctx(&self) -> (c: &R::Ctx) {
        self.inner.ctx()
    }

    open spec fn creates(ctx: R::Ctx, model: R::Model, r: Result<Id>) -> bool {
        exists|v: Result<()>|
            #[trigger] V::accepts(CreateOrUpdate::Create, model, ctx, v) && checked_then(
                v,
                |w: Result<Id>| R::creates(ctx, model, w),
                r,
            )
    }

    open spec fn updates(ctx: R::Ctx, model: WithId<R::Model>, r: Result<()>) -> bool {
        exists|v: Result<()>|
            #[trigger] V::accepts(CreateOrUpdate::Update(model.0), model.1, ctx, v) && checked_then(
                v,
                |w: Result<()>| R::updates(ctx, model, w),
                r,
            )
    }

    open spec fn deletes(ctx: R::Ctx, id: Id, r: Result<()>) -> bool {
        R::deletes(ctx, id, r)
    }

    open spec fn finds_one(ctx: R::Ctx, query: Query, r: Result<Option<WithId<R::Model>>>) -> bool {
        R::finds_one(ctx, query, r)
    }

    open spec fn finds_many(
        ctx: R::Ctx,
        query: Query,
        order: Option<Order>,
        r: Result<ConvertibleStream<WithId<R::Model>, R::Row>>,
    ) -> bool {
        R::finds_many(ctx, query, order, r)
    }

    fn new(ctx: &R::Ctx) -> (s: Self) {
        ValidatedRepositoryWithId { inner: R::new(ctx), p: PhantomData }
    }

    fn create(&self, model: &R::Model) -> (r: Result<Id>) {
        let v = V::validate(CreateOrUpdate::Create, model, self.inner.ctx());
        let ghost g = v;
        let r = match v {
            Ok(()) => self.inner.create(model),
            Err(e) => Err(e),
        };
        assert(V::accepts(CreateOrUpdate::Create, *model, self.context(), g));
        r
    }

    fn update(&self, model: &WithId<R::Model>) -> (r: Result<()>) {
        let v = V::validate(CreateOrUpdate::Update(model.0), &model.1, self.inner.ctx());
        let ghost g = v;
        let r = match v {
            Ok(()) => self.inner.update(model),
            Err(e) => Err(e),
        };
        assert(V::accepts(CreateOrUpdate::Update(model.0), model.1, self.context(), g));
        r
    }

    fn delete(&self, id: &Id) -> (r: Result<()>) {
        self.inner.delete(id)
    }

    fn find_one(&self, query: Query) -> (r: Result<Option<WithId<R::Model>>>) {
        self.inner.find_one(query)
    }

    fn find_many(&self, query: Query, order: Option<Order>) -> (r: Result<
        ConvertibleStream<WithId<R::Model>, R::Row>,
    >) {
        self.inner.find_many(query, order)
    }
}

} // verus!

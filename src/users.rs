//! Users, the hook that reports who is calling, and the user service.
use core::marker::PhantomData;
use vstd::prelude::*;

use crate::behavior::{Behave, BehaveDef, PanicBehave};
use crate::callable::{Callable, Convertible, Deny, Validate, ValidateRefDef};
use crate::result::{Error, Result};
use crate::service::{
    CRUDBehaviors, CRUDHook, CRUDSevice, FromHookResult, HookResult, SimpleCRUDServiceDef,
};
use crate::store::{
    unique_under, validate_uniqueness, ConvertibleTryStream, CreateOrUpdate, DeleteId,
    FindManyArgument, FindOneArgument, Id, Query, RepositoryWithId, Validator, WithId,
    WithIdDeleteBehavior, WithIdFindManyBehavior, WithIdFindOneBehavior,
};

verus! {

/// A user of the service; an admin may act on other users.
#[derive(Clone, Debug)]
pub struct User {
    pub name: String,
    admin: bool,
}

impl User {
    /// The user's name.
    pub closed spec fn name(&self) -> String {
        self.name
    }

    /// Whether the user is an admin.
    pub closed spec fn admin(&self) -> bool {
        self.admin
    }

    /// A user who is not an admin.
    pub fn new(name: String) -> (u: Self)
        ensures
            u.name() == name,
            !u.admin(),
    {
        User { name, admin: false }
    }

    /// A user who is an admin.
    pub fn new_admin_user(name: String) -> (u: Self)
        ensures
            u.name() == name,
            u.admin(),
    {
        User { name, admin: true }
    }

    pub fn is_admin(&self) -> (r: bool)
        ensures
            r == self.admin(),
    {
        self.admin
    }
}

/// The collection that holds users.
pub struct UserCfg {}

impl UserCfg {
    pub fn collection_name() -> (r: &'static str)
        ensures
            r == "User",
    {
        "User"
    }
}

/// The check of a user before it is stored: no other user may have the
/// same name.
pub struct UserValidator<Repo: RepositoryWithId<Model = User>> {
    p: PhantomData<Repo>,
}

impl<Repo: RepositoryWithId<Model = User>> Validator for UserValidator<Repo> {
    type Model = User;
    type Ctx = Repo::Ctx;

    open spec fn accepts(cu: CreateOrUpdate, model: User, ctx: Repo::Ctx, r: Result<()>) -> bool {
        unique_under::<Repo>(ctx, "name"@, model.name()@, cu, r)
    }

    fn validate(cu: CreateOrUpdate, model: &User, ctx: &Repo::Ctx) -> (r: Result<()>) {
        let repo = Repo::new(ctx);
        validate_uniqueness("name", model.name.as_str(), &repo, cu)
    }
}

/// A hook's output.
pub struct Wrap<T> {
    pub value: T,
}

impl<T> Wrap<T> {
    pub fn new(value: T) -> (w: Self)
        ensures
            w.value == value,
    {
        Wrap { value }
    }
}

impl<T> HookResult for Wrap<T> {}

/// The user who is calling, if anyone is logged in.
pub type AuthInfo = Option<WithId<User>>;

/// The context of a request: a handle on the store, and the caller.
#[derive(Clone)]
pub struct Context<S> {
    pub store: S,
    pub user: AuthInfo,
}

impl<S> Context<S> {
    pub fn new(store: S, user: AuthInfo) -> (c: Self)
        ensures
            c.store == store,
            c.user == user,
    {
        Context { store, user }
    }
}

/// Whether `a` and `b` describe the same caller: the same id, name and
/// admin flag.
pub open spec fn same_caller(a: AuthInfo, b: AuthInfo) -> bool {
    match (a, b) {
        (None, None) => true,
        (Some(x), Some(y)) => x.0 == y.0 && x.1.name()@ == y.1.name()@ && x.1.admin() == y.1.admin(),
        _ => false,
    }
}

fn copy_caller(info: &AuthInfo) -> (r: AuthInfo)
    ensures
        same_caller(r, *info),
{
    match info {
        Some(u) => Some(WithId(u.0, User { name: u.1.name.clone(), admin: u.1.admin })),
        None => None,
    }
}

/// The hook of the user service: reports who is calling.
pub struct AuthHookBehavior<S> {
    p: PhantomData<S>,
}

impl<S> BehaveDef for AuthHookBehavior<S> {
    type In = ();
    type Out = Wrap<AuthInfo>;
    type Ctx = Context<S>;

    open spec fn produces(input: (), ctx: Context<S>, r: Result<Wrap<AuthInfo>>) -> bool {
        r is Ok && same_caller(r->Ok_0.value, ctx.user)
    }

    fn def(input: (), ctx: &Context<S>) -> (r: Result<Wrap<AuthInfo>>) {
        Ok(Wrap::new(copy_caller(&ctx.user)))
    }
}

/// Lets a request through only if someone is logged in.
pub struct OnlyLoggedInDef;

impl ValidateRefDef for OnlyLoggedInDef {
    type T = Wrap<AuthInfo>;

    open spec fn checks(input: Wrap<AuthInfo>, r: Result<()>) -> bool {
        r == if input.value is Some {
            Ok::<(), Error>(())
        } else {
            Err(Error::Message("user not logged in"))
        }
    }

    fn def(input: &Wrap<AuthInfo>) -> (r: Result<()>) {
        if input.value.is_some() {
            Ok(())
        } else {
            Err(Error::Message("user not logged in"))
        }
    }
}

/// The check of admin-only operations: lets through any logged-in caller;
/// what a caller who is not an admin may do is decided by the converters.
pub struct OnlyAdminDef;

impl ValidateRefDef for OnlyAdminDef {
    type T = Wrap<AuthInfo>;

    open spec fn checks(input: Wrap<AuthInfo>, r: Result<()>) -> bool {
        r == if input.value is Some {
            Ok::<(), Error>(())
        } else {
            Err(Error::Message("invalid user"))
        }
    }

    fn def(input: &Wrap<AuthInfo>) -> (r: Result<()>) {
        if input.value.is_some() {
            Ok(())
        } else {
            Err(Error::Message("invalid user"))
        }
    }
}

/// The hook of the user service, with the check of each operation.
pub struct AuthHook<OnCreate, OnUpdate, OnDelete, OnFindOne, OnFindMany, S> {
    p: PhantomData<(OnCreate, OnUpdate, OnDelete, OnFindOne, OnFindMany, S)>,
}

impl<OnCreate, OnUpdate, OnDelete, OnFindOne, OnFindMany, S> CRUDHook for AuthHook<
    OnCreate,
    OnUpdate,
    OnDelete,
    OnFindOne,
    OnFindMany,
    S,
> where
    OnCreate: Callable<In = Wrap<AuthInfo>, Out = Wrap<AuthInfo>>,
    OnUpdate: Callable<In = Wrap<AuthInfo>, Out = Wrap<AuthInfo>>,
    OnDelete: Callable<In = Wrap<AuthInfo>, Out = Wrap<AuthInfo>>,
    OnFindOne: Callable<In = Wrap<AuthInfo>, Out = Wrap<AuthInfo>>,
    OnFindMany: Callable<In = Wrap<AuthInfo>, Out = Wrap<AuthInfo>>,
 {
    type Ctx = Context<S>;
    type HookOut = Wrap<AuthInfo>;
    type Hook = Behave<AuthHookBehavior<S>>;
    type OnCreate = OnCreate;
    type OnUpdate = OnUpdate;
    type OnDelete = OnDelete;
    type OnFindOne = OnFindOne;
    type OnFindMany = OnFindMany;
}

pub type OnlyLoggedIn = Validate<OnlyLoggedInDef>;

pub type DenyAll = Deny<Wrap<AuthInfo>>;

pub type OnlyAdmin = Validate<OnlyAdminDef>;

/// The input of a lookup or deletion of one user: the user's id, or none
/// for the caller themself.
pub struct UserFindOneInput {
    pub id: Option<Id>,
}

/// A user as callers see it.
#[derive(Debug)]
pub struct UserOutput {
    pub id: Id,
    pub name: String,
}

impl Convertible<UserOutput> for WithId<User> {
    open spec fn converts(self, r: Result<UserOutput>) -> bool {
        r == Ok::<UserOutput, Error>(UserOutput { id: self.0, name: self.1.name() })
    }

    fn convert(self) -> (r: Result<UserOutput>) {
        Ok(UserOutput { id: self.0, name: self.1.name })
    }
}

/// The user a caller may act on when asking for `requested`: an admin may
/// act on anyone (themself by default), any other caller only on themself;
/// nobody logged in is an error.
pub open spec fn permitted_target(caller: AuthInfo, requested: Option<Id>) -> Result<Id> {
    match caller {
        Some(user) => if user.1.admin() {
            match requested {
                Some(id) => Ok(id),
                None => Ok(user.0),
            }
        } else if requested is None {
            Ok(user.0)
        } else {
            Err(Error::Message("auth error"))
        },
        None => Err(Error::Message("unexpected")),
    }
}

fn target_of(caller: AuthInfo, requested: Option<Id>) -> (r: Result<Id>)
    ensures
        r == permitted_target(caller, requested),
{
    match caller {
        Some(user) => {
            if user.1.is_admin() {
                match requested {
                    Some(id) => Ok(id),
                    None => Ok(user.0),
                }
            } else if requested.is_none() {
                Ok(user.0)
            } else {
                Err(Error::Message("auth error"))
            }
        },
        None => Err(Error::Message("unexpected")),
    }
}

impl FromHookResult<Wrap<AuthInfo>, UserFindOneInput> for FindOneArgument {
    open spec fn builds(
        h: Wrap<AuthInfo>,
        input: UserFindOneInput,
        r: Result<FindOneArgument>,
    ) -> bool {
        r == match permitted_target(h.value, input.id) {
            Ok(id) => Ok(FindOneArgument(Query::ById(id))),
            Err(e) => Err(e),
        }
    }

    fn from_hook_result(h: Wrap<AuthInfo>, input: UserFindOneInput) -> (r: Result<
        FindOneArgument,
    >) {
        match target_of(h.value, input.id) {
            Ok(id) => Ok(FindOneArgument(Query::ById(id))),
            Err(e) => Err(e),
        }
    }
}

impl FromHookResult<Wrap<AuthInfo>, UserFindOneInput> for DeleteId {
    open spec fn builds(h: Wrap<AuthInfo>, input: UserFindOneInput, r: Result<DeleteId>) -> bool {
        r == match permitted_target(h.value, input.id) {
            Ok(id) => Ok(DeleteId(id)),
            Err(e) => Err(e),
        }
    }

    fn from_hook_result(h: Wrap<AuthInfo>, input: UserFindOneInput) -> (r: Result<DeleteId>) {
        match target_of(h.value, input.id) {
            Ok(id) => Ok(DeleteId(id)),
            Err(e) => Err(e),
        }
    }
}

impl FromHookResult<Wrap<AuthInfo>, ()> for FindManyArgument {
    /// Only an admin may list users, and then all of them.
    open spec fn builds(h: Wrap<AuthInfo>, input: (), r: Result<FindManyArgument>) -> bool {
        r == match h.value {
            Some(user) => if user.1.admin() {
                Ok(FindManyArgument(Query::All, None))
            } else {
                Err(Error::Message("unexpected"))
            },
            None => Err(Error::Message("unexpected")),
        }
    }

    fn from_hook_result(h: Wrap<AuthInfo>, input: ()) -> (r: Result<FindManyArgument>) {
        if let Some(user) = h.value {
            if user.1.is_admin() {
                return Ok(FindManyArgument(Query::All, None));
            }
        }
        Err(Error::Message("unexpected"))
    }
}

/// The core stages of the user service over a store of users: creating and
/// updating are not offered; deleting and lookups go to the store.
pub struct UserBehavior<Repo: RepositoryWithId<Model = User>> {
    p: PhantomData<Repo>,
}

impl<Repo: RepositoryWithId<Model = User>> CRUDBehaviors for UserBehavior<Repo> {
    type Ctx = Repo::Ctx;
    type CreateIn = ();
    type UpdateIn = ();
    type DeleteIn = UserFindOneInput;
    type FindOneIn = UserFindOneInput;
    type FindManyIn = ();
    type FindOneOut = Option<UserOutput>;
    type FindManyOut = ConvertibleTryStream<UserOutput, WithId<User>, Repo::Row>;
    type Create = PanicBehave<(), WithId<User>, Repo::Ctx>;
    type Update = PanicBehave<(), WithId<User>, Repo::Ctx>;
    type Delete = WithIdDeleteBehavior<Repo>;
    type FindOne = WithIdFindOneBehavior<Repo>;
    type FindMany = WithIdFindManyBehavior<Repo>;
}

/// The user service: nobody may create or update through it; deleting and
/// looking up one user need a logged-in caller; listing needs an admin.
pub type UserService<S, Repo> = CRUDSevice<
    SimpleCRUDServiceDef<
        UserBehavior<Repo>,
        AuthHook<DenyAll, DenyAll, OnlyLoggedIn, OnlyLoggedIn, OnlyAdmin, S>,
    >,
>;

} // verus!

use std::cell::RefCell;
use std::rc::Rc;

use ringoro::callable::Convertible;
use ringoro::result::{Error, Result};
use ringoro::store::{
    delete_outcome, ConvertibleStream, CreateOrUpdate, Id, Order, Query, RepositoryWithId, Validator,
    WithId,
};
use ringoro::users::{Context, User, UserFindOneInput, UserService, UserValidator, Wrap};

#[derive(Clone)]
struct Record(Id, String, bool);

impl Convertible<WithId<User>> for Record {
    fn convert(self) -> Result<WithId<User>> {
        Ok(WithId(self.0, to_user(&self)))
    }
}

fn to_user(r: &Record) -> User {
    if r.2 {
        User::new_admin_user(r.1.clone())
    } else {
        User::new(r.1.clone())
    }
}

type Users = Rc<RefCell<Vec<Record>>>;
type Ctx = Context<Users>;

struct UserRepository {
    ctx: Ctx,
    users: Users,
}

impl RepositoryWithId for UserRepository {
    type Model = User;
    type Ctx = Ctx;
    type Row = Record;

    fn context(&self) -> Ctx {
        self.ctx.clone()
    }

    fn ctx(&self) -> &Ctx {
        &self.ctx
    }

    fn new(ctx: &Ctx) -> Self {
        UserRepository { ctx: ctx.clone(), users: ctx.store.clone() }
    }

    fn create(&self, _model: &User) -> Result<Id> {
        Err(Error::Message("read only"))
    }

    fn update(&self, _model: &WithId<User>) -> Result<()> {
        Err(Error::Message("read only"))
    }

    fn delete(&self, target: &Id) -> Result<()> {
        let mut users = self.users.borrow_mut();
        let before = users.len();
        users.retain(|r| r.0 != *target);
        delete_outcome((before - users.len()) as u64)
    }

    fn find_one(&self, query: Query) -> Result<Option<WithId<User>>> {
        let users = self.users.borrow();
        let found = users.iter().find(|r| match &query {
            Query::All => true,
            Query::ById(i) => r.0 == *i,
            Query::FieldEquals { field, value } => field == "name" && r.1 == *value,
            Query::FieldEqualsOtherThan { field, value, except } => {
                field == "name" && r.1 == *value && r.0 != *except
            }
        });
        Ok(found.map(|r| WithId(r.0, to_user(r))))
    }

    fn find_many(&self, query: Query, _order: Option<Order>) -> Result<ConvertibleStream<WithId<User>, Record>> {
        match query {
            Query::All => Ok(ConvertibleStream::from(self.users.borrow().clone())),
            _ => Ok(ConvertibleStream::from(Vec::new())),
        }
    }
}

type Service = UserService<Users, UserRepository>;

fn id(n: u8) -> Id {
    let mut bytes = [0u8; 12];
    bytes[0] = n;
    Id { bytes }
}

fn store(records: Vec<Record>) -> Users {
    Rc::new(RefCell::new(records))
}

fn akari() -> Record {
    Record(id(1), String::from("akari"), false)
}

fn akira_admin() -> Record {
    Record(id(2), String::from("akira"), true)
}

fn akira() -> Record {
    Record(id(2), String::from("akira"), false)
}

fn login(users: &Users, who: Option<&Record>) -> Ctx {
    Context::new(users.clone(), who.map(|r| WithId(r.0, to_user(r))))
}

fn names(users: &Users) -> Vec<String> {
    users.borrow().iter().map(|r| r.1.clone()).collect()
}

#[test]
fn test_crate_with_deny() {
    let users = store(vec![akira_admin()]);
    let r = Service::create((), &login(&users, Some(&akira_admin())));
    assert_eq!("Deny", r.unwrap_err().message());
}

#[test]
fn test_update_with_deny() {
    let users = store(vec![akira_admin()]);
    let r = Service::update((), &login(&users, Some(&akira_admin())));
    assert_eq!("Deny", r.unwrap_err().message());
}

#[test]
fn test_delete_with_valid_user() {
    let users = store(vec![akari()]);
    let input = UserFindOneInput { id: None };
    Service::delete(input, &login(&users, Some(&akari()))).unwrap();
    assert_eq!(0, users.borrow().len());
}

#[test]
fn test_delete_with_admin_user() {
    let users = store(vec![akari(), akira_admin()]);
    let input = UserFindOneInput { id: Some(akari().0) };
    Service::delete(input, &login(&users, Some(&akira_admin()))).unwrap();
    assert_eq!(1, users.borrow().len());
    assert_eq!(vec![String::from("akira")], names(&users));
}

#[test]
fn test_delete_with_nologin() {
    let users = store(vec![akari()]);
    let input = UserFindOneInput { id: None };
    let r = Service::delete(input, &login(&users, None));
    assert_eq!("user not logged in", r.unwrap_err().message());
    assert_eq!(1, users.borrow().len());
}

#[test]
fn test_delete_with_not_admin_user() {
    let users = store(vec![akari(), akira()]);
    let input = UserFindOneInput { id: Some(akira().0) };
    let r = Service::delete(input, &login(&users, Some(&akari())));
    assert_eq!("Fail in convert: auth error", r.unwrap_err().message());
    assert_eq!(2, users.borrow().len());
}

#[test]
fn test_find_one_with_valid_user() {
    let users = store(vec![akari()]);
    let input = UserFindOneInput { id: None };
    let result = Service::find_one(input, &login(&users, Some(&akari()))).unwrap().unwrap();
    assert_eq!("akari", result.name);
}

#[test]
fn test_find_one_with_admin_user() {
    let users = store(vec![akari(), akira_admin()]);
    let input = UserFindOneInput { id: Some(akari().0) };
    let result = Service::find_one(input, &login(&users, Some(&akira_admin()))).unwrap().unwrap();
    assert_eq!("akari", result.name);
    assert_eq!(akari().0, result.id);
}

#[test]
fn test_find_one_with_nologin() {
    let users = store(vec![akari()]);
    let input = UserFindOneInput { id: None };
    let _ = Service::find_one(input, &login(&users, None)).err().unwrap();
}

#[test]
fn test_find_one_with_not_admin_user() {
    let users = store(vec![akari(), akira()]);
    let input = UserFindOneInput { id: Some(akira().0) };
    let r = Service::find_one(input, &login(&users, Some(&akari())));
    assert_eq!("Fail in convert: auth error", r.err().unwrap().message());
}

#[test]
fn test_find_many_with_admin_user() {
    let users = store(vec![akari(), akira_admin()]);
    let mut items = Service::find_many((), &login(&users, Some(&akira_admin()))).ok().unwrap();
    let mut found = Vec::new();
    while let Some(item) = items.next_item() {
        found.push(item.ok().unwrap().name);
    }
    assert_eq!(2, found.len());
}

#[test]
fn test_find_many_with_not_admin_user() {
    let users = store(vec![akari(), akira_admin()]);
    let r = Service::find_many((), &login(&users, Some(&akari())));
    assert_eq!("Fail in convert: unexpected", r.err().unwrap().message());
}

#[test]
fn test_find_many_with_no_login() {
    let users = store(vec![akari(), akira_admin()]);
    let r = Service::find_many((), &login(&users, None));
    assert_eq!("invalid user", r.err().unwrap().message());
}

#[test]
fn user_constructors_set_admin_flag() {
    let u = User::new(String::from("akari"));
    assert!(!u.is_admin());
    assert_eq!("akari", u.name);
    assert!(User::new_admin_user(String::from("akira")).is_admin());
    let w = Wrap::new(3);
    assert_eq!(3, w.value);
}

#[test]
fn user_name_must_be_unique_on_create() {
    let users = store(vec![akari()]);
    let ctx = login(&users, None);
    let r = UserValidator::<UserRepository>::validate(CreateOrUpdate::Create, &User::new(String::from("akari")), &ctx);
    assert_eq!("not unique on create", r.unwrap_err().message());
    let r = UserValidator::<UserRepository>::validate(CreateOrUpdate::Create, &User::new(String::from("rin")), &ctx);
    assert!(r.is_ok());
}

#[test]
fn user_name_may_stay_on_update() {
    let users = store(vec![akari(), akira()]);
    let ctx = login(&users, None);
    let same = UserValidator::<UserRepository>::validate(
        CreateOrUpdate::Update(akari().0),
        &User::new(String::from("akari")),
        &ctx,
    );
    assert!(same.is_ok());
    let taken = UserValidator::<UserRepository>::validate(
        CreateOrUpdate::Update(akari().0),
        &User::new(String::from("akira")),
        &ctx,
    );
    assert_eq!("not unique on update", taken.unwrap_err().message());
}

use ringoro::callable::{
    Call, Callable, Composit, Convert, Convertible, Def, Deny, Panic, RefCall, RefDef, Through,
    Validate, ValidateRefDef,
};
use ringoro::result::{simple_error, Error, Result};

type In = i8;
type Out = String;

struct CallDefSuccess {}

impl Def for CallDefSuccess {
    type In = In;
    type Out = Out;
    fn def(i: In) -> Result<Out> {
        Ok(format!("{}", i))
    }
}

struct CallDefFail {}

impl Def for CallDefFail {
    type In = In;
    type Out = Out;
    fn def(i: In) -> Result<Out> {
        Err(Error::Custom(format!("{}", i)))
    }
}

#[test]
fn test_call_define_with_success() {
    let i = 1;
    let runner = Call::<CallDefSuccess>::apply(i);
    assert_eq!("1", runner.result().unwrap());
}

#[test]
fn test_call_define_with_error() {
    let i = 1;
    let runner = Call::<CallDefFail>::apply(i);
    assert_eq!("1", runner.result().unwrap_err().message());
}

struct RefCallDefSuccess {}

impl RefDef for RefCallDefSuccess {
    type In = In;
    type Out = Out;
    fn def(i: &In) -> Result<Out> {
        Ok(format!("{}", i))
    }
}

struct RefCallDefFail {}

impl RefDef for RefCallDefFail {
    type In = In;
    type Out = Out;
    fn def(i: &In) -> Result<Out> {
        Err(Error::Custom(format!("{}", i)))
    }
}

#[test]
fn test_ref_call_define_with_success() {
    let i = 1;
    let runner = RefCall::<RefCallDefSuccess>::apply(i);
    assert_eq!("1", runner.result().unwrap());
}

#[test]
fn test_ref_call_define_with_error() {
    let i = 1;
    let runner = RefCall::<RefCallDefFail>::apply(i);
    assert_eq!("1", runner.result().unwrap_err().message());
}

struct CIn(i8);
struct Mid(i8);

#[derive(Debug, PartialEq)]
struct COut(i8);

struct DefFSuccess {}

impl Def for DefFSuccess {
    type In = Mid;
    type Out = COut;
    fn def(i: Mid) -> Result<COut> {
        Ok(COut(i.0 + 1))
    }
}

struct DefFFail {}

impl Def for DefFFail {
    type In = Mid;
    type Out = COut;
    fn def(i: Mid) -> Result<COut> {
        Err(Error::Custom(format!("{}", i.0 + 1)))
    }
}

struct DefFPanic {}

impl Def for DefFPanic {
    type In = Mid;
    type Out = COut;
    fn def(_: Mid) -> Result<COut> {
        panic!()
    }
}

struct DefGSuccess {}

impl Def for DefGSuccess {
    type In = CIn;
    type Out = Mid;
    fn def(i: CIn) -> Result<Mid> {
        Ok(Mid(i.0 + 2))
    }
}

struct DefGFail {}

impl Def for DefGFail {
    type In = CIn;
    type Out = Mid;
    fn def(i: CIn) -> Result<Mid> {
        Err(Error::Custom(format!("{}", i.0 + 2)))
    }
}

type CompositSuccess = Composit<Call<DefFSuccess>, Call<DefGSuccess>>;

#[test]
fn composit_test_composit_successed() {
    let input = CIn(1);
    assert_eq!(COut(4), CompositSuccess::apply(input).result().unwrap());
}

type CompositFailOnF = Composit<Call<DefFFail>, Call<DefGSuccess>>;

#[test]
fn composit_test_composit_error_on_f() {
    let input = CIn(1);
    assert_eq!("4", CompositFailOnF::apply(input).result().unwrap_err().message());
}

type CompositFailOnG = Composit<Call<DefFPanic>, Call<DefGFail>>;

#[test]
fn composit_test_composit_error_on_g() {
    let input = CIn(1);
    assert_eq!("3", CompositFailOnG::apply(input).result().unwrap_err().message());
}

pub struct A(i8);
#[derive(Debug, PartialEq)]
pub struct B(String);

pub struct C(i8);
#[derive(Debug, PartialEq)]
pub struct D(String);

impl Convertible<B> for A {
    fn convert(self) -> Result<B> {
        Ok(B(format!("{}", self.0)))
    }
}

impl Convertible<D> for C {
    fn convert(self) -> Result<D> {
        if self.0 < 10 {
            Ok(D(format!("{}", self.0)))
        } else {
            Err(Error::Custom(String::from("()")))
        }
    }
}

#[test]
fn test_try_from_with_from() {
    assert_eq!(B("100".into()), Convert::<A, B>::apply(A(100)).result().unwrap())
}

#[test]
fn test_try_from_with_try_from_success() {
    assert_eq!(D("9".into()), Convert::<C, D>::apply(C(9)).result().unwrap())
}

#[test]
fn test_try_from_with_try_from_fail() {
    assert_eq!(
        "Fail in conv",
        &Convert::<C, D>::apply(C(10)).result().unwrap_err().message()[..12]
    )
}

#[derive(Debug, PartialEq)]
struct V(i8);

struct Define {}

impl ValidateRefDef for Define {
    type T = V;
    fn def(i: &V) -> Result<()> {
        let val = i.0;
        if val < 10 {
            Ok(())
        } else {
            Err(Error::Custom(format!("{}", val)))
        }
    }
}

#[test]
fn test_validate_success() {
    assert_eq!(V(1), Validate::<Define>::apply(V(1)).result().unwrap())
}

#[test]
fn test_validat_fail() {
    assert_eq!("20", Validate::<Define>::apply(V(20)).result().unwrap_err().message())
}

#[test]
fn test_through() {
    assert_eq!(V(1), Through::<V>::apply(V(1)).result().unwrap())
}

#[test]
fn test_deny() {
    assert_eq!("Deny", Deny::<V>::apply(V(20)).result().unwrap_err().message())
}

#[test]
fn test_simple_error() {
    let e = simple_error("hoge moge");
    assert_eq!("hoge moge", e.message());
    let e = Error::Custom(format!("{} {}", "hoge", "moge"));
    assert_eq!("hoge moge", e.message());
}

#[test]
fn panic_stage_reports_unimplemented() {
    let r = Panic::<i8, i8>::apply(3).result();
    assert!(matches!(r, Err(Error::Unimplemented)));
    assert_eq!("not implemented", r.unwrap_err().message());
}

//! The error that every stage reports.
use vstd::prelude::*;
use vstd::string::StringExecFns;

use crate::text::{append_decimal, decimal};

verus! {

/// Errors raised by the composition engine itself.
#[derive(Debug)]
pub enum FcompError {
    /// A converter stage could not produce the next stage's input; `reason`
    /// is the failure the conversion reported.
    ConvertType { reason: Box<Error> },
}

/// Why a hex string could not be decoded.
#[derive(Clone, Copy, Debug, PartialEq, Eq, Structural)]
pub enum HexError {
    InvalidCharacter { c: char, index: usize },
    OddLength,
    InvalidStringLength,
}

/// The error every stage reports; a pipeline relays it unchanged.
#[derive(Debug)]
pub enum Error {
    /// A failure the library describes with a fixed text (validation,
    /// authorization, store outcomes).
    Message(&'static str),
    /// A failure described by text its reporter composed.
    Custom(String),
    /// A failure of the engine's own converters.
    Fcomp(FcompError),
    /// A hex string that does not decode.
    Decode(HexError),
    /// An operation that was deliberately left unimplemented was invoked.
    Unimplemented,
}

pub type Result<T> = core::result::Result<T, Error>;

/// Builds a plain error with the fixed text `msg`.
pub fn simple_error(msg: &'static str) -> (e: Error)
    ensures
        e == Error::Message(msg),
{
    Error::Message(msg)
}

/// Fails with the given engine error.
pub fn raise<T>(err: FcompError) -> (r: Result<T>)
    ensures
        r == Err::<T, Error>(Error::Fcomp(err)),
{
    Err(Error::Fcomp(err))
}

/// The text that describes `e`.
pub open spec fn error_text(e: Error) -> Seq<char>
    decreases e,
{
    match e {
        Error::Message(m) => m@,
        Error::Custom(m) => m@,
        Error::Fcomp(FcompError::ConvertType { reason }) => "Fail in convert: "@ + error_text(
            *reason,
        ),
        Error::Decode(HexError::InvalidCharacter { c, index }) => "Invalid character at position "@
            + decimal(index as nat),
        Error::Decode(HexError::OddLength) => "Odd number of digits"@,
        Error::Decode(HexError::InvalidStringLength) => "Invalid string length"@,
        Error::Unimplemented => "not implemented"@,
    }
}

impl Error {
    /// The text that describes this error.
    pub fn message(&self) -> (r: String)
        ensures
            r@ == error_text(*self),
        decreases self,
    {
        match self {
            Error::Message(m) => String::from_str(m),
            Error::Custom(m) => m.clone(),
            Error::Fcomp(FcompError::ConvertType { reason }) => {
                let inner = reason.message();
                let mut out = String::from_str("Fail in convert: ");
                out.append(inner.as_str());
                out
            },
            Error::Decode(HexError::InvalidCharacter { c, index }) => {
                let mut out = String::from_str("Invalid character at position ");
                append_decimal(*index as u64, &mut out);
                out
            },
            Error::Decode(HexError::OddLength) => String::from_str("Odd number of digits"),
            Error::Decode(HexError::InvalidStringLength) => String::from_str(
                "Invalid string length",
            ),
            Error::Unimplemented => String::from_str("not implemented"),
        }
    }
}

} // verus!

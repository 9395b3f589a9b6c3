//! The service's configuration, and the values derived from it.
use vstd::prelude::*;
use vstd::string::StringExecFns;
use vstd::utf8::encode_utf8;

use crate::result::{Error, HexError, Result};
use crate::text::{append_decimal, decimal};

verus! {

/// The settings of the service.
pub struct Config {
    pub host: String,
    pub port: u16,
    pub db_uri: String,
    pub db_database: String,
    pub redis_address: String,
    pub session_key: String,
    pub twitter_consumer_key: String,
    pub twitter_consumer_secret: String,
    pub twitter_redirect_url: String,
}

/// The port used when none is configured.
pub fn default_port() -> (p: u16)
    ensures
        p == 8080,
{
    8080
}

/// Whether `b` is an ASCII hex digit.
pub open spec fn is_hex_digit(b: u8) -> bool {
    (48 <= b <= 57) || (65 <= b <= 70) || (97 <= b <= 102)
}

/// The value of the hex digit `b`.
pub open spec fn hex_value(b: u8) -> nat {
    if 48 <= b <= 57 {
        (b - 48) as nat
    } else if 65 <= b <= 70 {
        (b - 55) as nat
    } else {
        (b - 87) as nat
    }
}

/// The bytes that the hex digits `b` spell, two digits to a byte, the
/// first digit the high one.
pub open spec fn hex_bytes(b: Seq<u8>) -> Seq<u8> {
    Seq::new(b.len() / 2, |i: int| (hex_value(b[2 * i]) * 16 + hex_value(b[2 * i + 1])) as u8)
}

/// Relies on `hex::decode`: a string of even length whose bytes are all hex
/// digits decodes to the bytes they spell; an odd length is refused first;
/// otherwise the first byte that is not a hex digit is reported with its index.
#[verifier::external_body]
fn hex_decode(s: &str) -> (r: core::result::Result<Vec<u8>, HexError>)
    ensures
        encode_utf8(s@).len() % 2 == 1 ==> r is Err && r->Err_0 == HexError::OddLength,
        encode_utf8(s@).len() % 2 == 0 ==> (r is Ok <==> forall|i: int|
            0 <= i < encode_utf8(s@).len() ==> is_hex_digit(#[trigger] encode_utf8(s@)[i])),
        r is Ok ==> r->Ok_0@ == hex_bytes(encode_utf8(s@)),
        encode_utf8(s@).len() % 2 == 0 && r is Err ==> r->Err_0 is InvalidCharacter && ({
            let k = r->Err_0->InvalidCharacter_index as int;
            &&& k < encode_utf8(s@).len()
            &&& !is_hex_digit(encode_utf8(s@)[k])
            &&& r->Err_0->InvalidCharacter_c as u32 == encode_utf8(s@)[k] as u32
            &&& forall|j: int| 0 <= j < k ==> is_hex_digit(#[trigger] encode_utf8(s@)[j])
        }),
{
    match hex::decode(s) {
        Ok(v) => Ok(v),
        Err(hex::FromHexError::InvalidHexCharacter { c, index }) => Err(
            HexError::InvalidCharacter { c, index },
        ),
        Err(hex::FromHexError::OddLength) => Err(HexError::OddLength),
        Err(hex::FromHexError::InvalidStringLength) => Err(HexError::InvalidStringLength),
    }
}

impl Config {
    /// The address to listen on: `host:port`.
    pub fn bind_name(&self) -> (r: String)
        ensures
            r@ == self.host@ + seq![':'] + decimal(self.port as nat),
    {
        let mut out = self.host.clone();
        proof {
            reveal_strlit(":");
        }
        out.append(":");
        append_decimal(self.port as u64, &mut out);
        out
    }

    /// The session key, written in hex, as bytes.
    pub fn session_key_bin(&self) -> (r: Result<Vec<u8>>)
        ensures
            match r {
                Ok(v) => encode_utf8(self.session_key@).len() % 2 == 0 && v@ == hex_bytes(
                    encode_utf8(self.session_key@),
                ),
                Err(e) => e is Decode,
            },
            encode_utf8(self.session_key@).len() % 2 == 1 ==> r == Err::<Vec<u8>, Error>(
                Error::Decode(HexError::OddLength),
            ),
            encode_utf8(self.session_key@).len() % 2 == 0 ==> (r is Ok <==> forall|i: int|
                0 <= i < encode_utf8(self.session_key@).len() ==> is_hex_digit(
                    #[trigger] encode_utf8(self.session_key@)[i],
                )),
    {
        match hex_decode(self.session_key.as_str()) {
            Ok(v) => Ok(v),
            Err(e) => Err(Error::Decode(e)),
        }
    }
}

} // verus!

use bs58::decode::Error as Base58Error;
use hex::FromHexError;
use vstd::prelude::*;

use crate::error::Error;
use crate::object::Object;

verus! {

#[verifier::external_type_specification]
#[verifier::external_body]
pub struct ExFromHexError(FromHexError);

#[verifier::external_type_specification]
#[verifier::external_body]
pub struct ExBase58Error(Base58Error);

/// The value of a base16 digit, in either case.
pub open spec fn hex_digit_value(c: char) -> Option<u8> {
    let n = c as u32;
    if 48 <= n <= 57 {
        Some((n - 48) as u8)
    } else if 97 <= n <= 102 {
        Some((n - 87) as u8)
    } else if 65 <= n <= 70 {
        Some((n - 55) as u8)
    } else {
        None
    }
}

/// A base16 digit in lower case.
pub open spec fn is_lower_hex_digit(c: char) -> bool {
    let n = c as u32;
    (48 <= n <= 57) || (97 <= n <= 102)
}

/// The bytes that the base16 text `s` encodes, two digits to a byte, high
/// digit first; `None` for an odd length or a character that is no digit.
pub open spec fn hex_decoded(s: Seq<char>) -> Option<Seq<u8>> {
    if s.len() % 2 == 0 && forall|i: int| 0 <= i < s.len() ==> hex_digit_value(#[trigger] s[i]) is Some {
        Some(
            Seq::new(
                (s.len() / 2) as nat,
                |i: int|
                    (hex_digit_value(s[2 * i])->0 * 16 + hex_digit_value(s[2 * i + 1])->0) as u8,
            ),
        )
    } else {
        None
    }
}

/// What base58 decoding of `s` gives, with the Bitcoin alphabet: `None`
/// where `s` is not base58 text.
pub uninterp spec fn base58_decoded(s: Seq<char>) -> Option<Seq<u8>>;

/// The base58 text of `b`, with the Bitcoin alphabet.
pub uninterp spec fn base58_encoded(b: Seq<u8>) -> Seq<char>;

/// Relies on `hex::encode`: two lower-case digits for each byte, high digit
/// first.
#[verifier::external_body]
fn hex_encode(data: &[u8]) -> (r: String)
    ensures
        hex_decoded(r@) == Some(data@),
        forall|i: int| 0 <= i < r@.len() ==> is_lower_hex_digit(#[trigger] r@[i]),
{
    hex::encode(data)
}

/// Relies on `hex::decode`, which accepts an even number of digits of
/// either case.
#[verifier::external_body]
fn hex_decode(input: &str) -> (r: Result<Vec<u8>, FromHexError>)
    ensures
        r is Ok <==> hex_decoded(input@) is Some,
        r matches Ok(v) ==> hex_decoded(input@) == Some(v@),
{
    hex::decode(input)
}

/// Relies on `bs58::encode(..).into_string()`, whose text `bs58::decode`
/// turns back into the same bytes.
#[verifier::external_body]
fn base58_encode(data: &[u8]) -> (r: String)
    ensures
        r@ == base58_encoded(data@),
        base58_decoded(r@) == Some(data@),
{
    bs58::encode(data).into_string()
}

/// Relies on `bs58::decode(..).into_vec()`.
#[verifier::external_body]
fn base58_decode(input: &str) -> (r: Result<Vec<u8>, Base58Error>)
    ensures
        r is Ok <==> base58_decoded(input@) is Some,
        r matches Ok(v) ==> base58_decoded(input@) == Some(v@),
{
    bs58::decode(input).into_vec()
}

/// The encoded public key of a verification method.
#[derive(Clone, Debug)]
pub enum MethodData {
    PublicKeyBase58(String),
    PublicKeyHex(String),
    PublicKeyJwk(Object),
}

impl MethodData {
    /// The key bytes, where the data is a byte encoding that decodes.
    pub open spec fn decoded(&self) -> Result<Seq<u8>, Error> {
        match self {
            MethodData::PublicKeyBase58(s) => match base58_decoded(s@) {
                Some(b) => Ok(b),
                None => Err(Error::InvalidBase58Key),
            },
            MethodData::PublicKeyHex(s) => match hex_decoded(s@) {
                Some(b) => Ok(b),
                None => Err(Error::InvalidBase16Key),
            },
            MethodData::PublicKeyJwk(_) => Err(Error::InvalidKeyData),
        }
    }

    /// Base16 key data that holds `data`.
    pub fn new_b16(data: &[u8]) -> (r: Self)
        ensures
            r matches MethodData::PublicKeyHex(s) && hex_decoded(s@) == Some(data@) && (forall|
                i: int,
            | 0 <= i < s@.len() ==> is_lower_hex_digit(#[trigger] s@[i])),
            r.decoded() == Ok::<Seq<u8>, Error>(data@),
    {
        MethodData::PublicKeyHex(hex_encode(data))
    }

    /// Base58 key data that holds `data`.
    pub fn new_b58(data: &[u8]) -> (r: Self)
        ensures
            r matches MethodData::PublicKeyBase58(s) && s@ == base58_encoded(data@),
            r.decoded() == Ok::<Seq<u8>, Error>(data@),
    {
        MethodData::PublicKeyBase58(base58_encode(data))
    }

    /// Decodes the key bytes; fails for text that does not decode and for a
    /// JWK, which is no byte encoding.
    pub fn try_decode(&self) -> (r: Result<Vec<u8>, Error>)
        ensures
            match (r, self.decoded()) {
                (Ok(v), Ok(b)) => v@ == b,
                (Err(e), Err(f)) => e == f,
                _ => false,
            },
    {
        match self {
            MethodData::PublicKeyBase58(input) => decode_b58(input.as_str()),
            MethodData::PublicKeyHex(input) => decode_hex(input.as_str()),
            MethodData::PublicKeyJwk(_) => Err(Error::InvalidKeyData),
        }
    }
}

fn decode_hex(input: &str) -> (r: Result<Vec<u8>, Error>)
    ensures
        match hex_decoded(input@) {
            Some(b) => r matches Ok(v) && v@ == b,
            None => r == Err::<Vec<u8>, Error>(Error::InvalidBase16Key),
        },
{
    match hex_decode(input) {
        Ok(v) => Ok(v),
        Err(_) => Err(Error::InvalidBase16Key),
    }
}

fn decode_b58(input: &str) -> (r: Result<Vec<u8>, Error>)
    ensures
        match base58_decoded(input@) {
            Some(b) => r matches Ok(v) && v@ == b,
            None => r == Err::<Vec<u8>, Error>(Error::InvalidBase58Key),
        },
{
    match base58_decode(input) {
        Ok(v) => Ok(v),
        Err(_) => Err(Error::InvalidBase58Key),
    }
}

} // verus!

use did_url::Error as DidUrlError;
use vstd::prelude::*;

verus! {

/// The message of the error for a repeated identity in a bulk construction.
pub const ERR_DUPLICATE_ITEM: &'static str = "Duplicate Item in Ordered Set";

/// The errors raised by this library.
#[derive(Clone, Copy, Debug, PartialEq, Eq)]
#[allow(inconsistent_fields)]
pub enum Error {
    /// A builder was finished while a required field was still unset.
    InvalidBuilder { name: &'static str, error: &'static str },
    /// A text could not be parsed as a decentralized identifier.
    InvalidDID { error: DidUrlError },
    /// A bulk construction met two items with the same identity.
    InvalidSet { error: &'static str },
    /// Base58 key data could not be decoded.
    InvalidBase58Key,
    /// Base16 key data could not be decoded.
    InvalidBase16Key,
    /// The key data is not a byte encoding.
    InvalidKeyData,
    /// A method id carries no fragment.
    MissingFragment,
    /// No verification method matched a query.
    VerificationMethodNotFound,
    /// The payload carries no signature.
    SignatureNotFound,
    /// A string named no known method scope.
    UnknownMethodScope,
    /// A string named no known method type.
    UnknownMethodType,
    /// A signature suite rejected a payload or signature.
    InvalidSignature,
}

impl Error {
    /// A short text that describes the error: for a builder error, the
    /// field that is missing.
    pub fn message(&self) -> (r: &'static str)
        ensures
            *self matches Error::InvalidBuilder { error, .. } ==> r == error,
            *self matches Error::InvalidSet { error } ==> r == error,
            *self is VerificationMethodNotFound ==> r@ == "Verification Method Not Found"@,
            *self is SignatureNotFound ==> r@ == "Signature Not Found"@,
    {
        match self {
            Error::InvalidBuilder { error, .. } => *error,
            Error::InvalidDID { .. } => "Invalid DID",
            Error::InvalidSet { error } => *error,
            Error::InvalidBase58Key => "Invalid Base58 Key Data",
            Error::InvalidBase16Key => "Invalid Base16 Key Data",
            Error::InvalidKeyData => "Invalid Key Data",
            Error::MissingFragment => "Verification Method Missing Fragment",
            Error::VerificationMethodNotFound => "Verification Method Not Found",
            Error::SignatureNotFound => "Signature Not Found",
            Error::UnknownMethodScope => "Unknown Method Scope",
            Error::UnknownMethodType => "Unknown Method Type",
            Error::InvalidSignature => "Invalid Signature",
        }
    }
}

} // verus!

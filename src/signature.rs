use vstd::prelude::*;

use crate::error::Error;
use crate::query::MethodWrap;

verus! {

/// The value of a signature, in one of the forms that a suite may produce;
/// `Empty` before a suite has produced one.
#[derive(Clone, Debug)]
pub enum SignatureData {
    Empty,
    Jws(String),
    Proof(String),
    Signature(String),
}

impl SignatureData {
    /// A copy of this value.
    pub fn copy(&self) -> (r: SignatureData)
        ensures
            r == *self,
    {
        match self {
            SignatureData::Empty => SignatureData::Empty,
            SignatureData::Jws(s) => SignatureData::Jws(s.clone()),
            SignatureData::Proof(s) => SignatureData::Proof(s.clone()),
            SignatureData::Signature(s) => SignatureData::Signature(s.clone()),
        }
    }

    /// Whether no value is held.
    pub fn is_none(&self) -> (r: bool)
        ensures
            r == self is Empty,
    {
        match self {
            SignatureData::Empty => true,
            _ => false,
        }
    }

    /// Whether the value is a JWS.
    pub fn is_jws(&self) -> (r: bool)
        ensures
            r == self is Jws,
    {
        match self {
            SignatureData::Jws(_) => true,
            _ => false,
        }
    }

    /// Whether the value is a proof value.
    pub fn is_proof(&self) -> (r: bool)
        ensures
            r == self is Proof,
    {
        match self {
            SignatureData::Proof(_) => true,
            _ => false,
        }
    }

    /// Whether the value is a signature value.
    pub fn is_signature(&self) -> (r: bool)
        ensures
            r == self is Signature,
    {
        match self {
            SignatureData::Signature(_) => true,
            _ => false,
        }
    }

    /// The text of the value; empty where none is held.
    pub open spec fn text(&self) -> Seq<char> {
        match self {
            SignatureData::Empty => Seq::empty(),
            SignatureData::Jws(s) => s@,
            SignatureData::Proof(s) => s@,
            SignatureData::Signature(s) => s@,
        }
    }

    /// The text of the value; empty where none is held.
    pub fn as_str(&self) -> (r: &str)
        ensures
            r@ == self.text(),
    {
        match self {
            SignatureData::Empty => {
                proof {
                    reveal_strlit("");
                }
                ""
            },
            SignatureData::Jws(inner) => inner.as_str(),
            SignatureData::Proof(inner) => inner.as_str(),
            SignatureData::Signature(inner) => inner.as_str(),
        }
    }

    /// The text of a JWS; `None` for another form.
    pub fn try_jws(&self) -> (r: Option<&str>)
        ensures
            match self {
                SignatureData::Jws(s) => r matches Some(t) && t@ == s@,
                _ => r is None,
            },
    {
        match self {
            SignatureData::Jws(inner) => Some(inner.as_str()),
            _ => None,
        }
    }

    /// The text of a proof value; `None` for another form.
    pub fn try_proof(&self) -> (r: Option<&str>)
        ensures
            match self {
                SignatureData::Proof(s) => r matches Some(t) && t@ == s@,
                _ => r is None,
            },
    {
        match self {
            SignatureData::Proof(inner) => Some(inner.as_str()),
            _ => None,
        }
    }

    /// The text of a signature value; `None` for another form.
    pub fn try_signature(&self) -> (r: Option<&str>)
        ensures
            match self {
                SignatureData::Signature(s) => r matches Some(t) && t@ == s@,
                _ => r is None,
            },
    {
        match self {
            SignatureData::Signature(inner) => Some(inner.as_str()),
            _ => None,
        }
    }
}

/// The value slot of a signature, with a flag that hides the value while a
/// payload is verified, so that the value is never among the signed bytes.
#[derive(Clone, Debug)]
pub struct SignatureValue {
    data: SignatureData,
    masked: bool,
}

impl SignatureValue {
    /// The value held.
    pub closed spec fn value(&self) -> SignatureData {
        self.data
    }

    /// Whether the value is hidden.
    pub closed spec fn hidden(&self) -> bool {
        self.masked
    }

    /// This slot with `value` in place of what it holds.
    pub closed spec fn replaced(self, value: SignatureData) -> SignatureValue {
        SignatureValue { data: value, ..self }
    }

    /// This slot with its value hidden.
    pub closed spec fn hidden_copy(self) -> SignatureValue {
        SignatureValue { masked: true, ..self }
    }

    /// A slot that holds `value`, shown.
    pub closed spec fn holding(value: SignatureData) -> SignatureValue {
        SignatureValue { data: value, masked: false }
    }

    /// Replacing the value of a shown slot gives a shown slot with the new
    /// value.
    pub proof fn lemma_holding_replaced(a: SignatureData, b: SignatureData)
        ensures
            SignatureValue::holding(a).replaced(b) == SignatureValue::holding(b),
    {
    }

    /// An empty slot, not hidden.
    pub fn new() -> (r: Self)
        ensures
            r.value() is Empty,
            !r.hidden(),
            r == SignatureValue::holding(SignatureData::Empty),
    {
        SignatureValue { data: SignatureData::Empty, masked: false }
    }

    /// A copy of this slot.
    pub fn copy(&self) -> (r: Self)
        ensures
            r == *self,
    {
        SignatureValue { data: self.data.copy(), masked: self.masked }
    }

    /// Whether the slot is left out of a serialized payload: it holds no
    /// value, or the value is hidden.
    pub fn is_none(&self) -> (r: bool)
        ensures
            r == (self.value() is Empty || self.hidden()),
    {
        self.data.is_none() || self.masked
    }

    /// Stores `value`, leaving the flag as it is.
    pub fn set(&mut self, value: SignatureData)
        ensures
            final(self).value() == value,
            final(self).hidden() == old(self).hidden(),
            *final(self) == old(self).replaced(value),
            !old(self).hidden() ==> *final(self) == SignatureValue::holding(value),
    {
        self.data = value;
    }

    /// Hides the value.
    pub(crate) fn mask(&mut self)
        ensures
            *final(self) == old(self).hidden_copy(),
            final(self).value() == old(self).value(),
            final(self).hidden(),
    {
        self.masked = true;
    }

    /// The value held.
    pub fn data(&self) -> (r: &SignatureData)
        ensures
            *r == self.value(),
    {
        &self.data
    }
}

impl Default for SignatureValue {
    fn default() -> (r: Self)
        ensures
            r.value() is Empty,
            !r.hidden(),
    {
        SignatureValue::new()
    }
}

/// A copy of an optional string.
fn copy_opt(o: &Option<String>) -> (r: Option<String>)
    ensures
        r == *o,
{
    match o {
        Some(s) => Some(s.clone()),
        None => None,
    }
}

/// What a signature says of itself: the method that verifies it, and the
/// purpose, time, nonce and domain it was made for.
#[derive(Clone, Debug)]
pub struct SignatureOptions {
    pub verification_method: String,
    pub proof_purpose: Option<String>,
    pub created: Option<String>,
    pub nonce: Option<String>,
    pub domain: Option<String>,
}

impl SignatureOptions {
    /// Options that name the verifying method and nothing else.
    pub fn new(verification_method: String) -> (r: Self)
        ensures
            r == (SignatureOptions {
                verification_method,
                proof_purpose: None,
                created: None,
                nonce: None,
                domain: None,
            }),
    {
        SignatureOptions {
            verification_method,
            proof_purpose: None,
            created: None,
            nonce: None,
            domain: None,
        }
    }

    /// Options that name the verifying method and the purpose.
    pub fn with_purpose(verification_method: String, proof_purpose: String) -> (r: Self)
        ensures
            r == (SignatureOptions {
                verification_method,
                proof_purpose: Some(proof_purpose),
                created: None,
                nonce: None,
                domain: None,
            }),
    {
        SignatureOptions {
            verification_method,
            proof_purpose: Some(proof_purpose),
            created: None,
            nonce: None,
            domain: None,
        }
    }

    /// Options that name a resolved method by its id and its reported scope
    /// as the purpose.
    pub fn try_from<T>(other: MethodWrap<'_, T>) -> (r: Result<Self, Error>)
        ensures
            r matches Ok(o) && o.verification_method@ == other.method.id.text() && (
            o.proof_purpose matches Some(p) && p@ == other.scope.name()) && o.created is None
                && o.nonce is None && o.domain is None,
    {
        Ok(
            SignatureOptions::with_purpose(
                other.method.id.to_string(),
                other.scope.as_str().to_owned(),
            ),
        )
    }

    /// A copy of these options.
    pub fn copy(&self) -> (r: Self)
        ensures
            r == *self,
    {
        SignatureOptions {
            verification_method: self.verification_method.clone(),
            proof_purpose: copy_opt(&self.proof_purpose),
            created: copy_opt(&self.created),
            nonce: copy_opt(&self.nonce),
            domain: copy_opt(&self.domain),
        }
    }
}

impl Default for SignatureOptions {
    fn default() -> (r: Self)
        ensures
            r.verification_method@ == Seq::<char>::empty(),
            r.proof_purpose is None && r.created is None && r.nonce is None && r.domain is None,
    {
        SignatureOptions::new(String::new())
    }
}

/// A signature: the name of the suite that made it, its value and its
/// options.
#[derive(Clone, Debug)]
pub struct Signature {
    pub type_: String,
    pub data: SignatureValue,
    pub options: SignatureOptions,
}

impl Signature {
    /// This signature with its value hidden.
    pub open spec fn masked(self) -> Signature {
        Signature { data: self.data.hidden_copy(), ..self }
    }

    /// A signature of the suite `type_` with the given options and no value
    /// yet.
    pub fn new(type_: String, options: SignatureOptions) -> (r: Self)
        ensures
            r == (Signature { type_, data: SignatureValue::holding(SignatureData::Empty), options }),
            r.type_ == type_,
            r.options == options,
            r.data.value() is Empty,
            !r.data.hidden(),
    {
        Signature { type_, options, data: SignatureValue::new() }
    }

    /// A copy of this signature.
    pub fn copy(&self) -> (r: Self)
        ensures
            r == *self,
    {
        Signature {
            type_: self.type_.clone(),
            data: self.data.copy(),
            options: self.options.copy(),
        }
    }

    /// The name of the suite that made the signature.
    pub fn type_(&self) -> (r: &str)
        ensures
            r@ == self.type_@,
    {
        self.type_.as_str()
    }

    /// The value slot.
    pub fn data(&self) -> (r: &SignatureValue)
        ensures
            *r == self.data,
    {
        &self.data
    }

    /// The value slot, to change.
    pub fn data_mut(&mut self) -> (r: &mut SignatureValue)
        ensures
            *r == old(self).data,
            *final(self) == (Signature { data: *final(r), ..*old(self) }),
    {
        &mut self.data
    }

    /// The options.
    pub fn options(&self) -> (r: &SignatureOptions)
        ensures
            *r == self.options,
    {
        &self.options
    }

    /// Hides the value.
    pub(crate) fn hide_value(&mut self)
        ensures
            *final(self) == old(self).masked(),
            final(self).data.value() == old(self).data.value(),
            final(self).data.hidden(),
            final(self).type_ == old(self).type_,
            final(self).options == old(self).options,
    {
        self.data.mask();
    }
}

} // verus!

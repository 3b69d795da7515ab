use vstd::prelude::*;

use crate::document::selector;
use crate::document::Document;
use crate::document::Selector;
use crate::error::Error;
use crate::method::scope_named;
use crate::method::Method;
use crate::method::MethodScope;
use crate::object::Object;
use crate::query::MethodIndex;
use crate::query::MethodQuery;
use crate::query::MethodWrap;
use crate::signature::Signature;
use crate::signature::SignatureData;
use crate::signature::SignatureOptions;
use crate::signature::SignatureValue;

verus! {

/// The value behind an optional reference to a signature.
pub open spec fn opt_signature(o: Option<&Signature>) -> Option<Signature> {
    match o {
        Some(s) => Some(*s),
        None => None,
    }
}

/// A payload that may carry one signature.
pub trait TrySignature {
    /// The signature that the payload carries, if any.
    spec fn signature_view(&self) -> Option<Signature>;

    /// The signature that the payload carries, if any.
    fn signature(&self) -> (r: Option<&Signature>)
        ensures
            opt_signature(r) == self.signature_view(),
    ;
}

/// A payload whose signature slot can be written.
pub trait SetSignature: TrySignature + Sized {
    /// The payload with `signature` in its slot and all else kept.
    spec fn with_signature(&self, signature: Signature) -> Self;

    /// Puts `signature` in the slot, replacing what was there.
    fn set_signature(&mut self, signature: Signature)
        ensures
            *final(self) == old(self).with_signature(signature),
    ;

    /// What is put in the slot is what the slot then holds.
    proof fn lemma_signature_set(&self, signature: Signature)
        ensures
            self.with_signature(signature).signature_view() == Some(signature),
    ;

    /// Putting back the signature that the slot holds changes nothing.
    proof fn lemma_signature_kept(&self)
        ensures
            self.signature_view() matches Some(s) ==> self.with_signature(s) == *self,
    ;

    /// A second write replaces the first.
    proof fn lemma_signature_replaced(&self, a: Signature, b: Signature)
        ensures
            self.with_signature(a).with_signature(b) == self.with_signature(b),
    ;
}

/// A source of public keys for verification: the key bytes that a query
/// resolves to.
pub trait KeyResolver {
    /// The key bytes that `sel` selects in the group named by `scope`, or
    /// the error that resolving or decoding meets.
    spec fn key_for(&self, sel: Selector, scope: MethodScope) -> Result<Seq<u8>, Error>;

    /// Resolves `query` to key bytes.
    fn resolve_key(&self, query: MethodQuery) -> (r: Result<Vec<u8>, Error>)
        ensures
            match (r, self.key_for(selector(query.ident), query.scope)) {
                (Ok(v), Ok(b)) => v@ == b,
                (Err(e), Err(f)) => e == f,
                _ => false,
            },
    ;
}

/// A signature suite: the cryptography that signs and verifies payloads of
/// type `M`, supplied by the user of this library.
///
/// Each suite states, through its own spec functions, which results its
/// calls may give. The library calls it only with a payload that carries a
/// signature whose value is left out of the payload's serialized form:
/// empty when signing, hidden when verifying.
pub trait SignatureSuite<M: TrySignature> {
    /// Whether `name` may return `n`. A suite that states nothing of its
    /// calls keeps the default, which admits every outcome.
    open spec fn names(&self, n: &'static str) -> bool {
        true
    }

    /// Whether `r` is a result that signing `message` with `secret` may
    /// give.
    open spec fn signs(&self, message: M, secret: Seq<u8>, r: Result<SignatureData, Error>) -> bool {
        true
    }

    /// Whether `r` is a result that checking `signature` on `message`
    /// against the public key `public` may give.
    open spec fn verifies(
        &self,
        message: M,
        signature: SignatureData,
        public: Seq<u8>,
        r: Result<(), Error>,
    ) -> bool {
        true
    }

    /// The name of the suite, recorded in the signatures it makes.
    fn name(&self) -> (r: &'static str)
        ensures
            self.names(r),
    ;

    /// Signs `message` with `secret`.
    fn sign(&self, message: &M, secret: &[u8]) -> (r: Result<SignatureData, Error>)
        requires
            message.signature_view() matches Some(s) && s.data.value() is Empty
                && !s.data.hidden(),
        ensures
            self.signs(*message, secret@, r),
    ;

    /// Checks `signature` on `message` against the public key `public`.
    fn verify(&self, message: &M, signature: &SignatureData, public: &[u8]) -> (r: Result<
        (),
        Error,
    >)
        requires
            message.signature_view() matches Some(s) && s.data.hidden() && s.data.value()
                == *signature,
        ensures
            self.verifies(*message, *signature, public@, r),
    ;
}

/// What signing `before` with `suite`, `options` and `secret` may give: the
/// payload `after` and the result `r`.
///
/// A signature with the suite's name, `options` and no value is attached
/// first, and that payload is what the suite signs. A suite error is the
/// result as it is, and the payload keeps the signature without a value;
/// otherwise the value that the suite returned is stored in it.
pub open spec fn signed_outcome<D: SetSignature, S: SignatureSuite<D>>(
    suite: S,
    before: D,
    options: SignatureOptions,
    secret: Seq<u8>,
    after: D,
    r: Result<(), Error>,
) -> bool {
    exists|name: String, given: &'static str|
        #![trigger suite.names(given), name@]
        suite.names(given) && name@ == given@ && {
            let attached = before.with_signature(
                Signature { type_: name, data: SignatureValue::holding(SignatureData::Empty), options },
            );
            match r {
                Err(e) => suite.signs(attached, secret, Err(e)) && after == attached,
                Ok(_) => exists|value: SignatureData|
                    suite.signs(attached, secret, Ok(value)) && after == before.with_signature(
                        Signature { type_: name, data: SignatureValue::holding(value), options },
                    ),
            }
        }
}

/// What verifying the signature of `data` against `root` with `suite` may
/// give: the error of a missing signature, an unknown purpose or a key that
/// does not resolve; else the suite's verdict on the payload with the value
/// hidden, the stored value and the resolved key.
pub open spec fn verified_outcome<D: SetSignature, R: KeyResolver, S: SignatureSuite<D>>(
    suite: S,
    data: D,
    root: R,
    r: Result<(), Error>,
) -> bool {
    match verification_key(data, root) {
        Err(e) => r == Err::<(), Error>(e),
        Ok(key) => {
            let s = data.signature_view()->0;
            suite.verifies(data.with_signature(s.masked()), s.data.value(), key, r)
        },
    }
}

/// A source of suite names.
pub trait SuiteName {
    /// The name of the suite.
    fn name(&self) -> String;
}

/// The scope that a proof purpose names: the verification methods where
/// there is none.
pub open spec fn purpose_scope(purpose: Option<String>) -> Result<MethodScope, Error> {
    match purpose {
        None => Ok(MethodScope::VerificationMethod),
        Some(p) => match scope_named(p@) {
            Some(s) => Ok(s),
            None => Err(Error::UnknownMethodScope),
        },
    }
}

/// The key against which the signature of `data` is checked, or why there
/// is none: no signature, an unknown purpose, or a key that does not
/// resolve or decode.
pub open spec fn verification_key<D: TrySignature, R: KeyResolver>(data: D, root: R) -> Result<
    Seq<u8>,
    Error,
> {
    match data.signature_view() {
        None => Err(Error::SignatureNotFound),
        Some(s) => options_key(s.options, root),
    }
}

/// The key that the signature options `options` name in `root`: the method
/// they name, in the scope that their purpose names.
pub open spec fn options_key<R: KeyResolver>(options: SignatureOptions, root: R) -> Result<
    Seq<u8>,
    Error,
> {
    match purpose_scope(options.proof_purpose) {
        Err(e) => Err(e),
        Ok(scope) => root.key_for(Selector::Name(options.verification_method@), scope),
    }
}

/// After signing with `options`, whatever name and value the suite gave,
/// verification checks the signature against the key that `options` name,
/// and against no other.
pub proof fn lemma_signed_payload_key<D: SetSignature, R: KeyResolver>(
    data: D,
    root: R,
    name: String,
    value: SignatureData,
    options: SignatureOptions,
)
    ensures
        verification_key(
            data.with_signature(
                Signature { type_: name, data: SignatureValue::holding(value), options },
            ),
            root,
        ) == options_key(options, root),
{
    data.lemma_signature_set(Signature { type_: name, data: SignatureValue::holding(value), options });
}

/// Stores `value` in the signature that `data` carries; fails with
/// `Error::SignatureNotFound` where it carries none.
pub fn set_signature_value<D: SetSignature>(data: &mut D, value: SignatureData) -> (r: Result<
    (),
    Error,
>)
    ensures
        match old(data).signature_view() {
            None => r == Err::<(), Error>(Error::SignatureNotFound) && *final(data) == *old(data),
            Some(s) => r is Ok && *final(data) == old(data).with_signature(
                Signature { data: s.data.replaced(value), ..s },
            ),
        },
{
    let mut signature = match data.signature() {
        Some(s) => s.copy(),
        None => {
            return Err(Error::SignatureNotFound);
        },
    };
    signature.data.set(value);
    data.set_signature(signature);
    proof {
        old(data).lemma_signature_set(signature);
    }
    Ok(())
}

/// Signs `data` with `suite` and `secret`: attaches a new signature with the
/// suite's name and `options` and no value, hands the payload to the suite,
/// and stores the value it returns. A suite error is returned as it is, and
/// the payload then carries the signature without a value.
pub fn sign_doc<D: SetSignature, S: SignatureSuite<D>>(
    data: &mut D,
    suite: &S,
    options: SignatureOptions,
    secret: &[u8],
) -> (r: Result<(), Error>)
    ensures
        signed_outcome(*suite, *old(data), options, secret@, *final(data), r),
{
    let ghost opts = options;
    let given = suite.name();
    let name = given.to_owned();
    let ghost n = name;
    let signature = Signature::new(name, options);
    let ghost start = signature;
    data.set_signature(signature);
    proof {
        old(data).lemma_signature_set(start);
    }
    let ghost attached = *data;
    let value = match suite.sign(&*data, secret) {
        Ok(value) => value,
        Err(e) => {
            assert(suite.names(given) && n@ == given@);
            return Err(e);
        },
    };
    let ghost v = value;
    let stored = set_signature_value(data, value);
    proof {
        SignatureValue::lemma_holding_replaced(SignatureData::Empty, v);
        old(data).lemma_signature_replaced(start, Signature { data: start.data.replaced(v), ..start });
        assert(suite.signs(attached, secret@, Ok(v)));
        assert(*data == old(data).with_signature(
            Signature { type_: n, data: SignatureValue::holding(v), options: opts },
        ));
        assert(suite.names(given) && n@ == given@);
    }
    stored
}

/// Verifies the signature that `data` carries with `suite`, against the key
/// that `root` resolves for it.
///
/// The query names the signature's verification method, in the scope that
/// its proof purpose names. While the suite works, the signature's value is
/// hidden, so that the payload it sees is the one that was signed; it is
/// shown again before the call returns, whatever the suite answered, and
/// the payload is then exactly as it was.
pub fn verify_doc<D: SetSignature, R: KeyResolver, S: SignatureSuite<D>>(
    data: &mut D,
    root: &R,
    suite: &S,
) -> (r: Result<(), Error>)
    ensures
        *final(data) == *old(data),
        verified_outcome(*suite, *old(data), *root, r),
{
    let signature = match data.signature() {
        Some(s) => s.copy(),
        None => {
            return Err(Error::SignatureNotFound);
        },
    };
    let scope = match &signature.options.proof_purpose {
        Some(purpose) => match MethodScope::from_str(purpose.as_str()) {
            Ok(scope) => scope,
            Err(e) => {
                return Err(e);
            },
        },
        None => MethodScope::VerificationMethod,
    };
    let query = MethodQuery::with_scope(
        MethodIndex::Ident(signature.options.verification_method.as_str()),
        scope,
    );
    let key = match root.resolve_key(query) {
        Ok(key) => key,
        Err(e) => {
            return Err(e);
        },
    };
    let mut masked = signature.copy();
    masked.hide_value();
    let ghost m = masked;
    let ghost s = signature;
    data.set_signature(masked);
    proof {
        old(data).lemma_signature_set(m);
    }
    assert(m == s.masked());
    let public = key.as_slice();
    let result = suite.verify(&*data, signature.data.data(), public);
    data.set_signature(signature);
    proof {
        old(data).lemma_signature_replaced(m, s);
        old(data).lemma_signature_kept();
    }
    result
}

/// Custom properties together with the slot for one signature.
#[derive(Clone, Debug)]
pub struct VerifiableProperties<T = Object> {
    pub properties: T,
    pub proof_slot: Option<Signature>,
}

impl<T> VerifiableProperties<T> {
    /// The properties, with no signature.
    pub fn new(properties: T) -> (r: Self)
        ensures
            r.properties == properties,
            r.proof_slot is None,
    {
        VerifiableProperties { properties, proof_slot: None }
    }

    /// The properties, with a signature.
    pub fn with_proof(properties: T, signature: Signature) -> (r: Self)
        ensures
            r.properties == properties,
            r.proof_slot == Some(signature),
    {
        VerifiableProperties { properties, proof_slot: Some(signature) }
    }

    /// The signature, if any.
    pub fn get_proof(&self) -> (r: Option<&Signature>)
        ensures
            opt_signature(r) == self.proof_slot,
    {
        match &self.proof_slot {
            Some(s) => Some(s),
            None => None,
        }
    }

    /// The signature, if any, to change.
    pub fn proof_mut(&mut self) -> (r: Option<&mut Signature>)
        ensures
            old(self).proof_slot is None ==> r is None && *final(self) == *old(self),
            old(self).proof_slot is Some ==> r is Some && *r->0 == old(self).proof_slot->0
                && *final(self) == (VerifiableProperties {
                proof_slot: Some(*final(r->0)),
                ..*old(self)
            }),
    {
        match &mut self.proof_slot {
            Some(s) => Some(s),
            None => None,
        }
    }
}

impl<T> TrySignature for VerifiableProperties<T> {
    open spec fn signature_view(&self) -> Option<Signature> {
        self.proof_slot
    }

    fn signature(&self) -> (r: Option<&Signature>) {
        self.get_proof()
    }
}

impl<T> SetSignature for VerifiableProperties<T> {
    open spec fn with_signature(&self, signature: Signature) -> Self {
        VerifiableProperties { proof_slot: Some(signature), ..*self }
    }

    fn set_signature(&mut self, signature: Signature) {
        self.proof_slot = Some(signature);
    }

    proof fn lemma_signature_set(&self, signature: Signature) {
    }

    proof fn lemma_signature_kept(&self) {
    }

    proof fn lemma_signature_replaced(&self, a: Signature, b: Signature) {
    }
}

impl<T, U, V> KeyResolver for Document<T, U, V> {
    open spec fn key_for(&self, sel: Selector, scope: MethodScope) -> Result<Seq<u8>, Error> {
        self.resolved_key_by(sel, scope)
    }

    fn resolve_key(&self, query: MethodQuery) -> (r: Result<Vec<u8>, Error>) {
        self.try_resolve_bytes(query)
    }
}

/// A single method resolves every query to its own key.
impl<U> KeyResolver for Method<U> {
    open spec fn key_for(&self, sel: Selector, scope: MethodScope) -> Result<Seq<u8>, Error> {
        self.key_data.decoded()
    }

    fn resolve_key(&self, query: MethodQuery) -> (r: Result<Vec<u8>, Error>) {
        self.key_data.try_decode()
    }
}

impl<T, U, V> Document<T, U, V> {
    /// Signs `data` with `suite`; see `sign_doc`.
    pub fn sign_data<D: SetSignature, S: SignatureSuite<D>>(
        &self,
        data: &mut D,
        suite: &S,
        options: SignatureOptions,
        secret: &[u8],
    ) -> (r: Result<(), Error>)
        ensures
            signed_outcome(*suite, *old(data), options, secret@, *final(data), r),
    {
        sign_doc(data, suite, options, secret)
    }

    /// Verifies the signature of `data` with `suite`, against the keys of
    /// this document; see `verify_doc`.
    pub fn verify_data<D: SetSignature, S: SignatureSuite<D>>(&self, data: &mut D, suite: &S) -> (r:
        Result<(), Error>)
        ensures
            *final(data) == *old(data),
            verified_outcome(*suite, *old(data), *self, r),
    {
        verify_doc(data, self, suite)
    }

    /// Signature options that name the method that `query` selects, by its
    /// id, with the query's scope as the purpose; fails with
    /// `Error::VerificationMethodNotFound` where there is none.
    pub fn resolve_options(&self, query: MethodQuery) -> (r: Result<SignatureOptions, Error>)
        ensures
            match self.resolved(query) {
                None => r == Err::<SignatureOptions, Error>(Error::VerificationMethodNotFound),
                Some((scope, index)) => r matches Ok(o) && o.verification_method@ == self.method_at(
                    scope,
                    index,
                ).id.text() && (o.proof_purpose matches Some(p) && p@ == query.scope.name())
                    && o.created is None && o.nonce is None && o.domain is None,
            },
    {
        let method = self.try_resolve(query)?;
        Ok(SignatureOptions::with_purpose(method.method.id.to_string(), query.scope.as_str().to_owned()))
    }
}

/// A document whose custom properties carry one signature.
#[derive(Debug)]
pub struct VerifiableDocument<T = Object, U = Object, V = Object> {
    pub document: Document<VerifiableProperties<T>, U, V>,
}

impl<T, U, V> VerifiableDocument<T, U, V> {
    /// The document, with no signature.
    pub fn new(document: Document<T, U, V>) -> (r: Self)
        ensures
            document.same_but_properties(r.document),
            r.document.properties == (VerifiableProperties {
                properties: document.properties,
                proof_slot: None,
            }),
    {
        Self::wrap(document, None)
    }

    /// The document, with a signature.
    pub fn with_proof(document: Document<T, U, V>, signature: Signature) -> (r: Self)
        ensures
            document.same_but_properties(r.document),
            r.document.properties == (VerifiableProperties {
                properties: document.properties,
                proof_slot: Some(signature),
            }),
    {
        Self::wrap(document, Some(signature))
    }

    fn wrap(document: Document<T, U, V>, slot: Option<Signature>) -> (r: Self)
        ensures
            document.same_but_properties(r.document),
            r.document.properties == (VerifiableProperties {
                properties: document.properties,
                proof_slot: slot,
            }),
    {
        let Document {
            id,
            controller,
            also_known_as,
            verification_method,
            authentication,
            assertion_method,
            key_agreement,
            capability_delegation,
            capability_invocation,
            service,
            properties,
        } = document;
        VerifiableDocument {
            document: Document {
                id,
                controller,
                also_known_as,
                verification_method,
                authentication,
                assertion_method,
                key_agreement,
                capability_delegation,
                capability_invocation,
                service,
                properties: VerifiableProperties { properties, proof_slot: slot },
            },
        }
    }

    /// The signature, if any.
    pub fn get_proof(&self) -> (r: Option<&Signature>)
        ensures
            opt_signature(r) == self.document.properties.proof_slot,
    {
        self.document.properties.get_proof()
    }

    /// The signature, if any, to change.
    pub fn proof_mut(&mut self) -> (r: Option<&mut Signature>)
        ensures
            old(self).signature_view() is None ==> r is None && *final(self) == *old(self),
            old(self).signature_view() is Some ==> r is Some && *r->0
                == old(self).signature_view()->0 && *final(self) == old(self).with_signature(
                *final(r->0),
            ),
    {
        self.document.properties.proof_mut()
    }

    /// Puts `signature` in the slot, replacing what was there.
    pub fn set_proof(&mut self, signature: Signature)
        ensures
            *final(self) == old(self).with_signature(signature),
    {
        self.document.properties.proof_slot = Some(signature);
    }

    /// The document.
    pub fn document(&self) -> (r: &Document<VerifiableProperties<T>, U, V>)
        ensures
            *r == self.document,
    {
        &self.document
    }

    /// Finds the method that `query` selects in the document.
    pub fn resolve_method(&self, query: MethodQuery) -> (r: Option<MethodWrap<'_, U>>)
        ensures
            self.document.resolves_to(query, r),
    {
        self.document.resolve(query)
    }
}

impl<T, U, V> TrySignature for VerifiableDocument<T, U, V> {
    open spec fn signature_view(&self) -> Option<Signature> {
        self.document.properties.proof_slot
    }

    fn signature(&self) -> (r: Option<&Signature>) {
        self.get_proof()
    }
}

impl<T, U, V> SetSignature for VerifiableDocument<T, U, V> {
    open spec fn with_signature(&self, signature: Signature) -> Self {
        VerifiableDocument {
            document: Document {
                properties: VerifiableProperties {
                    proof_slot: Some(signature),
                    ..self.document.properties
                },
                ..self.document
            },
        }
    }

    fn set_signature(&mut self, signature: Signature) {
        self.set_proof(signature);
    }

    proof fn lemma_signature_set(&self, signature: Signature) {
    }

    proof fn lemma_signature_kept(&self) {
    }

    proof fn lemma_signature_replaced(&self, a: Signature, b: Signature) {
    }
}

impl<T, U, V> KeyResolver for VerifiableDocument<T, U, V> {
    open spec fn key_for(&self, sel: Selector, scope: MethodScope) -> Result<Seq<u8>, Error> {
        self.document.resolved_key_by(sel, scope)
    }

    fn resolve_key(&self, query: MethodQuery) -> (r: Result<Vec<u8>, Error>) {
        self.document.try_resolve_bytes(query)
    }
}

/// A payload bound to the document whose keys sign it.
pub struct DocumentWriter<'a, 'b, D, T = Object, U = Object, V = Object> {
    pub data: &'a mut D,
    pub root: &'b Document<T, U, V>,
}

impl<'a, 'b, D: SetSignature, T, U, V> DocumentWriter<'a, 'b, D, T, U, V> {
    /// Binds `data` to `root`.
    pub fn new(data: &'a mut D, root: &'b Document<T, U, V>) -> (r: Self)
        ensures
            *r.data == *old(data) && *final(r.data) == *final(data) && r.root == root,
    {
        DocumentWriter { data, root }
    }

    /// Signs the payload; see `sign_doc`.
    pub fn sign<S: SignatureSuite<D>>(&mut self, suite: &S, options: SignatureOptions, secret: &[u8]) -> (r:
        Result<(), Error>)
        ensures
            final(self).root == old(self).root,
            signed_outcome(*suite, *old(self).data, options, secret@, *final(self).data, r),
    {
        sign_doc(self.data, suite, options, secret)
    }
}

/// A payload bound to the document whose keys verify it, to verify its signature.
pub struct DocumentReader<'a, 'b, D, T = Object, U = Object, V = Object> {
    pub data: &'a mut D,
    pub root: &'b Document<T, U, V>,
}

impl<'a, 'b, D: SetSignature, T, U, V> DocumentReader<'a, 'b, D, T, U, V> {
    /// Binds `data` to `root`.
    pub fn new(data: &'a mut D, root: &'b Document<T, U, V>) -> (r: Self)
        ensures
            *r.data == *old(data) && *final(r.data) == *final(data) && r.root == root,
    {
        DocumentReader { data, root }
    }

    /// Verifies the signature of the payload; see `verify_doc`.
    pub fn verify<S: SignatureSuite<D>>(&mut self, suite: &S) -> (r: Result<(), Error>)
        ensures
            final(self).root == old(self).root,
            *final(self).data == *old(self).data,
            verified_outcome(*suite, *old(self).data, *old(self).root, r),
    {
        verify_doc(self.data, self.root, suite)
    }
}

/// A payload bound to the one method whose key verifies it, to verify its signature.
pub struct MethodReader<'a, 'b, D, U = Object> {
    pub data: &'a mut D,
    pub root: &'b Method<U>,
}

impl<'a, 'b, D: SetSignature, U> MethodReader<'a, 'b, D, U> {
    /// Binds `data` to `root`.
    pub fn new(data: &'a mut D, root: &'b Method<U>) -> (r: Self)
        ensures
            *r.data == *old(data) && *final(r.data) == *final(data) && r.root == root,
    {
        MethodReader { data, root }
    }

    /// Verifies the signature of the payload; see `verify_doc`.
    pub fn verify<S: SignatureSuite<D>>(&mut self, suite: &S) -> (r: Result<(), Error>)
        ensures
            final(self).root == old(self).root,
            *final(self).data == *old(self).data,
            verified_outcome(*suite, *old(self).data, *old(self).root, r),
    {
        verify_doc(self.data, self.root, suite)
    }
}

/// A payload bound to the one method whose key signs it, to sign it.
pub struct MethodWriter<'a, 'b, D, U = Object> {
    pub data: &'a mut D,
    pub root: &'b Method<U>,
}

impl<'a, 'b, D: SetSignature, U> MethodWriter<'a, 'b, D, U> {
    /// Binds `data` to `root`.
    pub fn new(data: &'a mut D, root: &'b Method<U>) -> (r: Self)
        ensures
            *r.data == *old(data) && *final(r.data) == *final(data) && r.root == root,
    {
        MethodWriter { data, root }
    }

    /// Signs the payload; see `sign_doc`.
    pub fn sign<S: SignatureSuite<D>>(&mut self, suite: &S, options: SignatureOptions, secret: &[u8]) -> (r:
        Result<(), Error>)
        ensures
            final(self).root == old(self).root,
            signed_outcome(*suite, *old(self).data, options, secret@, *final(self).data, r),
    {
        sign_doc(self.data, suite, options, secret)
    }
}

/// A payload bound to the signed document whose keys verify it.
pub struct SignatureReader<'a, 'b, D, T = Object, U = Object, V = Object> {
    pub data: &'a mut D,
    pub root: &'b VerifiableDocument<T, U, V>,
}

impl<'a, 'b, D: SetSignature, T, U, V> SignatureReader<'a, 'b, D, T, U, V> {
    /// Binds `data` to `root`.
    pub fn new(root: &'b VerifiableDocument<T, U, V>, data: &'a mut D) -> (r: Self)
        ensures
            *r.data == *old(data) && *final(r.data) == *final(data) && r.root == root,
    {
        SignatureReader { data, root }
    }

    /// Verifies the signature of the payload; see `verify_doc`.
    pub fn verify<S: SignatureSuite<D>>(&mut self, suite: &S) -> (r: Result<(), Error>)
        ensures
            final(self).root == old(self).root,
            *final(self).data == *old(self).data,
            verified_outcome(*suite, *old(self).data, *old(self).root, r),
    {
        verify_doc(self.data, self.root, suite)
    }
}

/// A payload bound to the signed document whose keys sign it.
pub struct SignatureWriter<'a, 'b, D, T = Object, U = Object, V = Object> {
    pub data: &'a mut D,
    pub root: &'b VerifiableDocument<T, U, V>,
}

impl<'a, 'b, D: SetSignature, T, U, V> SignatureWriter<'a, 'b, D, T, U, V> {
    /// Binds `data` to `root`.
    pub fn new(root: &'b VerifiableDocument<T, U, V>, data: &'a mut D) -> (r: Self)
        ensures
            *r.data == *old(data) && *final(r.data) == *final(data) && r.root == root,
    {
        SignatureWriter { data, root }
    }

    /// Signs the payload; see `sign_doc`.
    pub fn sign<S: SignatureSuite<D>>(&mut self, suite: &S, options: SignatureOptions, secret: &[u8]) -> (r:
        Result<(), Error>)
        ensures
            final(self).root == old(self).root,
            signed_outcome(*suite, *old(self).data, options, secret@, *final(self).data, r),
    {
        sign_doc(self.data, suite, options, secret)
    }
}

} // verus!

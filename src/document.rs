use url::Url;
use serde_json::Value;
use vstd::laws_cmp::obeys_cmp;
use vstd::prelude::*;

use crate::error::Error;
use crate::error::ERR_DUPLICATE_ITEM;
use crate::identifier::DID;
use crate::method::Method;
use crate::method::MethodRef;
use crate::method::MethodScope;
use crate::object::extend_object;
use crate::object::with_entries;
use crate::object::Object;
use crate::ordered_set::distinct_ids;
use crate::ordered_set::DIDKey;
use crate::ordered_set::OrderedSet;
use crate::query::ident_matches;
use crate::query::MethodIndex;
use crate::query::MethodQuery;
use crate::query::MethodWrap;
use crate::service::Service;

verus! {

pub const DOCUMENT_NAME: &'static str = "Document";

pub const ERR_DOCUMENT_MISSING_ID: &'static str = "Missing `id`";

/// What a query selects a method by: its position, or a name that must match
/// the fragment of its id.
pub enum Selector {
    Position(int),
    Name(Seq<char>),
}

impl Selector {
    /// Whether the method with id `did` at position `pos` is selected.
    pub open spec fn selects(self, pos: int, did: DID) -> bool {
        match self {
            Selector::Position(n) => n == pos,
            Selector::Name(s) => ident_matches(s, did),
        }
    }
}

/// The selector that a query index stands for.
pub open spec fn selector(ix: MethodIndex) -> Selector {
    match ix {
        MethodIndex::Index(n) => Selector::Position(n as int),
        MethodIndex::Ident(s) => Selector::Name(s@),
    }
}

/// The first position of `ids` that `sel` selects, if any.
pub open spec fn first_selected(ids: Seq<DID>, sel: Selector) -> Option<int> {
    if exists|i: int| 0 <= i < ids.len() && sel.selects(i, ids[i]) {
        Some(
            choose|i: int|
                0 <= i < ids.len() && sel.selects(i, ids[i]) && forall|k: int|
                    0 <= k < i ==> !sel.selects(k, #[trigger] ids[k]),
        )
    } else {
        None
    }
}

proof fn lemma_first_selected(ids: Seq<DID>, sel: Selector, i: int)
    requires
        0 <= i < ids.len(),
        sel.selects(i, ids[i]),
        forall|k: int| 0 <= k < i ==> !sel.selects(k, #[trigger] ids[k]),
    ensures
        first_selected(ids, sel) == Some(i),
{
    let j = choose|j: int|
        0 <= j < ids.len() && sel.selects(j, ids[j]) && forall|k: int|
            0 <= k < j ==> !sel.selects(k, #[trigger] ids[k]);
    if j < i {
        assert(!sel.selects(j, ids[j]));
    }
    if i < j {
        assert(!sel.selects(i, ids[i]));
    }
}

/// The ids of a set of verification methods, in order.
pub open spec fn method_ids<U>(s: Seq<DIDKey<Method<U>>>) -> Seq<DID> {
    s.map_values(|k: DIDKey<Method<U>>| k.0.id)
}

/// The ids of the entries of a verification relationship, in order.
pub open spec fn ref_ids<U>(s: Seq<DIDKey<MethodRef<U>>>) -> Seq<DID> {
    s.map_values(|k: DIDKey<MethodRef<U>>| k.0.id_view())
}

/// A DID document: an identifier, its verification methods, the
/// verification relationships that use them, its services and custom
/// properties.
#[derive(Debug)]
pub struct Document<T = Object, U = Object, V = Object> {
    pub id: DID,
    pub controller: Option<DID>,
    pub also_known_as: Vec<Url>,
    pub verification_method: OrderedSet<DIDKey<Method<U>>>,
    pub authentication: OrderedSet<DIDKey<MethodRef<U>>>,
    pub assertion_method: OrderedSet<DIDKey<MethodRef<U>>>,
    pub key_agreement: OrderedSet<DIDKey<MethodRef<U>>>,
    pub capability_delegation: OrderedSet<DIDKey<MethodRef<U>>>,
    pub capability_invocation: OrderedSet<DIDKey<MethodRef<U>>>,
    pub service: OrderedSet<DIDKey<Service<V>>>,
    pub properties: T,
}

impl<T, U, V> Document<T, U, V> {
    /// Every set of the document holds no two items with one identity.
    pub open spec fn wf(&self) -> bool {
        &&& self.verification_method.wf()
        &&& self.authentication.wf()
        &&& self.assertion_method.wf()
        &&& self.key_agreement.wf()
        &&& self.capability_delegation.wf()
        &&& self.capability_invocation.wf()
        &&& self.service.wf()
    }

    /// Whether `other` holds what this document holds, but for the custom
    /// properties.
    pub open spec fn same_but_properties<A>(&self, other: Document<A, U, V>) -> bool {
        &&& other.id == self.id
        &&& other.controller == self.controller
        &&& other.also_known_as == self.also_known_as
        &&& other.verification_method == self.verification_method
        &&& other.authentication == self.authentication
        &&& other.assertion_method == self.assertion_method
        &&& other.key_agreement == self.key_agreement
        &&& other.capability_delegation == self.capability_delegation
        &&& other.capability_invocation == self.capability_invocation
        &&& other.service == self.service
    }

    /// The entries of the verification relationship named by `scope`; empty
    /// for the verification methods themselves, which are no relationship.
    pub open spec fn relationship(&self, scope: MethodScope) -> Seq<DIDKey<MethodRef<U>>> {
        match scope {
            MethodScope::VerificationMethod => Seq::empty(),
            MethodScope::Authentication => self.authentication@,
            MethodScope::AssertionMethod => self.assertion_method@,
            MethodScope::KeyAgreement => self.key_agreement@,
            MethodScope::CapabilityDelegation => self.capability_delegation@,
            MethodScope::CapabilityInvocation => self.capability_invocation@,
        }
    }

    /// Where a query resolves: the scope that the result reports and the
    /// position of the method, or `None`.
    ///
    /// In the verification methods, the first method that the query selects.
    /// In a relationship, the first entry that it selects: an embedded method
    /// is the result, in the query's scope; a reference is followed, by the
    /// fragment of its id, into the verification methods alone, and the
    /// result then reports that scope. A reference without a fragment
    /// resolves to nothing.
    pub open spec fn resolved(&self, query: MethodQuery) -> Option<(MethodScope, int)> {
        self.resolved_by(selector(query.ident), query.scope)
    }

    /// Where a selector resolves in the group named by `scope`; see
    /// `resolved`.
    pub open spec fn resolved_by(&self, sel: Selector, scope: MethodScope) -> Option<
        (MethodScope, int),
    > {
        let vm = method_ids(self.verification_method@);
        if scope == MethodScope::VerificationMethod {
            match first_selected(vm, sel) {
                Some(i) => Some((MethodScope::VerificationMethod, i)),
                None => None,
            }
        } else {
            let rel = self.relationship(scope);
            match first_selected(ref_ids(rel), sel) {
                None => None,
                Some(i) => match rel[i].0 {
                    MethodRef::Embed(_) => Some((scope, i)),
                    MethodRef::Refer(did) => match did.fragment_view() {
                        None => None,
                        Some(f) => match first_selected(vm, Selector::Name(f)) {
                            Some(j) => Some((MethodScope::VerificationMethod, j)),
                            None => None,
                        },
                    },
                },
            }
        }
    }

    /// The method at position `index` of the group named by `scope`.
    pub open spec fn method_at(&self, scope: MethodScope, index: int) -> Method<U> {
        if scope == MethodScope::VerificationMethod {
            self.verification_method@[index].0
        } else {
            match self.relationship(scope)[index].0 {
                MethodRef::Embed(m) => m,
                MethodRef::Refer(_) => arbitrary(),
            }
        }
    }

    /// Whether `r` is what resolving `query` gives.
    pub open spec fn resolves_to(&self, query: MethodQuery, r: Option<MethodWrap<U>>) -> bool {
        match (r, self.resolved(query)) {
            (None, None) => true,
            (Some(w), Some((scope, index))) => w.scope == scope && w.index == index
                && *w.method == self.method_at(scope, index),
            _ => false,
        }
    }

    fn find_method(set: &OrderedSet<DIDKey<Method<U>>>, sel: MethodIndex) -> (r: Option<usize>)
        ensures
            match (r, first_selected(method_ids(set@), selector(sel))) {
                (None, None) => true,
                (Some(i), Some(j)) => i == j && i < set@.len(),
                _ => false,
            },
    {
        let items = set.as_slice();
        let ghost ids = method_ids(set@);
        let mut i: usize = 0;
        while i < items.len()
            invariant
                items@ == set@,
                ids == method_ids(set@),
                0 <= i <= items@.len(),
                forall|k: int| 0 <= k < i ==> !selector(sel).selects(k, #[trigger] ids[k]),
            decreases items@.len() - i,
        {
            assert(ids[i as int] == items@[i as int].0.id);
            if sel.selects_at(i, &items[i].0.id) {
                proof {
                    lemma_first_selected(ids, selector(sel), i as int);
                }
                return Some(i);
            }
            i += 1;
        }
        None
    }

    fn find_ref(set: &OrderedSet<DIDKey<MethodRef<U>>>, sel: MethodIndex) -> (r: Option<usize>)
        ensures
            match (r, first_selected(ref_ids(set@), selector(sel))) {
                (None, None) => true,
                (Some(i), Some(j)) => i == j && i < set@.len(),
                _ => false,
            },
    {
        let items = set.as_slice();
        let ghost ids = ref_ids(set@);
        let mut i: usize = 0;
        while i < items.len()
            invariant
                items@ == set@,
                ids == ref_ids(set@),
                0 <= i <= items@.len(),
                forall|k: int| 0 <= k < i ==> !selector(sel).selects(k, #[trigger] ids[k]),
            decreases items@.len() - i,
        {
            assert(ids[i as int] == items@[i as int].0.id_view());
            if sel.selects_at(i, items[i].0.id()) {
                proof {
                    lemma_first_selected(ids, selector(sel), i as int);
                }
                return Some(i);
            }
            i += 1;
        }
        None
    }

    fn relationship_set(&self, scope: MethodScope) -> (r: &OrderedSet<DIDKey<MethodRef<U>>>)
        requires
            scope != MethodScope::VerificationMethod,
        ensures
            r@ == self.relationship(scope),
    {
        match scope {
            MethodScope::Authentication => &self.authentication,
            MethodScope::AssertionMethod => &self.assertion_method,
            MethodScope::KeyAgreement => &self.key_agreement,
            MethodScope::CapabilityDelegation => &self.capability_delegation,
            _ => &self.capability_invocation,
        }
    }

    fn resolve_verification_method(&self, query: MethodQuery) -> (r: Option<MethodWrap<'_, U>>)
        requires
            query.scope == MethodScope::VerificationMethod,
        ensures
            self.resolves_to(query, r),
    {
        match Self::find_method(&self.verification_method, query.ident) {
            Some(i) => {
                let method = &self.verification_method.as_slice()[i].0;
                Some(MethodWrap::new(method, i, MethodScope::VerificationMethod))
            },
            None => None,
        }
    }

    fn resolve_method(&self, query: MethodQuery) -> (r: Option<MethodWrap<'_, U>>)
        ensures
            self.resolves_to(query, r),
    {
        if query.scope == MethodScope::VerificationMethod {
            return self.resolve_verification_method(query);
        }
        let set = self.relationship_set(query.scope);
        match Self::find_ref(set, query.ident) {
            None => None,
            Some(i) => match &set.as_slice()[i].0 {
                MethodRef::Embed(method) => Some(MethodWrap::new(method, i, query.scope)),
                MethodRef::Refer(did) => match did.fragment() {
                    None => None,
                    Some(fragment) => {
                        let target = MethodQuery::new(MethodIndex::Ident(fragment));
                        let r = self.resolve_verification_method(target);
                        assert(selector(target.ident) == Selector::Name(
                            did.fragment_view()->0,
                        ));
                        r
                    },
                },
            },
        }
    }

    /// Finds the method that `query` selects; see `resolved`.
    pub fn resolve(&self, query: MethodQuery) -> (r: Option<MethodWrap<'_, U>>)
        ensures
            self.resolves_to(query, r),
    {
        self.resolve_method(query)
    }

    /// Finds the method that `query` selects; fails with
    /// `Error::VerificationMethodNotFound` where there is none.
    pub fn try_resolve(&self, query: MethodQuery) -> (r: Result<MethodWrap<'_, U>, Error>)
        ensures
            match r {
                Ok(w) => self.resolves_to(query, Some(w)),
                Err(e) => self.resolved(query) is None && e == Error::VerificationMethodNotFound,
            },
    {
        match self.resolve(query) {
            Some(w) => Ok(w),
            None => Err(Error::VerificationMethodNotFound),
        }
    }

    /// The decoded key bytes of the method that `query` selects.
    pub open spec fn resolved_key(&self, query: MethodQuery) -> Result<Seq<u8>, Error> {
        self.resolved_key_by(selector(query.ident), query.scope)
    }

    /// The decoded key bytes of the method that a selector resolves to in
    /// the group named by `scope`.
    pub open spec fn resolved_key_by(&self, sel: Selector, scope: MethodScope) -> Result<
        Seq<u8>,
        Error,
    > {
        match self.resolved_by(sel, scope) {
            None => Err(Error::VerificationMethodNotFound),
            Some((scope, index)) => self.method_at(scope, index).key_data.decoded(),
        }
    }

    /// Decodes the key of the method that `query` selects; fails where there
    /// is none or where its key data does not decode.
    pub fn try_resolve_bytes(&self, query: MethodQuery) -> (r: Result<Vec<u8>, Error>)
        ensures
            match (r, self.resolved_key(query)) {
                (Ok(v), Ok(b)) => v@ == b,
                (Err(e), Err(f)) => e == f,
                _ => false,
            },
    {
        match self.try_resolve(query) {
            Ok(w) => w.method.key_data.try_decode(),
            Err(e) => Err(e),
        }
    }

    /// Decodes the key of the method that `query` selects; `None` where
    /// there is none or where its key data does not decode.
    pub fn resolve_bytes(&self, query: MethodQuery) -> (r: Option<Vec<u8>>)
        ensures
            match (r, self.resolved_key(query)) {
                (Some(v), Ok(b)) => v@ == b,
                (None, Err(_)) => true,
                _ => false,
            },
    {
        match self.try_resolve_bytes(query) {
            Ok(v) => Some(v),
            Err(_) => None,
        }
    }

    /// The verification methods of the document.
    pub fn verification_method(&self) -> (r: &OrderedSet<DIDKey<Method<U>>>)
        ensures
            *r == self.verification_method,
    {
        &self.verification_method
    }

    /// The verification methods of the document, to change.
    pub fn verification_method_mut(&mut self) -> (r: &mut OrderedSet<DIDKey<Method<U>>>)
        ensures
            *r == old(self).verification_method,
            *final(self) == (Document { verification_method: *final(r), ..*old(self) }),
    {
        &mut self.verification_method
    }

    /// The authentication relationship of the document.
    pub fn authentication(&self) -> (r: &OrderedSet<DIDKey<MethodRef<U>>>)
        ensures
            *r == self.authentication,
    {
        &self.authentication
    }

    /// The authentication relationship of the document, to change.
    pub fn authentication_mut(&mut self) -> (r: &mut OrderedSet<DIDKey<MethodRef<U>>>)
        ensures
            *r == old(self).authentication,
            *final(self) == (Document { authentication: *final(r), ..*old(self) }),
    {
        &mut self.authentication
    }

    /// The assertion method relationship of the document.
    pub fn assertion_method(&self) -> (r: &OrderedSet<DIDKey<MethodRef<U>>>)
        ensures
            *r == self.assertion_method,
    {
        &self.assertion_method
    }

    /// The assertion method relationship of the document, to change.
    pub fn assertion_method_mut(&mut self) -> (r: &mut OrderedSet<DIDKey<MethodRef<U>>>)
        ensures
            *r == old(self).assertion_method,
            *final(self) == (Document { assertion_method: *final(r), ..*old(self) }),
    {
        &mut self.assertion_method
    }

    /// The key agreement relationship of the document.
    pub fn key_agreement(&self) -> (r: &OrderedSet<DIDKey<MethodRef<U>>>)
        ensures
            *r == self.key_agreement,
    {
        &self.key_agreement
    }

    /// The key agreement relationship of the document, to change.
    pub fn key_agreement_mut(&mut self) -> (r: &mut OrderedSet<DIDKey<MethodRef<U>>>)
        ensures
            *r == old(self).key_agreement,
            *final(self) == (Document { key_agreement: *final(r), ..*old(self) }),
    {
        &mut self.key_agreement
    }

    /// The capability delegation relationship of the document.
    pub fn capability_delegation(&self) -> (r: &OrderedSet<DIDKey<MethodRef<U>>>)
        ensures
            *r == self.capability_delegation,
    {
        &self.capability_delegation
    }

    /// The capability delegation relationship of the document, to change.
    pub fn capability_delegation_mut(&mut self) -> (r: &mut OrderedSet<DIDKey<MethodRef<U>>>)
        ensures
            *r == old(self).capability_delegation,
            *final(self) == (Document { capability_delegation: *final(r), ..*old(self) }),
    {
        &mut self.capability_delegation
    }

    /// The capability invocation relationship of the document.
    pub fn capability_invocation(&self) -> (r: &OrderedSet<DIDKey<MethodRef<U>>>)
        ensures
            *r == self.capability_invocation,
    {
        &self.capability_invocation
    }

    /// The capability invocation relationship of the document, to change.
    pub fn capability_invocation_mut(&mut self) -> (r: &mut OrderedSet<DIDKey<MethodRef<U>>>)
        ensures
            *r == old(self).capability_invocation,
            *final(self) == (Document { capability_invocation: *final(r), ..*old(self) }),
    {
        &mut self.capability_invocation
    }

    /// The services of the document.
    pub fn service(&self) -> (r: &OrderedSet<DIDKey<Service<V>>>)
        ensures
            *r == self.service,
    {
        &self.service
    }

    /// The services of the document, to change.
    pub fn service_mut(&mut self) -> (r: &mut OrderedSet<DIDKey<Service<V>>>)
        ensures
            *r == old(self).service,
            *final(self) == (Document { service: *final(r), ..*old(self) }),
    {
        &mut self.service
    }

    /// The id of the document.
    pub fn id(&self) -> (r: &DID)
        ensures
            *r == self.id,
    {
        &self.id
    }

    /// The id of the document, to change.
    pub fn id_mut(&mut self) -> (r: &mut DID)
        ensures
            *r == old(self).id,
            *final(self) == (Document { id: *final(r), ..*old(self) }),
    {
        &mut self.id
    }

    /// The custom properties of the document.
    pub fn properties(&self) -> (r: &T)
        ensures
            *r == self.properties,
    {
        &self.properties
    }

    /// The custom properties of the document, to change.
    pub fn properties_mut(&mut self) -> (r: &mut T)
        ensures
            *r == old(self).properties,
            *final(self) == (Document { properties: *final(r), ..*old(self) }),
    {
        &mut self.properties
    }

    /// The controller of the document, if any.
    pub fn controller(&self) -> (r: Option<&DID>)
        ensures
            match self.controller {
                Some(c) => r == Some(&c),
                None => r is None,
            },
    {
        match &self.controller {
            Some(c) => Some(c),
            None => None,
        }
    }

    /// The controller of the document, if any, to change.
    pub fn controller_mut(&mut self) -> (r: Option<&mut DID>)
        ensures
            old(self).controller is None ==> r is None && *final(self) == *old(self),
            old(self).controller is Some ==> r is Some && *r->0 == old(self).controller->0
                && *final(self) == (Document { controller: Some(*final(r->0)), ..*old(self) }),
    {
        match &mut self.controller {
            Some(c) => Some(c),
            None => None,
        }
    }

    /// The aliases of the document, in order.
    pub fn also_known_as(&self) -> (r: &[Url])
        ensures
            r@ == self.also_known_as@,
    {
        self.also_known_as.as_slice()
    }

    /// The aliases of the document, to change.
    pub fn also_known_as_mut(&mut self) -> (r: &mut Vec<Url>)
        ensures
            *r == old(self).also_known_as,
            *final(self) == (Document { also_known_as: *final(r), ..*old(self) }),
    {
        &mut self.also_known_as
    }

    /// A builder with the given custom properties and nothing else set.
    pub fn builder(properties: T) -> (r: DocumentBuilder<T, U, V>)
        ensures
            r.is_fresh(properties),
    {
        DocumentBuilder::new(properties)
    }

    /// Builds a document from what `builder` holds: fails where the id is
    /// unset, and with `Error::InvalidSet` where one of its sets holds two
    /// items with one identity.
    pub fn from_builder(builder: DocumentBuilder<T, U, V>) -> (r: Result<Self, Error>)
        ensures
            r is Ok <==> builder.first_error() is None,
            r matches Err(e) ==> builder.first_error() == Some(e),
            r matches Ok(d) ==> d.wf() && builder.holds(d),
    {
        let DocumentBuilder {
            id,
            controller,
            also_known_as,
            verification_method,
            authentication,
            assertion_method,
            key_agreement,
            capability_delegation,
            capability_invocation,
            service,
            properties,
        } = builder;
        let id = match id {
            Some(id) => id,
            None => {
                return Err(
                    Error::InvalidBuilder { name: DOCUMENT_NAME, error: ERR_DOCUMENT_MISSING_ID },
                );
            },
        };
        let verification_method = OrderedSet::try_from(verification_method)?;
        let authentication = OrderedSet::try_from(authentication)?;
        let assertion_method = OrderedSet::try_from(assertion_method)?;
        let key_agreement = OrderedSet::try_from(key_agreement)?;
        let capability_delegation = OrderedSet::try_from(capability_delegation)?;
        let capability_invocation = OrderedSet::try_from(capability_invocation)?;
        let service = OrderedSet::try_from(service)?;
        Ok(Document {
            id,
            controller,
            also_known_as,
            verification_method,
            authentication,
            assertion_method,
            key_agreement,
            capability_delegation,
            capability_invocation,
            service,
            properties,
        })
    }

    /// Replaces the custom properties by what `f` makes of them.
    pub fn map<A, F: FnOnce(T) -> A>(self, f: F) -> (r: Document<A, U, V>)
        requires
            f.requires((self.properties,)),
        ensures
            f.ensures((self.properties,), r.properties),
            self.same_but_properties(r),
    {
        let properties = f(self.properties);
        Document {
            id: self.id,
            controller: self.controller,
            also_known_as: self.also_known_as,
            verification_method: self.verification_method,
            authentication: self.authentication,
            assertion_method: self.assertion_method,
            key_agreement: self.key_agreement,
            capability_delegation: self.capability_delegation,
            capability_invocation: self.capability_invocation,
            service: self.service,
            properties,
        }
    }

    /// Replaces the custom properties by what `f` makes of them; fails where
    /// `f` does, with its error.
    pub fn try_map<A, E, F: FnOnce(T) -> Result<A, E>>(self, f: F) -> (r: Result<
        Document<A, U, V>,
        E,
    >)
        requires
            f.requires((self.properties,)),
        ensures
            exists|out: Result<A, E>|
                f.ensures((self.properties,), out) && match (r, out) {
                    (Ok(d), Ok(a)) => d.properties == a && self.same_but_properties(d),
                    (Err(e), Err(g)) => e == g,
                    _ => false,
                },
    {
        let out = f(self.properties);
        match out {
            Ok(properties) => Ok(
                Document {
                    id: self.id,
                    controller: self.controller,
                    also_known_as: self.also_known_as,
                    verification_method: self.verification_method,
                    authentication: self.authentication,
                    assertion_method: self.assertion_method,
                    key_agreement: self.key_agreement,
                    capability_delegation: self.capability_delegation,
                    capability_invocation: self.capability_invocation,
                    service: self.service,
                    properties,
                },
            ),
            Err(e) => Err(e),
        }
    }
}

/// A builder of documents: the id is optional until `build`, and each set
/// is a plain list until then.
#[derive(Debug)]
pub struct DocumentBuilder<T = Object, U = Object, V = Object> {
    pub id: Option<DID>,
    pub controller: Option<DID>,
    pub also_known_as: Vec<Url>,
    pub verification_method: Vec<DIDKey<Method<U>>>,
    pub authentication: Vec<DIDKey<MethodRef<U>>>,
    pub assertion_method: Vec<DIDKey<MethodRef<U>>>,
    pub key_agreement: Vec<DIDKey<MethodRef<U>>>,
    pub capability_delegation: Vec<DIDKey<MethodRef<U>>>,
    pub capability_invocation: Vec<DIDKey<MethodRef<U>>>,
    pub service: Vec<DIDKey<Service<V>>>,
    pub properties: T,
}

impl<T, U, V> DocumentBuilder<T, U, V> {
    /// Whether this builder holds `properties` and nothing else.
    pub open spec fn is_fresh(&self, properties: T) -> bool {
        &&& self.id is None
        &&& self.controller is None
        &&& self.also_known_as@.len() == 0
        &&& self.verification_method@.len() == 0
        &&& self.authentication@.len() == 0
        &&& self.assertion_method@.len() == 0
        &&& self.key_agreement@.len() == 0
        &&& self.capability_delegation@.len() == 0
        &&& self.capability_invocation@.len() == 0
        &&& self.service@.len() == 0
        &&& self.properties == properties
    }

    /// The error that building reports, if any: a missing id first, then the
    /// first set, in the order of the fields, with a repeated identity.
    pub open spec fn first_error(&self) -> Option<Error> {
        if self.id is None {
            Some(Error::InvalidBuilder { name: DOCUMENT_NAME, error: ERR_DOCUMENT_MISSING_ID })
        } else if !distinct_ids(self.verification_method@) || !distinct_ids(
            self.authentication@,
        ) || !distinct_ids(self.assertion_method@) || !distinct_ids(self.key_agreement@)
            || !distinct_ids(self.capability_delegation@) || !distinct_ids(
            self.capability_invocation@,
        ) || !distinct_ids(self.service@) {
            Some(Error::InvalidSet { error: ERR_DUPLICATE_ITEM })
        } else {
            None
        }
    }

    /// Whether `d` holds what this builder holds, each list as a set in the
    /// same order.
    pub open spec fn holds(&self, d: Document<T, U, V>) -> bool {
        &&& Some(d.id) == self.id
        &&& d.controller == self.controller
        &&& d.also_known_as == self.also_known_as
        &&& d.verification_method@ == self.verification_method@
        &&& d.authentication@ == self.authentication@
        &&& d.assertion_method@ == self.assertion_method@
        &&& d.key_agreement@ == self.key_agreement@
        &&& d.capability_delegation@ == self.capability_delegation@
        &&& d.capability_invocation@ == self.capability_invocation@
        &&& d.service@ == self.service@
        &&& d.properties == self.properties
    }

    /// A builder with the given custom properties and nothing else set.
    pub fn new(properties: T) -> (r: Self)
        ensures
            r.is_fresh(properties),
    {
        DocumentBuilder {
            id: None,
            controller: None,
            also_known_as: Vec::new(),
            verification_method: Vec::new(),
            authentication: Vec::new(),
            assertion_method: Vec::new(),
            key_agreement: Vec::new(),
            capability_delegation: Vec::new(),
            capability_invocation: Vec::new(),
            service: Vec::new(),
            properties,
        }
    }

    /// Sets the id.
    pub fn id(self, value: DID) -> (r: Self)
        ensures
            r == (DocumentBuilder { id: Some(value), ..self }),
    {
        DocumentBuilder { id: Some(value), ..self }
    }

    /// Sets the controller.
    pub fn controller(self, value: DID) -> (r: Self)
        ensures
            r == (DocumentBuilder { controller: Some(value), ..self }),
    {
        DocumentBuilder { controller: Some(value), ..self }
    }

    /// Adds an alias at the end of the aliases.
    pub fn also_known_as(self, value: Url) -> (r: Self)
        ensures
            r.also_known_as@ == self.also_known_as@.push(value),
            r == (DocumentBuilder { also_known_as: r.also_known_as, ..self }),
    {
        let mut this = self;
        this.also_known_as.push(value);
        this
    }

    /// Adds a verification method at the end of the list.
    pub fn verification_method(self, value: Method<U>) -> (r: Self)
        ensures
            r.verification_method@ == self.verification_method@.push(DIDKey(value)),
            r == (DocumentBuilder { verification_method: r.verification_method, ..self }),
    {
        let mut this = self;
        this.verification_method.push(DIDKey::new(value));
        this
    }

    /// Adds an entry at the end of the authentication list.
    pub fn authentication(self, value: MethodRef<U>) -> (r: Self)
        ensures
            r.authentication@ == self.authentication@.push(DIDKey(value)),
            r == (DocumentBuilder { authentication: r.authentication, ..self }),
    {
        let mut this = self;
        this.authentication.push(DIDKey::new(value));
        this
    }

    /// Adds an entry at the end of the assertion method list.
    pub fn assertion_method(self, value: MethodRef<U>) -> (r: Self)
        ensures
            r.assertion_method@ == self.assertion_method@.push(DIDKey(value)),
            r == (DocumentBuilder { assertion_method: r.assertion_method, ..self }),
    {
        let mut this = self;
        this.assertion_method.push(DIDKey::new(value));
        this
    }

    /// Adds an entry at the end of the key agreement list.
    pub fn key_agreement(self, value: MethodRef<U>) -> (r: Self)
        ensures
            r.key_agreement@ == self.key_agreement@.push(DIDKey(value)),
            r == (DocumentBuilder { key_agreement: r.key_agreement, ..self }),
    {
        let mut this = self;
        this.key_agreement.push(DIDKey::new(value));
        this
    }

    /// Adds an entry at the end of the capability delegation list.
    pub fn capability_delegation(self, value: MethodRef<U>) -> (r: Self)
        ensures
            r.capability_delegation@ == self.capability_delegation@.push(DIDKey(value)),
            r == (DocumentBuilder { capability_delegation: r.capability_delegation, ..self }),
    {
        let mut this = self;
        this.capability_delegation.push(DIDKey::new(value));
        this
    }

    /// Adds an entry at the end of the capability invocation list.
    pub fn capability_invocation(self, value: MethodRef<U>) -> (r: Self)
        ensures
            r.capability_invocation@ == self.capability_invocation@.push(DIDKey(value)),
            r == (DocumentBuilder { capability_invocation: r.capability_invocation, ..self }),
    {
        let mut this = self;
        this.capability_invocation.push(DIDKey::new(value));
        this
    }

    /// Adds a service at the end of the list.
    pub fn service(self, value: Service<V>) -> (r: Self)
        ensures
            r.service@ == self.service@.push(DIDKey(value)),
            r == (DocumentBuilder { service: r.service, ..self }),
    {
        let mut this = self;
        this.service.push(DIDKey::new(value));
        this
    }

    /// Builds the document; see `Document::from_builder`.
    pub fn build(self) -> (r: Result<Document<T, U, V>, Error>)
        ensures
            r is Ok <==> self.first_error() is None,
            r matches Err(e) ==> self.first_error() == Some(e),
            r matches Ok(d) ==> d.wf() && self.holds(d),
    {
        Document::from_builder(self)
    }
}

impl<U, V> Default for DocumentBuilder<Object, U, V> {
    fn default() -> (r: Self)
        ensures
            r.is_fresh(r.properties) && r.properties@ == Map::<String, Value>::empty(),
    {
        DocumentBuilder::new(std::collections::BTreeMap::new())
    }
}

impl<U, V> DocumentBuilder<Object, U, V> {
    /// Adds the custom properties of `items`, in order.
    pub fn properties(self, items: Vec<(String, Value)>) -> (r: Self)
        ensures
            obeys_cmp::<String>() ==> r.properties@ == with_entries(self.properties@, items@),
            r == (DocumentBuilder { properties: r.properties, ..self }),
    {
        let mut this = self;
        extend_object(&mut this.properties, items);
        this
    }

    /// Adds the custom property `key` with `value`.
    pub fn property(self, key: String, value: Value) -> (r: Self)
        ensures
            obeys_cmp::<String>() ==> r.properties@ == self.properties@.insert(key, value),
            r == (DocumentBuilder { properties: r.properties, ..self }),
    {
        let mut this = self;
        this.properties.insert(key, value);
        this
    }
}

} // verus!

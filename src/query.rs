use vstd::prelude::*;
use vstd::string::StrSliceExecFns;

use crate::identifier::DID;
use crate::method::Method;
use crate::method::MethodScope;
use crate::object::Object;
use crate::text::last_index_of;
use crate::text::rfind_char;
use crate::text::starts_with;
use crate::text::str_eq;

verus! {

/// The scheme that a fully qualified identifier starts with.
pub const DID_SCHEME: &'static str = "did";

/// The bare fragment that an identifier query stands for: the part after
/// the last `#` of a fully qualified identifier, the part after a leading
/// `#`, or else the query itself. `None` for a fully qualified identifier
/// without a fragment, which matches nothing.
pub open spec fn query_fragment(ident: Seq<char>) -> Option<Seq<char>> {
    if ident.len() >= 3 && ident.subrange(0, 3) == seq!['d', 'i', 'd'] && !(ident.len() > 0
        && ident.last() == '#') {
        match last_index_of(ident, '#') {
            Some(i) => Some(ident.subrange(i + 1, ident.len() as int)),
            None => None,
        }
    } else if ident.len() > 0 && ident[0] == '#' {
        Some(ident.drop_first())
    } else {
        Some(ident)
    }
}

/// Whether the identifier query `ident` names a method with id `did`.
pub open spec fn ident_matches(ident: Seq<char>, did: DID) -> bool {
    match query_fragment(ident) {
        Some(f) => did.fragment_view() == Some(f),
        None => false,
    }
}

/// What a query looks for: a position in a set, or an identifier given as a
/// bare fragment, a `#`-prefixed fragment or a fully qualified identifier.
#[derive(Clone, Copy, Debug)]
pub enum MethodIndex<'a> {
    Index(usize),
    Ident(&'a str),
}

impl<'a> MethodIndex<'a> {
    /// Whether the method with id `did` at position `pos` matches.
    pub open spec fn selects(self, pos: int, did: DID) -> bool {
        match self {
            MethodIndex::Index(n) => n == pos,
            MethodIndex::Ident(s) => ident_matches(s@, did),
        }
    }

    /// Whether the identifier names a method with id `did`; a position never
    /// does.
    pub fn matches(&self, did: &DID) -> (r: bool)
        ensures
            r == match *self {
                MethodIndex::Index(_) => false,
                MethodIndex::Ident(s) => ident_matches(s@, *did),
            },
    {
        match self {
            MethodIndex::Index(_) => false,
            MethodIndex::Ident(ident) => {
                let ident: &str = *ident;
                let n = ident.unicode_len();
                let ends_with_hash = n > 0 && ident.get_char(n - 1) == '#';
                let qualified = starts_with(ident, DID_SCHEME);
                proof {
                    reveal_strlit("did");
                    assert(DID_SCHEME@ == seq!['d', 'i', 'd']);
                    assert(ends_with_hash == (ident@.len() > 0 && ident@.last() == '#'));
                    assert(qualified == (ident@.len() >= 3 && ident@.subrange(0, 3) == seq![
                        'd',
                        'i',
                        'd',
                    ]));
                }
                if qualified && !ends_with_hash {
                    match rfind_char(ident, '#') {
                        Some(i) => Self::matches_fragment(did, ident.substring_char(i + 1, n)),
                        None => false,
                    }
                } else if n > 0 && ident.get_char(0) == '#' {
                    assert(ident@.subrange(1, n as int) == ident@.drop_first());
                    Self::matches_fragment(did, ident.substring_char(1, n))
                } else {
                    Self::matches_fragment(did, ident)
                }
            },
        }
    }

    fn matches_fragment(did: &DID, ident: &str) -> (r: bool)
        ensures
            r == (did.fragment_view() == Some(ident@)),
    {
        match did.fragment() {
            Some(fragment) => str_eq(fragment, ident),
            None => false,
        }
    }

    /// Whether this is the position `other`.
    pub fn is_index(&self, other: usize) -> (r: bool)
        ensures
            r == (*self matches MethodIndex::Index(n) && n == other),
    {
        match self {
            MethodIndex::Index(n) => *n == other,
            MethodIndex::Ident(_) => false,
        }
    }

    /// Whether the method with id `did` at position `pos` matches.
    pub fn selects_at(&self, pos: usize, did: &DID) -> (r: bool)
        ensures
            r == self.selects(pos as int, *did),
    {
        self.is_index(pos) || self.matches(did)
    }
}

impl<'a> From<&'a str> for MethodIndex<'a> {
    fn from(other: &'a str) -> (r: Self) {
        MethodIndex::Ident(other)
    }
}

impl<'a> vstd::std_specs::convert::FromSpecImpl<&'a str> for MethodIndex<'a> {
    open spec fn obeys_from_spec() -> bool {
        true
    }

    open spec fn from_spec(v: &'a str) -> Self {
        MethodIndex::Ident(v)
    }
}

impl<'a> From<usize> for MethodIndex<'a> {
    fn from(other: usize) -> (r: Self) {
        MethodIndex::Index(other)
    }
}

impl<'a> vstd::std_specs::convert::FromSpecImpl<usize> for MethodIndex<'a> {
    open spec fn obeys_from_spec() -> bool {
        true
    }

    open spec fn from_spec(v: usize) -> Self {
        MethodIndex::Index(v)
    }
}

/// A resolution query: what to look for, and in which group of methods.
#[derive(Clone, Copy, Debug)]
pub struct MethodQuery<'a> {
    pub ident: MethodIndex<'a>,
    pub scope: MethodScope,
}

impl<'a> MethodQuery<'a> {
    /// A query in the default scope, the verification methods.
    pub fn new(ident: MethodIndex<'a>) -> (r: Self)
        ensures
            r == (MethodQuery { ident, scope: MethodScope::VerificationMethod }),
    {
        MethodQuery { ident, scope: MethodScope::VerificationMethod }
    }

    /// A query in the given scope.
    pub fn with_scope(ident: MethodIndex<'a>, scope: MethodScope) -> (r: Self)
        ensures
            r == (MethodQuery { ident, scope }),
    {
        MethodQuery { ident, scope }
    }
}

impl<'a> From<&'a str> for MethodQuery<'a> {
    fn from(other: &'a str) -> (r: Self) {
        MethodQuery::new(MethodIndex::Ident(other))
    }
}

impl<'a> vstd::std_specs::convert::FromSpecImpl<&'a str> for MethodQuery<'a> {
    open spec fn obeys_from_spec() -> bool {
        true
    }

    open spec fn from_spec(v: &'a str) -> Self {
        MethodQuery { ident: MethodIndex::Ident(v), scope: MethodScope::VerificationMethod }
    }
}

impl<'a> From<usize> for MethodQuery<'a> {
    fn from(other: usize) -> (r: Self) {
        MethodQuery::new(MethodIndex::Index(other))
    }
}

impl<'a> vstd::std_specs::convert::FromSpecImpl<usize> for MethodQuery<'a> {
    open spec fn obeys_from_spec() -> bool {
        true
    }

    open spec fn from_spec(v: usize) -> Self {
        MethodQuery { ident: MethodIndex::Index(v), scope: MethodScope::VerificationMethod }
    }
}

impl<'a> From<(&'a str, MethodScope)> for MethodQuery<'a> {
    fn from(other: (&'a str, MethodScope)) -> (r: Self) {
        MethodQuery::with_scope(MethodIndex::Ident(other.0), other.1)
    }
}

impl<'a> vstd::std_specs::convert::FromSpecImpl<(&'a str, MethodScope)> for MethodQuery<'a> {
    open spec fn obeys_from_spec() -> bool {
        true
    }

    open spec fn from_spec(v: (&'a str, MethodScope)) -> Self {
        MethodQuery { ident: MethodIndex::Ident(v.0), scope: v.1 }
    }
}

impl<'a> From<(usize, MethodScope)> for MethodQuery<'a> {
    fn from(other: (usize, MethodScope)) -> (r: Self) {
        MethodQuery::with_scope(MethodIndex::Index(other.0), other.1)
    }
}

impl<'a> vstd::std_specs::convert::FromSpecImpl<(usize, MethodScope)> for MethodQuery<'a> {
    open spec fn obeys_from_spec() -> bool {
        true
    }

    open spec fn from_spec(v: (usize, MethodScope)) -> Self {
        MethodQuery { ident: MethodIndex::Index(v.0), scope: v.1 }
    }
}

impl<'a> From<MethodScope> for MethodQuery<'a> {
    fn from(other: MethodScope) -> (r: Self) {
        MethodQuery::with_scope(MethodIndex::Index(0), other)
    }
}

impl<'a> vstd::std_specs::convert::FromSpecImpl<MethodScope> for MethodQuery<'a> {
    open spec fn obeys_from_spec() -> bool {
        true
    }

    open spec fn from_spec(v: MethodScope) -> Self {
        MethodQuery { ident: MethodIndex::Index(0), scope: v }
    }
}

/// A resolved method, with its position in the set that holds it and the
/// scope that the resolution reports.
#[derive(Debug)]
pub struct MethodWrap<'a, T = Object> {
    pub method: &'a Method<T>,
    pub index: usize,
    pub scope: MethodScope,
}

impl<'a, T> MethodWrap<'a, T> {
    /// Wraps a resolved method.
    pub fn new(method: &'a Method<T>, index: usize, scope: MethodScope) -> (r: Self)
        ensures
            *r.method == *method && r.index == index && r.scope == scope,
    {
        MethodWrap { method, index, scope }
    }

    /// The position of the method in the set that holds it.
    pub fn index(&self) -> (r: usize)
        ensures
            r == self.index,
    {
        self.index
    }

    /// The scope that the resolution reports.
    pub fn scope(&self) -> (r: MethodScope)
        ensures
            r == self.scope,
    {
        self.scope
    }

    /// The resolved method.
    pub fn into_method(self) -> (r: &'a Method<T>)
        ensures
            *r == *self.method,
    {
        self.method
    }

    /// The resolved method.
    pub fn method(&self) -> (r: &Method<T>)
        ensures
            *r == *self.method,
    {
        self.method
    }

    /// The id of the resolved method.
    pub fn id(&self) -> (r: &DID)
        ensures
            *r == self.method.id,
    {
        &self.method.id
    }
}

} // verus!

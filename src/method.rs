use serde_json::Value;
use vstd::laws_cmp::obeys_cmp;
use vstd::prelude::*;
use vstd::string::StringExecFns;

use crate::error::Error;
use crate::identifier::DID;
use crate::key_data::MethodData;
use crate::object::extend_object;
use crate::object::with_entries;
use crate::object::Object;
use crate::ordered_set::Identity;
use crate::text::str_eq;

verus! {

pub const ERR_MISSING_ID: &'static str = "Missing `id`";

pub const ERR_MISSING_CONTROLLER: &'static str = "Missing `controller`";

pub const ERR_MISSING_KEY_TYPE: &'static str = "Missing `key_type`";

pub const ERR_MISSING_KEY_DATA: &'static str = "Missing `key_data`";

pub const METHOD_NAME: &'static str = "Method";

/// The supported kinds of verification keys.
#[derive(Clone, Copy, Debug, PartialEq, Eq, Structural)]
pub enum MethodType {
    JcsEd25519Key2020,
    JwsVerificationKey2020,
    Ed25519VerificationKey2018,
    MerkleKeyCollection2021,
}

impl MethodType {
    /// The name of the key type.
    pub open spec fn name(self) -> Seq<char> {
        match self {
            MethodType::JcsEd25519Key2020 => "JcsEd25519Key2020"@,
            MethodType::JwsVerificationKey2020 => "JwsVerificationKey2020"@,
            MethodType::Ed25519VerificationKey2018 => "Ed25519VerificationKey2018"@,
            MethodType::MerkleKeyCollection2021 => "MerkleKeyCollection2021"@,
        }
    }

    /// The name of the key type.
    pub fn as_str(self) -> (r: &'static str)
        ensures
            r@ == self.name(),
    {
        match self {
            MethodType::JcsEd25519Key2020 => "JcsEd25519Key2020",
            MethodType::JwsVerificationKey2020 => "JwsVerificationKey2020",
            MethodType::Ed25519VerificationKey2018 => "Ed25519VerificationKey2018",
            MethodType::MerkleKeyCollection2021 => "MerkleKeyCollection2021",
        }
    }

    /// The key type with the name `string`; fails with
    /// `Error::UnknownMethodType` where no key type has that name.
    pub fn from_str(string: &str) -> (r: Result<MethodType, Error>)
        ensures
            r == match method_type_named(string@) {
                Some(t) => Ok::<MethodType, Error>(t),
                None => Err(Error::UnknownMethodType),
            },
    {
        if str_eq(string, "JcsEd25519Key2020") {
            Ok(MethodType::JcsEd25519Key2020)
        } else if str_eq(string, "JwsVerificationKey2020") {
            Ok(MethodType::JwsVerificationKey2020)
        } else if str_eq(string, "Ed25519VerificationKey2018") {
            Ok(MethodType::Ed25519VerificationKey2018)
        } else if str_eq(string, "MerkleKeyCollection2021") {
            Ok(MethodType::MerkleKeyCollection2021)
        } else {
            Err(Error::UnknownMethodType)
        }
    }
}

/// The key type whose name is `s`, if any.
pub open spec fn method_type_named(s: Seq<char>) -> Option<MethodType> {
    if s == MethodType::JcsEd25519Key2020.name() {
        Some(MethodType::JcsEd25519Key2020)
    } else if s == MethodType::JwsVerificationKey2020.name() {
        Some(MethodType::JwsVerificationKey2020)
    } else if s == MethodType::Ed25519VerificationKey2018.name() {
        Some(MethodType::Ed25519VerificationKey2018)
    } else if s == MethodType::MerkleKeyCollection2021.name() {
        Some(MethodType::MerkleKeyCollection2021)
    } else {
        None
    }
}

/// The group of verification methods that a query looks in.
#[derive(Clone, Copy, Debug, PartialEq, Eq, Structural)]
pub enum MethodScope {
    VerificationMethod,
    Authentication,
    AssertionMethod,
    KeyAgreement,
    CapabilityDelegation,
    CapabilityInvocation,
}

impl MethodScope {
    /// The name of the scope.
    pub open spec fn name(self) -> Seq<char> {
        match self {
            MethodScope::VerificationMethod => "VerificationMethod"@,
            MethodScope::Authentication => "Authentication"@,
            MethodScope::AssertionMethod => "AssertionMethod"@,
            MethodScope::KeyAgreement => "KeyAgreement"@,
            MethodScope::CapabilityDelegation => "CapabilityDelegation"@,
            MethodScope::CapabilityInvocation => "CapabilityInvocation"@,
        }
    }

    /// The name of the scope.
    pub fn as_str(&self) -> (r: &'static str)
        ensures
            r@ == self.name(),
    {
        match self {
            MethodScope::VerificationMethod => "VerificationMethod",
            MethodScope::Authentication => "Authentication",
            MethodScope::AssertionMethod => "AssertionMethod",
            MethodScope::KeyAgreement => "KeyAgreement",
            MethodScope::CapabilityDelegation => "CapabilityDelegation",
            MethodScope::CapabilityInvocation => "CapabilityInvocation",
        }
    }

    /// The scope with the name `string`; fails with
    /// `Error::UnknownMethodScope` where no scope has that name.
    pub fn from_str(string: &str) -> (r: Result<MethodScope, Error>)
        ensures
            r == match scope_named(string@) {
                Some(s) => Ok::<MethodScope, Error>(s),
                None => Err(Error::UnknownMethodScope),
            },
    {
        if str_eq(string, "VerificationMethod") {
            Ok(MethodScope::VerificationMethod)
        } else if str_eq(string, "Authentication") {
            Ok(MethodScope::Authentication)
        } else if str_eq(string, "AssertionMethod") {
            Ok(MethodScope::AssertionMethod)
        } else if str_eq(string, "KeyAgreement") {
            Ok(MethodScope::KeyAgreement)
        } else if str_eq(string, "CapabilityDelegation") {
            Ok(MethodScope::CapabilityDelegation)
        } else if str_eq(string, "CapabilityInvocation") {
            Ok(MethodScope::CapabilityInvocation)
        } else {
            Err(Error::UnknownMethodScope)
        }
    }
}

/// The scope whose name is `s`, if any.
pub open spec fn scope_named(s: Seq<char>) -> Option<MethodScope> {
    if s == MethodScope::VerificationMethod.name() {
        Some(MethodScope::VerificationMethod)
    } else if s == MethodScope::Authentication.name() {
        Some(MethodScope::Authentication)
    } else if s == MethodScope::AssertionMethod.name() {
        Some(MethodScope::AssertionMethod)
    } else if s == MethodScope::KeyAgreement.name() {
        Some(MethodScope::KeyAgreement)
    } else if s == MethodScope::CapabilityDelegation.name() {
        Some(MethodScope::CapabilityDelegation)
    } else if s == MethodScope::CapabilityInvocation.name() {
        Some(MethodScope::CapabilityInvocation)
    } else {
        None
    }
}

impl Default for MethodScope {
    fn default() -> (r: Self)
        ensures
            r == MethodScope::VerificationMethod,
    {
        MethodScope::VerificationMethod
    }
}

/// A verification method: a public key with its id, its controller and its
/// type.
#[derive(Clone, Debug)]
pub struct Method<T = Object> {
    pub id: DID,
    pub controller: DID,
    pub key_type: MethodType,
    pub key_data: MethodData,
    pub properties: T,
}

impl<T> Identity for Method<T> {
    type Id = Seq<char>;

    open spec fn identity(&self) -> Seq<char> {
        self.id.text()
    }

    fn same_identity(&self, other: &Self) -> (r: bool) {
        self.id.same_as(&other.id)
    }
}

/// The error of a builder named `name` that misses the field that `error`
/// names.
pub open spec fn builder_error(name: &'static str, error: &'static str) -> Error {
    Error::InvalidBuilder { name, error }
}

impl<T> Method<T> {
    /// A builder with the given custom properties and no field set.
    pub fn builder(properties: T) -> (r: MethodBuilder<T>)
        ensures
            r.id is None && r.controller is None && r.key_type is None && r.key_data is None,
            r.properties == properties,
    {
        MethodBuilder::new(properties)
    }

    /// Builds a method from what `builder` holds; fails on the first of id,
    /// controller, key type and key data that is unset.
    pub fn from_builder(builder: MethodBuilder<T>) -> (r: Result<Self, Error>)
        ensures
            r == builder.built(),
    {
        let MethodBuilder { id, controller, key_type, key_data, properties } = builder;
        let id = match id {
            Some(id) => id,
            None => {
                return Err(Error::InvalidBuilder { name: METHOD_NAME, error: ERR_MISSING_ID });
            },
        };
        let controller = match controller {
            Some(controller) => controller,
            None => {
                return Err(
                    Error::InvalidBuilder { name: METHOD_NAME, error: ERR_MISSING_CONTROLLER },
                );
            },
        };
        let key_type = match key_type {
            Some(key_type) => key_type,
            None => {
                return Err(
                    Error::InvalidBuilder { name: METHOD_NAME, error: ERR_MISSING_KEY_TYPE },
                );
            },
        };
        let key_data = match key_data {
            Some(key_data) => key_data,
            None => {
                return Err(
                    Error::InvalidBuilder { name: METHOD_NAME, error: ERR_MISSING_KEY_DATA },
                );
            },
        };
        Ok(Method { id, controller, key_type, key_data, properties })
    }

    /// The fragment of the method's id with a leading `#`; fails with
    /// `Error::MissingFragment` where the id has no fragment.
    pub fn try_into_fragment(&self) -> (r: Result<String, Error>)
        ensures
            match self.id.fragment_view() {
                Some(f) => r matches Ok(s) && s@ == seq!['#'] + f,
                None => r == Err::<String, Error>(Error::MissingFragment),
            },
    {
        match self.id.fragment() {
            Some(fragment) => {
                let hash = "#";
                proof {
                    reveal_strlit("#");
                }
                Ok(<String as StringExecFns>::from_str(hash).concat(fragment))
            },
            None => Err(Error::MissingFragment),
        }
    }

    /// The id of the method.
    pub fn id(&self) -> (r: &DID)
        ensures
            *r == self.id,
    {
        &self.id
    }

    /// The id of the method, to change.
    pub fn id_mut(&mut self) -> (r: &mut DID)
        ensures
            *r == old(self).id,
            *final(self) == (Method { id: *final(r), ..*old(self) }),
    {
        &mut self.id
    }

    /// The controller of the method.
    pub fn controller(&self) -> (r: &DID)
        ensures
            *r == self.controller,
    {
        &self.controller
    }

    /// The controller of the method, to change.
    pub fn controller_mut(&mut self) -> (r: &mut DID)
        ensures
            *r == old(self).controller,
            *final(self) == (Method { controller: *final(r), ..*old(self) }),
    {
        &mut self.controller
    }

    /// The key type of the method.
    pub fn key_type(&self) -> (r: MethodType)
        ensures
            r == self.key_type,
    {
        self.key_type
    }

    /// The key type of the method, to change.
    pub fn key_type_mut(&mut self) -> (r: &mut MethodType)
        ensures
            *r == old(self).key_type,
            *final(self) == (Method { key_type: *final(r), ..*old(self) }),
    {
        &mut self.key_type
    }

    /// The key data of the method.
    pub fn key_data(&self) -> (r: &MethodData)
        ensures
            *r == self.key_data,
    {
        &self.key_data
    }

    /// The key data of the method, to change.
    pub fn key_data_mut(&mut self) -> (r: &mut MethodData)
        ensures
            *r == old(self).key_data,
            *final(self) == (Method { key_data: *final(r), ..*old(self) }),
    {
        &mut self.key_data
    }

    /// The custom properties of the method.
    pub fn properties(&self) -> (r: &T)
        ensures
            *r == self.properties,
    {
        &self.properties
    }

    /// The custom properties of the method, to change.
    pub fn properties_mut(&mut self) -> (r: &mut T)
        ensures
            *r == old(self).properties,
            *final(self) == (Method { properties: *final(r), ..*old(self) }),
    {
        &mut self.properties
    }
}

/// A builder of verification methods: each field is optional until `build`.
#[derive(Clone, Debug)]
pub struct MethodBuilder<T = Object> {
    pub id: Option<DID>,
    pub controller: Option<DID>,
    pub key_type: Option<MethodType>,
    pub key_data: Option<MethodData>,
    pub properties: T,
}

impl<T> MethodBuilder<T> {
    /// What building gives: the method, or the error for the first of id,
    /// controller, key type and key data that is unset.
    pub open spec fn built(self) -> Result<Method<T>, Error> {
        if self.id is None {
            Err(builder_error(METHOD_NAME, ERR_MISSING_ID))
        } else if self.controller is None {
            Err(builder_error(METHOD_NAME, ERR_MISSING_CONTROLLER))
        } else if self.key_type is None {
            Err(builder_error(METHOD_NAME, ERR_MISSING_KEY_TYPE))
        } else if self.key_data is None {
            Err(builder_error(METHOD_NAME, ERR_MISSING_KEY_DATA))
        } else {
            Ok(
                Method {
                    id: self.id->0,
                    controller: self.controller->0,
                    key_type: self.key_type->0,
                    key_data: self.key_data->0,
                    properties: self.properties,
                },
            )
        }
    }

    /// A builder with the given custom properties and no field set.
    pub fn new(properties: T) -> (r: Self)
        ensures
            r.id is None && r.controller is None && r.key_type is None && r.key_data is None,
            r.properties == properties,
    {
        MethodBuilder { id: None, controller: None, key_type: None, key_data: None, properties }
    }

    /// Sets the id.
    pub fn id(self, value: DID) -> (r: Self)
        ensures
            r == (MethodBuilder { id: Some(value), ..self }),
    {
        MethodBuilder { id: Some(value), ..self }
    }

    /// Sets the controller.
    pub fn controller(self, value: DID) -> (r: Self)
        ensures
            r == (MethodBuilder { controller: Some(value), ..self }),
    {
        MethodBuilder { controller: Some(value), ..self }
    }

    /// Sets the key type.
    pub fn key_type(self, value: MethodType) -> (r: Self)
        ensures
            r == (MethodBuilder { key_type: Some(value), ..self }),
    {
        MethodBuilder { key_type: Some(value), ..self }
    }

    /// Sets the key data.
    pub fn key_data(self, value: MethodData) -> (r: Self)
        ensures
            r == (MethodBuilder { key_data: Some(value), ..self }),
    {
        MethodBuilder { key_data: Some(value), ..self }
    }

    /// Builds the method; see `Method::from_builder`.
    pub fn build(self) -> (r: Result<Method<T>, Error>)
        ensures
            r == self.built(),
    {
        Method::from_builder(self)
    }
}

/// An entry of a verification relationship: a method embedded in place, or
/// a reference to one by its id.
#[derive(Clone, Debug)]
pub enum MethodRef<T = Object> {
    Embed(Method<T>),
    Refer(DID),
}

impl<T> Identity for MethodRef<T> {
    type Id = Seq<char>;

    open spec fn identity(&self) -> Seq<char> {
        self.id_view().text()
    }

    fn same_identity(&self, other: &Self) -> (r: bool) {
        self.id().same_as(other.id())
    }
}

impl<T> MethodRef<T> {
    /// The id of the embedded method, or the referenced id.
    pub open spec fn id_view(&self) -> DID {
        match self {
            MethodRef::Embed(m) => m.id,
            MethodRef::Refer(did) => *did,
        }
    }

    /// The id of the embedded method, or the referenced id.
    pub fn id(&self) -> (r: &DID)
        ensures
            *r == self.id_view(),
    {
        match self {
            MethodRef::Embed(inner) => &inner.id,
            MethodRef::Refer(inner) => inner,
        }
    }

    /// The controller of the embedded method; `None` for a reference.
    pub fn controller(&self) -> (r: Option<&DID>)
        ensures
            match self {
                MethodRef::Embed(m) => r == Some(&m.controller),
                MethodRef::Refer(_) => r is None,
            },
    {
        match self {
            MethodRef::Embed(inner) => Some(&inner.controller),
            MethodRef::Refer(_) => None,
        }
    }

    /// Whether the entry embeds a method.
    pub fn is_embedded(&self) -> (r: bool)
        ensures
            r == self is Embed,
    {
        match self {
            MethodRef::Embed(_) => true,
            MethodRef::Refer(_) => false,
        }
    }

    /// Whether the entry refers to a method by its id.
    pub fn is_referred(&self) -> (r: bool)
        ensures
            r == self is Refer,
    {
        match self {
            MethodRef::Embed(_) => false,
            MethodRef::Refer(_) => true,
        }
    }

    /// The embedded method; the entry itself where it is a reference.
    pub fn try_into_embedded(self) -> (r: Result<Method<T>, Self>)
        ensures
            match self {
                MethodRef::Embed(m) => r == Ok::<Method<T>, Self>(m),
                MethodRef::Refer(_) => r == Err::<Method<T>, Self>(self),
            },
    {
        match self {
            MethodRef::Embed(inner) => Ok(inner),
            MethodRef::Refer(_) => Err(self),
        }
    }

    /// The referenced id; the entry itself where it embeds a method.
    pub fn try_into_referenced(self) -> (r: Result<DID, Self>)
        ensures
            match self {
                MethodRef::Embed(_) => r == Err::<DID, Self>(self),
                MethodRef::Refer(did) => r == Ok::<DID, Self>(did),
            },
    {
        match self {
            MethodRef::Embed(_) => Err(self),
            MethodRef::Refer(inner) => Ok(inner),
        }
    }
}

impl Default for MethodBuilder<Object> {
    fn default() -> (r: Self)
        ensures
            r.id is None && r.controller is None && r.key_type is None && r.key_data is None && r.properties@ == Map::<String, Value>::empty(),
    {
        MethodBuilder::new(std::collections::BTreeMap::new())
    }
}

impl MethodBuilder<Object> {
    /// Adds the custom properties of `items`, in order.
    pub fn properties(self, items: Vec<(String, Value)>) -> (r: Self)
        ensures
            obeys_cmp::<String>() ==> r.properties@ == with_entries(self.properties@, items@),
            r == (MethodBuilder { properties: r.properties, ..self }),
    {
        let mut this = self;
        extend_object(&mut this.properties, items);
        this
    }

    /// Adds the custom property `key` with `value`.
    pub fn property(self, key: String, value: Value) -> (r: Self)
        ensures
            obeys_cmp::<String>() ==> r.properties@ == self.properties@.insert(key, value),
            r == (MethodBuilder { properties: r.properties, ..self }),
    {
        let mut this = self;
        this.properties.insert(key, value);
        this
    }
}

impl std::str::FromStr for MethodType {
    type Err = Error;

    fn from_str(string: &str) -> Result<MethodType, Error> {
        MethodType::from_str(string)
    }
}

impl std::str::FromStr for MethodScope {
    type Err = Error;

    fn from_str(string: &str) -> Result<MethodScope, Error> {
        MethodScope::from_str(string)
    }
}

} // verus!

use url::Url;
use serde_json::Value;
use vstd::laws_cmp::obeys_cmp;
use vstd::prelude::*;

use crate::error::Error;
use crate::identifier::DID;
use crate::object::extend_object;
use crate::object::with_entries;
use crate::object::Object;
use crate::ordered_set::Identity;

verus! {

#[verifier::external_type_specification]
#[verifier::external_body]
pub struct ExUrl(Url);

pub const SERVICE_NAME: &'static str = "Service";

pub const ERR_SERVICE_MISSING_ID: &'static str = "Missing `id`";

pub const ERR_SERVICE_MISSING_TYPE: &'static str = "Missing `type`";

pub const ERR_SERVICE_MISSING_ENDPOINT: &'static str = "Missing `service_endpoint`";

/// A service that a document advertises: its id, its type and the URL where
/// it is reached.
#[derive(Debug)]
pub struct Service<T = Object> {
    pub id: DID,
    pub type_: String,
    pub service_endpoint: Url,
    pub properties: T,
}

impl<T> Identity for Service<T> {
    type Id = Seq<char>;

    open spec fn identity(&self) -> Seq<char> {
        self.id.text()
    }

    fn same_identity(&self, other: &Self) -> (r: bool) {
        self.id.same_as(&other.id)
    }
}

impl<T> Service<T> {
    /// A builder with the given custom properties and no field set.
    pub fn builder(properties: T) -> (r: ServiceBuilder<T>)
        ensures
            r.id is None && r.type_ is None && r.service_endpoint is None,
            r.properties == properties,
    {
        ServiceBuilder::new(properties)
    }

    /// Builds a service from what `builder` holds; fails on the first of id,
    /// type and endpoint that is unset.
    pub fn from_builder(builder: ServiceBuilder<T>) -> (r: Result<Self, Error>)
        ensures
            r == builder.built(),
    {
        let ServiceBuilder { id, type_, service_endpoint, properties } = builder;
        let id = match id {
            Some(id) => id,
            None => {
                return Err(
                    Error::InvalidBuilder { name: SERVICE_NAME, error: ERR_SERVICE_MISSING_ID },
                );
            },
        };
        let type_ = match type_ {
            Some(type_) => type_,
            None => {
                return Err(
                    Error::InvalidBuilder { name: SERVICE_NAME, error: ERR_SERVICE_MISSING_TYPE },
                );
            },
        };
        let service_endpoint = match service_endpoint {
            Some(endpoint) => endpoint,
            None => {
                return Err(
                    Error::InvalidBuilder {
                        name: SERVICE_NAME,
                        error: ERR_SERVICE_MISSING_ENDPOINT,
                    },
                );
            },
        };
        Ok(Service { id, type_, service_endpoint, properties })
    }

    /// The id of the service.
    pub fn id(&self) -> (r: &DID)
        ensures
            *r == self.id,
    {
        &self.id
    }

    /// The id of the service, to change.
    pub fn id_mut(&mut self) -> (r: &mut DID)
        ensures
            *r == old(self).id,
            *final(self) == (Service { id: *final(r), ..*old(self) }),
    {
        &mut self.id
    }

    /// The type of the service.
    pub fn type_(&self) -> (r: &str)
        ensures
            r@ == self.type_@,
    {
        self.type_.as_str()
    }

    /// The type of the service, to change.
    pub fn type_mut(&mut self) -> (r: &mut String)
        ensures
            *r == old(self).type_,
            *final(self) == (Service { type_: *final(r), ..*old(self) }),
    {
        &mut self.type_
    }

    /// The endpoint of the service.
    pub fn service_endpoint(&self) -> (r: &Url)
        ensures
            *r == self.service_endpoint,
    {
        &self.service_endpoint
    }

    /// The endpoint of the service, to change.
    pub fn service_endpoint_mut(&mut self) -> (r: &mut Url)
        ensures
            *r == old(self).service_endpoint,
            *final(self) == (Service { service_endpoint: *final(r), ..*old(self) }),
    {
        &mut self.service_endpoint
    }

    /// The custom properties of the service.
    pub fn properties(&self) -> (r: &T)
        ensures
            *r == self.properties,
    {
        &self.properties
    }

    /// The custom properties of the service, to change.
    pub fn properties_mut(&mut self) -> (r: &mut T)
        ensures
            *r == old(self).properties,
            *final(self) == (Service { properties: *final(r), ..*old(self) }),
    {
        &mut self.properties
    }
}

/// A builder of services: each field is optional until `build`.
#[derive(Debug)]
pub struct ServiceBuilder<T = Object> {
    pub id: Option<DID>,
    pub type_: Option<String>,
    pub service_endpoint: Option<Url>,
    pub properties: T,
}

impl<T> ServiceBuilder<T> {
    /// What building gives: the service, or the error for the first of id,
    /// type and endpoint that is unset.
    pub open spec fn built(self) -> Result<Service<T>, Error> {
        if self.id is None {
            Err(Error::InvalidBuilder { name: SERVICE_NAME, error: ERR_SERVICE_MISSING_ID })
        } else if self.type_ is None {
            Err(Error::InvalidBuilder { name: SERVICE_NAME, error: ERR_SERVICE_MISSING_TYPE })
        } else if self.service_endpoint is None {
            Err(Error::InvalidBuilder { name: SERVICE_NAME, error: ERR_SERVICE_MISSING_ENDPOINT })
        } else {
            Ok(
                Service {
                    id: self.id->0,
                    type_: self.type_->0,
                    service_endpoint: self.service_endpoint->0,
                    properties: self.properties,
                },
            )
        }
    }

    /// A builder with the given custom properties and no field set.
    pub fn new(properties: T) -> (r: Self)
        ensures
            r.id is None && r.type_ is None && r.service_endpoint is None,
            r.properties == properties,
    {
        ServiceBuilder { id: None, type_: None, service_endpoint: None, properties }
    }

    /// Sets the id.
    pub fn id(self, value: DID) -> (r: Self)
        ensures
            r == (ServiceBuilder { id: Some(value), ..self }),
    {
        ServiceBuilder { id: Some(value), ..self }
    }

    /// Sets the type.
    pub fn type_(self, value: String) -> (r: Self)
        ensures
            r == (ServiceBuilder { type_: Some(value), ..self }),
    {
        ServiceBuilder { type_: Some(value), ..self }
    }

    /// Sets the endpoint.
    pub fn service_endpoint(self, value: Url) -> (r: Self)
        ensures
            r == (ServiceBuilder { service_endpoint: Some(value), ..self }),
    {
        ServiceBuilder { service_endpoint: Some(value), ..self }
    }

    /// Builds the service; see `Service::from_builder`.
    pub fn build(self) -> (r: Result<Service<T>, Error>)
        ensures
            r == self.built(),
    {
        Service::from_builder(self)
    }
}

impl Default for ServiceBuilder<Object> {
    fn default() -> (r: Self)
        ensures
            r.id is None && r.type_ is None && r.service_endpoint is None && r.properties@ == Map::<String, Value>::empty(),
    {
        ServiceBuilder::new(std::collections::BTreeMap::new())
    }
}

impl ServiceBuilder<Object> {
    /// Adds the custom properties of `items`, in order.
    pub fn properties(self, items: Vec<(String, Value)>) -> (r: Self)
        ensures
            obeys_cmp::<String>() ==> r.properties@ == with_entries(self.properties@, items@),
            r == (ServiceBuilder { properties: r.properties, ..self }),
    {
        let mut this = self;
        extend_object(&mut this.properties, items);
        this
    }

    /// Adds the custom property `key` with `value`.
    pub fn property(self, key: String, value: Value) -> (r: Self)
        ensures
            obeys_cmp::<String>() ==> r.properties@ == self.properties@.insert(key, value),
            r == (ServiceBuilder { properties: r.properties, ..self }),
    {
        let mut this = self;
        this.properties.insert(key, value);
        this
    }
}

} // verus!

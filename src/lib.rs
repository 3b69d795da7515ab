//! Decentralized identifier documents: verification methods, relationship
//! sets that keep insertion order and reject duplicates, method resolution,
//! and the proof protocol used to sign and verify payloads against them.

pub mod document;
pub mod error;
pub mod identifier;
pub mod key_data;
pub mod method;
pub mod object;
pub mod ordered_set;
pub mod query;
pub mod service;
pub mod signature;
pub mod text;
pub mod verifiable;

pub use crate::document::Document;
pub use crate::document::DocumentBuilder;
pub use crate::error::Error;
pub use crate::identifier::DID;
pub use crate::key_data::MethodData;
pub use crate::method::Method;
pub use crate::method::MethodBuilder;
pub use crate::method::MethodRef;
pub use crate::method::MethodScope;
pub use crate::method::MethodType;
pub use crate::object::Object;
pub use crate::ordered_set::DIDKey;
pub use crate::ordered_set::Identity;
pub use crate::ordered_set::OrderedSet;
pub use crate::query::MethodIndex;
pub use crate::query::MethodQuery;
pub use crate::query::MethodWrap;
pub use crate::service::Service;
pub use crate::service::ServiceBuilder;
pub use crate::signature::Signature;
pub use crate::signature::SignatureData;
pub use crate::signature::SignatureOptions;
pub use crate::signature::SignatureValue;
pub use crate::verifiable::set_signature_value;
pub use crate::verifiable::sign_doc;
pub use crate::verifiable::verify_doc;
pub use crate::verifiable::DocumentReader;
pub use crate::verifiable::DocumentWriter;
pub use crate::verifiable::MethodReader;
pub use crate::verifiable::MethodWriter;
pub use crate::verifiable::KeyResolver;
pub use crate::verifiable::SetSignature;
pub use crate::verifiable::SignatureReader;
pub use crate::verifiable::SignatureSuite;
pub use crate::verifiable::SignatureWriter;
pub use crate::verifiable::SuiteName;
pub use crate::verifiable::TrySignature;
pub use crate::verifiable::VerifiableDocument;
pub use crate::verifiable::VerifiableProperties;

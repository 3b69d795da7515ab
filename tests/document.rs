use did_doc::Document;
use did_doc::DocumentBuilder;
use did_doc::Error;
use did_doc::Method;
use did_doc::MethodBuilder;
use did_doc::MethodData;
use did_doc::MethodQuery;
use did_doc::MethodRef;
use did_doc::MethodScope;
use did_doc::MethodType;
use did_doc::DID;

const CONTROLLER: &str = "did:example:1234";

fn controller() -> DID {
    CONTROLLER.parse().unwrap()
}

fn method(controller: &DID, fragment: &str) -> Method {
    MethodBuilder::default()
        .id(DID::parse(&format!("{}{}", CONTROLLER, fragment)).unwrap())
        .controller(controller.clone())
        .key_type(MethodType::Ed25519VerificationKey2018)
        .key_data(MethodData::new_b58(fragment.as_bytes()))
        .build()
        .unwrap()
}

fn document() -> Document {
    let controller: DID = controller();

    DocumentBuilder::default()
        .id(controller.clone())
        .verification_method(method(&controller, "#key-1"))
        .verification_method(method(&controller, "#key-2"))
        .verification_method(method(&controller, "#key-3"))
        .authentication(MethodRef::Embed(method(&controller, "#auth-key")))
        .authentication(MethodRef::Refer(DID::parse("did:example:1234#key-3").unwrap()))
        .key_agreement(MethodRef::Refer(DID::parse("did:example:1234#key-4").unwrap()))
        .build()
        .unwrap()
}

#[test]
fn test_resolve_fragment_identifier() {
    let document: Document = document();

    // Resolve methods by fragment using the default scope (VerificationMethod)
    assert_eq!(document.resolve("#key-1".into()).unwrap().id().as_str(), "did:example:1234#key-1");
    assert_eq!(document.resolve("#key-2".into()).unwrap().id().as_str(), "did:example:1234#key-2");
    assert_eq!(document.resolve("#key-3".into()).unwrap().id().as_str(), "did:example:1234#key-3");

    // Perfect fine to omit the octothorpe
    assert_eq!(document.resolve("key-1".into()).unwrap().id().as_str(), "did:example:1234#key-1");
    assert_eq!(document.resolve("key-2".into()).unwrap().id().as_str(), "did:example:1234#key-2");
    assert_eq!(document.resolve("key-3".into()).unwrap().id().as_str(), "did:example:1234#key-3");
}

#[test]
fn test_resolve_index_identifier() {
    let document: Document = document();

    // Resolve methods by index using the default scope once again
    assert_eq!(document.resolve(0usize.into()).unwrap().id().as_str(), "did:example:1234#key-1");
    assert_eq!(document.resolve(2usize.into()).unwrap().id().as_str(), "did:example:1234#key-3");
}

#[test]
fn test_resolve_explicit_scope() {
    let document: Document = document();

    // Resolve methods by fragment using explicit scopes
    assert!(document.resolve(("#key-1", MethodScope::KeyAgreement).into()).is_none());
    assert_eq!(
        document.resolve(("#key-2", MethodScope::VerificationMethod).into()).unwrap().id().as_str(),
        "did:example:1234#key-2"
    );
}

#[test]
fn test_resolve_reference_found() {
    let document: Document = document();

    // Resolving a method reference returns the method object
    let resolved_ref = document.resolve(("#key-3", MethodScope::Authentication).into()).unwrap();
    let resolved_obj = document.resolve(("#key-3", MethodScope::VerificationMethod).into()).unwrap();

    assert_eq!(resolved_ref.index(), 2);
    assert_eq!(resolved_ref.scope(), MethodScope::VerificationMethod);

    // The resolved methods should be identical
    assert!(std::ptr::eq(resolved_ref.method(), resolved_obj.method()));
}

#[test]
fn test_resolve_reference_missing() {
    let document: Document = document();

    // Resolving an existing reference to a missing method returns None
    assert!(document.resolve(("#key-4", MethodScope::KeyAgreement).into()).is_none());
}

#[test]
#[should_panic = "Missing `id`"]
fn document_builder_test_missing_id() {
    let _: Document = DocumentBuilder::default().build().unwrap();
}

#[test]
fn resolves_fully_qualified_identifier() {
    let document: Document = document();
    let found = document.resolve("did:example:1234#key-2".into()).unwrap();
    assert_eq!(found.index(), 1);
    assert_eq!(found.id().as_str(), "did:example:1234#key-2");
    // A qualified identifier without a fragment matches nothing.
    assert!(document.resolve("did:example:1234".into()).is_none());
    assert!(document.resolve("did:example:1234#".into()).is_none());
    // A position past the end matches nothing.
    assert!(document.resolve(3usize.into()).is_none());
}

#[test]
fn embedded_method_keeps_query_scope() {
    let document: Document = document();
    let found = document.resolve(("auth-key", MethodScope::Authentication).into()).unwrap();
    assert_eq!(found.index(), 0);
    assert_eq!(found.scope(), MethodScope::Authentication);
    assert_eq!(found.id().as_str(), "did:example:1234#auth-key");
    let by_position = document.resolve((1usize, MethodScope::Authentication).into()).unwrap();
    assert_eq!(by_position.index(), 2);
    assert_eq!(by_position.scope(), MethodScope::VerificationMethod);
}

#[test]
fn try_resolve_reports_missing_method() {
    let document: Document = document();
    let err = document.try_resolve("#key-9".into()).err();
    assert_eq!(err.map(|e| e.message()), Some("Verification Method Not Found"));
    assert_eq!(
        document.try_resolve_bytes(("#key-4", MethodScope::KeyAgreement).into()).err(),
        Some(Error::VerificationMethodNotFound)
    );
    assert!(document.resolve_bytes(MethodQuery::from("#nothing")).is_none());
}

#[test]
fn resolve_bytes_decodes_key() {
    let document: Document = document();
    let bytes = document.resolve_bytes("#key-2".into()).unwrap();
    assert_eq!(bytes, b"#key-2".to_vec());
    let bytes = document.try_resolve_bytes(("key-3", MethodScope::Authentication).into()).unwrap();
    assert_eq!(bytes, b"#key-3".to_vec());
}

#[test]
fn resolve_options_names_method_and_scope() {
    let document: Document = document();
    let options = document.resolve_options(("#key-3", MethodScope::Authentication).into()).unwrap();
    assert_eq!(options.verification_method, "did:example:1234#key-3");
    assert_eq!(options.proof_purpose.as_deref(), Some("Authentication"));
    assert!(options.created.is_none());
    assert_eq!(
        document.resolve_options("#key-8".into()).err(),
        Some(Error::VerificationMethodNotFound)
    );
}

#[test]
fn builder_rejects_duplicate_methods() {
    let controller: DID = controller();
    let result: Result<Document, Error> = DocumentBuilder::default()
        .id(controller.clone())
        .verification_method(method(&controller, "#key-1"))
        .verification_method(method(&controller, "#key-1"))
        .build();
    assert_eq!(result.err(), Some(Error::InvalidSet { error: "Duplicate Item in Ordered Set" }));
}

#[test]
fn document_getters() {
    let document: Document = document();
    assert_eq!(document.id().as_str(), CONTROLLER);
    assert!(document.controller().is_none());
    assert_eq!(document.verification_method().len(), 3);
    assert_eq!(document.authentication().len(), 2);
    assert_eq!(document.key_agreement().len(), 1);
    assert!(document.assertion_method().is_empty());
    assert!(document.service().is_empty());
    assert!(document.also_known_as().is_empty());
}

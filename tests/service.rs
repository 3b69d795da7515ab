use did_doc::Service;
use did_doc::ServiceBuilder;

#[test]
#[should_panic = "Missing `id`"]
fn service_builder_test_missing_id() {
    let _: Service = ServiceBuilder::default()
        .type_("ServiceType".to_string())
        .service_endpoint("https://example.com".parse().unwrap())
        .build()
        .unwrap();
}

#[test]
#[should_panic = "Missing `type`"]
fn test_missing_type_() {
    let _: Service = ServiceBuilder::default()
        .id("did:example:123".parse().unwrap())
        .service_endpoint("https://example.com".parse().unwrap())
        .build()
        .unwrap();
}

#[test]
#[should_panic = "Missing `service_endpoint`"]
fn test_missing_service_endpoint() {
    let _: Service = ServiceBuilder::default()
        .id("did:example:123".parse().unwrap())
        .type_("ServiceType".to_string())
        .build()
        .unwrap();
}

#[test]
fn service_builds_with_all_fields() {
    let service: Service = ServiceBuilder::default()
        .id("did:example:123#linked".parse().unwrap())
        .type_("LinkedDomains".to_string())
        .service_endpoint("https://example.com/".parse().unwrap())
        .build()
        .unwrap();
    assert_eq!(service.id().as_str(), "did:example:123#linked");
    assert_eq!(service.type_(), "LinkedDomains");
    assert_eq!(service.service_endpoint().as_str(), "https://example.com/");
}

use did_doc::Error;
use did_doc::Method;
use did_doc::MethodBuilder;
use did_doc::MethodData;
use did_doc::MethodIndex;
use did_doc::MethodRef;
use did_doc::MethodScope;
use did_doc::MethodType;
use did_doc::Object;
use did_doc::DID;

#[test]
#[should_panic = "Missing `id`"]
fn method_builder_test_missing_id() {
    let _: Method = MethodBuilder::default()
        .controller("did:example:123".parse().unwrap())
        .key_type(MethodType::Ed25519VerificationKey2018)
        .key_data(MethodData::PublicKeyBase58("".into()))
        .build()
        .unwrap();
}

#[test]
#[should_panic = "Missing `key_type`"]
fn test_missing_key_type() {
    let _: Method = MethodBuilder::default()
        .id("did:example:123".parse().unwrap())
        .controller("did:example:123".parse().unwrap())
        .key_data(MethodData::PublicKeyBase58("".into()))
        .build()
        .unwrap();
}

#[test]
#[should_panic = "Missing `key_data`"]
fn test_missing_key_data() {
    let _: Method = MethodBuilder::default()
        .id("did:example:123".parse().unwrap())
        .controller("did:example:123".parse().unwrap())
        .key_type(MethodType::Ed25519VerificationKey2018)
        .build()
        .unwrap();
}

#[test]
#[should_panic = "Missing `controller`"]
fn test_missing_controller() {
    let _: Method = MethodBuilder::default()
        .id("did:example:123".parse().unwrap())
        .key_type(MethodType::Ed25519VerificationKey2018)
        .key_data(MethodData::PublicKeyBase58("".into()))
        .build()
        .unwrap();
}

#[test]
fn builder_reports_first_missing_field() {
    let result = MethodBuilder::default().key_data(MethodData::PublicKeyHex("00".into())).build();
    assert_eq!(
        result.err(),
        Some(Error::InvalidBuilder { name: "Method", error: "Missing `id`" })
    );
}

#[test]
fn hex_key_data_round_trip() {
    let data = MethodData::new_b16(&[10, 11, 255]);
    match &data {
        MethodData::PublicKeyHex(text) => assert_eq!(text, "0a0bff"),
        _ => panic!("wrong variant"),
    }
    assert_eq!(data.try_decode().unwrap(), vec![10, 11, 255]);
    assert_eq!(MethodData::PublicKeyHex("0A0b".into()).try_decode().unwrap(), vec![10, 11]);
}

#[test]
fn base58_key_data_round_trip() {
    let data = MethodData::new_b58(&[0, 0, 1]);
    match &data {
        MethodData::PublicKeyBase58(text) => assert_eq!(text, "112"),
        _ => panic!("wrong variant"),
    }
    assert_eq!(data.try_decode().unwrap(), vec![0, 0, 1]);
    let data = MethodData::new_b58(b"hello world");
    assert_eq!(data.try_decode().unwrap(), b"hello world".to_vec());
}

#[test]
fn key_data_decode_errors() {
    assert_eq!(
        MethodData::PublicKeyHex("abc".into()).try_decode().err(),
        Some(Error::InvalidBase16Key)
    );
    assert_eq!(
        MethodData::PublicKeyHex("zz".into()).try_decode().err(),
        Some(Error::InvalidBase16Key)
    );
    assert_eq!(
        MethodData::PublicKeyBase58("0OIl".into()).try_decode().err(),
        Some(Error::InvalidBase58Key)
    );
    assert_eq!(
        MethodData::PublicKeyJwk(Object::new()).try_decode().err(),
        Some(Error::InvalidKeyData)
    );
}

#[test]
fn scope_and_type_names() {
    assert_eq!(MethodScope::KeyAgreement.as_str(), "KeyAgreement");
    assert_eq!(MethodScope::from_str("CapabilityInvocation"), Ok(MethodScope::CapabilityInvocation));
    assert_eq!(MethodScope::from_str("Nope"), Err(Error::UnknownMethodScope));
    assert_eq!(MethodScope::default(), MethodScope::VerificationMethod);
    assert_eq!(MethodType::MerkleKeyCollection2021.as_str(), "MerkleKeyCollection2021");
    assert_eq!(MethodType::from_str("JcsEd25519Key2020"), Ok(MethodType::JcsEd25519Key2020));
    assert_eq!(MethodType::from_str("jcsEd25519Key2020"), Err(Error::UnknownMethodType));
}

#[test]
fn index_matching() {
    let did: DID = DID::parse("did:example:1234#key-1").unwrap();
    assert!(MethodIndex::Ident("key-1").matches(&did));
    assert!(MethodIndex::Ident("#key-1").matches(&did));
    assert!(MethodIndex::Ident("did:example:9#key-1").matches(&did));
    assert!(!MethodIndex::Ident("did:example:1234").matches(&did));
    assert!(!MethodIndex::Ident("key-2").matches(&did));
    assert!(!MethodIndex::Index(0).matches(&did));
}

#[test]
fn method_ref_accessors() {
    let did: DID = DID::parse("did:example:1234#key-1").unwrap();
    let reference: MethodRef = MethodRef::Refer(did);
    assert!(reference.is_referred());
    assert!(!reference.is_embedded());
    assert!(reference.controller().is_none());
    assert_eq!(reference.id().as_str(), "did:example:1234#key-1");
    assert!(reference.clone().try_into_embedded().is_err());
    assert_eq!(reference.try_into_referenced().unwrap().as_str(), "did:example:1234#key-1");
}

#[test]
fn did_parse_and_fragment() {
    let did: DID = DID::parse("did:example:1234#key-1").unwrap();
    assert_eq!(did.fragment(), Some("key-1"));
    assert_eq!(did.to_string(), "did:example:1234#key-1");
    let bare: DID = DID::parse("did:example:1234").unwrap();
    assert_eq!(bare.fragment(), None);
    assert!(matches!(DID::parse("not a did"), Err(Error::InvalidDID { .. })));
}

#[test]
fn fragment_of_method_id() {
    let method: Method = MethodBuilder::default()
        .id("did:example:123#sig".parse().unwrap())
        .controller("did:example:123".parse().unwrap())
        .key_type(MethodType::Ed25519VerificationKey2018)
        .key_data(MethodData::PublicKeyHex("00ff".into()))
        .build()
        .unwrap();
    assert_eq!(method.try_into_fragment().unwrap(), "#sig");
    assert_eq!(method.key_data().try_decode().unwrap(), vec![0, 255]);

    let bare: Method = MethodBuilder::default()
        .id("did:example:123".parse().unwrap())
        .controller("did:example:123".parse().unwrap())
        .key_type(MethodType::Ed25519VerificationKey2018)
        .key_data(MethodData::PublicKeyHex("00ff".into()))
        .build()
        .unwrap();
    assert_eq!(bare.try_into_fragment().err(), Some(Error::MissingFragment));
}

#[test]
fn builder_properties_are_kept() {
    let method: Method = MethodBuilder::default()
        .id("did:example:123#k".parse().unwrap())
        .controller("did:example:123".parse().unwrap())
        .key_type(MethodType::JwsVerificationKey2020)
        .key_data(MethodData::PublicKeyBase58("2".into()))
        .property("a".to_string(), serde_json::Value::Bool(true))
        .properties(vec![
            ("b".to_string(), serde_json::Value::Null),
            ("a".to_string(), serde_json::Value::Bool(false)),
        ])
        .build()
        .unwrap();
    assert_eq!(method.properties().len(), 2);
    assert_eq!(method.properties().get("a"), Some(&serde_json::Value::Bool(false)));
    assert_eq!(method.key_type(), MethodType::JwsVerificationKey2020);
    assert_eq!(method.key_data().try_decode().unwrap(), vec![1]);
}

use did_doc::sign_doc;
use did_doc::verify_doc;
use did_doc::Document;
use did_doc::DocumentBuilder;
use did_doc::Error;
use did_doc::Method;
use did_doc::MethodBuilder;
use did_doc::MethodData;
use did_doc::MethodReader;
use did_doc::MethodType;
use did_doc::MethodWriter;
use did_doc::Signature;
use did_doc::SignatureData;
use did_doc::SignatureOptions;
use did_doc::SignatureSuite;
use did_doc::SignatureValue;
use did_doc::TrySignature;
use did_doc::VerifiableDocument;
use did_doc::VerifiableProperties;
use did_doc::DID;

type Payload = VerifiableProperties<String>;

/// The bytes of a payload as a serializer would write them: the value of
/// the signature is left out when its slot reports none.
fn canonical(payload: &Payload) -> Vec<u8> {
    let mut out = payload.properties.clone().into_bytes();
    if let Some(signature) = &payload.proof_slot {
        out.extend_from_slice(b"|type=");
        out.extend_from_slice(signature.type_().as_bytes());
        out.extend_from_slice(b"|vm=");
        out.extend_from_slice(signature.options.verification_method.as_bytes());
        if let Some(purpose) = &signature.options.proof_purpose {
            out.extend_from_slice(b"|purpose=");
            out.extend_from_slice(purpose.as_bytes());
        }
        if !signature.data().is_none() {
            out.extend_from_slice(b"|value=");
            out.extend_from_slice(signature.data().data().as_str().as_bytes());
        }
    }
    out
}

/// A toy suite: the signature is a keyed checksum, and the public key is the
/// secret itself.
struct ChecksumSuite;

fn checksum(bytes: &[u8], key: &[u8]) -> String {
    let mut acc: u64 = 1469598103934665603;
    for (i, b) in bytes.iter().enumerate() {
        let k = if key.is_empty() { 0 } else { key[i % key.len()] };
        acc ^= (*b ^ k) as u64;
        acc = acc.wrapping_mul(1099511628211);
    }
    format!("{:016x}", acc)
}

impl SignatureSuite<Payload> for ChecksumSuite {
    fn name(&self) -> &'static str {
        "ChecksumSignature2024"
    }

    fn sign(&self, message: &Payload, secret: &[u8]) -> Result<SignatureData, Error> {
        Ok(SignatureData::Proof(checksum(&canonical(message), secret)))
    }

    fn verify(&self, message: &Payload, signature: &SignatureData, public: &[u8]) -> Result<(), Error> {
        match signature {
            SignatureData::Proof(value) if *value == checksum(&canonical(message), public) => Ok(()),
            _ => Err(Error::InvalidSignature),
        }
    }
}

impl SignatureSuite<VerifiableDocument> for ChecksumSuite {
    fn name(&self) -> &'static str {
        "ChecksumSignature2024"
    }

    fn sign(&self, message: &VerifiableDocument, secret: &[u8]) -> Result<SignatureData, Error> {
        Ok(SignatureData::Jws(checksum(message.document().id().as_str().as_bytes(), secret)))
    }

    fn verify(
        &self,
        message: &VerifiableDocument,
        signature: &SignatureData,
        public: &[u8],
    ) -> Result<(), Error> {
        let expected = checksum(message.document().id().as_str().as_bytes(), public);
        if signature.try_jws() == Some(expected.as_str()) {
            Ok(())
        } else {
            Err(Error::InvalidSignature)
        }
    }
}

struct FailingSuite;

impl SignatureSuite<Payload> for FailingSuite {
    fn name(&self) -> &'static str {
        "Failing"
    }

    fn sign(&self, _message: &Payload, _secret: &[u8]) -> Result<SignatureData, Error> {
        Err(Error::InvalidSignature)
    }

    fn verify(&self, _message: &Payload, _signature: &SignatureData, _public: &[u8]) -> Result<(), Error> {
        Err(Error::InvalidSignature)
    }
}

const SECRET: &[u8] = b"secret-key-bytes";

fn key_method() -> Method {
    MethodBuilder::default()
        .id(DID::parse("did:example:1234#key-1").unwrap())
        .controller(DID::parse("did:example:1234").unwrap())
        .key_type(MethodType::JcsEd25519Key2020)
        .key_data(MethodData::new_b58(SECRET))
        .build()
        .unwrap()
}

fn key_document() -> Document {
    DocumentBuilder::default()
        .id(DID::parse("did:example:1234").unwrap())
        .verification_method(key_method())
        .build()
        .unwrap()
}

#[test]
fn sign_then_verify_round_trip() {
    let document = key_document();
    let mut payload: Payload = VerifiableProperties::new("hello".to_string());
    let options = SignatureOptions::new("did:example:1234#key-1".to_string());
    document.sign_data(&mut payload, &ChecksumSuite, options, SECRET).unwrap();

    let signature = payload.signature().unwrap();
    assert_eq!(signature.type_(), "ChecksumSignature2024");
    assert!(signature.data().data().is_proof());
    assert!(!signature.data().is_none());

    assert_eq!(document.verify_data(&mut payload, &ChecksumSuite), Ok(()));
}

#[test]
fn verify_fails_after_tampering() {
    let document = key_document();
    let mut payload: Payload = VerifiableProperties::new("hello".to_string());
    let options = SignatureOptions::new("#key-1".to_string());
    document.sign_data(&mut payload, &ChecksumSuite, options, SECRET).unwrap();
    payload.properties = "hellp".to_string();
    assert_eq!(document.verify_data(&mut payload, &ChecksumSuite), Err(Error::InvalidSignature));
}

#[test]
fn verify_leaves_payload_unchanged_on_failure() {
    let document = key_document();
    let mut payload: Payload = VerifiableProperties::new("hello".to_string());
    let options = SignatureOptions::new("#key-1".to_string());
    document.sign_data(&mut payload, &ChecksumSuite, options, SECRET).unwrap();
    payload.properties = "tampered".to_string();

    let before = canonical(&payload);
    assert!(document.verify_data(&mut payload, &ChecksumSuite).is_err());
    let after = canonical(&payload);
    assert_eq!(before, after);
    assert!(!payload.signature().unwrap().data().is_none());

    let before = canonical(&payload);
    assert!(verify_doc(&mut payload, &document, &FailingSuite).is_err());
    assert_eq!(before, canonical(&payload));
}

#[test]
fn verify_leaves_payload_unchanged_on_success() {
    let document = key_document();
    let mut payload: Payload = VerifiableProperties::new("hello".to_string());
    let options = SignatureOptions::new("#key-1".to_string());
    document.sign_data(&mut payload, &ChecksumSuite, options, SECRET).unwrap();
    let before = canonical(&payload);
    assert!(document.verify_data(&mut payload, &ChecksumSuite).is_ok());
    assert_eq!(before, canonical(&payload));
}

#[test]
fn verify_without_signature() {
    let document = key_document();
    let mut payload: Payload = VerifiableProperties::new("hello".to_string());
    assert_eq!(verify_doc(&mut payload, &document, &ChecksumSuite), Err(Error::SignatureNotFound));
}

#[test]
fn verify_with_unknown_purpose_or_method() {
    let document = key_document();
    let mut payload: Payload = VerifiableProperties::new("hello".to_string());
    let options = SignatureOptions::with_purpose("#key-1".to_string(), "Gossip".to_string());
    sign_doc(&mut payload, &ChecksumSuite, options, SECRET).unwrap();
    assert_eq!(verify_doc(&mut payload, &document, &ChecksumSuite), Err(Error::UnknownMethodScope));

    let mut payload: Payload = VerifiableProperties::new("hello".to_string());
    let options = SignatureOptions::new("#key-7".to_string());
    sign_doc(&mut payload, &ChecksumSuite, options, SECRET).unwrap();
    assert_eq!(
        verify_doc(&mut payload, &document, &ChecksumSuite),
        Err(Error::VerificationMethodNotFound)
    );
}

#[test]
fn failed_sign_leaves_empty_signature() {
    let mut payload: Payload = VerifiableProperties::new("hello".to_string());
    let options = SignatureOptions::new("#key-1".to_string());
    assert_eq!(sign_doc(&mut payload, &FailingSuite, options, SECRET), Err(Error::InvalidSignature));
    let signature = payload.signature().unwrap();
    assert_eq!(signature.type_(), "Failing");
    assert!(signature.data().data().is_none());
}

#[test]
fn sign_replaces_previous_signature() {
    let mut payload: Payload =
        VerifiableProperties::with_proof("hello".to_string(), Signature::new("Old".to_string(), SignatureOptions::new("#x".to_string())));
    let options = SignatureOptions::new("#key-1".to_string());
    sign_doc(&mut payload, &ChecksumSuite, options, SECRET).unwrap();
    let signature = payload.signature().unwrap();
    assert_eq!(signature.type_(), "ChecksumSignature2024");
    assert_eq!(signature.options().verification_method, "#key-1");
}

#[test]
fn method_signs_for_itself() {
    let method = key_method();
    let mut payload: Payload = VerifiableProperties::new("self".to_string());
    let options = SignatureOptions::new("anything".to_string());
    MethodWriter::new(&mut payload, &method).sign(&ChecksumSuite, options, SECRET).unwrap();
    assert_eq!(MethodReader::new(&mut payload, &method).verify(&ChecksumSuite), Ok(()));
}

#[test]
fn verifiable_document_signs_itself() {
    let mut document = VerifiableDocument::new(key_document());
    assert!(document.get_proof().is_none());
    let options = SignatureOptions::new("#key-1".to_string());
    sign_doc(&mut document, &ChecksumSuite, options, SECRET).unwrap();
    assert!(document.get_proof().unwrap().data().data().is_jws());
    let resolver = VerifiableDocument::new(key_document());
    assert_eq!(verify_doc(&mut document, &resolver, &ChecksumSuite), Ok(()));
}

#[test]
fn signature_data_accessors() {
    let jws = SignatureData::Jws("abc".to_string());
    assert!(jws.is_jws() && !jws.is_proof() && !jws.is_signature() && !jws.is_none());
    assert_eq!(jws.as_str(), "abc");
    assert_eq!(jws.try_jws(), Some("abc"));
    assert_eq!(jws.try_proof(), None);
    let value = SignatureData::Signature("xyz".to_string());
    assert_eq!(value.try_signature(), Some("xyz"));
    assert_eq!(SignatureData::Empty.as_str(), "");
    let mut slot = SignatureValue::new();
    assert!(slot.is_none());
    slot.set(SignatureData::Proof("p".to_string()));
    assert!(!slot.is_none());
    assert_eq!(slot.data().try_proof(), Some("p"));
}

#[test]
fn options_from_resolved_method() {
    let document = key_document();
    let found = document.resolve("#key-1".into()).unwrap();
    let options = SignatureOptions::try_from(found).unwrap();
    assert_eq!(options.verification_method, "did:example:1234#key-1");
    assert_eq!(options.proof_purpose.as_deref(), Some("VerificationMethod"));
}

#[test]
fn proof_slot_accessors() {
    let mut document = VerifiableDocument::with_proof(
        key_document(),
        Signature::new("Suite".to_string(), SignatureOptions::new("#key-1".to_string())),
    );
    assert_eq!(document.get_proof().unwrap().type_(), "Suite");
    document.proof_mut().unwrap().data_mut().set(SignatureData::Signature("v".to_string()));
    assert_eq!(document.get_proof().unwrap().data().data().try_signature(), Some("v"));
    document.set_proof(Signature::new("Other".to_string(), SignatureOptions::new("#key-1".to_string())));
    assert_eq!(document.get_proof().unwrap().type_(), "Other");
    assert!(document.get_proof().unwrap().data().is_none());

    let mut payload: Payload = VerifiableProperties::new("x".to_string());
    assert_eq!(
        did_doc::set_signature_value(&mut payload, SignatureData::Jws("j".to_string())),
        Err(Error::SignatureNotFound)
    );
    assert!(payload.proof_mut().is_none());
}

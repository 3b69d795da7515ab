use did_doc::DIDKey;
use did_doc::Error;
use did_doc::MethodRef;
use did_doc::OrderedSet;
use did_doc::DID;

#[test]
fn test_works() {
    let mut set = OrderedSet::new();

    set.append("a");
    set.append("b");
    set.append("c");

    assert_eq!(set.as_slice(), &["a", "b", "c"]);
    assert_eq!(set.head(), Some(&"a"));
    assert_eq!(set.tail(), Some(&"c"));

    set.replace(&"a", "c");

    assert_eq!(set.as_slice(), &["c", "b"]);

    let mut set = OrderedSet::new();

    set.prepend("a");
    set.prepend("b");
    set.prepend("c");

    assert_eq!(set.as_slice(), &["c", "b", "a"]);
    assert_eq!(set.head(), Some(&"c"));
    assert_eq!(set.tail(), Some(&"a"));

    set.replace(&"a", "c");

    assert_eq!(set.as_slice(), &["c", "b"]);
}

#[test]
fn test_from_vec_valid() {
    let source: Vec<u8> = vec![3, 1, 2, 0];
    let oset: OrderedSet<u8> = OrderedSet::try_from(source).unwrap();

    assert_eq!(oset.as_slice(), &[3, 1, 2, 0]);
}

#[test]
#[should_panic = "Duplicate Item"]
fn test_from_vec_invalid() {
    let source: Vec<u8> = vec![1, 2, 2, 5];
    let _: OrderedSet<u8> = OrderedSet::try_from(source).unwrap();
}

#[test]
fn test_collect() {
    let source: Vec<u8> = vec![1, 2, 3, 3, 2, 4, 5, 1, 1];
    let oset: OrderedSet<u8> = OrderedSet::from_iter(source);

    assert_eq!(oset.as_slice(), &[1, 2, 3, 4, 5]);
}

#[test]
fn test_contains() {
    let did1: DID = DID::parse("did:example:123").unwrap();
    let did2: DID = DID::parse("did:example:456").unwrap();

    let source: Vec<DIDKey<MethodRef>> = vec![
        DIDKey::new(MethodRef::Refer(did1.clone())),
        DIDKey::new(MethodRef::Refer(did2.clone())),
    ];

    let oset: OrderedSet<DIDKey<MethodRef>> = OrderedSet::from_iter(source);

    assert!(oset.contains(&DIDKey::new(MethodRef::Refer(did1))));
    assert!(oset.contains(&DIDKey::new(MethodRef::Refer(did2))));
    let did3: DID = DID::parse("did:example:789").unwrap();
    assert!(!oset.contains(&DIDKey::new(MethodRef::Refer(did3))));
}

#[test]
fn append_existing_identity_is_refused() {
    let mut set: OrderedSet<u8> = OrderedSet::try_from(vec![4, 7, 9]).unwrap();
    assert!(!set.append(7));
    assert_eq!(set.as_slice(), &[4, 7, 9]);
    assert!(!set.prepend(9));
    assert_eq!(set.as_slice(), &[4, 7, 9]);
    assert!(set.append(1));
    assert_eq!(set.as_slice(), &[4, 7, 9, 1]);
    assert!(set.prepend(0));
    assert_eq!(set.as_slice(), &[0, 4, 7, 9, 1]);
}

#[test]
fn bulk_construction_rejects_duplicates() {
    let result: Result<OrderedSet<u8>, Error> = OrderedSet::try_from(vec![1, 2, 2, 5]);
    assert_eq!(result.err(), Some(Error::InvalidSet { error: "Duplicate Item in Ordered Set" }));
    let result: Result<OrderedSet<u8>, Error> = OrderedSet::try_from(vec![5, 1, 5]);
    assert!(result.is_err());
}

#[test]
fn bulk_construction_of_empty_list() {
    let set: OrderedSet<u8> = OrderedSet::try_from(Vec::new()).unwrap();
    assert!(set.is_empty());
    assert_eq!(set.len(), 0);
    assert_eq!(set.head(), None);
    assert_eq!(set.tail(), None);
}

#[test]
fn replace_without_target_is_a_no_op() {
    let mut set: OrderedSet<u8> = OrderedSet::try_from(vec![1, 2, 3]).unwrap();
    assert!(!set.replace(&8, 9));
    assert_eq!(set.as_slice(), &[1, 2, 3]);
    assert!(!set.update(9));
    assert_eq!(set.as_slice(), &[1, 2, 3]);
}

#[test]
fn replace_drops_later_collisions() {
    let mut set: OrderedSet<u8> = OrderedSet::try_from(vec![1, 2, 3, 4]).unwrap();
    assert!(set.replace(&2, 4));
    assert_eq!(set.as_slice(), &[1, 4, 3]);
    assert!(set.update(3));
    assert_eq!(set.as_slice(), &[1, 4, 3]);
    assert_eq!(set.into_vec(), vec![1, 4, 3]);
}

#[test]
fn iterates_in_order() {
    let set: OrderedSet<u64> = OrderedSet::from_iter(vec![10, 30, 10, 20]);
    let seen: Vec<u64> = set.iter().copied().collect();
    assert_eq!(seen, vec![10, 30, 20]);
}

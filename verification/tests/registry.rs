use peaq_pallet_did::{
    ensure_signed, get_hashed_key_for_attr, get_owner_id, AccountId, Attribute, DidError,
    DispatchError, Environment, Error, Event, Origin, Pallet,
};

const ALICE: AccountId = [3u8; 32];
const BOB: AccountId = [5u8; 32];
const DID: AccountId = [4u8; 32];

fn env(block_number: u32, now: u64) -> Environment {
    Environment { block_number, now }
}

fn name() -> Vec<u8> {
    b"name".to_vec()
}

fn attribute(name: &[u8], value: &[u8], validity: u32, created: u64) -> Attribute {
    Attribute { name: name.to_vec(), value: value.to_vec(), validity, created }
}

#[test]
fn attribute_key_is_blake2_of_did_then_name() {
    let expected: [u8; 32] = [
        124, 141, 57, 24, 3, 224, 157, 68, 208, 242, 247, 158, 181, 106, 113, 227, 65, 185, 125,
        179, 181, 72, 133, 106, 194, 125, 128, 175, 6, 28, 134, 62,
    ];
    assert_eq!(get_hashed_key_for_attr(&DID, b"name"), expected);
    assert_ne!(get_hashed_key_for_attr(&DID, b"other"), expected);
    assert_ne!(get_hashed_key_for_attr(&BOB, b"name"), expected);
}

#[test]
fn owner_id_is_blake2_of_owner_then_did() {
    let expected: [u8; 32] = [
        199, 34, 85, 231, 179, 245, 189, 79, 46, 101, 44, 247, 30, 206, 179, 125, 11, 53, 7, 79,
        43, 177, 28, 74, 120, 140, 226, 40, 45, 152, 43, 58,
    ];
    assert_eq!(get_owner_id(&ALICE, &DID), expected);
    assert_ne!(get_owner_id(&DID, &ALICE), expected);
}

#[test]
fn validity_defaults_to_last_block() {
    assert_eq!(Pallet::validate_block_number(None, 10), Ok(u32::MAX));
}

#[test]
fn validity_adds_period_to_current_block() {
    assert_eq!(Pallet::validate_block_number(Some(5), 10), Ok(15));
    assert_eq!(Pallet::validate_block_number(Some(u32::MAX - 10), 10), Ok(u32::MAX));
}

#[test]
fn validity_past_last_block_is_refused() {
    assert_eq!(
        Pallet::validate_block_number(Some(u32::MAX - 9), 10),
        Err(DidError::MaxBlockNumberExceeded)
    );
}

#[test]
fn dispatch_errors_map_registry_failures() {
    let cases = [
        (DidError::NotFound, Error::AttributeNotFound),
        (DidError::AlreadyExist, Error::AttributeAlreadyExist),
        (DidError::NameExceedMaxChar, Error::AttributeNameExceedMax64),
        (DidError::FailedCreate, Error::AttributeCreationFailed),
        (DidError::FailedUpdate, Error::AttributeCreationFailed),
        (DidError::AuthorizationFailed, Error::AttributeAuthorizationFailed),
        (DidError::MaxBlockNumberExceeded, Error::MaxBlockNumberExceeded),
    ];
    for (err, expected) in cases {
        assert_eq!(Error::dispatch_error(err), DispatchError::Module(expected));
    }
}

#[test]
fn ensure_signed_gives_the_signer() {
    assert_eq!(ensure_signed(Origin::Signed(ALICE)), Ok(ALICE));
    assert_eq!(ensure_signed(Origin::Root), Err(DispatchError::BadOrigin));
    assert_eq!(ensure_signed(Origin::Unsigned), Err(DispatchError::BadOrigin));
}

#[test]
fn add_then_read_gives_the_attribute() {
    let mut p = Pallet::new();
    let r = p.add_attribute(Origin::Signed(ALICE), env(10, 99), DID, name(), b"v1".to_vec(), Some(5));
    assert_eq!(r, Ok(Event::AttributeAdded(ALICE, DID, name(), b"v1".to_vec(), Some(5))));
    assert_eq!(p.read(&DID, b"name"), Some(attribute(b"name", b"v1", 15, 99)));
    assert_eq!(
        p.read_attribute(Origin::Signed(BOB), DID, name()),
        Ok(Event::AttributeRead(attribute(b"name", b"v1", 15, 99)))
    );
}

#[test]
fn add_without_period_is_valid_until_last_block() {
    let mut p = Pallet::new();
    assert!(p.add_attribute(Origin::Signed(ALICE), env(10, 1), DID, name(), b"v".to_vec(), None).is_ok());
    assert_eq!(p.read(&DID, b"name"), Some(attribute(b"name", b"v", u32::MAX, 1)));
}

#[test]
fn add_twice_fails() {
    let mut p = Pallet::new();
    assert!(p.add_attribute(Origin::Signed(ALICE), env(1, 1), DID, name(), b"v".to_vec(), None).is_ok());
    assert_eq!(
        p.add_attribute(Origin::Signed(BOB), env(2, 2), DID, name(), b"w".to_vec(), Some(1)),
        Err(DispatchError::Module(Error::AttributeAlreadyExist))
    );
    assert_eq!(p.read(&DID, b"name"), Some(attribute(b"name", b"v", u32::MAX, 1)));
}

#[test]
fn add_past_last_block_is_refused() {
    let mut p = Pallet::new();
    assert_eq!(
        p.add_attribute(Origin::Signed(ALICE), env(10, 1), DID, name(), b"v".to_vec(), Some(u32::MAX)),
        Err(DispatchError::Module(Error::MaxBlockNumberExceeded))
    );
    assert_eq!(p.read(&DID, b"name"), None);
    assert_eq!(p.is_owner(&ALICE, &DID), Err(DidError::AuthorizationFailed));
}

#[test]
fn add_makes_the_signer_owner() {
    let mut p = Pallet::new();
    assert_eq!(p.is_owner(&ALICE, &DID), Err(DidError::AuthorizationFailed));
    assert!(p.add_attribute(Origin::Signed(ALICE), env(1, 1), DID, name(), b"v".to_vec(), None).is_ok());
    assert_eq!(p.is_owner(&ALICE, &DID), Ok(()));
    assert_eq!(p.is_owner(&BOB, &DID), Err(DidError::AuthorizationFailed));
}

#[test]
fn update_after_add_keeps_name_and_creation() {
    let mut p = Pallet::new();
    assert!(p.add_attribute(Origin::Signed(ALICE), env(10, 99), DID, name(), b"v1".to_vec(), Some(5)).is_ok());
    let r = p.update_attribute(Origin::Signed(ALICE), env(20, 200), DID, name(), b"v2".to_vec(), Some(7));
    assert_eq!(r, Ok(Event::AttributeUpdated(ALICE, DID, name(), b"v2".to_vec(), Some(7))));
    assert_eq!(p.read(&DID, b"name"), Some(attribute(b"name", b"v2", 27, 99)));
}

#[test]
fn update_by_non_owner_is_refused() {
    let mut p = Pallet::new();
    assert!(p.add_attribute(Origin::Signed(ALICE), env(1, 1), DID, name(), b"v".to_vec(), None).is_ok());
    assert_eq!(
        p.update_attribute(Origin::Signed(BOB), env(1, 1), DID, name(), b"w".to_vec(), None),
        Err(DispatchError::Module(Error::AttributeAuthorizationFailed))
    );
    assert_eq!(p.read(&DID, b"name"), Some(attribute(b"name", b"v", u32::MAX, 1)));
}

#[test]
fn update_of_missing_attribute_is_not_found() {
    let mut p = Pallet::new();
    assert!(p.add_attribute(Origin::Signed(ALICE), env(1, 1), DID, name(), b"v".to_vec(), None).is_ok());
    assert_eq!(
        p.update_attribute(Origin::Signed(ALICE), env(1, 1), DID, b"other".to_vec(), b"w".to_vec(), None),
        Err(DispatchError::Module(Error::AttributeNotFound))
    );
}

#[test]
fn update_past_last_block_is_refused() {
    let mut p = Pallet::new();
    assert!(p.add_attribute(Origin::Signed(ALICE), env(1, 1), DID, name(), b"v".to_vec(), None).is_ok());
    assert_eq!(
        p.update_attribute(Origin::Signed(ALICE), env(2, 1), DID, name(), b"w".to_vec(), Some(u32::MAX - 1)),
        Err(DispatchError::Module(Error::MaxBlockNumberExceeded))
    );
    assert_eq!(p.read(&DID, b"name"), Some(attribute(b"name", b"v", u32::MAX, 1)));
}

#[test]
fn owner_of_did_may_update_attribute_added_by_another() {
    let mut p = Pallet::new();
    assert!(p.add_attribute(Origin::Signed(ALICE), env(1, 1), DID, name(), b"v".to_vec(), None).is_ok());
    assert!(p.add_attribute(Origin::Signed(BOB), env(1, 1), DID, b"b".to_vec(), b"x".to_vec(), None).is_ok());
    assert!(p.update_attribute(Origin::Signed(BOB), env(3, 3), DID, name(), b"y".to_vec(), Some(1)).is_ok());
    assert_eq!(p.read(&DID, b"name"), Some(attribute(b"name", b"y", 4, 1)));
}

#[test]
fn remove_after_add_leaves_nothing_to_read() {
    let mut p = Pallet::new();
    assert!(p.add_attribute(Origin::Signed(ALICE), env(1, 1), DID, name(), b"v".to_vec(), None).is_ok());
    assert_eq!(
        p.remove_attribute(Origin::Signed(ALICE), DID, name()),
        Ok(Event::AttributeRemoved(ALICE, DID, name()))
    );
    assert_eq!(p.read(&DID, b"name"), None);
    assert_eq!(
        p.read_attribute(Origin::Signed(ALICE), DID, name()),
        Err(DispatchError::Module(Error::AttributeNotFound))
    );
    assert_eq!(
        p.remove_attribute(Origin::Signed(ALICE), DID, name()),
        Err(DispatchError::Module(Error::AttributeNotFound))
    );
}

#[test]
fn remove_keeps_ownership() {
    let mut p = Pallet::new();
    assert!(p.add_attribute(Origin::Signed(ALICE), env(1, 1), DID, name(), b"v".to_vec(), None).is_ok());
    assert!(p.remove_attribute(Origin::Signed(ALICE), DID, name()).is_ok());
    assert_eq!(p.is_owner(&ALICE, &DID), Ok(()));
}

#[test]
fn remove_by_non_owner_is_refused() {
    let mut p = Pallet::new();
    assert!(p.add_attribute(Origin::Signed(ALICE), env(1, 1), DID, name(), b"v".to_vec(), None).is_ok());
    assert_eq!(
        p.remove_attribute(Origin::Signed(BOB), DID, name()),
        Err(DispatchError::Module(Error::AttributeAuthorizationFailed))
    );
    assert_eq!(p.read(&DID, b"name"), Some(attribute(b"name", b"v", u32::MAX, 1)));
}

#[test]
fn other_attributes_are_untouched() {
    let mut p = Pallet::new();
    assert!(p.add_attribute(Origin::Signed(ALICE), env(1, 1), DID, b"a".to_vec(), b"1".to_vec(), None).is_ok());
    assert!(p.add_attribute(Origin::Signed(ALICE), env(2, 2), DID, b"b".to_vec(), b"2".to_vec(), None).is_ok());
    assert!(p.update_attribute(Origin::Signed(ALICE), env(3, 3), DID, b"b".to_vec(), b"3".to_vec(), None).is_ok());
    assert!(p.remove_attribute(Origin::Signed(ALICE), DID, b"b".to_vec()).is_ok());
    assert_eq!(p.read(&DID, b"a"), Some(attribute(b"a", b"1", u32::MAX, 1)));
    assert_eq!(p.read(&BOB, b"a"), None);
}

#[test]
fn unsigned_calls_are_refused() {
    let mut p = Pallet::new();
    for origin in [Origin::Root, Origin::Unsigned] {
        assert_eq!(
            p.add_attribute(origin, env(1, 1), DID, name(), b"v".to_vec(), None),
            Err(DispatchError::BadOrigin)
        );
        assert_eq!(
            p.update_attribute(origin, env(1, 1), DID, name(), b"v".to_vec(), None),
            Err(DispatchError::BadOrigin)
        );
        assert_eq!(p.read_attribute(origin, DID, name()), Err(DispatchError::BadOrigin));
        assert_eq!(p.remove_attribute(origin, DID, name()), Err(DispatchError::BadOrigin));
    }
    assert_eq!(p.read(&DID, b"name"), None);
}

#[test]
fn names_longer_than_64_bytes_are_refused() {
    let mut p = Pallet::new();
    let long = vec![b'x'; 65];
    assert_eq!(
        p.add_attribute(Origin::Signed(ALICE), env(1, 1), DID, long.clone(), b"v".to_vec(), None),
        Err(DispatchError::Module(Error::AttributeNameExceedMax64))
    );
    assert_eq!(
        p.update_attribute(Origin::Signed(ALICE), env(1, 1), DID, long.clone(), b"v".to_vec(), None),
        Err(DispatchError::Module(Error::AttributeNameExceedMax64))
    );
    assert_eq!(
        p.remove_attribute(Origin::Signed(ALICE), DID, long.clone()),
        Err(DispatchError::Module(Error::AttributeNameExceedMax64))
    );
    assert_eq!(
        p.read_attribute(Origin::Signed(ALICE), DID, long),
        Err(DispatchError::Module(Error::AttributeNotFound))
    );
}

#[test]
fn name_of_exactly_64_bytes_is_accepted() {
    let mut p = Pallet::new();
    let n = vec![b'x'; 64];
    assert!(p.add_attribute(Origin::Signed(ALICE), env(1, 1), DID, n.clone(), b"v".to_vec(), None).is_ok());
    assert_eq!(p.read(&DID, &n), Some(attribute(&n, b"v", u32::MAX, 1)));
}

#[test]
fn keyed_operations_follow_given_keys() {
    let mut p = Pallet::new();
    let key = [1u8; 32];
    let id = [2u8; 32];
    assert_eq!(p.create_with_keys(key, id, &ALICE, &DID, b"n", b"v", Some(5), env(10, 99)), Ok(()));
    assert_eq!(p.read_with_key(&key), Some(attribute(b"n", b"v", 15, 99)));
    assert_eq!(p.is_owner_with_id(&ALICE, &id), Ok(()));
    assert_eq!(p.is_owner_with_id(&ALICE, &key), Err(DidError::AuthorizationFailed));
    assert_eq!(
        p.create_with_keys(key, id, &ALICE, &DID, b"n", b"w", None, env(10, 99)),
        Err(DidError::AlreadyExist)
    );
    assert_eq!(
        p.update_with_keys(key, [9u8; 32], &ALICE, b"w", None, env(11, 100)),
        Err(DidError::AuthorizationFailed)
    );
    assert_eq!(
        p.update_with_keys([8u8; 32], id, &ALICE, b"w", None, env(11, 100)),
        Err(DidError::NotFound)
    );
    assert_eq!(p.update_with_keys(key, id, &ALICE, b"w", None, env(11, 100)), Ok(()));
    assert_eq!(p.read_with_key(&key), Some(attribute(b"n", b"w", u32::MAX, 99)));
    assert_eq!(p.delete_with_keys([8u8; 32], id, &ALICE), Err(DidError::NotFound));
    assert_eq!(p.delete_with_keys(key, id, &BOB), Err(DidError::AuthorizationFailed));
    assert_eq!(p.delete_with_keys(key, id, &ALICE), Ok(()));
    assert_eq!(p.read_with_key(&key), None);
}

#[test]
fn registry_operations_report_did_errors() {
    let mut p = Pallet::new();
    assert_eq!(p.create(&ALICE, &DID, b"n", b"v", None, env(1, 1)), Ok(()));
    assert_eq!(p.create(&BOB, &DID, b"n", b"v", None, env(1, 1)), Err(DidError::AlreadyExist));
    assert_eq!(p.update(&BOB, &DID, b"n", b"w", None, env(1, 1)), Err(DidError::AuthorizationFailed));
    assert_eq!(p.update(&ALICE, &DID, b"m", b"w", None, env(1, 1)), Err(DidError::NotFound));
    assert_eq!(p.update(&ALICE, &DID, b"n", b"w", Some(2), env(1, 1)), Ok(()));
    assert_eq!(p.read(&DID, b"n"), Some(attribute(b"n", b"w", 3, 1)));
    assert_eq!(p.delete(&BOB, &DID, b"n"), Err(DidError::AuthorizationFailed));
    assert_eq!(p.delete(&ALICE, &DID, b"n"), Ok(()));
    assert_eq!(p.delete(&ALICE, &DID, b"n"), Err(DidError::NotFound));
}

use eigenlayer::commit;
use eigenlayer::types::{Error, ValidatorStatus};
use eigenlayer::Pallet;

#[test]
fn register_returns_the_key_commitment() {
    let mut p = Pallet::new(100);
    let key = vec![1u8, 2, 3];
    let hash = p.register_validator(1, &key, 10).unwrap();
    assert_eq!(hash, commit(&key));
    assert_eq!(hash.len(), 4);
    let record = p.get_validator(1).unwrap();
    assert_eq!(record.account_id, 1);
    assert_eq!(record.quantum_key_hash, commit(&key));
    assert_eq!(record.registered_at, 10);
    assert_eq!(record.status, ValidatorStatus::Registered);
}

#[test]
fn register_twice_fails_whatever_the_second_key() {
    let mut p = Pallet::new(100);
    let key = vec![1u8, 2, 3];
    let hash = p.register_validator(1, &key, 10).unwrap();
    let other_key = vec![9u8, 9, 9, 9];
    assert_eq!(
        p.register_validator(1, &other_key, 11),
        Err(Error::ValidatorAlreadyRegistered)
    );
    assert_eq!(
        p.register_validator(1, &key, 11),
        Err(Error::ValidatorAlreadyRegistered)
    );
    // the original record stands untouched
    let record = p.get_validator(1).unwrap();
    assert_eq!(record.quantum_key_hash, hash);
    assert_eq!(record.registered_at, 10);
}

#[test]
fn register_rejects_empty_key() {
    let mut p = Pallet::new(100);
    let empty: Vec<u8> = Vec::new();
    assert_eq!(
        p.register_validator(1, &empty, 10),
        Err(Error::QuantumVerificationFailed)
    );
    assert!(p.get_validator(1).is_none());
}

#[test]
fn verify_unregistered_fails_and_active_set_is_untouched() {
    let mut p = Pallet::new(100);
    assert_eq!(p.verify_validator(5, true), Err(Error::ValidatorNotRegistered));
    assert!(p.get_active_set().is_empty());
    p.register_validator(1, &vec![4u8, 5], 10).unwrap();
    p.verify_validator(1, true).unwrap();
    assert_eq!(p.verify_validator(5, true), Err(Error::ValidatorNotRegistered));
    assert_eq!(p.get_active_set().as_slice(), &[1]);
}

#[test]
fn verify_true_adds_to_active_set_exactly_once() {
    let mut p = Pallet::new(100);
    p.register_validator(1, &vec![1u8], 10).unwrap();
    assert_eq!(p.verify_validator(1, true), Ok(true));
    assert_eq!(p.get_validator(1).unwrap().status, ValidatorStatus::Verified);
    assert_eq!(p.get_active_set().as_slice(), &[1]);
    // a second positive verdict must not duplicate the member
    assert_eq!(p.verify_validator(1, true), Ok(true));
    assert_eq!(p.get_active_set().as_slice(), &[1]);
}

#[test]
fn verify_false_sets_failed_and_keeps_account_out_of_active_set() {
    let mut p = Pallet::new(100);
    p.register_validator(1, &vec![1u8], 10).unwrap();
    assert_eq!(p.verify_validator(1, false), Ok(false));
    assert_eq!(p.get_validator(1).unwrap().status, ValidatorStatus::Failed);
    assert!(p.get_active_set().is_empty());
}

#[test]
fn verify_false_after_true_removes_from_active_set() {
    let mut p = Pallet::new(100);
    p.register_validator(1, &vec![1u8], 10).unwrap();
    p.register_validator(2, &vec![2u8], 10).unwrap();
    p.verify_validator(1, true).unwrap();
    p.verify_validator(2, true).unwrap();
    assert_eq!(p.get_active_set().as_slice(), &[1, 2]);
    // re-verification is allowed and recomputes the status
    assert_eq!(p.verify_validator(1, false), Ok(false));
    assert_eq!(p.get_validator(1).unwrap().status, ValidatorStatus::Failed);
    assert_eq!(p.get_active_set().as_slice(), &[2]);
}

#[test]
fn verify_keeps_the_rest_of_the_record() {
    let mut p = Pallet::new(100);
    let key = vec![8u8, 7, 6];
    let hash = p.register_validator(3, &key, 42).unwrap();
    p.verify_validator(3, true).unwrap();
    let record = p.get_validator(3).unwrap();
    assert_eq!(record.account_id, 3);
    assert_eq!(record.quantum_key_hash, hash);
    assert_eq!(record.registered_at, 42);
}

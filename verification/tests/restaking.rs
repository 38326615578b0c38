use eigenlayer::types::{Error, RestakeInfo};
use eigenlayer::Pallet;

#[test]
fn restake_unregistered_fails() {
    let mut p = Pallet::new(100);
    assert_eq!(
        p.restake(1, 500, 100, 10, true),
        Err(Error::ValidatorNotRegistered)
    );
    assert!(p.get_restake(1).is_none());
}

#[test]
fn restake_below_minimum_fails() {
    let mut p = Pallet::new(100);
    p.register_validator(1, &vec![1u8], 10).unwrap();
    assert_eq!(p.restake(1, 99, 100, 10, true), Err(Error::MinRestakeNotMet));
    assert!(p.get_restake(1).is_none());
}

#[test]
fn restake_refused_reservation_fails() {
    let mut p = Pallet::new(100);
    p.register_validator(1, &vec![1u8], 10).unwrap();
    assert_eq!(
        p.restake(1, 500, 100, 10, false),
        Err(Error::InsufficientBalance)
    );
    assert!(p.get_restake(1).is_none());
}

#[test]
fn restake_writes_the_record_and_returns_the_unlock_height() {
    let mut p = Pallet::new(100);
    p.register_validator(1, &vec![1u8, 2, 3], 10).unwrap();
    assert_eq!(p.restake(1, 500, 100, 10, true), Ok(110));
    assert_eq!(
        p.get_restake(1),
        Some(&RestakeInfo { account_id: 1, amount: 500, start_block: 10, unlock_block: 110 })
    );
}

#[test]
fn restake_accepts_exactly_the_minimum() {
    let mut p = Pallet::new(100);
    p.register_validator(1, &vec![1u8], 10).unwrap();
    assert_eq!(p.restake(1, 100, 5, 20, true), Ok(25));
}

#[test]
fn restake_unlock_saturates_at_the_ceiling() {
    let mut p = Pallet::new(100);
    p.register_validator(1, &vec![1u8], 10).unwrap();
    let now = u64::MAX - 5;
    assert_eq!(p.restake(1, 500, 100, now, true), Ok(u64::MAX));
    let record = p.get_restake(1).unwrap();
    assert_eq!(record.start_block, now);
    assert_eq!(record.unlock_block, u64::MAX);
}

#[test]
fn restake_overwrites_the_previous_record() {
    let mut p = Pallet::new(100);
    p.register_validator(1, &vec![1u8], 10).unwrap();
    p.restake(1, 500, 100, 10, true).unwrap();
    assert_eq!(p.restake(1, 700, 50, 20, true), Ok(70));
    assert_eq!(
        p.get_restake(1),
        Some(&RestakeInfo { account_id: 1, amount: 700, start_block: 20, unlock_block: 70 })
    );
}

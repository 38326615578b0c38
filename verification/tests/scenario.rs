use eigenlayer::commit;
use eigenlayer::types::{OperationType, ValidatorStatus};
use eigenlayer::verification::make_quantum_proof;
use eigenlayer::Pallet;

#[test]
fn full_validator_lifecycle() {
    let account_a = 1u64;
    let account_b = 2u64;
    let account_c = 3u64;
    let mut p = Pallet::new(100);

    // registration binds the account to the key's commitment
    let key = vec![1u8, 2, 3];
    let hash = p.register_validator(account_a, &key, 10).unwrap();
    assert_eq!(hash, commit(&key));

    // restaking 500 for 100 blocks at height 10 locks until 110
    assert_eq!(p.restake(account_a, 500, 100, 10, true), Ok(110));
    let restake = p.get_restake(account_a).unwrap();
    assert_eq!(restake.amount, 500);
    assert_eq!(restake.start_block, 10);
    assert_eq!(restake.unlock_block, 110);

    // a positive verdict moves the validator into the active set
    assert_eq!(p.verify_validator(account_a, true), Ok(true));
    assert!(p.get_active_set().contains(&account_a));
    assert_eq!(p.get_validator(account_a).unwrap().status, ValidatorStatus::Verified);

    // administrative operations allocate consecutive ids starting at zero
    let proof = make_quantum_proof(account_a, account_b, OperationType::Fill);
    assert_eq!(
        p.execute_actorx(account_a, OperationType::Fill, account_b, &proof, 12),
        Ok(0)
    );
    let proof2 = make_quantum_proof(account_a, account_c, OperationType::Kill);
    assert_eq!(
        p.execute_actorx(account_a, OperationType::Kill, account_c, &proof2, 13),
        Ok(1)
    );
    assert_eq!(p.get_actorx_operation(0).unwrap().target, account_b);
    assert_eq!(p.get_actorx_operation(1).unwrap().target, account_c);
}

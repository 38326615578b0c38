use eigenlayer::commit;
use eigenlayer::types::{Error, OperationType};
use eigenlayer::verification::make_quantum_proof;
use eigenlayer::Pallet;

#[test]
fn execute_unregistered_executor_fails() {
    let mut p = Pallet::new(100);
    let proof = make_quantum_proof(1, 2, OperationType::Fill);
    assert_eq!(
        p.execute_actorx(1, OperationType::Fill, 2, &proof, 10),
        Err(Error::ValidatorNotRegistered)
    );
}

#[test]
fn execute_writes_the_operation_record() {
    let mut p = Pallet::new(100);
    p.register_validator(1, &vec![1u8], 5).unwrap();
    let proof = make_quantum_proof(1, 2, OperationType::Fill);
    assert_eq!(p.execute_actorx(1, OperationType::Fill, 2, &proof, 12), Ok(0));
    let record = p.get_actorx_operation(0).unwrap();
    assert_eq!(record.id, 0);
    assert_eq!(record.operation_type, OperationType::Fill);
    assert_eq!(record.executor, 1);
    assert_eq!(record.target, 2);
    assert_eq!(record.executed_at, 12);
    assert_eq!(record.proof_hash, commit(&proof));
}

#[test]
fn proof_is_not_replayable_across_operation_types() {
    let mut p = Pallet::new(100);
    p.register_validator(1, &vec![1u8], 5).unwrap();
    let proof = make_quantum_proof(1, 2, OperationType::Fill);
    assert_eq!(p.execute_actorx(1, OperationType::Fill, 2, &proof, 12), Ok(0));
    // the same proof presented for a kill against the same target must fail
    assert_eq!(
        p.execute_actorx(1, OperationType::Kill, 2, &proof, 13),
        Err(Error::QuantumVerificationFailed)
    );
    assert!(p.get_actorx_operation(1).is_none());
}

#[test]
fn proof_is_not_replayable_against_another_target() {
    let mut p = Pallet::new(100);
    p.register_validator(1, &vec![1u8], 5).unwrap();
    let proof = make_quantum_proof(1, 2, OperationType::Fill);
    assert_eq!(
        p.execute_actorx(1, OperationType::Fill, 3, &proof, 12),
        Err(Error::QuantumVerificationFailed)
    );
}

#[test]
fn proof_is_not_usable_by_another_executor() {
    let mut p = Pallet::new(100);
    p.register_validator(1, &vec![1u8], 5).unwrap();
    p.register_validator(4, &vec![4u8], 5).unwrap();
    let proof = make_quantum_proof(1, 2, OperationType::Fill);
    assert_eq!(
        p.execute_actorx(4, OperationType::Fill, 2, &proof, 12),
        Err(Error::QuantumVerificationFailed)
    );
}

#[test]
fn operation_ids_strictly_increase_without_gaps() {
    let mut p = Pallet::new(100);
    p.register_validator(1, &vec![1u8], 5).unwrap();
    let first = make_quantum_proof(1, 2, OperationType::Fill);
    let second = make_quantum_proof(1, 3, OperationType::Kill);
    let third = make_quantum_proof(1, 4, OperationType::Fill);
    assert_eq!(p.execute_actorx(1, OperationType::Fill, 2, &first, 10), Ok(0));
    assert_eq!(p.execute_actorx(1, OperationType::Kill, 3, &second, 11), Ok(1));
    assert_eq!(p.execute_actorx(1, OperationType::Fill, 4, &third, 12), Ok(2));
    assert_eq!(p.next_operation_id(), 3);
}

#[test]
fn failed_execute_does_not_advance_the_allocator() {
    let mut p = Pallet::new(100);
    p.register_validator(1, &vec![1u8], 5).unwrap();
    let bad = vec![0u8; 3];
    assert_eq!(
        p.execute_actorx(1, OperationType::Fill, 2, &bad, 10),
        Err(Error::QuantumVerificationFailed)
    );
    assert_eq!(p.next_operation_id(), 0);
    let good = make_quantum_proof(1, 2, OperationType::Fill);
    assert_eq!(p.execute_actorx(1, OperationType::Fill, 2, &good, 11), Ok(0));
}

#[test]
fn earlier_operation_records_are_untouched_by_later_ones() {
    let mut p = Pallet::new(100);
    p.register_validator(1, &vec![1u8], 5).unwrap();
    let first = make_quantum_proof(1, 2, OperationType::Fill);
    let second = make_quantum_proof(1, 9, OperationType::Kill);
    p.execute_actorx(1, OperationType::Fill, 2, &first, 10).unwrap();
    p.execute_actorx(1, OperationType::Kill, 9, &second, 11).unwrap();
    let record = p.get_actorx_operation(0).unwrap();
    assert_eq!(record.target, 2);
    assert_eq!(record.operation_type, OperationType::Fill);
    assert_eq!(record.executed_at, 10);
}

//! Plain data model of the ledgers: identifiers, records, statuses, errors
//! and events. Account identifiers, balances and block heights are opaque to
//! this core and carried as plain integers; credential blobs are byte
//! strings.

use vstd::prelude::*;

verus! {

/// Opaque account identifier.
pub type AccountId = u64;

/// Balance unit of the external reservable-balance service.
pub type Balance = u64;

/// Logical time: a block height handed in by the external clock source.
pub type BlockNumber = u64;

/// Key of an administrative operation record.
pub type OperationId = u32;

/// Opaque credential blob presented at registration.
pub type QuantumKey = Vec<u8>;

/// Fixed-width commitment of a quantum key.
pub type QuantumKeyHash = Vec<u8>;

/// Opaque credential blob authorizing one administrative operation.
pub type QuantumProof = Vec<u8>;

/// Fixed-width commitment of a quantum proof.
pub type QuantumProofHash = Vec<u8>;

/// Status of a validator record. A record is created `Registered` and moves
/// only to `Verified` or `Failed`, by the verification operation.
#[derive(Clone, Copy, PartialEq, Eq, Structural, Debug)]
pub enum ValidatorStatus {
    Registered,
    Verified,
    Failed,
}

/// The two kinds of administrative operation. The ledger treats them
/// symmetrically; they differ only in downstream interpretation.
#[derive(Clone, Copy, PartialEq, Eq, Structural, Debug)]
pub enum OperationType {
    Fill,
    Kill,
}

/// Every failure a ledger operation can surface. All checks are local and
/// synchronous; any failure aborts the whole operation with no partial
/// writes.
#[derive(Clone, Copy, PartialEq, Eq, Structural, Debug)]
pub enum Error {
    /// A record already exists for the account that tries to register.
    ValidatorAlreadyRegistered,
    /// The account holds no validator record.
    ValidatorNotRegistered,
    /// The external balance service reports the amount cannot be reserved.
    InsufficientBalance,
    /// The restaked amount is under the configured minimum.
    MinRestakeNotMet,
    /// The operation-id allocator is exhausted: ids are never reused.
    ActorXOperationFailed,
    /// A credential or proof was rejected.
    QuantumVerificationFailed,
    /// The layered error-correction gate rejected the operation; uniform,
    /// whichever internal stage failed.
    ErrorCorrectionFailed,
    /// The requested operation kind is not one the ledger executes.
    InvalidOperationType,
}

/// A validator identity record: append-only audit trail, one per account.
#[derive(Clone, Debug)]
pub struct ValidatorInfo {
    pub account_id: AccountId,
    pub quantum_key_hash: QuantumKeyHash,
    pub registered_at: BlockNumber,
    pub status: ValidatorStatus,
}

/// A bonded-amount record with its time lock. One active record per
/// validator; overwritten by a later restake, never evicted by the ledger.
#[derive(Clone, Copy, PartialEq, Eq, Structural, Debug)]
pub struct RestakeInfo {
    pub account_id: AccountId,
    pub amount: Balance,
    pub start_block: BlockNumber,
    pub unlock_block: BlockNumber,
}

/// An administrative operation record: write-once, keyed by its id.
#[derive(Clone, Debug)]
pub struct ActorXOperation {
    pub id: OperationId,
    pub operation_type: OperationType,
    pub executor: AccountId,
    pub target: AccountId,
    pub executed_at: BlockNumber,
    pub proof_hash: QuantumProofHash,
}

/// One notification per successful mutating call, handed to the external
/// event sink. Fire-and-forget: emission is not part of the transaction.
#[derive(Clone, Debug)]
pub enum Event {
    ValidatorRegistered(AccountId, QuantumKeyHash),
    TokensRestaked(AccountId, Balance, BlockNumber),
    ActorXExecuted(AccountId, OperationId, OperationType),
    ValidatorVerified(AccountId, bool),
}

/// Saturating addition of block heights: time locks saturate at the numeric
/// ceiling, they never wrap.
pub open spec fn saturating_add_spec(a: u64, b: u64) -> u64 {
    if a + b > u64::MAX {
        u64::MAX
    } else {
        (a + b) as u64
    }
}

/// Add a duration to a block height, saturating at the numeric ceiling.
pub fn saturating_add(a: u64, b: u64) -> (r: u64)
    ensures
        r == saturating_add_spec(a, b),
{
    if b > u64::MAX - a {
        u64::MAX
    } else {
        a + b
    }
}

} // verus!

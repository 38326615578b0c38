//! The three ledgers and their operations: the validator registry with its
//! status state machine and active set, the restake ledger with its time
//! locks, and the administrative operation ledger with its strictly
//! increasing id allocator. Every mutating operation validates its
//! preconditions, runs the error-correction gate, and commits atomically, or
//! fails with a typed error and no partial writes.
//!
//! External collaborators stay outside this core and hand in plain values:
//! the clock source supplies `now`, the balance service answers whether an
//! amount can be reserved, and the quantum verification authority supplies
//! the verification verdict.

use std::collections::HashMap;

use vstd::prelude::*;

use crate::correction::apply_error_correction;
use crate::hash::{commit, hash_bytes, HASH_WIDTH};
use crate::types::{
    saturating_add, saturating_add_spec, AccountId, ActorXOperation, Balance, BlockNumber, Error,
    OperationId, OperationType, QuantumKey, QuantumKeyHash, QuantumProof, RestakeInfo,
    ValidatorInfo, ValidatorStatus,
};
use crate::verification::{key_well_formed, proof_valid, verify_quantum_key, verify_quantum_proof};

verus! {

broadcast use vstd::std_specs::hash::group_hash_axioms;

/// Number of times `a` stands in `s`.
pub open spec fn count_matches(s: Seq<AccountId>, a: AccountId) -> nat
    decreases s.len(),
{
    if s.len() == 0 {
        0
    } else {
        count_matches(s.drop_last(), a) + if s.last() == a {
            1nat
        } else {
            0nat
        }
    }
}

/// No account stands twice in `s`.
pub open spec fn no_dups(s: Seq<AccountId>) -> bool {
    forall|i: int, j: int| 0 <= i < j < s.len() ==> s[i] != s[j]
}

/// The active set after a verification of `a` succeeds with a positive
/// verdict. It is unchanged when `a` already stands in it, else extended by `a`.
pub open spec fn insert_active(s: Seq<AccountId>, a: AccountId) -> Seq<AccountId> {
    if s.contains(a) {
        s
    } else {
        s.push(a)
    }
}

/// In a duplicate-free sequence every member stands exactly once.
pub proof fn lemma_no_dups_count(s: Seq<AccountId>, a: AccountId)
    requires
        no_dups(s),
    ensures
        count_matches(s, a) == if s.contains(a) {
            1nat
        } else {
            0nat
        },
    decreases s.len(),
{
    if s.len() > 0 {
        let t = s.drop_last();
        assert(no_dups(t)) by {
            assert(forall|i: int, j: int| 0 <= i < j < t.len() ==> s[i] != s[j]);
        }
        lemma_no_dups_count(t, a);
        if s.last() == a {
            assert(!t.contains(a)) by {
                if t.contains(a) {
                    let k = choose|k: int| 0 <= k < t.len() && t[k] == a;
                    assert(s[k] == a && s[s.len() - 1] == a);
                }
            }
            assert(s.contains(a)) by {
                assert(s[s.len() - 1] == a);
            }
        } else {
            assert(s.contains(a) <==> t.contains(a)) by {
                if s.contains(a) {
                    let k = choose|k: int| 0 <= k < s.len() && s[k] == a;
                    assert(k < s.len() - 1);
                    assert(t[k] == a);
                }
                if t.contains(a) {
                    let k = choose|k: int| 0 <= k < t.len() && t[k] == a;
                    assert(s[k] == a);
                }
            }
        }
    }
}

/// One successful verification puts the account in the active set exactly
/// once, and a second one with the same positive verdict leaves the set as
/// it stands: membership is idempotent and never duplicated.
pub proof fn lemma_active_set_idempotent(s: Seq<AccountId>, a: AccountId)
    requires
        no_dups(s),
    ensures
        insert_active(s, a).contains(a),
        no_dups(insert_active(s, a)),
        count_matches(insert_active(s, a), a) == 1,
        insert_active(insert_active(s, a), a) == insert_active(s, a),
{
    if s.contains(a) {
        lemma_no_dups_count(s, a);
    } else {
        let t = s.push(a);
        assert(t[s.len() as int] == a);
        assert(t.contains(a));
        assert(no_dups(t)) by {
            assert forall|i: int, j: int| 0 <= i < j < t.len() implies t[i] != t[j] by {
                if j < s.len() {
                    assert(t[i] == s[i] && t[j] == s[j]);
                } else {
                    assert(t[j] == a && t[i] == s[i]);
                    assert(!s.contains(a));
                }
            }
        }
        lemma_no_dups_count(t, a);
    }
}

/// Once a registration for an account has been admitted — so a record for it
/// exists — every later registration attempt for the same account is refused
/// as already registered, whatever key the attempt carries.
pub proof fn lemma_register_twice_rejected(
    validators: Map<AccountId, ValidatorInfo>,
    who: AccountId,
    key2: Seq<u8>,
)
    requires
        validators.contains_key(who),
    ensures
        !register_allowed(validators, who, key2),
        register_error(validators, who, key2) == Error::ValidatorAlreadyRegistered,
{
}

/// Operation ids of successive successful executions strictly increase with
/// no gap. A successful execution returns the allocator's current id and
/// advances the allocator by exactly one — that is what `execute_actorx`
/// ensures — so when one successful execution carries a state from `s0` to
/// `s1` returning `id1`, and the next carries `s1` to `s2` returning `id2`,
/// the second id is exactly one above the first. A refused execution leaves
/// the state, and so the allocator, untouched.
pub proof fn lemma_operation_ids_consecutive(
    s0: Pallet,
    s1: Pallet,
    s2: Pallet,
    id1: OperationId,
    id2: OperationId,
)
    requires
        id1 == s0.next_id(),
        s1.next_id() == s0.next_id() + 1,
        id2 == s1.next_id(),
        s2.next_id() == s1.next_id() + 1,
    ensures
        id2 == id1 + 1,
        id1 < id2,
{
}

/// Whether a registration of `who` under `key` is admitted: no record may
/// exist yet and the key must be structurally well-formed.
pub open spec fn register_allowed(
    validators: Map<AccountId, ValidatorInfo>,
    who: AccountId,
    key: Seq<u8>,
) -> bool {
    &&& !validators.contains_key(who)
    &&& key_well_formed(key)
}

/// The error a refused registration surfaces: the first failing check, in
/// the order the checks run.
pub open spec fn register_error(
    validators: Map<AccountId, ValidatorInfo>,
    who: AccountId,
    key: Seq<u8>,
) -> Error {
    if validators.contains_key(who) {
        Error::ValidatorAlreadyRegistered
    } else {
        Error::QuantumVerificationFailed
    }
}

/// Whether a restake of `amount` by `who` is admitted: `who` must hold a
/// validator record, the amount must reach the configured minimum, and the
/// external balance service must allow the reservation.
pub open spec fn restake_allowed(
    validators: Map<AccountId, ValidatorInfo>,
    min: Balance,
    who: AccountId,
    amount: Balance,
    can_reserve: bool,
) -> bool {
    &&& validators.contains_key(who)
    &&& amount >= min
    &&& can_reserve
}

/// The error a refused restake surfaces: the first failing check, in the
/// order the checks run.
pub open spec fn restake_error(
    validators: Map<AccountId, ValidatorInfo>,
    min: Balance,
    who: AccountId,
    amount: Balance,
) -> Error {
    if !validators.contains_key(who) {
        Error::ValidatorNotRegistered
    } else if amount < min {
        Error::MinRestakeNotMet
    } else {
        Error::InsufficientBalance
    }
}

/// Whether an administrative execution is admitted: the executor must hold a
/// validator record, the proof must be bound to exactly this context, and the
/// id allocator must not be exhausted. Both operation kinds are executable,
/// so no check on the kind itself can fail.
pub open spec fn execute_allowed(
    validators: Map<AccountId, ValidatorInfo>,
    who: AccountId,
    target: AccountId,
    op: OperationType,
    proof: Seq<u8>,
    next_id: OperationId,
) -> bool {
    &&& validators.contains_key(who)
    &&& proof_valid(proof, who, target, op)
    &&& next_id < OperationId::MAX
}

/// The error a refused execution surfaces: the first failing check, in the
/// order the checks run.
pub open spec fn execute_error(
    validators: Map<AccountId, ValidatorInfo>,
    who: AccountId,
    target: AccountId,
    op: OperationType,
    proof: Seq<u8>,
) -> Error {
    if !validators.contains_key(who) {
        Error::ValidatorNotRegistered
    } else if !proof_valid(proof, who, target, op) {
        Error::QuantumVerificationFailed
    } else {
        Error::ActorXOperationFailed
    }
}

fn contains_account(v: &Vec<AccountId>, a: AccountId) -> (r: bool)
    ensures
        r == v@.contains(a),
{
    let mut i: usize = 0;
    while i < v.len()
        invariant
            i <= v.len(),
            forall|j: int| 0 <= j < i ==> v@[j] != a,
        decreases v.len() - i,
    {
        if v[i] == a {
            proof {
                assert(v@[i as int] == a);
            }
            return true;
        }
        i = i + 1;
    }
    proof {
        assert(!v@.contains(a));
    }
    false
}

fn remove_account(v: &mut Vec<AccountId>, a: AccountId)
    requires
        no_dups(old(v)@),
    ensures
        no_dups(final (v)@),
        !final (v)@.contains(a),
        forall|b: AccountId| b != a ==> final (v)@.contains(b) == old(v)@.contains(b),
        !old(v)@.contains(a) ==> final (v)@ == old(v)@,
{
    let mut i: usize = 0;
    while i < v.len()
        invariant
            i <= v.len(),
            no_dups(v@),
            v@ == old(v)@,
            forall|j: int| 0 <= j < i ==> v@[j] != a,
        decreases v.len() - i,
    {
        if v[i] == a {
            let ghost s = v@;
            let ghost ii = i as int;
            v.remove(i);
            proof {
                let t = v@;
                s.remove_ensures(ii);
                assert(no_dups(t)) by {
                    assert forall|p: int, q: int| 0 <= p < q < t.len() implies t[p] != t[q] by {
                        if q < ii {
                            assert(t[p] == s[p] && t[q] == s[q]);
                        } else if p < ii {
                            assert(t[p] == s[p] && t[q] == s[q + 1]);
                        } else {
                            assert(t[p] == s[p + 1] && t[q] == s[q + 1]);
                        }
                    }
                }
                assert(!t.contains(a)) by {
                    if t.contains(a) {
                        let k = choose|k: int| 0 <= k < t.len() && t[k] == a;
                        if k < ii {
                            assert(s[k] == a && s[ii] == a);
                        } else {
                            assert(s[k + 1] == a && s[ii] == a);
                        }
                    }
                }
                assert forall|b: AccountId| b != a implies t.contains(b) == s.contains(b) by {
                    if t.contains(b) {
                        let k = choose|k: int| 0 <= k < t.len() && t[k] == b;
                        if k < ii {
                            assert(s[k] == b);
                        } else {
                            assert(s[k + 1] == b);
                        }
                        assert(s.contains(b));
                    }
                    if s.contains(b) {
                        let k = choose|k: int| 0 <= k < s.len() && s[k] == b;
                        if k < ii {
                            assert(t[k] == b);
                        } else {
                            assert(k != ii);
                            assert(t[k - 1] == b);
                        }
                        assert(t.contains(b));
                    }
                }
            }
            return;
        }
        i = i + 1;
    }
    proof {
        assert(!v@.contains(a));
    }
}

/// The owned state of the whole system: one record store per ledger, the
/// active set, the operation-id allocator, and the configured restake
/// minimum. Initialized empty and mutated only through the operations below.
pub struct Pallet {
    validators: HashMap<AccountId, ValidatorInfo>,
    active_validators: Vec<AccountId>,
    restakes: HashMap<AccountId, RestakeInfo>,
    actorx_operations: HashMap<OperationId, ActorXOperation>,
    next_op_id: OperationId,
    min_restake_amount: Balance,
}

impl Pallet {
    /// The validator registry, as a map from account to record.
    pub closed spec fn validators_map(self) -> Map<AccountId, ValidatorInfo> {
        self.validators@
    }

    /// The active set, in insertion order.
    pub closed spec fn active_set(self) -> Seq<AccountId> {
        self.active_validators@
    }

    /// The restake ledger, as a map from account to record.
    pub closed spec fn restakes_map(self) -> Map<AccountId, RestakeInfo> {
        self.restakes@
    }

    /// The operation ledger, as a map from id to record.
    pub closed spec fn operations_map(self) -> Map<OperationId, ActorXOperation> {
        self.actorx_operations@
    }

    /// The id the next successful execution will be given.
    pub closed spec fn next_id(self) -> OperationId {
        self.next_op_id
    }

    /// The configured minimum restake amount.
    pub closed spec fn min_restake(self) -> Balance {
        self.min_restake_amount
    }

    /// Whether `a` holds a validator record.
    pub open spec fn is_registered(self, a: AccountId) -> bool {
        self.validators_map().contains_key(a)
    }

    /// Well-formedness of the whole state, established by the constructor
    /// and preserved by every operation:
    /// - the active set holds no duplicates, and every member's record
    ///   exists and reads `Verified`;
    /// - every record sits under its own account or id as key;
    /// - every stored commitment has the fixed width;
    /// - every restake reaches the configured minimum, never unlocks before
    ///   it starts, and belongs to a registered validator;
    /// - every operation record carries an id the allocator has already
    ///   passed, and its executor is a registered validator.
    pub open spec fn wf(self) -> bool {
        &&& no_dups(self.active_set())
        &&& forall|i: int|
            0 <= i < self.active_set().len() ==> {
                &&& self.validators_map().contains_key(#[trigger] self.active_set()[i])
                &&& self.validators_map()[self.active_set()[i]].status == ValidatorStatus::Verified
            }
        &&& forall|a: AccountId|
            #[trigger] self.validators_map().contains_key(a) ==> {
                &&& self.validators_map()[a].account_id == a
                &&& self.validators_map()[a].quantum_key_hash@.len() == HASH_WIDTH
            }
        &&& forall|a: AccountId|
            #[trigger] self.restakes_map().contains_key(a) ==> {
                &&& self.restakes_map()[a].account_id == a
                &&& self.restakes_map()[a].amount >= self.min_restake()
                &&& self.restakes_map()[a].unlock_block >= self.restakes_map()[a].start_block
                &&& self.validators_map().contains_key(a)
            }
        &&& forall|id: OperationId|
            #[trigger] self.operations_map().contains_key(id) ==> {
                &&& self.operations_map()[id].id == id
                &&& id < self.next_id()
                &&& self.validators_map().contains_key(self.operations_map()[id].executor)
                &&& self.operations_map()[id].proof_hash@.len() == HASH_WIDTH
            }
    }

    /// A fresh system: empty ledgers, the allocator at its first id, and the
    /// given restake minimum.
    pub fn new(min_restake_amount: Balance) -> (r: Pallet)
        ensures
            r.wf(),
            r.validators_map() == Map::<AccountId, ValidatorInfo>::empty(),
            r.active_set() == Seq::<AccountId>::empty(),
            r.restakes_map() == Map::<AccountId, RestakeInfo>::empty(),
            r.operations_map() == Map::<OperationId, ActorXOperation>::empty(),
            r.next_id() == 0,
            r.min_restake() == min_restake_amount,
    {
        Pallet {
            validators: HashMap::new(),
            active_validators: Vec::new(),
            restakes: HashMap::new(),
            actorx_operations: HashMap::new(),
            next_op_id: 0,
            min_restake_amount: min_restake_amount,
        }
    }

    /// Register `who` as a validator bound to the given quantum key.
    ///
    /// Refused with `ValidatorAlreadyRegistered` when a record for `who`
    /// exists, whatever key is presented, and with
    /// `QuantumVerificationFailed` when the key is malformed; a refused call
    /// changes nothing. Otherwise the operation passes the error-correction
    /// gate, the key's commitment is computed, a `Registered` record stamped
    /// with the logical time `now` is written, and the commitment is
    /// returned. No other ledger is touched.
    pub fn register_validator(
        &mut self,
        who: AccountId,
        quantum_key: &QuantumKey,
        now: BlockNumber,
    ) -> (r: Result<QuantumKeyHash, Error>)
        requires
            old(self).wf(),
        ensures
            final (self).wf(),
            r is Ok <==> register_allowed(old(self).validators_map(), who, quantum_key@),
            r is Err ==> *final (self) == *old(self) && (r matches Err(e) && e == register_error(
                old(self).validators_map(),
                who,
                quantum_key@,
            )),
            r is Ok ==> {
                &&& (r matches Ok(h) && h@ == hash_bytes(quantum_key@))
                &&& final (self).is_registered(who)
                &&& final (self).validators_map()[who].account_id == who
                &&& final (self).validators_map()[who].quantum_key_hash@ == hash_bytes(
                    quantum_key@,
                )
                &&& final (self).validators_map()[who].registered_at == now
                &&& final (self).validators_map()[who].status == ValidatorStatus::Registered
                &&& forall|a: AccountId|
                    a != who ==> final (self).validators_map().contains_key(a) == old(
                        self).validators_map().contains_key(a)
                &&& forall|a: AccountId|
                    a != who && old(self).validators_map().contains_key(a) ==> final (
                        self).validators_map()[a] == old(self).validators_map()[a]
                &&& final (self).active_set() == old(self).active_set()
                &&& final (self).restakes_map() == old(self).restakes_map()
                &&& final (self).operations_map() == old(self).operations_map()
                &&& final (self).next_id() == old(self).next_id()
            },
            final (self).min_restake() == old(self).min_restake(),
    {
        if self.validators.contains_key(&who) {
            return Err(Error::ValidatorAlreadyRegistered);
        }
        match verify_quantum_key(quantum_key) {
            Ok(()) => (),
            Err(()) => {
                return Err(Error::QuantumVerificationFailed);
            },
        }
        match apply_error_correction() {
            Ok(()) => (),
            Err(e) => {
                return Err(e);
            },
        }
        let key_hash = commit(quantum_key);
        let info = ValidatorInfo {
            account_id: who,
            quantum_key_hash: key_hash,
            registered_at: now,
            status: ValidatorStatus::Registered,
        };
        self.validators.insert(who, info);
        proof {
            let oldm = old(self).validators_map();
            let newm = self.validators_map();
            assert forall|i: int| 0 <= i < self.active_set().len() implies {
                &&& newm.contains_key(#[trigger] self.active_set()[i])
                &&& newm[self.active_set()[i]].status == ValidatorStatus::Verified
            } by {
                let a = self.active_set()[i];
                assert(oldm.contains_key(a));
            }
            assert forall|a: AccountId| #[trigger] self.restakes_map().contains_key(a) implies {
                &&& self.restakes_map()[a].account_id == a
                &&& self.restakes_map()[a].amount >= self.min_restake()
                &&& self.restakes_map()[a].unlock_block >= self.restakes_map()[a].start_block
                &&& newm.contains_key(a)
            } by {
                assert(old(self).restakes_map().contains_key(a));
                assert(oldm.contains_key(a));
            }
            assert forall|id: OperationId|
                #[trigger] self.operations_map().contains_key(id) implies {
                &&& self.operations_map()[id].id == id
                &&& id < self.next_id()
                &&& newm.contains_key(self.operations_map()[id].executor)
                &&& self.operations_map()[id].proof_hash@.len() == HASH_WIDTH
            } by {
                assert(old(self).operations_map().contains_key(id));
                assert(oldm.contains_key(self.operations_map()[id].executor));
            }
        }
        Ok(commit(quantum_key))
    }

    /// Restake `amount` for `duration` block heights, at logical time `now`.
    ///
    /// `can_reserve` is the external balance service's answer whether `who`
    /// can reserve `amount`; on success the caller must perform that
    /// reservation within the same transaction. Refused with
    /// `ValidatorNotRegistered` when `who` holds no record, with
    /// `MinRestakeNotMet` when the amount is under the configured minimum,
    /// and with `InsufficientBalance` when the service refuses; a refused
    /// call changes nothing. Otherwise the operation passes the
    /// error-correction gate, the record for `who` is written or
    /// overwritten with `unlock_block = now + duration` saturating at the
    /// numeric ceiling, and that unlock height is returned.
    pub fn restake(
        &mut self,
        who: AccountId,
        amount: Balance,
        duration: BlockNumber,
        now: BlockNumber,
        can_reserve: bool,
    ) -> (r: Result<BlockNumber, Error>)
        requires
            old(self).wf(),
        ensures
            final (self).wf(),
            r is Ok <==> restake_allowed(
                old(self).validators_map(),
                old(self).min_restake(),
                who,
                amount,
                can_reserve,
            ),
            r is Err ==> *final (self) == *old(self) && (r matches Err(e) && e == restake_error(
                old(self).validators_map(),
                old(self).min_restake(),
                who,
                amount,
            )),
            r is Ok ==> {
                &&& (r matches Ok(u) && u == saturating_add_spec(now, duration))
                &&& final (self).restakes_map() == old(self).restakes_map().insert(
                    who,
                    (RestakeInfo {
                        account_id: who,
                        amount: amount,
                        start_block: now,
                        unlock_block: saturating_add_spec(now, duration),
                    }),
                )
                &&& final (self).validators_map() == old(self).validators_map()
                &&& final (self).active_set() == old(self).active_set()
                &&& final (self).operations_map() == old(self).operations_map()
                &&& final (self).next_id() == old(self).next_id()
            },
            final (self).min_restake() == old(self).min_restake(),
    {
        if !self.validators.contains_key(&who) {
            return Err(Error::ValidatorNotRegistered);
        }
        if amount < self.min_restake_amount {
            return Err(Error::MinRestakeNotMet);
        }
        if !can_reserve {
            return Err(Error::InsufficientBalance);
        }
        match apply_error_correction() {
            Ok(()) => (),
            Err(e) => {
                return Err(e);
            },
        }
        let unlock_block = saturating_add(now, duration);
        let info = RestakeInfo { account_id: who, amount, start_block: now, unlock_block };
        self.restakes.insert(who, info);
        proof {
            assert forall|a: AccountId| #[trigger] self.restakes_map().contains_key(a) implies {
                &&& self.restakes_map()[a].account_id == a
                &&& self.restakes_map()[a].amount >= self.min_restake()
                &&& self.restakes_map()[a].unlock_block >= self.restakes_map()[a].start_block
                &&& self.validators_map().contains_key(a)
            } by {
                if a != who {
                    assert(old(self).restakes_map().contains_key(a));
                }
            }
        }
        Ok(unlock_block)
    }

    /// Execute an administrative operation of the given kind by `who`
    /// against `target`, authorized by `quantum_proof`, at logical time
    /// `now`.
    ///
    /// Refused with `ValidatorNotRegistered` when the executor holds no
    /// record, with `QuantumVerificationFailed` when the proof is not bound
    /// to exactly this executor, target and kind, and with
    /// `ActorXOperationFailed` when the id allocator is exhausted; a refused
    /// call changes nothing — in particular it never advances the allocator.
    /// Otherwise the operation passes the error-correction gate, the next id
    /// is allocated (strictly increasing, never reused), a write-once record
    /// holding the proof's commitment is stored under that id, and the id is
    /// returned. Both kinds are executable and treated alike, so no check on
    /// the kind itself can fail here.
    #[verifier::rlimit(50)]
    pub fn execute_actorx(
        &mut self,
        who: AccountId,
        operation_type: OperationType,
        target: AccountId,
        quantum_proof: &QuantumProof,
        now: BlockNumber,
    ) -> (r: Result<OperationId, Error>)
        requires
            old(self).wf(),
        ensures
            final (self).wf(),
            r is Ok <==> execute_allowed(
                old(self).validators_map(),
                who,
                target,
                operation_type,
                quantum_proof@,
                old(self).next_id(),
            ),
            r is Err ==> *final (self) == *old(self) && (r matches Err(e) && e == execute_error(
                old(self).validators_map(),
                who,
                target,
                operation_type,
                quantum_proof@,
            )),
            r is Ok ==> {
                &&& (r matches Ok(id) && id == old(self).next_id())
                &&& final (self).next_id() == old(self).next_id() + 1
                &&& final (self).operations_map().contains_key(old(self).next_id())
                &&& final (self).operations_map()[old(self).next_id()].id == old(self).next_id()
                &&& final (self).operations_map()[old(self).next_id()].operation_type
                    == operation_type
                &&& final (self).operations_map()[old(self).next_id()].executor == who
                &&& final (self).operations_map()[old(self).next_id()].target == target
                &&& final (self).operations_map()[old(self).next_id()].executed_at == now
                &&& final (self).operations_map()[old(self).next_id()].proof_hash@ == hash_bytes(
                    quantum_proof@,
                )
                &&& forall|i: OperationId|
                    i != old(self).next_id() ==> final (self).operations_map().contains_key(i)
                        == old(self).operations_map().contains_key(i)
                &&& forall|i: OperationId|
                    i != old(self).next_id() && old(self).operations_map().contains_key(i)
                        ==> final (self).operations_map()[i] == old(self).operations_map()[i]
                &&& final (self).validators_map() == old(self).validators_map()
                &&& final (self).active_set() == old(self).active_set()
                &&& final (self).restakes_map() == old(self).restakes_map()
            },
            final (self).min_restake() == old(self).min_restake(),
    {
        if !self.validators.contains_key(&who) {
            return Err(Error::ValidatorNotRegistered);
        }
        match verify_quantum_proof(quantum_proof, who, target, operation_type) {
            Ok(()) => (),
            Err(()) => {
                return Err(Error::QuantumVerificationFailed);
            },
        }
        match apply_error_correction() {
            Ok(()) => (),
            Err(e) => {
                return Err(e);
            },
        }
        if self.next_op_id == OperationId::MAX {
            return Err(Error::ActorXOperationFailed);
        }
        let operation_id = self.next_op_id;
        self.next_op_id = operation_id + 1;
        let operation = ActorXOperation {
            id: operation_id,
            operation_type,
            executor: who,
            target,
            executed_at: now,
            proof_hash: commit(quantum_proof),
        };
        self.actorx_operations.insert(operation_id, operation);
        proof {
            assert forall|id: OperationId|
                #[trigger] self.operations_map().contains_key(id) implies {
                &&& self.operations_map()[id].id == id
                &&& id < self.next_id()
                &&& self.validators_map().contains_key(self.operations_map()[id].executor)
                &&& self.operations_map()[id].proof_hash@.len() == HASH_WIDTH
            } by {
                if id != operation_id {
                    assert(old(self).operations_map().contains_key(id));
                }
            }
            assert forall|a: AccountId| #[trigger] self.restakes_map().contains_key(a) implies {
                &&& self.restakes_map()[a].account_id == a
                &&& self.restakes_map()[a].amount >= self.min_restake()
                &&& self.restakes_map()[a].unlock_block >= self.restakes_map()[a].start_block
                &&& self.validators_map().contains_key(a)
            } by {
                assert(old(self).restakes_map().contains_key(a));
            }
        }
        Ok(operation_id)
    }

    /// Decide the verification of `validator`'s quantum credentials.
    ///
    /// `decision` is the verdict of the external quantum verification
    /// authority, obtained by the caller; the call returns it. Refused with
    /// `ValidatorNotRegistered` when no record exists, and a refused call
    /// changes nothing — in particular the active set. Otherwise the
    /// operation passes the error-correction gate and the verdict is committed:
    /// on true the record moves to `Verified` and the account enters the
    /// active set, exactly once even over repeated positive verdicts; on
    /// false it moves to `Failed` and leaves the active set, so every active
    /// member's record always reads `Verified`. Re-verification is allowed
    /// and recomputes the status either way. No other ledger is touched.
    pub fn verify_validator(&mut self, validator: AccountId, decision: bool) -> (r: Result<
        bool,
        Error,
    >)
        requires
            old(self).wf(),
        ensures
            final (self).wf(),
            r is Ok <==> old(self).is_registered(validator),
            r is Err ==> *final (self) == *old(self) && (r matches Err(e) && e
                == Error::ValidatorNotRegistered),
            r is Ok ==> {
                &&& (r matches Ok(d) && d == decision)
                &&& final (self).is_registered(validator)
                &&& final (self).validators_map()[validator].status == (if decision {
                    ValidatorStatus::Verified
                } else {
                    ValidatorStatus::Failed
                })
                &&& final (self).validators_map()[validator].account_id == old(self).validators_map()[validator].account_id
                &&& final (self).validators_map()[validator].quantum_key_hash@ == old(self).validators_map()[validator].quantum_key_hash@
                &&& final (self).validators_map()[validator].registered_at == old(self).validators_map()[validator].registered_at
                &&& forall|a: AccountId|
                    a != validator ==> final (self).validators_map().contains_key(a) == old(self).validators_map().contains_key(a)
                &&& forall|a: AccountId|
                    a != validator && old(self).validators_map().contains_key(a) ==> final (self).validators_map()[a] == old(self).validators_map()[a]
                &&& final (self).restakes_map() == old(self).restakes_map()
                &&& final (self).operations_map() == old(self).operations_map()
                &&& final (self).next_id() == old(self).next_id()
            },
            r is Ok && decision ==> {
                &&& final (self).active_set() == insert_active(old(self).active_set(), validator)
                &&& final (self).active_set().contains(validator)
                &&& count_matches(final (self).active_set(), validator) == 1
            },
            r is Ok && !decision ==> {
                &&& !final (self).active_set().contains(validator)
                &&& forall|a: AccountId|
                    a != validator ==> final (self).active_set().contains(a) == old(self).active_set().contains(a)
            },
            final (self).min_restake() == old(self).min_restake(),
    {
        if !self.validators.contains_key(&validator) {
            return Err(Error::ValidatorNotRegistered);
        }
        match apply_error_correction() {
            Ok(()) => (),
            Err(e) => {
                return Err(e);
            },
        }
        let mut info = match self.validators.remove(&validator) {
            Some(i) => i,
            None => {
                return Err(Error::ValidatorNotRegistered);
            },
        };
        let verification_result = decision;
        if verification_result {
            info.status = ValidatorStatus::Verified;
            if !contains_account(&self.active_validators, validator) {
                self.active_validators.push(validator);
                proof {
                    let s = old(self).active_set();
                    assert(self.active_set() == insert_active(s, validator));
                    assert(self.active_set()[s.len() as int] == validator);
                    assert(self.active_set().contains(validator));
                }
            }
        } else {
            info.status = ValidatorStatus::Failed;
            remove_account(&mut self.active_validators, validator);
        }
        self.validators.insert(validator, info);
        proof {
            let oldm = old(self).validators_map();
            let newm = self.validators_map();
            assert(newm == oldm.remove(validator).insert(validator, info));
            assert forall|a: AccountId| a != validator implies newm.contains_key(a)
                == oldm.contains_key(a) && (oldm.contains_key(a) ==> newm[a] == oldm[a]) by {}
            if decision {
                lemma_active_set_idempotent(old(self).active_set(), validator);
            }
            assert forall|i: int| 0 <= i < self.active_set().len() implies {
                &&& newm.contains_key(#[trigger] self.active_set()[i])
                &&& newm[self.active_set()[i]].status == ValidatorStatus::Verified
            } by {
                let a = self.active_set()[i];
                if a != validator {
                    assert(self.active_set().contains(a)) by {
                        assert(self.active_set()[i] == a);
                    }
                    assert(old(self).active_set().contains(a));
                    let k = choose|k: int|
                        0 <= k < old(self).active_set().len() && old(self).active_set()[k] == a;
                    assert(oldm.contains_key(a));
                }
            }
            assert forall|a: AccountId| #[trigger] self.restakes_map().contains_key(a) implies {
                &&& self.restakes_map()[a].account_id == a
                &&& self.restakes_map()[a].amount >= self.min_restake()
                &&& self.restakes_map()[a].unlock_block >= self.restakes_map()[a].start_block
                &&& newm.contains_key(a)
            } by {
                assert(old(self).restakes_map().contains_key(a));
                assert(oldm.contains_key(a));
            }
            assert forall|id: OperationId|
                #[trigger] self.operations_map().contains_key(id) implies {
                &&& self.operations_map()[id].id == id
                &&& id < self.next_id()
                &&& newm.contains_key(self.operations_map()[id].executor)
                &&& self.operations_map()[id].proof_hash@.len() == HASH_WIDTH
            } by {
                assert(old(self).operations_map().contains_key(id));
                assert(oldm.contains_key(self.operations_map()[id].executor));
            }
        }
        Ok(verification_result)
    }

    /// Look up a validator record. Read-only.
    pub fn get_validator(&self, account: AccountId) -> (r: Option<&ValidatorInfo>)
        ensures
            match r {
                Some(v) => self.validators_map().contains_key(account) && *v
                    == self.validators_map()[account],
                None => !self.validators_map().contains_key(account),
            },
    {
        self.validators.get(&account)
    }

    /// The current active set, in insertion order. Read-only.
    pub fn get_active_set(&self) -> (r: &Vec<AccountId>)
        ensures
            r@ == self.active_set(),
    {
        &self.active_validators
    }

    /// Look up a restake record. Read-only.
    pub fn get_restake(&self, account: AccountId) -> (r: Option<&RestakeInfo>)
        ensures
            match r {
                Some(v) => self.restakes_map().contains_key(account) && *v
                    == self.restakes_map()[account],
                None => !self.restakes_map().contains_key(account),
            },
    {
        self.restakes.get(&account)
    }

    /// Look up an administrative operation record by its id. Read-only.
    pub fn get_actorx_operation(&self, id: OperationId) -> (r: Option<&ActorXOperation>)
        ensures
            match r {
                Some(v) => self.operations_map().contains_key(id) && *v
                    == self.operations_map()[id],
                None => !self.operations_map().contains_key(id),
            },
    {
        self.actorx_operations.get(&id)
    }

    /// The id the next successful execution will return. Read-only.
    pub fn next_operation_id(&self) -> (r: OperationId)
        ensures
            r == self.next_id(),
    {
        self.next_op_id
    }
}

} // verus!

//! Structural validation of credential blobs, and context-bound
//! authorization of administrative operations: a proof authorizes one
//! executor to perform one operation kind against one target, and nothing
//! else. Pure validation; no ledger state is read or changed here.

use vstd::prelude::*;

use crate::types::{AccountId, OperationType, QuantumKey, QuantumProof};

verus! {

/// A quantum key is structurally well-formed when it carries at least one
/// byte: zero-length keys are malformed and rejected at registration.
pub open spec fn key_well_formed(k: Seq<u8>) -> bool {
    k.len() > 0
}

/// Little-endian bytes of a 64-bit identifier, as they stand in a context
/// token.
#[verifier::opaque]
pub open spec fn id_bytes(x: u64) -> Seq<u8> {
    seq![
        (x % 256) as u8,
        ((x / 256) % 256) as u8,
        ((x / 65536) % 256) as u8,
        ((x / 16777216) % 256) as u8,
        ((x / 4294967296) % 256) as u8,
        ((x / 1099511627776) % 256) as u8,
        ((x / 281474976710656) % 256) as u8,
        ((x / 72057594037927936) % 256) as u8,
    ]
}

/// Tag byte telling the two operation kinds apart inside a context token.
pub open spec fn operation_tag(op: OperationType) -> u8 {
    match op {
        OperationType::Fill => 1,
        OperationType::Kill => 2,
    }
}

/// The token that authorizes `executor` to run an operation of kind `op`
/// against `target`: both identifiers in little-endian bytes, then the
/// operation tag.
pub open spec fn context_token(executor: AccountId, target: AccountId, op: OperationType) -> Seq<
    u8,
> {
    id_bytes(executor) + id_bytes(target) + seq![operation_tag(op)]
}

/// A proof is valid exactly for the context it was issued for.
pub open spec fn proof_valid(
    p: Seq<u8>,
    executor: AccountId,
    target: AccountId,
    op: OperationType,
) -> bool {
    p == context_token(executor, target, op)
}

fn push_id_bytes(v: &mut Vec<u8>, x: u64)
    ensures
        final(v)@ == old(v)@ + id_bytes(x),
{
    v.push((x % 256) as u8);
    v.push(((x / 256) % 256) as u8);
    v.push(((x / 65536) % 256) as u8);
    v.push(((x / 16777216) % 256) as u8);
    v.push(((x / 4294967296) % 256) as u8);
    v.push(((x / 1099511627776) % 256) as u8);
    v.push(((x / 281474976710656) % 256) as u8);
    v.push(((x / 72057594037927936) % 256) as u8);
    proof {
        reveal(id_bytes);
        assert(v@ =~= old(v)@ + id_bytes(x));
    }
}

/// An identifier's bytes in a context token always take the same width.
pub proof fn lemma_id_bytes_len(x: u64)
    ensures
        id_bytes(x).len() == 8,
{
    reveal(id_bytes);
}

/// Issue the proof that authorizes exactly the given context. Presenting the
/// result for any other executor, target or operation kind fails.
pub fn make_quantum_proof(
    executor: AccountId,
    target: AccountId,
    operation_type: OperationType,
) -> (r: QuantumProof)
    ensures
        r@ == context_token(executor, target, operation_type),
        proof_valid(r@, executor, target, operation_type),
{
    let mut v: Vec<u8> = Vec::new();
    push_id_bytes(&mut v, executor);
    push_id_bytes(&mut v, target);
    let tag: u8 = match operation_type {
        OperationType::Fill => 1,
        OperationType::Kill => 2,
    };
    v.push(tag);
    proof {
        assert(v@ =~= context_token(executor, target, operation_type));
    }
    v
}

fn bytes_eq(a: &Vec<u8>, b: &Vec<u8>) -> (r: bool)
    ensures
        r == (a@ == b@),
{
    if a.len() != b.len() {
        proof {
            assert(a@ != b@);
        }
        return false;
    }
    let mut i: usize = 0;
    while i < a.len()
        invariant
            i <= a.len(),
            a@.len() == b@.len(),
            forall|j: int| 0 <= j < i ==> a@[j] == b@[j],
        decreases a.len() - i,
    {
        if a[i] != b[i] {
            proof {
                assert(a@ != b@);
            }
            return false;
        }
        i = i + 1;
    }
    proof {
        assert(a@ =~= b@);
    }
    true
}

/// Structural check of a quantum key presented at registration: malformed
/// (zero-length) keys are rejected; nothing else is read or consumed.
pub fn verify_quantum_key(key: &QuantumKey) -> (r: Result<(), ()>)
    ensures
        r is Ok <==> key_well_formed(key@),
{
    if key.len() > 0 {
        Ok(())
    } else {
        Err(())
    }
}

/// Check a presented proof against the claimed context. Pure; a proof issued
/// for another executor, target or operation kind is rejected.
pub fn verify_quantum_proof(
    proof: &QuantumProof,
    executor: AccountId,
    target: AccountId,
    operation_type: OperationType,
) -> (r: Result<(), ()>)
    ensures
        r is Ok <==> proof_valid(proof@, executor, target, operation_type),
{
    let expected = make_quantum_proof(executor, target, operation_type);
    if bytes_eq(proof, &expected) {
        Ok(())
    } else {
        Err(())
    }
}

/// A proof bound to one operation kind never authorizes the other, even for
/// the same executor and target: replay across operation kinds fails.
pub proof fn lemma_no_replay_across_operation_types(
    p: Seq<u8>,
    executor: AccountId,
    target: AccountId,
)
    ensures
        proof_valid(p, executor, target, OperationType::Fill) ==> !proof_valid(
            p,
            executor,
            target,
            OperationType::Kill,
        ),
        proof_valid(p, executor, target, OperationType::Kill) ==> !proof_valid(
            p,
            executor,
            target,
            OperationType::Fill,
        ),
{
    lemma_id_bytes_len(executor);
    lemma_id_bytes_len(target);
    assert(context_token(executor, target, OperationType::Fill)[16] == 1);
    assert(context_token(executor, target, OperationType::Kill)[16] == 2);
}

proof fn lemma_id_bytes_injective(x: u64, y: u64)
    requires
        id_bytes(x) == id_bytes(y),
    ensures
        x == y,
{
    reveal(id_bytes);
    assert(id_bytes(x)[0] == id_bytes(y)[0]);
    assert(id_bytes(x)[1] == id_bytes(y)[1]);
    assert(id_bytes(x)[2] == id_bytes(y)[2]);
    assert(id_bytes(x)[3] == id_bytes(y)[3]);
    assert(id_bytes(x)[4] == id_bytes(y)[4]);
    assert(id_bytes(x)[5] == id_bytes(y)[5]);
    assert(id_bytes(x)[6] == id_bytes(y)[6]);
    assert(id_bytes(x)[7] == id_bytes(y)[7]);
    assert(x % 256 == y % 256);
    assert((x / 256) % 256 == (y / 256) % 256);
    assert((x / 65536) % 256 == (y / 65536) % 256);
    assert((x / 16777216) % 256 == (y / 16777216) % 256);
    assert((x / 4294967296) % 256 == (y / 4294967296) % 256);
    assert((x / 1099511627776) % 256 == (y / 1099511627776) % 256);
    assert((x / 281474976710656) % 256 == (y / 281474976710656) % 256);
    assert((x / 72057594037927936) % 256 == (y / 72057594037927936) % 256);
    assert(x == y) by (bit_vector)
        requires
            x % 256 == y % 256,
            (x / 256) % 256 == (y / 256) % 256,
            (x / 65536) % 256 == (y / 65536) % 256,
            (x / 16777216) % 256 == (y / 16777216) % 256,
            (x / 4294967296) % 256 == (y / 4294967296) % 256,
            (x / 1099511627776) % 256 == (y / 1099511627776) % 256,
            (x / 281474976710656) % 256 == (y / 281474976710656) % 256,
            (x / 72057594037927936) % 256 == (y / 72057594037927936) % 256,
    ;
}

/// A proof authorizes exactly one context: whenever one proof is valid for
/// two claimed contexts, those contexts agree in executor, target and
/// operation kind — replay against any other context fails.
pub proof fn lemma_proof_context_binding(
    p: Seq<u8>,
    e1: AccountId,
    t1: AccountId,
    o1: OperationType,
    e2: AccountId,
    t2: AccountId,
    o2: OperationType,
)
    requires
        proof_valid(p, e1, t1, o1),
        proof_valid(p, e2, t2, o2),
    ensures
        e1 == e2,
        t1 == t2,
        o1 == o2,
{
    lemma_id_bytes_len(e1);
    lemma_id_bytes_len(t1);
    lemma_id_bytes_len(e2);
    lemma_id_bytes_len(t2);
    let c1 = context_token(e1, t1, o1);
    let c2 = context_token(e2, t2, o2);
    assert(id_bytes(e1) =~= id_bytes(e2)) by {
        assert forall|i: int| 0 <= i < 8 implies id_bytes(e1)[i] == id_bytes(e2)[i] by {
            assert(c1[i] == id_bytes(e1)[i]);
            assert(c2[i] == id_bytes(e2)[i]);
        }
    }
    assert(id_bytes(t1) =~= id_bytes(t2)) by {
        assert forall|i: int| 0 <= i < 8 implies id_bytes(t1)[i] == id_bytes(t2)[i] by {
            assert(c1[i + 8] == id_bytes(t1)[i]);
            assert(c2[i + 8] == id_bytes(t2)[i]);
        }
    }
    lemma_id_bytes_injective(e1, e2);
    lemma_id_bytes_injective(t1, t2);
    assert(c1[16] == operation_tag(o1));
    assert(c2[16] == operation_tag(o2));
}

} // verus!

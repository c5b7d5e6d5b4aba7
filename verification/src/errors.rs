use vstd::prelude::*;

verus! {

/// Errors surfaced by the accumulator session and its folding engine.
///
/// Engine-layer failures are reported through these kinds with the engine's
/// own diagnostic preserved as a detail string where one exists; no failure
/// is swallowed.
#[derive(Debug)]
pub enum EngineError {
    /// Parameter preprocessing or circuit construction failed; the session
    /// cannot be initialized.
    SetupError(String),
    /// An operation that needs an initialized session was invoked before
    /// `initialize`; recoverable by initializing first.
    NotInitialized,
    /// The engine rejected a folding step; the session is left as it was
    /// before the failed call.
    FoldingFailure(String),
    /// A decoded magnitude exceeded the representable range of the
    /// plaintext mirror; cryptographic state is unaffected.
    DecodeOverflow,
    /// A proof artifact could not be read back from its byte form
    /// (truncated or structurally invalid bytes).
    SerializationError,
    /// The artifact's accumulated instance does not satisfy the relation.
    VerificationFailure,
    /// The artifact was produced under parameters other than the
    /// verifier's.
    ParamMismatch,
}

/// Failure of a non-atomic gradient batch.
///
/// `index` is the position of the gradient that failed; every gradient
/// before it was already folded and stays committed.  `cause` is the error
/// the failing step reported.
#[derive(Debug)]
pub struct BatchError {
    pub index: usize,
    pub cause: EngineError,
}

} // verus!

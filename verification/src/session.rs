use vstd::prelude::*;

use crate::circuit::AdditionFCircuit;
use crate::encoder::encode;
use crate::engine::FoldingEngine;
use crate::errors::BatchError;
use crate::errors::EngineError;

verus! {

/// Sum of a sequence of micro-unit gradients, as an unbounded integer.
pub open spec fn sum_micros(s: Seq<i64>) -> int
    decreases s.len(),
{
    if s.len() == 0 {
        0
    } else {
        sum_micros(s.drop_last()) + s.last()
    }
}

/// Appending one gradient adds exactly its value to the sum.
pub proof fn lemma_sum_micros_push(s: Seq<i64>, g: i64)
    ensures
        sum_micros(s.push(g)) == sum_micros(s) + g,
{
    assert(s.push(g).drop_last() =~= s);
    assert(s.push(g).last() == g);
}

/// The accumulator session: owns the engine state across its lifecycle
/// and drives the folding protocol one gradient contribution at a time.
///
/// The session keeps a plaintext mirror of the accumulated state, updated
/// in lock-step with each fold, used only for observability; it is never
/// fed back into proving.  All amounts are fixed-point micro-units (see
/// [`crate::encoder::SCALE`]).
pub struct FLZKPProver<E: FoldingEngine> {
    engine: Option<E>,
    params: Option<E::Params>,
    mirror: i128,
    num_steps: usize,
    initial: Ghost<i64>,
    folded: Ghost<Seq<i64>>,
}

impl<E: FoldingEngine> FLZKPProver<E> {
    /// The session has been initialized: engine state and parameters are
    /// both in place.
    pub closed spec fn initialized(self) -> bool {
        self.engine is Some && self.params is Some
    }

    /// Number of successfully folded steps since initialization.
    pub closed spec fn step_count(self) -> nat {
        self.num_steps as nat
    }

    /// The plaintext state mirror, in micro-units.
    pub closed spec fn state_micros(self) -> int {
        self.mirror as int
    }

    /// The initial value the session was initialized with, in micro-units.
    pub closed spec fn initial_micros(self) -> int {
        self.initial@ as int
    }

    /// The gradients folded so far, oldest first, in micro-units.
    pub closed spec fn history(self) -> Seq<i64> {
        self.folded@
    }

    /// Well-formedness: the mirror equals the initial value plus the sum
    /// of the folded gradients, the step counter equals the number of
    /// folded gradients, and an uninitialized session is empty.
    pub closed spec fn wf(self) -> bool {
        &&& (self.engine is Some <==> self.params is Some)
        &&& self.mirror as int == self.initial@ + sum_micros(self.folded@)
        &&& self.num_steps as int == self.folded@.len()
        &&& (!self.initialized() ==> self.initial@ == 0 && self.folded@.len() == 0)
    }

    /// Construct an uninitialized session.
    pub fn new() -> (p: FLZKPProver<E>)
        ensures
            p.wf(),
            !p.initialized(),
            p.step_count() == 0,
            p.state_micros() == 0,
            p.history() == Seq::<i64>::empty(),
    {
        FLZKPProver {
            engine: None,
            params: None,
            mirror: 0,
            num_steps: 0,
            initial: Ghost(0),
            folded: Ghost(Seq::empty()),
        }
    }

    /// One-time setup: preprocess engine parameters for the step circuit,
    /// encode the initial value into the state vector, and create the
    /// running instance.
    ///
    /// Calling it again re-runs setup from scratch and discards any folded
    /// history; a failed call leaves the session exactly as it was.
    pub fn initialize(&mut self, initial_micros: i64) -> (r: Result<(), EngineError>)
        requires
            old(self).wf(),
        ensures
            final(self).wf(),
            r is Ok ==> final(self).initialized()
                && final(self).initial_micros() == initial_micros as int
                && final(self).step_count() == 0
                && final(self).history() == Seq::<i64>::empty()
                && final(self).state_micros() == initial_micros as int,
            r is Err ==> *final(self) == *old(self),
    {
        let circuit = AdditionFCircuit::new();
        let params = match E::preprocess(&circuit) {
            Ok(p) => p,
            Err(e) => {
                return Err(e);
            },
        };
        let z0 = vec![encode(initial_micros)];
        let eng = match E::init(&params, &circuit, &z0) {
            Ok(e) => e,
            Err(e) => {
                return Err(e);
            },
        };
        self.engine = Some(eng);
        self.params = Some(params);
        self.mirror = initial_micros as i128;
        self.num_steps = 0;
        self.initial = Ghost(initial_micros);
        self.folded = Ghost(Seq::empty());
        Ok(())
    }

    /// Fold one gradient contribution into the running instance.
    ///
    /// On success the step counter grows by one and the cryptographic
    /// state and the plaintext mirror move by the same increment.  On any
    /// failure the session is left exactly as it was before the call: a
    /// fold is all-or-nothing.
    pub fn prove_gradient_step(&mut self, gradient_micros: i64) -> (r: Result<(), EngineError>)
        requires
            old(self).wf(),
        ensures
            final(self).wf(),
            !old(self).initialized() ==> (r matches Err(e) && e is NotInitialized),
            old(self).initialized() && !(i128::MIN <= old(self).state_micros() + gradient_micros <= i128::MAX)
                ==> (r matches Err(e) && e is DecodeOverflow),
            r is Ok ==> old(self).initialized(),
            r is Ok ==> final(self).initialized()
                && final(self).step_count() == old(self).step_count() + 1
                && final(self).state_micros() == old(self).state_micros() + gradient_micros as int
                && final(self).history() == old(self).history().push(gradient_micros)
                && final(self).initial_micros() == old(self).initial_micros(),
            r is Err ==> final(self).step_count() == old(self).step_count()
                && final(self).state_micros() == old(self).state_micros()
                && final(self).history() == old(self).history()
                && final(self).initial_micros() == old(self).initial_micros()
                && (final(self).initialized() <==> old(self).initialized()),
    {
        let engine_opt = self.engine.take();
        match engine_opt {
            None => Err(EngineError::NotInitialized),
            Some(mut eng) => {
                let new_mirror = match self.mirror.checked_add(gradient_micros as i128) {
                    Some(m) => m,
                    None => {
                        self.engine = Some(eng);
                        return Err(EngineError::DecodeOverflow);
                    },
                };
                let new_count = match self.num_steps.checked_add(1) {
                    Some(n) => n,
                    None => {
                        self.engine = Some(eng);
                        return Err(EngineError::FoldingFailure("step counter exhausted".to_owned()));
                    },
                };
                let step_result = eng.prove_step(encode(gradient_micros));
                self.engine = Some(eng);
                match step_result {
                    Ok(()) => {
                        self.mirror = new_mirror;
                        self.num_steps = new_count;
                        proof {
                            lemma_sum_micros_push(self.folded@, gradient_micros);
                        }
                        self.folded = Ghost(self.folded@.push(gradient_micros));
                        Ok(())
                    },
                    Err(e) => Err(e),
                }
            },
        }
    }

    /// Apply `prove_gradient_step` to each gradient in order.
    ///
    /// The batch is not atomic: a failure at position `index` leaves the
    /// gradients before it already folded and committed, and reports the
    /// position and cause; the caller reads the step counter to learn the
    /// progress made.
    pub fn prove_gradient_batch(&mut self, gradients: &Vec<i64>) -> (r: Result<(), BatchError>)
        requires
            old(self).wf(),
        ensures
            final(self).wf(),
            final(self).initial_micros() == old(self).initial_micros(),
            (final(self).initialized() <==> old(self).initialized()),
            r is Ok ==> final(self).step_count() == old(self).step_count() + gradients@.len()
                && final(self).history() == old(self).history() + gradients@
                && final(self).state_micros() == old(self).state_micros() + sum_micros(gradients@),
            r matches Err(be) ==> be.index < gradients@.len()
                && final(self).step_count() == old(self).step_count() + be.index
                && final(self).history() == old(self).history() + gradients@.take(be.index as int)
                && final(self).state_micros() == old(self).state_micros()
                    + sum_micros(gradients@.take(be.index as int)),
            r matches Err(be) ==> (!old(self).initialized() ==> be.index == 0
                && be.cause is NotInitialized),
    {
        let ghost orig = *self;
        let mut i: usize = 0;
        while i < gradients.len()
            invariant
                orig == *old(self),
                self.wf(),
                i <= gradients@.len(),
                self.initialized() <==> orig.initialized(),
                self.initial_micros() == orig.initial_micros(),
                self.step_count() == orig.step_count() + i,
                self.history() == orig.history() + gradients@.take(i as int),
                self.state_micros() == orig.state_micros() + sum_micros(gradients@.take(i as int)),
            decreases gradients@.len() - i,
        {
            let g = gradients[i];
            match self.prove_gradient_step(g) {
                Ok(()) => {
                    proof {
                        assert(gradients@.take(i as int).push(g) =~= gradients@.take(i + 1 as int));
                        lemma_sum_micros_push(gradients@.take(i as int), g);
                    }
                    i = i + 1;
                },
                Err(e) => {
                    return Err(BatchError { index: i, cause: e });
                },
            }
        }
        proof {
            assert(gradients@.take(gradients@.len() as int) =~= gradients@);
        }
        Ok(())
    }

    /// Derive the serialized proof artifact for the session's current
    /// accumulated state, without mutating the session.
    pub fn generate_final_proof(&self) -> (r: Result<Vec<u8>, EngineError>)
        requires
            self.wf(),
        ensures
            !self.initialized() ==> (r matches Err(e) && e is NotInitialized),
    {
        match &self.engine {
            None => Err(EngineError::NotInitialized),
            Some(eng) => eng.ivc_proof(),
        }
    }

    /// Check a serialized proof artifact against the session's verifier
    /// parameters.
    ///
    /// Returns `Ok(true)` when the engine accepts the artifact and
    /// `Ok(false)` when the artifact fails the check (invalid bytes, wrong
    /// parameters, or an unsatisfied accumulated instance); a failed check
    /// is never conflated with an engine-internal error.
    pub fn verify_proof(&self, proof_bytes: &Vec<u8>) -> (r: Result<bool, EngineError>)
        requires
            self.wf(),
        ensures
            !self.initialized() ==> (r matches Err(e) && e is NotInitialized),
            r matches Err(e) ==> (self.initialized() ==> !(e is VerificationFailure)
                && !(e is ParamMismatch) && !(e is SerializationError)),
    {
        match &self.params {
            None => Err(EngineError::NotInitialized),
            Some(p) => {
                match E::verify(p, proof_bytes.as_slice()) {
                    Ok(()) => Ok(true),
                    Err(e) => {
                        match e {
                            EngineError::VerificationFailure => Ok(false),
                            EngineError::ParamMismatch => Ok(false),
                            EngineError::SerializationError => Ok(false),
                            other => Err(other),
                        }
                    },
                }
            },
        }
    }

    /// The plaintext state mirror as a state vector, in micro-units.
    pub fn get_state(&self) -> (r: Vec<i128>)
        ensures
            r@.len() == 1,
            r@[0] == self.state_micros(),
    {
        vec![self.mirror]
    }

    /// Number of successfully folded steps since initialization.
    pub fn get_num_steps(&self) -> (n: usize)
        ensures
            n as nat == self.step_count(),
    {
        self.num_steps
    }
}

/// Additive correctness: at any point in a session's life, the plaintext
/// state equals the initial value plus the sum of every folded gradient,
/// exactly, in micro-units.
pub proof fn lemma_additive_correctness<E: FoldingEngine>(p: &FLZKPProver<E>)
    requires
        p.wf(),
    ensures
        p.state_micros() == p.initial_micros() + sum_micros(p.history()),
{
}

/// Step-counter correctness: the counter always reads exactly the number
/// of successfully folded gradients.
pub proof fn lemma_step_counter<E: FoldingEngine>(p: &FLZKPProver<E>)
    requires
        p.wf(),
    ensures
        p.step_count() == p.history().len(),
{
}

} // verus!

use fl_zkp_bridge::circuit::AdditionFCircuit;
use fl_zkp_bridge::engine::FoldingEngine;
use fl_zkp_bridge::plain::PlainEngine;
use fl_zkp_bridge::session::FLZKPProver;
use fl_zkp_bridge::EngineError;
use fl_zkp_bridge::FieldRepr;

type Session = FLZKPProver<PlainEngine>;

const M: i64 = 1_000_000;

#[test]
fn concrete_scenario_fifteen_folds() {
    let mut s = Session::new();
    s.initialize(1000 * M).unwrap();
    let grads: Vec<i64> = [100, 250, 175, 300, 125, 200, 150, 275, 225, 180, 190, 260, 210, 140, 230]
        .iter()
        .map(|g| g * M)
        .collect();
    s.prove_gradient_batch(&grads).unwrap();
    assert_eq!(s.get_num_steps(), 15);
    assert_eq!(s.get_state(), vec![4010 * (M as i128)]);
    let proof = s.generate_final_proof().unwrap();
    assert!(s.verify_proof(&proof).unwrap());
}

#[test]
fn additive_correctness_with_negative_gradients() {
    let mut s = Session::new();
    s.initialize(0).unwrap();
    for g in [5 * M, -3 * M, 7 * M, -9 * M] {
        s.prove_gradient_step(g).unwrap();
    }
    assert_eq!(s.get_state(), vec![0i128]);
    assert_eq!(s.get_num_steps(), 4);
}

#[test]
fn step_counter_counts_each_successful_fold() {
    let mut s = Session::new();
    s.initialize(10 * M).unwrap();
    for k in 1..=5usize {
        s.prove_gradient_step(M).unwrap();
        assert_eq!(s.get_num_steps(), k);
    }
}

#[test]
fn operations_before_initialize_are_rejected() {
    let mut s = Session::new();
    assert!(matches!(s.prove_gradient_step(M), Err(EngineError::NotInitialized)));
    assert!(matches!(s.generate_final_proof(), Err(EngineError::NotInitialized)));
    assert!(matches!(s.verify_proof(&vec![0u8; 58]), Err(EngineError::NotInitialized)));
    assert_eq!(s.get_num_steps(), 0);
    assert_eq!(s.get_state(), vec![0i128]);
}

#[test]
fn failed_step_does_not_increment_counter() {
    let mut s = Session::new();
    assert!(s.prove_gradient_step(M).is_err());
    assert_eq!(s.get_num_steps(), 0);
    assert_eq!(s.get_state(), vec![0i128]);
}

#[test]
fn reinitialize_discards_folded_history() {
    let mut s = Session::new();
    s.initialize(10 * M).unwrap();
    s.prove_gradient_step(2 * M).unwrap();
    s.prove_gradient_step(3 * M).unwrap();
    assert_eq!(s.get_num_steps(), 2);
    s.initialize(5 * M).unwrap();
    assert_eq!(s.get_num_steps(), 0);
    assert_eq!(s.get_state(), vec![5 * (M as i128)]);
    s.prove_gradient_step(M).unwrap();
    assert_eq!(s.get_state(), vec![6 * (M as i128)]);
}

#[test]
fn get_state_reflects_initial_value() {
    let mut s = Session::new();
    s.initialize(-42 * M).unwrap();
    assert_eq!(s.get_state(), vec![-42 * (M as i128)]);
}

/// A test double whose folds run out after a configured number of
/// successes, to observe the session's non-atomic batch behaviour.
struct ExhaustibleEngine {
    oks_left: usize,
}

struct ExhaustibleParams;

impl FoldingEngine for ExhaustibleEngine {
    type Params = ExhaustibleParams;

    fn preprocess(_circuit: &AdditionFCircuit) -> Result<ExhaustibleParams, EngineError> {
        Ok(ExhaustibleParams)
    }

    fn init(
        _params: &ExhaustibleParams,
        _circuit: &AdditionFCircuit,
        _z0: &Vec<FieldRepr>,
    ) -> Result<ExhaustibleEngine, EngineError> {
        Ok(ExhaustibleEngine { oks_left: 3 })
    }

    fn prove_step(&mut self, _input: FieldRepr) -> Result<(), EngineError> {
        if self.oks_left == 0 {
            Err(EngineError::FoldingFailure("injected rejection".to_string()))
        } else {
            self.oks_left -= 1;
            Ok(())
        }
    }

    fn ivc_proof(&self) -> Result<Vec<u8>, EngineError> {
        Err(EngineError::SerializationError)
    }

    fn verify(_params: &ExhaustibleParams, _proof_bytes: &[u8]) -> Result<(), EngineError> {
        Err(EngineError::VerificationFailure)
    }
}

#[test]
fn batch_is_not_atomic() {
    let mut s = FLZKPProver::<ExhaustibleEngine>::new();
    s.initialize(0).unwrap();
    let grads = vec![M, 2 * M, 3 * M, 4 * M, 5 * M, 6 * M];
    let err = s.prove_gradient_batch(&grads).unwrap_err();
    assert_eq!(err.index, 3);
    assert!(matches!(err.cause, EngineError::FoldingFailure(_)));
    assert_eq!(s.get_num_steps(), 3);
    assert_eq!(s.get_state(), vec![6 * (M as i128)]);
}

#[test]
fn rejected_fold_leaves_session_unchanged() {
    let mut s = FLZKPProver::<ExhaustibleEngine>::new();
    s.initialize(M).unwrap();
    for _ in 0..3 {
        s.prove_gradient_step(M).unwrap();
    }
    assert!(matches!(
        s.prove_gradient_step(M),
        Err(EngineError::FoldingFailure(_))
    ));
    assert_eq!(s.get_num_steps(), 3);
    assert_eq!(s.get_state(), vec![4 * (M as i128)]);
}

#[test]
fn batch_on_uninitialized_session_fails_at_first_gradient() {
    let mut s = Session::new();
    let err = s.prove_gradient_batch(&vec![M, M]).unwrap_err();
    assert_eq!(err.index, 0);
    assert!(matches!(err.cause, EngineError::NotInitialized));
    assert_eq!(s.get_num_steps(), 0);
}

#[test]
fn empty_batch_succeeds() {
    let mut s = Session::new();
    s.initialize(7 * M).unwrap();
    s.prove_gradient_batch(&Vec::new()).unwrap();
    assert_eq!(s.get_num_steps(), 0);
    assert_eq!(s.get_state(), vec![7 * (M as i128)]);
}

/// A test double whose setup rejects a negative initial state, to observe
/// that a failed `initialize` leaves the session as it was.
struct PickyEngine;

struct PickyParams;

impl FoldingEngine for PickyEngine {
    type Params = PickyParams;

    fn preprocess(_circuit: &AdditionFCircuit) -> Result<PickyParams, EngineError> {
        Ok(PickyParams)
    }

    fn init(
        _params: &PickyParams,
        _circuit: &AdditionFCircuit,
        z0: &Vec<FieldRepr>,
    ) -> Result<PickyEngine, EngineError> {
        if z0[0].negative {
            Err(EngineError::SetupError("negative initial state".to_string()))
        } else {
            Ok(PickyEngine)
        }
    }

    fn prove_step(&mut self, _input: FieldRepr) -> Result<(), EngineError> {
        Ok(())
    }

    fn ivc_proof(&self) -> Result<Vec<u8>, EngineError> {
        Ok(Vec::new())
    }

    fn verify(_params: &PickyParams, _proof_bytes: &[u8]) -> Result<(), EngineError> {
        Ok(())
    }
}

#[test]
fn failed_initialize_preserves_the_session() {
    let mut s = FLZKPProver::<PickyEngine>::new();
    s.initialize(2 * M).unwrap();
    s.prove_gradient_step(M).unwrap();
    assert!(matches!(s.initialize(-M), Err(EngineError::SetupError(_))));
    assert_eq!(s.get_num_steps(), 1);
    assert_eq!(s.get_state(), vec![3 * (M as i128)]);
}

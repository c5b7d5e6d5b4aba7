use fl_zkp_bridge::circuit::AdditionFCircuit;

#[test]
fn state_len_is_one() {
    let c = AdditionFCircuit::new();
    assert_eq!(c.state_len(), 1);
}

#[test]
fn step_adds_the_external_input() {
    let c = AdditionFCircuit::new();
    let z = vec![1000i128];
    assert_eq!(c.step(&z, 100).unwrap(), vec![1100i128]);
    assert_eq!(c.step(&z, -250).unwrap(), vec![750i128]);
}

#[test]
fn step_is_pure() {
    let c = AdditionFCircuit::new();
    let z = vec![7i128];
    let _ = c.step(&z, 5);
    assert_eq!(z, vec![7i128]);
    assert_eq!(c.step(&z, 5).unwrap(), vec![12i128]);
}

#[test]
fn step_rejects_range_exhaustion() {
    let c = AdditionFCircuit::new();
    assert!(c.step(&vec![i128::MAX], 1).is_none());
    assert!(c.step(&vec![i128::MIN], -1).is_none());
    assert_eq!(c.step(&vec![i128::MAX], 0).unwrap(), vec![i128::MAX]);
}

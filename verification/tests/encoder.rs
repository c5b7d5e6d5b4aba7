use fl_zkp_bridge::encoder::decode;
use fl_zkp_bridge::encoder::encode;
use fl_zkp_bridge::encoder::repr_to_i128;
use fl_zkp_bridge::encoder::SCALE;
use fl_zkp_bridge::EngineError;
use fl_zkp_bridge::FieldRepr;

#[test]
fn scale_is_one_million() {
    assert_eq!(SCALE, 1_000_000);
}

#[test]
fn encode_positive_is_direct() {
    let r = encode(5_000_000);
    assert!(!r.negative);
    assert_eq!(r.magnitude, 5_000_000);
}

#[test]
fn encode_negative_is_inverse_of_magnitude() {
    let r = encode(-3_500_000);
    assert!(r.negative);
    assert_eq!(r.magnitude, 3_500_000);
}

#[test]
fn encode_zero_is_canonical() {
    let r = encode(0);
    assert!(!r.negative);
    assert_eq!(r.magnitude, 0);
}

#[test]
fn encode_extreme_values() {
    let hi = encode(i64::MAX);
    assert!(!hi.negative);
    assert_eq!(hi.magnitude, i64::MAX as u64);
    let lo = encode(i64::MIN);
    assert!(lo.negative);
    assert_eq!(lo.magnitude, (i64::MAX as u64) + 1);
}

#[test]
fn decode_round_trips_encode() {
    for v in [0i64, 1, -1, 42, -42, 1_000_000, -1_000_000, i64::MAX, i64::MIN] {
        assert_eq!(decode(&encode(v)).unwrap(), v);
    }
}

#[test]
fn decode_overflow_positive() {
    let r = FieldRepr { negative: false, magnitude: (i64::MAX as u64) + 1 };
    assert!(matches!(decode(&r), Err(EngineError::DecodeOverflow)));
}

#[test]
fn decode_overflow_negative() {
    let r = FieldRepr { negative: true, magnitude: (i64::MAX as u64) + 2 };
    assert!(matches!(decode(&r), Err(EngineError::DecodeOverflow)));
    let edge = FieldRepr { negative: true, magnitude: (i64::MAX as u64) + 1 };
    assert_eq!(decode(&edge).unwrap(), i64::MIN);
}

#[test]
fn repr_to_i128_spans_the_whole_form() {
    let r = FieldRepr { negative: true, magnitude: u64::MAX };
    assert_eq!(repr_to_i128(&r), -(u64::MAX as i128));
    let p = FieldRepr { negative: false, magnitude: u64::MAX };
    assert_eq!(repr_to_i128(&p), u64::MAX as i128);
}

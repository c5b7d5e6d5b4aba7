use vstd::prelude::*;

use crate::errors::EngineError;

verus! {

/// Fixed-point scale of the encoding: one model-weight unit is carried as
/// `SCALE` micro-units.  Callers hand the library values already scaled to
/// micro-units.
pub const SCALE: u64 = 1_000_000;

/// Sign-magnitude form of an encoded field element.
///
/// A non-negative amount is embedded into the proving field directly; a
/// negative amount is embedded as the field's additive inverse of its
/// magnitude.  This pair carries exactly that information as plain values,
/// so the protocol logic can reason about what was encoded; turning it into
/// a concrete field element of a cryptographic backend is the engine
/// implementation's concern.
#[derive(Clone, Copy, PartialEq, Eq, Structural, Debug)]
pub struct FieldRepr {
    pub negative: bool,
    pub magnitude: u64,
}

impl FieldRepr {
    /// The signed micro-unit amount this encoded element stands for.
    pub open spec fn value(self) -> int {
        if self.negative {
            -(self.magnitude as int)
        } else {
            self.magnitude as int
        }
    }

    /// Canonical form: zero is never carried with the negative sign.
    pub open spec fn canonical(self) -> bool {
        self.negative ==> self.magnitude > 0
    }
}

/// Encode a micro-unit amount as a field element in sign-magnitude form.
///
/// Encoding never fails and is exact: the result stands for `micros`
/// itself.
pub fn encode(micros: i64) -> (r: FieldRepr)
    ensures
        r.value() == micros as int,
        r.canonical(),
{
    if micros >= 0 {
        FieldRepr { negative: false, magnitude: micros as u64 }
    } else {
        FieldRepr { negative: true, magnitude: (-(micros as i128)) as u64 }
    }
}

/// The signed amount an encoded element stands for, as a plain machine
/// integer; every sign-magnitude pair fits this range.
pub fn repr_to_i128(r: &FieldRepr) -> (v: i128)
    ensures
        v as int == r.value(),
{
    if r.negative {
        -(r.magnitude as i128)
    } else {
        r.magnitude as i128
    }
}

/// Decode an encoded field element back to a micro-unit amount.
///
/// Succeeds exactly when the amount fits a signed machine word of
/// micro-units; outside that range the element is reported as
/// `DecodeOverflow` rather than silently truncated.
pub fn decode(r: &FieldRepr) -> (res: Result<i64, EngineError>)
    ensures
        res is Ok <==> i64::MIN <= r.value() <= i64::MAX,
        res matches Ok(v) ==> v as int == r.value(),
        res is Err ==> (res matches Err(e) && e is DecodeOverflow),
{
    if !r.negative {
        if r.magnitude <= i64::MAX as u64 {
            Ok(r.magnitude as i64)
        } else {
            Err(EngineError::DecodeOverflow)
        }
    } else {
        if r.magnitude <= (i64::MAX as u64) + 1 {
            Ok((-(r.magnitude as i128)) as i64)
        } else {
            Err(EngineError::DecodeOverflow)
        }
    }
}

} // verus!

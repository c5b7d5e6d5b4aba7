use vstd::prelude::*;

use vstd::bytes::lemma_auto_spec_u128_to_from_le_bytes;
use vstd::bytes::lemma_auto_spec_u64_to_from_le_bytes;
use vstd::bytes::spec_u128_to_le_bytes;
use vstd::bytes::spec_u64_to_le_bytes;
use vstd::bytes::u128_to_le_bytes;
use vstd::bytes::u64_to_le_bytes;
use vstd::bytes::u128_from_le_bytes;
use vstd::bytes::u64_from_le_bytes;
use vstd::bytes::spec_u128_from_le_bytes;
use vstd::bytes::spec_u64_from_le_bytes;
use vstd::slice::slice_subrange;

use crate::circuit::AdditionFCircuit;
use crate::encoder::repr_to_i128;
use crate::encoder::FieldRepr;
use crate::engine::FoldingEngine;
use crate::errors::EngineError;

verus! {

/// Byte length of a serialized plain-engine artifact.  It is a constant:
/// the artifact is a snapshot, so its size does not depend on how many
/// steps were folded.
pub const ARTIFACT_BYTES: usize = 58;

/// Sum of a byte sequence, as an unbounded natural.
pub open spec fn byte_sum(s: Seq<u8>) -> nat
    decreases s.len(),
{
    if s.len() == 0 {
        0
    } else {
        byte_sum(s.drop_last()) + s.last() as nat
    }
}

/// The integrity tag of a byte sequence: its byte sum reduced to one
/// machine word.  The tag catches accidental corruption, such as any
/// change of a single byte; it is not a cryptographic commitment.
pub open spec fn tag_of(s: Seq<u8>) -> u64 {
    (byte_sum(s) % 0x1_0000_0000_0000_0000) as u64
}

/// The byte sum is bounded by the length times the largest byte.
proof fn lemma_byte_sum_bound(s: Seq<u8>)
    ensures
        byte_sum(s) <= 255 * s.len(),
    decreases s.len(),
{
    if s.len() > 0 {
        lemma_byte_sum_bound(s.drop_last());
    }
}

/// Sequences of equal length that agree everywhere but at one position
/// have byte sums that differ by exactly the two bytes' difference.
proof fn lemma_byte_sum_single_change(a: Seq<u8>, b: Seq<u8>, i: int)
    requires
        a.len() == b.len(),
        0 <= i < a.len(),
        forall|j: int| 0 <= j < a.len() && j != i ==> a[j] == b[j],
    ensures
        byte_sum(a) + b[i] == byte_sum(b) + a[i],
    decreases a.len(),
{
    if i == a.len() - 1 {
        assert(a.drop_last() =~= b.drop_last());
    } else {
        lemma_byte_sum_single_change(a.drop_last(), b.drop_last(), i);
    }
}

/// Integrity: changing exactly one byte of a tagged sequence always
/// changes its tag, for any sequence short enough that its byte sum fits
/// a machine word.
proof fn lemma_tag_detects_single_change(a: Seq<u8>, b: Seq<u8>, i: int)
    requires
        a.len() == b.len(),
        a.len() <= 0x1000000,
        0 <= i < a.len(),
        a[i] != b[i],
        forall|j: int| 0 <= j < a.len() && j != i ==> a[j] == b[j],
    ensures
        tag_of(a) != tag_of(b),
{
    lemma_byte_sum_single_change(a, b, i);
    lemma_byte_sum_bound(a);
    lemma_byte_sum_bound(b);
}

/// Compute the integrity tag of a byte slice.
fn compute_tag(bytes: &[u8]) -> (t: u64)
    ensures
        t == tag_of(bytes@),
{
    let n = bytes.len();
    let mut acc: u128 = 0;
    let mut i: usize = 0;
    while i < n
        invariant
            n == bytes@.len(),
            i <= n,
            acc == byte_sum(bytes@.take(i as int)),
            acc <= 255 * (i as int),
        decreases n - i,
    {
        proof {
            assert(bytes@.take(i + 1 as int).drop_last() =~= bytes@.take(i as int));
            assert(bytes@.take(i + 1 as int).last() == bytes@[i as int]);
        }
        acc = acc + bytes[i] as u128;
        i = i + 1;
    }
    proof {
        assert(bytes@.take(n as int) =~= bytes@);
    }
    (acc % 0x1_0000_0000_0000_0000u128) as u64
}

/// Sign byte of a state component: one marks a negative value.
pub open spec fn spec_sign(v: i128) -> u8 {
    if v < 0 {
        1u8
    } else {
        0u8
    }
}

/// Magnitude of a state component.
pub open spec fn spec_mag(v: i128) -> u128 {
    if v < 0 {
        (-(v as int)) as u128
    } else {
        v as u128
    }
}

/// A sign byte and magnitude that stand for a state component: the sign
/// is a single bit, zero is not carried negative, and the magnitude lies
/// in the component's range.
pub open spec fn sign_mag_ok(s: u8, m: u128) -> bool {
    ||| (s == 0 && m <= i128::MAX as u128)
    ||| (s == 1 && 0 < m <= 0x8000_0000_0000_0000_0000_0000_0000_0000u128)
}

fn sign_of(v: i128) -> (s: u8)
    ensures
        s == spec_sign(v),
{
    if v < 0 {
        1
    } else {
        0
    }
}

fn mag_of(v: i128) -> (m: u128)
    ensures
        m == spec_mag(v),
{
    if v >= 0 {
        v as u128
    } else {
        ((-(v + 1)) as u128) + 1
    }
}

/// The payload of an artifact: step counter, initial state, current
/// state (both in sign-magnitude form) and the parameters' state arity,
/// in canonical little-endian byte order.
pub open spec fn spec_artifact_body(steps: u64, z0: i128, zi: i128, state_len: u64) -> Seq<u8> {
    spec_u64_to_le_bytes(steps) + seq![spec_sign(z0)] + spec_u128_to_le_bytes(spec_mag(z0))
        + seq![spec_sign(zi)] + spec_u128_to_le_bytes(spec_mag(zi))
        + spec_u64_to_le_bytes(state_len)
}

/// A full artifact: the payload followed by its integrity tag.
pub open spec fn spec_artifact(steps: u64, z0: i128, zi: i128, state_len: u64) -> Seq<u8> {
    let body = spec_artifact_body(steps, z0, zi, state_len);
    body + spec_u64_to_le_bytes(tag_of(body))
}

/// The structural check a verifier runs on candidate bytes: the length,
/// and both sign-magnitude pairs, are as the canonical form demands.
pub open spec fn artifact_structure_ok(b: Seq<u8>) -> bool {
    &&& b.len() == ARTIFACT_BYTES
    &&& sign_mag_ok(b[8], spec_u128_from_le_bytes(b.subrange(9, 25)))
    &&& sign_mag_ok(b[25], spec_u128_from_le_bytes(b.subrange(26, 42)))
}

/// The integrity check: the trailing tag equals the tag of the payload.
pub open spec fn artifact_integrity_ok(b: Seq<u8>) -> bool {
    &&& b.len() == ARTIFACT_BYTES
    &&& spec_u64_from_le_bytes(b.subrange(50, 58)) == tag_of(b.take(50))
}

/// The parameter check: the artifact carries the verifier's state arity.
pub open spec fn artifact_matches_params(b: Seq<u8>, state_len: u64) -> bool {
    &&& b.len() == ARTIFACT_BYTES
    &&& spec_u64_from_le_bytes(b.subrange(42, 50)) == state_len
}

/// Verification soundness of the artifact's integrity layer: once an
/// artifact passes the integrity check, changing any single byte of it —
/// payload or tag — makes the integrity check fail; corruption is never
/// reported as success.
pub proof fn lemma_corrupted_artifact_rejected(b: Seq<u8>, c: Seq<u8>, i: int)
    requires
        artifact_integrity_ok(b),
        c.len() == b.len(),
        0 <= i < b.len(),
        c[i] != b[i],
        forall|j: int| 0 <= j < b.len() && j != i ==> c[j] == b[j],
    ensures
        !artifact_integrity_ok(c),
{
    lemma_auto_spec_u64_to_from_le_bytes();
    if i < 50 {
        lemma_tag_detects_single_change(b.take(50), c.take(50), i);
        assert(c.subrange(50, 58) =~= b.subrange(50, 58));
        assert(c.take(50).len() == 50);
    } else {
        assert(c.take(50) =~= b.take(50));
        let sb = b.subrange(50, 58);
        let sc = c.subrange(50, 58);
        assert(sb[i - 50] != sc[i - 50]);
        if spec_u64_from_le_bytes(sb) == spec_u64_from_le_bytes(sc) {
            assert(spec_u64_to_le_bytes(spec_u64_from_le_bytes(sb)) == sb);
            assert(spec_u64_to_le_bytes(spec_u64_from_le_bytes(sc)) == sc);
            assert(sb =~= sc);
        }
    }
}

/// Proof-size constancy: the serialized artifacts of any two engine
/// states have the same byte length — the size depends on nothing that
/// varies over a session's life, in particular not on how many steps
/// were folded.
pub proof fn lemma_artifact_size_constant(
    steps1: u64,
    z01: i128,
    zi1: i128,
    state_len1: u64,
    steps2: u64,
    z02: i128,
    zi2: i128,
    state_len2: u64,
)
    ensures
        spec_artifact(steps1, z01, zi1, state_len1).len() == spec_artifact(
            steps2,
            z02,
            zi2,
            state_len2,
        ).len(),
{
    lemma_artifact_valid(steps1, z01, zi1, state_len1);
    lemma_artifact_valid(steps2, z02, zi2, state_len2);
}

/// Parameters of the plain engine: the circuit shape they were derived
/// for, here just the arity of the state vector.
#[derive(Debug)]
pub struct PlainParams {
    state_len: u64,
}

impl PlainParams {
    /// Arity of the state vector these parameters belong to.
    pub closed spec fn spec_state_len(self) -> u64 {
        self.state_len
    }
}

/// A plain-arithmetic folding engine: the executable reference of the
/// [`FoldingEngine`] contract.
///
/// It tracks the running state in clear integers and its artifact is an
/// integrity-tagged snapshot, so it offers no zero knowledge and no
/// cryptographic soundness; it exists to exercise the protocol machine
/// deterministically.  A production deployment implements the same trait
/// over a cryptographic folding scheme.
#[derive(Debug)]
pub struct PlainEngine {
    steps: u64,
    z0: i128,
    zi: i128,
    state_len: u64,
    circuit: AdditionFCircuit,
}

impl PlainEngine {
    /// Number of folds performed since `init`.
    pub closed spec fn spec_steps(self) -> u64 {
        self.steps
    }

    /// The initial state component.
    pub closed spec fn spec_z0(self) -> i128 {
        self.z0
    }

    /// The current accumulated state component.
    pub closed spec fn spec_zi(self) -> i128 {
        self.zi
    }

    /// The state arity recorded from the parameters at `init`.
    pub closed spec fn spec_state_len(self) -> u64 {
        self.state_len
    }
}

/// Serialize an artifact snapshot: payload, then integrity tag.
fn build_artifact(steps: u64, z0: i128, zi: i128, state_len: u64) -> (out: Vec<u8>)
    ensures
        out@ == spec_artifact(steps, z0, zi, state_len),
{
    let mut out = u64_to_le_bytes(steps);
    out.push(sign_of(z0));
    let mut m0 = u128_to_le_bytes(mag_of(z0));
    out.append(&mut m0);
    out.push(sign_of(zi));
    let mut m1 = u128_to_le_bytes(mag_of(zi));
    out.append(&mut m1);
    let mut sl = u64_to_le_bytes(state_len);
    out.append(&mut sl);
    proof {
        assert(out@ =~= spec_artifact_body(steps, z0, zi, state_len));
    }
    let tag = compute_tag(out.as_slice());
    let mut tb = u64_to_le_bytes(tag);
    out.append(&mut tb);
    proof {
        assert(out@ =~= spec_artifact(steps, z0, zi, state_len));
    }
    out
}

/// Run the verifier's checks on candidate artifact bytes: structure
/// first, then integrity, then the parameter binding; each failure is
/// reported as its own kind and never as success.
fn check_artifact(state_len: u64, b: &[u8]) -> (r: Result<(), EngineError>)
    ensures
        r is Ok <==> artifact_structure_ok(b@) && artifact_integrity_ok(b@)
            && artifact_matches_params(b@, state_len),
        (r matches Err(e) && e is SerializationError) <==> !artifact_structure_ok(b@),
        (r matches Err(e) && e is VerificationFailure) <==> (artifact_structure_ok(b@)
            && !artifact_integrity_ok(b@)),
        (r matches Err(e) && e is ParamMismatch) <==> (artifact_structure_ok(b@)
            && artifact_integrity_ok(b@) && !artifact_matches_params(b@, state_len)),
{
    if b.len() != ARTIFACT_BYTES {
        return Err(EngineError::SerializationError);
    }
    let sign0 = *vstd::slice::slice_index_get(b, 8);
    let mag0 = u128_from_le_bytes(slice_subrange(b, 9, 25));
    let sign1 = *vstd::slice::slice_index_get(b, 25);
    let mag1 = u128_from_le_bytes(slice_subrange(b, 26, 42));
    let sign0_ok = (sign0 == 0 && mag0 <= i128::MAX as u128)
        || (sign0 == 1 && 0 < mag0 && mag0 <= 0x8000_0000_0000_0000_0000_0000_0000_0000u128);
    let sign1_ok = (sign1 == 0 && mag1 <= i128::MAX as u128)
        || (sign1 == 1 && 0 < mag1 && mag1 <= 0x8000_0000_0000_0000_0000_0000_0000_0000u128);
    if !(sign0_ok && sign1_ok) {
        return Err(EngineError::SerializationError);
    }
    let stored_tag = u64_from_le_bytes(slice_subrange(b, 50, 58));
    let payload_tag = compute_tag(slice_subrange(b, 0, 50));
    proof {
        assert(b@.subrange(0, 50) =~= b@.take(50));
    }
    if stored_tag != payload_tag {
        return Err(EngineError::VerificationFailure);
    }
    let carried_len = u64_from_le_bytes(slice_subrange(b, 42, 50));
    if carried_len != state_len {
        return Err(EngineError::ParamMismatch);
    }
    Ok(())
}

/// A freshly derived artifact passes every check under the parameters it
/// was derived for; and its byte length is the constant
/// `ARTIFACT_BYTES`, whatever the step counter and the state — the
/// proof-size constancy of the snapshot form.
pub proof fn lemma_artifact_valid(steps: u64, z0: i128, zi: i128, state_len: u64)
    ensures
        artifact_structure_ok(spec_artifact(steps, z0, zi, state_len)),
        artifact_integrity_ok(spec_artifact(steps, z0, zi, state_len)),
        artifact_matches_params(spec_artifact(steps, z0, zi, state_len), state_len),
        spec_artifact(steps, z0, zi, state_len).len() == ARTIFACT_BYTES,
{
    lemma_auto_spec_u64_to_from_le_bytes();
    lemma_auto_spec_u128_to_from_le_bytes();
    let body = spec_artifact_body(steps, z0, zi, state_len);
    let a = spec_artifact(steps, z0, zi, state_len);
    assert(body.len() == 50);
    assert(a.len() == 58);
    assert(a[8] == spec_sign(z0));
    assert(a[25] == spec_sign(zi));
    assert(a.subrange(9, 25) =~= spec_u128_to_le_bytes(spec_mag(z0)));
    assert(a.subrange(26, 42) =~= spec_u128_to_le_bytes(spec_mag(zi)));
    assert(a.subrange(42, 50) =~= spec_u64_to_le_bytes(state_len));
    assert(a.subrange(50, 58) =~= spec_u64_to_le_bytes(tag_of(body)));
    assert(a.take(50) =~= body);
}

/// The artifact is a faithful snapshot: every field parses back from the
/// bytes to exactly the value it was built from.
pub proof fn lemma_artifact_faithful(steps: u64, z0: i128, zi: i128, state_len: u64)
    ensures
        spec_u64_from_le_bytes(spec_artifact(steps, z0, zi, state_len).subrange(0, 8)) == steps,
        spec_artifact(steps, z0, zi, state_len)[8] == spec_sign(z0),
        spec_u128_from_le_bytes(spec_artifact(steps, z0, zi, state_len).subrange(9, 25))
            == spec_mag(z0),
        spec_artifact(steps, z0, zi, state_len)[25] == spec_sign(zi),
        spec_u128_from_le_bytes(spec_artifact(steps, z0, zi, state_len).subrange(26, 42))
            == spec_mag(zi),
        spec_u64_from_le_bytes(spec_artifact(steps, z0, zi, state_len).subrange(42, 50))
            == state_len,
{
    lemma_auto_spec_u64_to_from_le_bytes();
    lemma_auto_spec_u128_to_from_le_bytes();
    let a = spec_artifact(steps, z0, zi, state_len);
    assert(a.subrange(0, 8) =~= spec_u64_to_le_bytes(steps));
    assert(a.subrange(9, 25) =~= spec_u128_to_le_bytes(spec_mag(z0)));
    assert(a.subrange(26, 42) =~= spec_u128_to_le_bytes(spec_mag(zi)));
    assert(a.subrange(42, 50) =~= spec_u64_to_le_bytes(state_len));
}

/// Serialization is canonical: two snapshots with the same artifact bytes
/// are the same snapshot.
pub proof fn lemma_artifact_injective(
    steps1: u64,
    z01: i128,
    zi1: i128,
    state_len1: u64,
    steps2: u64,
    z02: i128,
    zi2: i128,
    state_len2: u64,
)
    requires
        spec_artifact(steps1, z01, zi1, state_len1) == spec_artifact(steps2, z02, zi2, state_len2),
    ensures
        steps1 == steps2,
        z01 == z02,
        zi1 == zi2,
        state_len1 == state_len2,
{
    lemma_artifact_faithful(steps1, z01, zi1, state_len1);
    lemma_artifact_faithful(steps2, z02, zi2, state_len2);
    assert(spec_sign(z01) == spec_sign(z02) && spec_mag(z01) == spec_mag(z02));
    assert(spec_sign(zi1) == spec_sign(zi2) && spec_mag(zi1) == spec_mag(zi2));
}

impl FoldingEngine for PlainEngine {
    type Params = PlainParams;

    fn preprocess(circuit: &AdditionFCircuit) -> (r: Result<PlainParams, EngineError>)
        ensures
            r matches Ok(p) && p.spec_state_len() == 1,
    {
        Ok(PlainParams { state_len: circuit.state_len() as u64 })
    }

    fn init(params: &PlainParams, circuit: &AdditionFCircuit, z0: &Vec<FieldRepr>) -> (r: Result<PlainEngine, EngineError>)
        ensures
            r matches Ok(e) && e.spec_steps() == 0 && e.spec_z0() as int == z0@[0].value()
                && e.spec_zi() == e.spec_z0(),
    {
        let v = repr_to_i128(&z0[0]);
        Ok(PlainEngine {
            steps: 0,
            z0: v,
            zi: v,
            state_len: params.state_len,
            circuit: *circuit,
        })
    }

    fn prove_step(&mut self, input: FieldRepr) -> (r: Result<(), EngineError>)
        ensures
            r is Ok <==> i128::MIN <= old(self).spec_zi() + input.value() <= i128::MAX
                && old(self).spec_steps() < u64::MAX,
            r is Ok ==> final(self).spec_steps() == old(self).spec_steps() + 1
                && final(self).spec_zi() as int == old(self).spec_zi() + input.value()
                && final(self).spec_z0() == old(self).spec_z0()
                && final(self).spec_state_len() == old(self).spec_state_len(),
            r is Err ==> *final(self) == *old(self),
            r is Err ==> (r matches Err(e) && e is FoldingFailure),
    {
        let v = repr_to_i128(&input);
        let z = vec![self.zi];
        let next = match self.circuit.step(&z, v) {
            Some(zn) => zn,
            None => {
                return Err(EngineError::FoldingFailure("state outside the plain range".to_owned()));
            },
        };
        let new_steps = match self.steps.checked_add(1) {
            Some(n) => n,
            None => {
                return Err(EngineError::FoldingFailure("step counter exhausted".to_owned()));
            },
        };
        self.zi = next[0];
        self.steps = new_steps;
        Ok(())
    }

    fn ivc_proof(&self) -> (r: Result<Vec<u8>, EngineError>)
        ensures
            r matches Ok(bytes) && bytes@ == spec_artifact(
                self.spec_steps(),
                self.spec_z0(),
                self.spec_zi(),
                self.spec_state_len(),
            ),
    {
        Ok(build_artifact(self.steps, self.z0, self.zi, self.state_len))
    }

    fn verify(params: &PlainParams, proof_bytes: &[u8]) -> (r: Result<(), EngineError>)
        ensures
            r is Ok <==> artifact_structure_ok(proof_bytes@) && artifact_integrity_ok(proof_bytes@)
                && artifact_matches_params(proof_bytes@, params.spec_state_len()),
            (r matches Err(e) && e is SerializationError) <==> !artifact_structure_ok(proof_bytes@),
            (r matches Err(e) && e is VerificationFailure) <==> (artifact_structure_ok(proof_bytes@)
                && !artifact_integrity_ok(proof_bytes@)),
            (r matches Err(e) && e is ParamMismatch) <==> (artifact_structure_ok(proof_bytes@)
                && artifact_integrity_ok(proof_bytes@)
                && !artifact_matches_params(proof_bytes@, params.spec_state_len())),
    {
        check_artifact(params.state_len, proof_bytes)
    }
}

} // verus!

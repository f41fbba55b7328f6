//! The trusted boundary around the outside crates.
//!
//! Everything the library takes from `curve25519-dalek-ng`, `merlin`,
//! `bulletproofs` and `subtle` is reached through the declarations in this
//! module; Verus believes the contracts stated here without proof. Each item's
//! doc comment names the outside function relied on.
//!
//! The group elements, scalars, transcripts and range proofs are opaque to
//! the verifier. Each deterministic outside operation is given an
//! uninterpreted name (`point_sum`, `compressed`, `challenged`, ...), and the
//! wrapper's contract says only that the call returns that name applied to
//! its arguments — plus the few short facts the outside documentation
//! plainly gives (byte lengths, canonicity of encodings, inputs that would
//! panic, and the meaning of the two constant-time integer primitives).
//! Nothing random (a fresh scalar, a generated proof) is named.

use vstd::prelude::*;
use subtle::ConditionallySelectable;
use subtle::ConstantTimeGreater;

pub use curve25519_dalek_ng::ristretto::RistrettoPoint as GroupPoint;
pub use curve25519_dalek_ng::scalar::Scalar as GroupScalar;
pub use merlin::Transcript as ProofTranscript;
pub use bulletproofs::RangeProof as RangeProofData;

verus! {

/// `curve25519-dalek-ng`'s scalar field element (integer modulo the group order).
#[verifier::external_type_specification]
#[verifier::external_body]
pub struct ExScalar(curve25519_dalek_ng::scalar::Scalar);

/// `curve25519-dalek-ng`'s Ristretto group element.
#[verifier::external_type_specification]
#[verifier::external_body]
pub struct ExRistrettoPoint(curve25519_dalek_ng::ristretto::RistrettoPoint);

/// `merlin`'s Fiat-Shamir transcript: an append-only hash chain.
#[verifier::external_type_specification]
#[verifier::external_body]
pub struct ExTranscript(merlin::Transcript);

/// `bulletproofs`' range proof object.
#[verifier::external_type_specification]
#[verifier::external_body]
pub struct ExRangeProof(bulletproofs::RangeProof);

// --- the names -----------------------------------------------------------
//
// One name per outside function, each applied by exactly one trusted item
// below. Where a call both returns a value and advances a transcript, the
// one name returns the pair.

/// What `Scalar::from(u64)` returns: the integer embedded in the field.
pub uninterp spec fn u64_scalar(v: u64) -> GroupScalar;

/// What `Add for &Scalar` returns.
pub uninterp spec fn scalar_sum(a: GroupScalar, b: GroupScalar) -> GroupScalar;

/// What `Sub for &Scalar` returns.
pub uninterp spec fn scalar_diff(a: GroupScalar, b: GroupScalar) -> GroupScalar;

/// What `Mul for &Scalar` returns.
pub uninterp spec fn scalar_prod(a: GroupScalar, b: GroupScalar) -> GroupScalar;

/// What `Scalar::invert` returns.
pub uninterp spec fn scalar_inverse(a: GroupScalar) -> GroupScalar;

/// What `Scalar::to_bytes` returns: the canonical 32-byte encoding.
pub uninterp spec fn scalar_bytes(a: GroupScalar) -> Seq<u8>;

/// What `Scalar::from_canonical_bytes` returns on 32 bytes.
pub uninterp spec fn scalar_decoded(b: Seq<u8>) -> Option<GroupScalar>;

/// What `Scalar::from_bytes_mod_order_wide` returns on 64 bytes.
pub uninterp spec fn wide_scalar(b: Seq<u8>) -> GroupScalar;

/// What `Add for &RistrettoPoint` returns.
pub uninterp spec fn point_sum(a: GroupPoint, b: GroupPoint) -> GroupPoint;

/// What `Sub for &RistrettoPoint` returns.
pub uninterp spec fn point_diff(a: GroupPoint, b: GroupPoint) -> GroupPoint;

/// What `Mul<&Scalar> for &RistrettoPoint` returns.
pub uninterp spec fn point_scaled(p: GroupPoint, s: GroupScalar) -> GroupPoint;

/// What `RistrettoPoint::compress` returns: the canonical 32-byte encoding.
pub uninterp spec fn compressed(p: GroupPoint) -> Seq<u8>;

/// What `CompressedRistretto::decompress` returns on 32 bytes.
pub uninterp spec fn point_decoded(b: Seq<u8>) -> Option<GroupPoint>;

/// What `PedersenGens::commit` returns over the crate's default bases:
/// `value * B + blinding * B_blinding`.
pub uninterp spec fn commit_of(value: GroupScalar, blinding: GroupScalar) -> GroupPoint;

/// What `merlin::Transcript::new` returns for a domain label.
pub uninterp spec fn new_transcript(domain: Seq<u8>) -> ProofTranscript;

/// The transcript state after `append_message` absorbs one message (under
/// this library's fixed framing label).
pub uninterp spec fn appended(t: ProofTranscript, msg: Seq<u8>) -> ProofTranscript;

/// What one `challenge_bytes` call yields from a transcript state: the pair
/// of the 64 challenge bytes and the advanced state.
pub uninterp spec fn challenged(t: ProofTranscript) -> (Seq<u8>, ProofTranscript);

/// What one `verify_single` call yields from its arguments: the pair of
/// "the deterministic bulletproof equations hold" and the advanced
/// transcript state. Only the sound direction is promised of the boolean
/// (see `range_verify`): the engine batches its final check under a random
/// scalar, so a false proof may in principle pass, but a true statement
/// always does, and the transcript is replayed deterministically.
pub uninterp spec fn range_check(
    p: RangeProofData,
    t: ProofTranscript,
    v_commitment: GroupPoint,
    n: u64,
) -> (bool, ProofTranscript);

/// What `RangeProof::to_bytes` returns.
pub uninterp spec fn proof_bytes(p: RangeProofData) -> Seq<u8>;

/// What `RangeProof::from_bytes` returns.
pub uninterp spec fn proof_decoded(b: Seq<u8>) -> Option<RangeProofData>;

// --- derived spec constants ----------------------------------------------

/// This protocol's transcript domain separator: the ASCII bytes of
/// "FeeProof".
pub open spec fn spec_domain() -> Seq<u8> {
    seq![0x46u8, 0x65u8, 0x65u8, 0x50u8, 0x72u8, 0x6fu8, 0x6fu8, 0x66u8]
}

/// The value base `B` (the Ristretto basepoint): the commitment to 1 under
/// blinding 0.
pub open spec fn g_pt() -> GroupPoint {
    commit_of(u64_scalar(1), u64_scalar(0))
}

/// The blinding base `B_blinding` (the hash of the basepoint encoding): the
/// commitment to 0 under blinding 1.
pub open spec fn h_pt() -> GroupPoint {
    commit_of(u64_scalar(0), u64_scalar(1))
}

// --- scalars ------------------------------------------------------------

/// Relies on `Scalar::zero`: the additive identity, equal to the embedding
/// of the integer 0.
#[verifier::external_body]
pub(crate) fn scalar_zero() -> (r: GroupScalar)
    ensures
        r == u64_scalar(0),
{
    GroupScalar::zero()
}

/// Relies on `Scalar::from(u64)`: embeds an integer into the scalar field.
#[verifier::external_body]
pub(crate) fn scalar_from_u64(v: u64) -> (r: GroupScalar)
    ensures
        r == u64_scalar(v),
{
    GroupScalar::from(v)
}

/// Relies on `Scalar::random`: a scalar drawn from the system rng. Nothing
/// can be promised of the result.
#[verifier::external_body]
pub(crate) fn scalar_random() -> GroupScalar {
    GroupScalar::random(&mut rand::rngs::OsRng)
}

/// Relies on `Add for &Scalar`: addition modulo the group order.
#[verifier::external_body]
pub(crate) fn scalar_add(a: &GroupScalar, b: &GroupScalar) -> (r: GroupScalar)
    ensures
        r == scalar_sum(*a, *b),
{
    a + b
}

/// Relies on `Sub for &Scalar`: subtraction modulo the group order.
#[verifier::external_body]
pub(crate) fn scalar_sub(a: &GroupScalar, b: &GroupScalar) -> (r: GroupScalar)
    ensures
        r == scalar_diff(*a, *b),
{
    a - b
}

/// Relies on `Mul for &Scalar`: multiplication modulo the group order.
#[verifier::external_body]
pub(crate) fn scalar_mul(a: &GroupScalar, b: &GroupScalar) -> (r: GroupScalar)
    ensures
        r == scalar_prod(*a, *b),
{
    a * b
}

/// Relies on `Scalar::invert`: the multiplicative inverse of a nonzero
/// scalar (total as code; never panics, even on zero).
#[verifier::external_body]
pub(crate) fn scalar_invert(a: &GroupScalar) -> (r: GroupScalar)
    ensures
        r == scalar_inverse(*a),
{
    a.invert()
}

/// Relies on `Scalar::to_bytes`: the canonical 32-byte little-endian
/// encoding.
#[verifier::external_body]
pub(crate) fn scalar_to_bytes(a: &GroupScalar) -> (r: Vec<u8>)
    ensures
        r@ == scalar_bytes(*a),
        r@.len() == 32,
{
    a.to_bytes().to_vec()
}

/// Relies on `Scalar::from_canonical_bytes`: decodes 32 bytes, refusing any
/// non-canonical encoding; a decoded scalar re-encodes to the same bytes.
#[verifier::external_body]
pub(crate) fn scalar_from_canonical(bytes: &[u8]) -> (r: Option<GroupScalar>)
    requires
        bytes@.len() == 32,
    ensures
        r == scalar_decoded(bytes@),
        r is Some ==> scalar_bytes(r->0) == bytes@,
{
    GroupScalar::from_canonical_bytes(bytes.try_into().unwrap())
}

/// Relies on `Scalar::from_bytes_mod_order_wide`: reduces 64 bytes modulo
/// the group order.
#[verifier::external_body]
pub(crate) fn scalar_from_wide(bytes: &[u8]) -> (r: GroupScalar)
    requires
        bytes@.len() == 64,
    ensures
        r == wide_scalar(bytes@),
{
    GroupScalar::from_bytes_mod_order_wide(bytes.try_into().unwrap())
}

// --- group elements -----------------------------------------------------

/// Relies on `Add for &RistrettoPoint`: the group operation.
#[verifier::external_body]
pub(crate) fn point_add(a: &GroupPoint, b: &GroupPoint) -> (r: GroupPoint)
    ensures
        r == point_sum(*a, *b),
{
    a + b
}

/// Relies on `Sub for &RistrettoPoint`: the group operation with the
/// inverse.
#[verifier::external_body]
pub(crate) fn point_sub(a: &GroupPoint, b: &GroupPoint) -> (r: GroupPoint)
    ensures
        r == point_diff(*a, *b),
{
    a - b
}

/// Relies on `Mul<&Scalar> for &RistrettoPoint`: scalar multiplication.
#[verifier::external_body]
pub(crate) fn point_mul(p: &GroupPoint, s: &GroupScalar) -> (r: GroupPoint)
    ensures
        r == point_scaled(*p, *s),
{
    p * s
}

/// Relies on `PartialEq for RistrettoPoint`: constant-time group-element
/// equality. The result is promised to coincide with equality of the
/// opaque values, which is sound: the names model the real operations, so
/// two values the verifier can prove equal are the same group element.
#[verifier::external_body]
pub(crate) fn point_eq(a: &GroupPoint, b: &GroupPoint) -> (r: bool)
    ensures
        r == (*a == *b),
{
    a == b
}

/// Relies on `RistrettoPoint::compress`: the canonical 32-byte encoding,
/// which `decompress` accepts and maps back to an equal element.
#[verifier::external_body]
pub(crate) fn point_compress(p: &GroupPoint) -> (r: Vec<u8>)
    ensures
        r@ == compressed(*p),
        r@.len() == 32,
        point_decoded(r@) == Some(*p),
{
    p.compress().to_bytes().to_vec()
}

/// Relies on `CompressedRistretto::decompress`: decodes 32 bytes, refusing
/// any byte pattern that is not a canonical group-element encoding; a
/// decoded element re-encodes to the same bytes (Ristretto encodings are
/// unique). `CompressedRistretto::from_slice` panics on any other length,
/// so shorter and longer inputs are excluded.
#[verifier::external_body]
pub(crate) fn point_decompress(bytes: &[u8]) -> (r: Option<GroupPoint>)
    requires
        bytes@.len() == 32,
    ensures
        r == point_decoded(bytes@),
        r is Some ==> compressed(r->0) == bytes@,
{
    curve25519_dalek_ng::ristretto::CompressedRistretto::from_slice(bytes).decompress()
}

/// Relies on `bulletproofs::PedersenGens::default`: the value base `B`
/// (the Ristretto basepoint), which is the commitment to 1 under blinding 0.
#[verifier::external_body]
pub(crate) fn g_base() -> (r: GroupPoint)
    ensures
        r == g_pt(),
{
    bulletproofs::PedersenGens::default().B
}

/// Relies on `bulletproofs::PedersenGens::default`: the blinding base
/// `B_blinding` (the hash of the basepoint encoding), which is the
/// commitment to 0 under blinding 1.
#[verifier::external_body]
pub(crate) fn h_base() -> (r: GroupPoint)
    ensures
        r == h_pt(),
{
    bulletproofs::PedersenGens::default().B_blinding
}

/// Relies on `bulletproofs::PedersenGens::commit`: returns
/// `value * B + blinding * B_blinding` over the crate's default bases — the
/// same bases `range_prove` and `range_verify` use.
#[verifier::external_body]
pub(crate) fn pedersen_commit(value: &GroupScalar, blinding: &GroupScalar) -> (r: GroupPoint)
    ensures
        r == commit_of(*value, *blinding),
{
    bulletproofs::PedersenGens::default().commit(*value, *blinding)
}

// --- transcript ---------------------------------------------------------

/// Relies on `merlin::Transcript::new`: a fresh transcript under this
/// protocol's domain separator, the ASCII bytes of "FeeProof". The
/// construction is deterministic in the domain label.
#[verifier::external_body]
pub(crate) fn transcript_new() -> (r: ProofTranscript)
    ensures
        r == new_transcript(spec_domain()),
{
    ProofTranscript::new(b"FeeProof")
}

/// Relies on `merlin::Transcript::append_message`: absorbs a length-framed
/// message into the hash chain, deterministically in the prior state and
/// the message (the framing label is fixed here). merlin asserts that the
/// message length fits in a `u32`, so longer messages are excluded.
#[verifier::external_body]
pub(crate) fn transcript_append(t: &mut ProofTranscript, msg: &[u8])
    requires
        msg@.len() < 0x1_0000_0000,
    ensures
        *final(t) == appended(*old(t), msg@),
{
    t.append_message(b"m", msg);
}

/// Relies on `merlin::Transcript::challenge_bytes`: 64 challenge bytes
/// derived deterministically from everything appended so far, advancing the
/// state (the challenge label is fixed here).
#[verifier::external_body]
pub(crate) fn transcript_challenge(t: &mut ProofTranscript) -> (r: Vec<u8>)
    ensures
        r@ == challenged(*old(t)).0,
        r@.len() == 64,
        *final(t) == challenged(*old(t)).1,
{
    let mut buf = [0u8; 64];
    t.challenge_bytes(b"c", &mut buf);
    buf.to_vec()
}

// --- range proofs -------------------------------------------------------

/// Relies on `bulletproofs::RangeProof::prove_single` over the default
/// Pedersen bases, with generator capacity for one 64-bit value. Proves
/// `v < 2^n` for the commitment `commit_of(u64_scalar(v), blinding)`. The
/// proof object and the transcript it leaves behind are randomized, so
/// nothing is named of them; the engine refuses a proof only on a
/// degenerate (negligible-probability) transcript challenge, mapped to
/// `None`. Bit sizes other than the two this library uses are refused by
/// the engine, so they are excluded here.
#[verifier::external_body]
pub(crate) fn range_prove(
    t: &mut ProofTranscript,
    v: u64,
    blinding: &GroupScalar,
    n: u64,
) -> Option<RangeProofData>
    requires
        n == 32 || n == 64,
{
    let bp = bulletproofs::BulletproofGens::new(64, 1);
    let pc = bulletproofs::PedersenGens::default();
    match RangeProofData::prove_single(&bp, &pc, t, v, blinding, n as usize) {
        Ok((proof, _)) => Some(proof),
        Err(_) => None,
    }
}

/// Relies on `bulletproofs::RangeProof::verify_single` over the same
/// generators as `range_prove`. A proof satisfying the deterministic
/// bulletproof equations always verifies, and the transcript is replayed
/// deterministically; the converse is not promised, because the engine
/// batches its final check under an internal random scalar.
#[verifier::external_body]
pub(crate) fn range_verify(
    proof: &RangeProofData,
    t: &mut ProofTranscript,
    commitment: &GroupPoint,
    n: u64,
) -> (r: bool)
    requires
        n == 32 || n == 64,
    ensures
        range_check(*proof, *old(t), *commitment, n).0 ==> r,
        *final(t) == range_check(*proof, *old(t), *commitment, n).1,
{
    let bp = bulletproofs::BulletproofGens::new(64, 1);
    let pc = bulletproofs::PedersenGens::default();
    proof.verify_single(&bp, &pc, t, &commitment.compress(), n as usize).is_ok()
}

/// Relies on `bulletproofs::RangeProof::to_bytes`: the proof's fixed-layout
/// serialization (a whole number of 32-byte words), deterministic in the
/// proof object.
#[verifier::external_body]
pub(crate) fn range_proof_to_bytes(p: &RangeProofData) -> (r: Vec<u8>)
    ensures
        r@ == proof_bytes(*p),
{
    p.to_bytes()
}

/// Relies on `bulletproofs::RangeProof::from_bytes`: decodes a serialized
/// proof, refusing malformed lengths and non-canonical scalars; errors,
/// never panics.
#[verifier::external_body]
pub(crate) fn range_proof_from_bytes(bytes: &[u8]) -> (r: Option<RangeProofData>)
    ensures
        r == proof_decoded(bytes@),
{
    RangeProofData::from_bytes(bytes).ok()
}

// --- constant-time integer primitives ------------------------------------

/// Relies on `subtle`'s `ConstantTimeGreater` for `u64`: `ct_gt` returns the
/// choice `a > b`, computed without branching on the operands.
#[verifier::external_body]
pub(crate) fn ct_is_greater_u64(a: u64, b: u64) -> (r: bool)
    ensures
        r == (a > b),
{
    bool::from(u64::ct_gt(&a, &b))
}

/// Relies on `subtle`'s `ConditionallySelectable` for `u64`:
/// `conditional_select(a, b, choice)` returns `a` when the choice is unset
/// and `b` when it is set, without branching on the choice.
#[verifier::external_body]
pub(crate) fn ct_select_u64(a: u64, b: u64, choice: bool) -> (r: u64)
    ensures
        r == if choice {
            b
        } else {
            a
        },
{
    u64::conditional_select(&a, &b, subtle::Choice::from(choice as u8))
}

/// Relies on `Clone for bulletproofs::RangeProof`: duplicating a proof
/// object yields an equal proof.
pub assume_specification[ <bulletproofs::RangeProof as core::clone::Clone>::clone ](
    p: &bulletproofs::RangeProof,
) -> (r: bulletproofs::RangeProof)
    ensures
        r == *p,
;

} // verus!

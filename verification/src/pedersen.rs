//! Commitments and openings over the collaborator group.
//!
//! A commitment is an opaque group element `value * G + opening * H`; the
//! opening is the blinding scalar, paired with the commitment at creation and
//! never transmitted. Every operation's contract states the exact group or
//! scalar expression it computes, over the uninterpreted names of the
//! outside operations.

use vstd::prelude::*;
use crate::errors::ProofError;
use crate::outside::GroupPoint;
use crate::outside::GroupScalar;
use crate::outside::commit_of;
use crate::outside::compressed;
use crate::outside::pedersen_commit;
use crate::outside::point_add;
use crate::outside::point_compress;
use crate::outside::point_decoded;
use crate::outside::point_decompress;
use crate::outside::point_diff;
use crate::outside::point_mul;
use crate::outside::point_scaled;
use crate::outside::point_sub;
use crate::outside::point_sum;
use crate::outside::scalar_add;
use crate::outside::scalar_diff;
use crate::outside::scalar_from_u64;
use crate::outside::scalar_mul;
use crate::outside::scalar_prod;
use crate::outside::scalar_random;
use crate::outside::scalar_sub;
use crate::outside::scalar_sum;
use crate::outside::scalar_zero;
use crate::outside::u64_scalar;

verus! {

/// An opaque 32-byte group element hiding a committed value; homomorphic
/// under addition and scalar multiplication.
#[derive(Clone, Copy)]
pub struct PedersenCommitment(pub GroupPoint);

/// The blinding scalar paired with a commitment at creation time. A `Copy`
/// value, not zeroized on drop.
#[derive(Clone, Copy)]
pub struct PedersenOpening(pub GroupScalar);

impl PedersenCommitment {
    /// The canonical 32-byte encoding of the group element; decoding it
    /// yields the element back.
    pub fn to_bytes(&self) -> (r: Vec<u8>)
        ensures
            r@ == compressed(self.0),
            r@.len() == 32,
            point_decoded(compressed(self.0)) == Some(self.0),
    {
        point_compress(&self.0)
    }

    /// Decodes a 32-byte buffer: succeeds exactly when the buffer is 32
    /// bytes that decode as a canonical group element; everything else is a
    /// `Verification` error.
    pub fn from_bytes(bytes: &[u8]) -> (r: Result<Self, ProofError>)
        ensures
            r is Ok <==> bytes@.len() == 32 && point_decoded(bytes@) is Some,
            r is Ok ==> point_decoded(bytes@) == Some(r->Ok_0.0),
            r is Err ==> r->Err_0 == ProofError::Verification,
    {
        if bytes.len() != 32 {
            return Err(ProofError::Verification);
        }
        match point_decompress(bytes) {
            Some(p) => Ok(PedersenCommitment(p)),
            None => Err(ProofError::Verification),
        }
    }

    /// The homomorphic sum: commits to the sum of the two committed values.
    pub fn add(&self, other: &Self) -> (r: Self)
        ensures
            r.0 == point_sum(self.0, other.0),
    {
        PedersenCommitment(point_add(&self.0, &other.0))
    }

    /// The homomorphic difference.
    pub fn sub(&self, other: &Self) -> (r: Self)
        ensures
            r.0 == point_diff(self.0, other.0),
    {
        PedersenCommitment(point_sub(&self.0, &other.0))
    }

    /// The homomorphic scaling: commits to `scalar` times the committed
    /// value.
    pub fn mul_scalar(&self, scalar: &GroupScalar) -> (r: Self)
        ensures
            r.0 == point_scaled(self.0, *scalar),
    {
        PedersenCommitment(point_mul(&self.0, scalar))
    }

    /// Homomorphic scaling by a small public integer.
    pub fn mul_u64(&self, scalar: u64) -> (r: Self)
        ensures
            r.0 == point_scaled(self.0, u64_scalar(scalar)),
    {
        self.mul_scalar(&scalar_from_u64(scalar))
    }
}

impl PedersenOpening {
    /// A fresh random blinding scalar.
    pub fn random() -> Self {
        PedersenOpening(scalar_random())
    }

    /// The zero opening, used for unblinded encodings of public constants.
    pub fn zero() -> (r: Self)
        ensures
            r.0 == u64_scalar(0),
    {
        PedersenOpening(scalar_zero())
    }

    pub fn add(&self, other: &Self) -> (r: Self)
        ensures
            r.0 == scalar_sum(self.0, other.0),
    {
        PedersenOpening(scalar_add(&self.0, &other.0))
    }

    pub fn sub(&self, other: &Self) -> (r: Self)
        ensures
            r.0 == scalar_diff(self.0, other.0),
    {
        PedersenOpening(scalar_sub(&self.0, &other.0))
    }

    pub fn mul_scalar(&self, scalar: &GroupScalar) -> (r: Self)
        ensures
            r.0 == scalar_prod(self.0, *scalar),
    {
        PedersenOpening(scalar_mul(&self.0, scalar))
    }

    pub fn mul_u64(&self, scalar: u64) -> (r: Self)
        ensures
            r.0 == scalar_prod(self.0, u64_scalar(scalar)),
    {
        self.mul_scalar(&scalar_from_u64(scalar))
    }

    /// The additive inverse, pairing with the complement of a commitment.
    pub fn negate(&self) -> (r: Self)
        ensures
            r.0 == scalar_diff(u64_scalar(0), self.0),
    {
        PedersenOpening::zero().sub(self)
    }
}

/// Commits to `amount` under a fresh random opening: the returned pair
/// satisfies the commitment equation for the returned opening.
pub fn pedersen_new(amount: u64) -> (r: (PedersenCommitment, PedersenOpening))
    ensures
        r.0.0 == commit_of(u64_scalar(amount), r.1.0),
{
    let opening = PedersenOpening::random();
    let commitment = pedersen_with(amount, &opening);
    (commitment, opening)
}

/// Commits to `amount` under the given opening.
pub fn pedersen_with(amount: u64, opening: &PedersenOpening) -> (r: PedersenCommitment)
    ensures
        r.0 == commit_of(u64_scalar(amount), opening.0),
{
    PedersenCommitment(pedersen_commit(&scalar_from_u64(amount), &opening.0))
}

/// The unblinded encoding of a public constant: a commitment under the zero
/// opening, recomputable by any verifier on demand.
pub fn pedersen_encode(amount: u64) -> (r: PedersenCommitment)
    ensures
        r.0 == commit_of(u64_scalar(amount), u64_scalar(0)),
{
    pedersen_with(amount, &PedersenOpening::zero())
}

} // verus!

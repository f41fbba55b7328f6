//! The amount codec: a 64-bit amount is handled as two 32-bit limbs, and
//! limb-level ciphertexts, commitments and openings recombine into their
//! 64-bit equivalents homomorphically, through the fixed scaling factor
//! `2^32` — no plaintext is touched.

use vstd::prelude::*;
use crate::elgamal::DecryptHandle;
use crate::elgamal::ElGamalCiphertext;
use crate::outside::point_add;
use crate::outside::point_mul;
use crate::outside::point_scaled;
use crate::outside::point_sum;
use crate::outside::scalar_from_u64;
use crate::outside::u64_scalar;
use crate::pedersen::PedersenCommitment;
use crate::pedersen::PedersenOpening;

verus! {

/// The scaling factor between the low and high limb: `2^32`.
pub const TWO_32: u64 = 0x1_0000_0000;

/// The recombination `lo + 2^32 * hi` of two limb commitments, over the
/// group names.
pub open spec fn spec_combine_commitments(
    lo: PedersenCommitment,
    hi: PedersenCommitment,
) -> PedersenCommitment {
    PedersenCommitment(point_sum(lo.0, point_scaled(hi.0, u64_scalar(TWO_32))))
}

/// The recombination `lo + 2^32 * hi` of two limb ciphertexts,
/// componentwise.
pub open spec fn spec_combine_ciphertexts(
    lo: ElGamalCiphertext,
    hi: ElGamalCiphertext,
) -> ElGamalCiphertext {
    ElGamalCiphertext {
        commitment: spec_combine_commitments(lo.commitment, hi.commitment),
        handle: DecryptHandle(point_sum(lo.handle.0, point_scaled(hi.handle.0, u64_scalar(
        TWO_32)))),
    }
}

/// Splits an amount into its low and high 32-bit limbs:
/// `amount == lo + 2^32 * hi`, exactly.
pub fn split_u64_into_u32(amount: u64) -> (r: (u32, u32))
    ensures
        r.0 as int + TWO_32 as int * (r.1 as int) == amount as int,
{
    let lo = amount as u32;
    let hi = (amount >> 32) as u32;
    proof {
        assert((amount as u32) as u64 + 0x1_0000_0000u64 * (((amount >> 32) as u32) as u64)
            == amount) by (bit_vector);
    }
    (lo, hi)
}

/// Recombines limb ciphertexts: `lo + 2^32 * hi`, componentwise over the
/// group.
pub fn combine_u32_ciphertexts(
    ciphertext_lo: &ElGamalCiphertext,
    ciphertext_hi: &ElGamalCiphertext,
) -> (r: ElGamalCiphertext)
    ensures
        r == spec_combine_ciphertexts(*ciphertext_lo, *ciphertext_hi),
{
    ElGamalCiphertext {
        commitment: combine_u32_commitments(
            &ciphertext_lo.commitment,
            &ciphertext_hi.commitment,
        ),
        handle: DecryptHandle(
            point_add(
                &ciphertext_lo.handle.0,
                &point_mul(&ciphertext_hi.handle.0, &scalar_from_u64(TWO_32)),
            ),
        ),
    }
}

/// Recombines limb commitments: `lo + 2^32 * hi` over the group.
pub fn combine_u32_commitments(
    commitment_lo: &PedersenCommitment,
    commitment_hi: &PedersenCommitment,
) -> (r: PedersenCommitment)
    ensures
        r == spec_combine_commitments(*commitment_lo, *commitment_hi),
{
    commitment_lo.add(&commitment_hi.mul_u64(TWO_32))
}

/// Recombines limb openings: `lo + 2^32 * hi` over the scalar field.
pub fn combine_u32_openings(
    opening_lo: &PedersenOpening,
    opening_hi: &PedersenOpening,
) -> (r: PedersenOpening)
    ensures
        r.0 == crate::outside::scalar_sum(
            opening_lo.0,
            crate::outside::scalar_prod(opening_hi.0, u64_scalar(TWO_32)),
        ),
{
    opening_lo.add(&opening_hi.mul_u64(TWO_32))
}

} // verus!

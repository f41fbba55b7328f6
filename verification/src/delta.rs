//! The delta commitment engine: a public linear combination of commitments
//! certifying `fee * FEE_DENOMINATOR - rate * amount == delta`.
//!
//! The combination never touches a plaintext: the verifier can recompute the
//! delta commitment from public commitments alone, and when the fee was
//! computed honestly and not capped, it opens to the same delta value that
//! the claimed commitment holds — which is what the fee sigma proof shows in
//! zero knowledge. The contracts state the exact linear combination over
//! the group and scalar names, so prover and verifier provably derive the
//! same delta commitment.

use vstd::prelude::*;
use crate::amount::combine_u32_commitments;
use crate::amount::combine_u32_openings;
use crate::amount::spec_combine_commitments;
use crate::fee::FEE_DENOMINATOR;
use crate::outside::point_diff;
use crate::outside::point_scaled;
use crate::outside::scalar_diff;
use crate::outside::scalar_prod;
use crate::outside::scalar_sum;
use crate::outside::u64_scalar;
use crate::pedersen::PedersenCommitment;
use crate::pedersen::PedersenOpening;

verus! {

/// §-exact formula of the delta commitment:
/// `commitment_fee * FEE_DENOMINATOR - combine(lo, hi) * rate`.
pub open spec fn spec_delta_commitment(
    commitment_lo: PedersenCommitment,
    commitment_hi: PedersenCommitment,
    commitment_fee: PedersenCommitment,
    fee_rate_basis_points: u16,
) -> PedersenCommitment {
    PedersenCommitment(
        point_diff(
            point_scaled(commitment_fee.0, u64_scalar(FEE_DENOMINATOR)),
            point_scaled(
                spec_combine_commitments(commitment_lo, commitment_hi).0,
                u64_scalar(fee_rate_basis_points as u64),
            ),
        ),
    )
}

/// The identical linear combination over the openings.
pub open spec fn spec_delta_opening(
    opening_lo: PedersenOpening,
    opening_hi: PedersenOpening,
    opening_fee: PedersenOpening,
    fee_rate_basis_points: u16,
) -> PedersenOpening {
    PedersenOpening(
        scalar_diff(
            scalar_prod(opening_fee.0, u64_scalar(FEE_DENOMINATOR)),
            scalar_prod(
                scalar_sum(opening_lo.0, scalar_prod(opening_hi.0, u64_scalar(
                crate::amount::TWO_32))),
                u64_scalar(fee_rate_basis_points as u64),
            ),
        ),
    )
}

/// The verifier's side: the delta commitment from public data alone.
pub fn compute_delta_commitment(
    commitment_lo: &PedersenCommitment,
    commitment_hi: &PedersenCommitment,
    commitment_fee: &PedersenCommitment,
    fee_rate_basis_points: u16,
) -> (r: PedersenCommitment)
    ensures
        r == spec_delta_commitment(
            *commitment_lo,
            *commitment_hi,
            *commitment_fee,
            fee_rate_basis_points,
        ),
{
    commitment_fee.mul_u64(FEE_DENOMINATOR).sub(
        &combine_u32_commitments(commitment_lo, commitment_hi).mul_u64(
            fee_rate_basis_points as u64,
        ),
    )
}

/// The prover's side: the same combination — the commitment comes from the
/// very function the verifier runs, so both provably agree — plus the
/// matching opening computed identically over the limb and fee openings.
pub fn compute_delta_commitment_and_opening(
    commitment_lo: &PedersenCommitment,
    opening_lo: &PedersenOpening,
    commitment_hi: &PedersenCommitment,
    opening_hi: &PedersenOpening,
    commitment_fee: &PedersenCommitment,
    opening_fee: &PedersenOpening,
    fee_rate_basis_points: u16,
) -> (r: (PedersenCommitment, PedersenOpening))
    ensures
        r.0 == spec_delta_commitment(
            *commitment_lo,
            *commitment_hi,
            *commitment_fee,
            fee_rate_basis_points,
        ),
        r.1 == spec_delta_opening(*opening_lo, *opening_hi, *opening_fee, fee_rate_basis_points),
{
    let commitment_delta = compute_delta_commitment(
        commitment_lo,
        commitment_hi,
        commitment_fee,
        fee_rate_basis_points,
    );
    let opening_delta = opening_fee.mul_u64(FEE_DENOMINATOR).sub(
        &combine_u32_openings(opening_lo, opening_hi).mul_u64(fee_rate_basis_points as u64),
    );
    (commitment_delta, opening_delta)
}

} // verus!

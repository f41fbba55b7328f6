//! Fee arithmetic: the basis-point fee with its rounding delta, the
//! constant-time cap, and the public fee parameters with their byte layout.

use vstd::prelude::*;
use vstd::arithmetic::div_mod::lemma_div_is_ordered;
use vstd::arithmetic::div_mod::lemma_div_multiples_vanish;
use vstd::arithmetic::div_mod::lemma_fundamental_div_mod;
use vstd::arithmetic::div_mod::lemma_fundamental_div_mod_converse_div;
use vstd::bytes::lemma_auto_spec_u16_to_from_le_bytes;
use vstd::bytes::lemma_auto_spec_u64_to_from_le_bytes;
use vstd::bytes::spec_u16_from_le_bytes;
use vstd::bytes::spec_u16_to_le_bytes;
use vstd::bytes::spec_u64_from_le_bytes;
use vstd::bytes::spec_u64_to_le_bytes;
use vstd::bytes::u16_from_le_bytes;
use vstd::bytes::u16_to_le_bytes;
use vstd::bytes::u64_from_le_bytes;
use vstd::bytes::u64_to_le_bytes;
use crate::bytes_util::bytes_chunk;
use crate::bytes_util::push_bytes;
use crate::outside::ct_is_greater_u64;
use crate::outside::ct_select_u64;

verus! {

/// The fee rate is an integer count of basis points: units of 1/10000.
pub const FEE_DENOMINATOR: u64 = 10000;

/// The rounded-up fee as a mathematical function: the ceiling of
/// `amount * rate / FEE_DENOMINATOR`.
pub open spec fn spec_fee(transfer_amount: u64, fee_rate_basis_points: u16) -> int {
    (transfer_amount * fee_rate_basis_points + (FEE_DENOMINATOR - 1)) / (FEE_DENOMINATOR as int)
}

/// The fee actually encrypted: the rounded-up fee capped at `maximum_fee`.
pub open spec fn spec_capped_fee(
    transfer_amount: u64,
    fee_rate_basis_points: u16,
    maximum_fee: u64,
) -> int {
    if spec_fee(transfer_amount, fee_rate_basis_points) < maximum_fee {
        spec_fee(transfer_amount, fee_rate_basis_points)
    } else {
        maximum_fee as int
    }
}

/// Computes the fee owed on a transfer and the rounding delta.
///
/// The fee is the basis-point percentage of the amount rounded **up** to the
/// next token unit, and `delta` is the gap between the rounded-up fee and the
/// true fractional fee, scaled by [`FEE_DENOMINATOR`]:
/// `fee * FEE_DENOMINATOR == transfer_amount * fee_rate_basis_points + delta`
/// with `0 <= delta < FEE_DENOMINATOR`. The delta commitment later certifies
/// exactly this relation in zero knowledge, so the equation is stated here as
/// the function's contract.
pub fn calculate_fee(transfer_amount: u64, fee_rate_basis_points: u16) -> (r: (u64, u64))
    requires
        fee_rate_basis_points <= FEE_DENOMINATOR,
    ensures
        r.1 < FEE_DENOMINATOR,
        r.0 as int * FEE_DENOMINATOR == transfer_amount as int * fee_rate_basis_points as int
            + r.1 as int,
        r.0 as int == (transfer_amount as int * fee_rate_basis_points as int + (FEE_DENOMINATOR
            - 1)) as int / FEE_DENOMINATOR as int,
        r.0 as int == spec_fee(transfer_amount, fee_rate_basis_points),
{
    proof {
        assert(transfer_amount as int * fee_rate_basis_points as int <= u64::MAX as int
            * 10000) by (nonlinear_arith)
            requires
                transfer_amount <= u64::MAX,
                fee_rate_basis_points <= 10000;
    }
    let scaled: u128 = (transfer_amount as u128) * (fee_rate_basis_points as u128);
    let fee_floor: u128 = scaled / (FEE_DENOMINATOR as u128);
    let rem: u128 = scaled % (FEE_DENOMINATOR as u128);
    proof {
        lemma_fundamental_div_mod(scaled as int, 10000);
        lemma_div_is_ordered(scaled as int, u64::MAX as int * 10000, 10000);
        lemma_div_multiples_vanish(u64::MAX as int, 10000);
        assert(u64::MAX as int * 10000 == 10000 * u64::MAX as int);
        assert(fee_floor <= u64::MAX);
    }
    if rem == 0 {
        let fee = fee_floor as u64;
        proof {
            lemma_fundamental_div_mod_converse_div(
                scaled as int + 9999,
                10000,
                fee as int,
                9999,
            );
        }
        (fee, 0u64)
    } else {
        proof {
            assert(fee_floor < u64::MAX) by (nonlinear_arith)
                requires
                    scaled as int == 10000 * fee_floor as int + rem as int,
                    scaled as int <= u64::MAX as int * 10000,
                    0 < rem as int,
                    (rem as int) < 10000;
        }
        let fee = (fee_floor as u64) + 1;
        let delta = (10000 - rem) as u64;
        proof {
            assert(fee as int * 10000 == 10000 * fee_floor as int + 10000);
            lemma_fundamental_div_mod_converse_div(
                scaled as int + 9999,
                10000,
                fee as int,
                rem as int - 1,
            );
        }
        (fee, delta)
    }
}

/// Caps a fee at `maximum_fee`, returning `min(fee_amount, maximum_fee)`.
///
/// The selection is branchless: the comparison and the select both go through
/// constant-time primitives, so no control flow depends on the secret fee.
pub fn cap_fee(fee_amount: u64, maximum_fee: u64) -> (r: u64)
    ensures
        r == if fee_amount < maximum_fee {
            fee_amount
        } else {
            maximum_fee
        },
{
    let below_max = ct_is_greater_u64(maximum_fee, fee_amount);
    ct_select_u64(maximum_fee, fee_amount, below_max)
}

/// The public, non-secret fee policy bound into the transcript.
#[derive(Clone, Copy, Debug, PartialEq, Eq, Structural)]
pub struct FeeParameters {
    /// Fee rate expressed as basis points of the transfer amount, i.e.
    /// increments of 0.01%.
    pub fee_rate_basis_points: u16,
    /// Maximum fee assessed on a transfer, expressed as an amount of tokens.
    pub maximum_fee: u64,
}

impl FeeParameters {
    /// The 10-byte layout: rate as little-endian u16, then maximum fee as
    /// little-endian u64.
    pub open spec fn spec_to_bytes(self) -> Seq<u8> {
        spec_u16_to_le_bytes(self.fee_rate_basis_points) + spec_u64_to_le_bytes(self.maximum_fee)
    }

    pub fn to_bytes(&self) -> (r: Vec<u8>)
        ensures
            r@ == self.spec_to_bytes(),
            r@.len() == 10,
    {
        let mut out = u16_to_le_bytes(self.fee_rate_basis_points);
        let max_bytes = u64_to_le_bytes(self.maximum_fee);
        push_bytes(&mut out, max_bytes.as_slice());
        proof {
            lemma_auto_spec_u16_to_from_le_bytes();
            lemma_auto_spec_u64_to_from_le_bytes();
        }
        out
    }

    /// What a 10-byte buffer decodes to.
    pub open spec fn spec_from_bytes(b: Seq<u8>) -> FeeParameters {
        FeeParameters {
            fee_rate_basis_points: spec_u16_from_le_bytes(b.subrange(0, 2)),
            maximum_fee: spec_u64_from_le_bytes(b.subrange(2, 10)),
        }
    }

    /// Decodes the 10-byte layout of [`Self::to_bytes`]; every 10-byte buffer
    /// is a valid encoding, so this is a total inverse.
    pub fn from_bytes(bytes: &[u8]) -> (r: Self)
        requires
            bytes@.len() == 10,
        ensures
            r == Self::spec_from_bytes(bytes@),
            r.spec_to_bytes() == bytes@,
    {
        let rate_bytes = bytes_chunk(bytes, 0, 2);
        let max_bytes = bytes_chunk(bytes, 2, 8);
        let r = FeeParameters {
            fee_rate_basis_points: u16_from_le_bytes(rate_bytes.as_slice()),
            maximum_fee: u64_from_le_bytes(max_bytes.as_slice()),
        };
        proof {
            lemma_auto_spec_u16_to_from_le_bytes();
            lemma_auto_spec_u64_to_from_le_bytes();
            assert(r.spec_to_bytes() =~= bytes@);
        }
        r
    }
}

} // verus!

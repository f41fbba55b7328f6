//! The fee sigma proof: an OR-composition showing that either the fee
//! commitment opens to the configured maximum fee (the capped case), or the
//! delta commitment and the claimed commitment open to the same value (the
//! uncapped case, where that shared value is the fee-computation delta).
//!
//! The total challenge `c` splits as `c == c_max + c_equality`; the prover
//! runs the true branch honestly and simulates the other by choosing its
//! share of the challenge and its responses first, then solving for the
//! branch commitment. The verifier re-derives `c`, recovers
//! `c_equality = c - c_max`, and checks both branches' equations; a proof can
//! only satisfy both when one branch was real.

use vstd::prelude::*;
use vstd::string::StringSliceAdditionalSpecFns;
use crate::bytes_util::push_bytes;
use crate::errors::ProofError;
use crate::outside::GroupPoint;
use crate::outside::GroupScalar;
use crate::outside::ProofTranscript;
use crate::outside::g_base;
use crate::outside::h_base;
use crate::outside::point_add;
use crate::outside::compressed;
use crate::outside::g_pt;
use crate::outside::h_pt;
use crate::outside::point_compress;
use crate::outside::point_decoded;
use crate::outside::point_eq;
use crate::outside::point_scaled;
use crate::outside::point_sum;
use crate::outside::scalar_bytes;
use crate::outside::scalar_decoded;
use crate::outside::u64_scalar;
use crate::outside::point_mul;
use crate::outside::point_sub;
use crate::outside::scalar_add;
use crate::outside::scalar_from_u64;
use crate::outside::scalar_mul;
use crate::outside::scalar_prod;
use crate::outside::scalar_random;
use crate::outside::scalar_sub;
use crate::outside::scalar_sum;
use crate::outside::scalar_to_bytes;
use crate::pedersen::PedersenCommitment;
use crate::pedersen::PedersenOpening;
use crate::point_codec::read_point;
use crate::point_codec::read_scalar;
use crate::transcript_util::append_labeled;
use crate::transcript_util::lemma_protocol_labels_fit;
use crate::transcript_util::challenge_scalar;
use crate::transcript_util::spec_appended;
use crate::transcript_util::spec_challenge;
use crate::transcript_util::spec_challenged;

verus! {

/// The 256-byte fee sigma proof: three branch commitments, the max branch's
/// challenge share, and four responses.
#[derive(Clone, Copy)]
pub struct FeeSigmaProof {
    pub y_max: GroupPoint,
    pub y_delta: GroupPoint,
    pub y_claimed: GroupPoint,
    pub z_max: GroupScalar,
    pub c_max: GroupScalar,
    pub z_x: GroupScalar,
    pub z_delta: GroupScalar,
    pub z_claimed: GroupScalar,
}

/// The encoded size of a fee sigma proof.
pub const FEE_SIGMA_PROOF_LEN: usize = 256;

impl FeeSigmaProof {
    /// The transcript state after the proof's three branch commitments are
    /// absorbed.
    pub open spec fn spec_commitments_state(self, t: ProofTranscript) -> ProofTranscript {
        spec_appended(
            spec_appended(
                spec_appended(t, "fee-sigma-y-max".spec_bytes(), compressed(self.y_max)),
                "fee-sigma-y-delta".spec_bytes(),
                compressed(self.y_delta),
            ),
            "fee-sigma-y-claimed".spec_bytes(),
            compressed(self.y_claimed),
        )
    }

    /// The challenge both sides derive after the commitments.
    pub open spec fn spec_challenge_value(self, t: ProofTranscript) -> GroupScalar {
        spec_challenge(self.spec_commitments_state(t), "fee-sigma-challenge".spec_bytes())
    }

    /// The transcript state this proof leaves behind, accepted or not.
    pub open spec fn spec_post_state(self, t: ProofTranscript) -> ProofTranscript {
        spec_challenged(self.spec_commitments_state(t), "fee-sigma-challenge".spec_bytes())
    }

    /// The three verification equations, with the challenge split
    /// `c == c_max + c_eq`: `z_max * H == c_max * (C_fee - max * G) + y_max`,
    /// `z_x * G + z_delta * H == c_eq * C_delta + y_delta`, and
    /// `z_x * G + z_claimed * H == c_eq * C_claimed + y_claimed`.
    pub open spec fn spec_accepts(
        self,
        commitment_fee: PedersenCommitment,
        commitment_delta: PedersenCommitment,
        commitment_claimed: PedersenCommitment,
        maximum_fee: u64,
        t: ProofTranscript,
    ) -> bool {
        let c = self.spec_challenge_value(t);
        let c_eq = crate::outside::scalar_diff(c, self.c_max);
        let fee_minus_max = crate::outside::point_diff(
            commitment_fee.0,
            point_scaled(g_pt(), u64_scalar(maximum_fee)),
        );
        &&& point_scaled(h_pt(), self.z_max) == point_sum(
            point_scaled(fee_minus_max, self.c_max),
            self.y_max,
        )
        &&& point_sum(point_scaled(g_pt(), self.z_x), point_scaled(h_pt(), self.z_delta))
            == point_sum(point_scaled(commitment_delta.0, c_eq), self.y_delta)
        &&& point_sum(point_scaled(g_pt(), self.z_x), point_scaled(h_pt(), self.z_claimed))
            == point_sum(point_scaled(commitment_claimed.0, c_eq), self.y_claimed)
    }

    /// Proves the fee/delta relation. `fee_amount` is the uncapped fee, used
    /// only to pick the true branch; `commitment_fee`/`opening_fee` belong to
    /// the encrypted (possibly capped) fee. In the uncapped case the equality
    /// branch is real and the max branch is simulated; capped, the reverse.
    /// The branch choice mirrors the cap selection (`fee_amount` below
    /// `maximum_fee`), so the simulated branch is always the false statement.
    /// The resulting proof hides which branch was real; the generation-time
    /// branch itself is not hardened against timing observation.
    pub fn new(
        fee_amount: u64,
        commitment_fee: &PedersenCommitment,
        opening_fee: &PedersenOpening,
        delta_fee: u64,
        commitment_delta: &PedersenCommitment,
        opening_delta: &PedersenOpening,
        commitment_claimed: &PedersenCommitment,
        opening_claimed: &PedersenOpening,
        maximum_fee: u64,
        t: &mut ProofTranscript,
    ) -> (r: Self)
        ensures
            *final(t) == r.spec_post_state(*old(t)),
            ({
                let c = r.spec_challenge_value(*old(t));
                let fee_minus_max = crate::outside::point_diff(
                    commitment_fee.0,
                    point_scaled(g_pt(), u64_scalar(maximum_fee)),
                );
                if fee_amount < maximum_fee {
                    // The equality branch is real; the max branch commitment
                    // is solved backwards from its chosen challenge share.
                    exists|y_x: GroupScalar, y_d: GroupScalar, y_c: GroupScalar|
                        {
                            let c_eq = crate::outside::scalar_diff(c, r.c_max);
                            &&& r.y_max == crate::outside::point_diff(
                                point_scaled(h_pt(), r.z_max),
                                point_scaled(fee_minus_max, r.c_max),
                            )
                            &&& r.y_delta == point_sum(
                                #[trigger] point_scaled(g_pt(), y_x),
                                #[trigger] point_scaled(h_pt(), y_d),
                            )
                            &&& r.y_claimed == point_sum(
                                point_scaled(g_pt(), y_x),
                                #[trigger] point_scaled(h_pt(), y_c),
                            )
                            &&& r.z_x == scalar_sum(scalar_prod(c_eq, u64_scalar(delta_fee)), y_x)
                            &&& r.z_delta == scalar_sum(scalar_prod(c_eq, opening_delta.0), y_d)
                            &&& r.z_claimed == scalar_sum(
                                scalar_prod(c_eq, opening_claimed.0),
                                y_c,
                            )
                        }
                } else {
                    // The max branch is real; the equality branch commitments
                    // are solved backwards from its chosen challenge share.
                    exists|y: GroupScalar, c_eq: GroupScalar|
                        {
                            &&& r.y_max == #[trigger] point_scaled(h_pt(), y)
                            &&& r.y_delta == crate::outside::point_diff(
                                point_sum(
                                    point_scaled(g_pt(), r.z_x),
                                    point_scaled(h_pt(), r.z_delta),
                                ),
                                #[trigger] point_scaled(commitment_delta.0, c_eq),
                            )
                            &&& r.y_claimed == crate::outside::point_diff(
                                point_sum(
                                    point_scaled(g_pt(), r.z_x),
                                    point_scaled(h_pt(), r.z_claimed),
                                ),
                                point_scaled(commitment_claimed.0, c_eq),
                            )
                            &&& r.c_max == crate::outside::scalar_diff(c, c_eq)
                            &&& r.z_max == scalar_sum(scalar_prod(r.c_max, opening_fee.0), y)
                        }
                }
            }),
    {
        proof {
            lemma_protocol_labels_fit();
        }
        let g = g_base();
        let h = h_base();
        // The max branch's statement point: commitment_fee - maximum_fee * G,
        // which opens to opening_fee exactly when the fee was capped.
        let fee_minus_max = point_sub(&commitment_fee.0, &point_mul(&g, &scalar_from_u64(
        maximum_fee)));

        if fee_amount < maximum_fee {
            // Uncapped: simulate the max branch, run the equality branch.
            let c_max = scalar_random();
            let z_max = scalar_random();
            let y_max = point_sub(&point_mul(&h, &z_max), &point_mul(&fee_minus_max, &c_max));

            let y_x = scalar_random();
            let y_d = scalar_random();
            let y_c = scalar_random();
            let y_delta = point_add(&point_mul(&g, &y_x), &point_mul(&h, &y_d));
            let y_claimed = point_add(&point_mul(&g, &y_x), &point_mul(&h, &y_c));

            append_labeled(t, "fee-sigma-y-max", point_compress(&y_max).as_slice());
            append_labeled(t, "fee-sigma-y-delta", point_compress(&y_delta).as_slice());
            append_labeled(t, "fee-sigma-y-claimed", point_compress(&y_claimed).as_slice());
            let c = challenge_scalar(t, "fee-sigma-challenge");
            let c_eq = scalar_sub(&c, &c_max);

            let x = scalar_from_u64(delta_fee);
            let z_x = scalar_add(&scalar_mul(&c_eq, &x), &y_x);
            let z_delta = scalar_add(&scalar_mul(&c_eq, &opening_delta.0), &y_d);
            let z_claimed = scalar_add(&scalar_mul(&c_eq, &opening_claimed.0), &y_c);

            FeeSigmaProof { y_max, y_delta, y_claimed, z_max, c_max, z_x, z_delta, z_claimed }
        } else {
            // Capped: simulate the equality branch, run the max branch.
            let c_eq = scalar_random();
            let z_x = scalar_random();
            let z_delta = scalar_random();
            let z_claimed = scalar_random();
            let y_delta = point_sub(
                &point_add(&point_mul(&g, &z_x), &point_mul(&h, &z_delta)),
                &point_mul(&commitment_delta.0, &c_eq),
            );
            let y_claimed = point_sub(
                &point_add(&point_mul(&g, &z_x), &point_mul(&h, &z_claimed)),
                &point_mul(&commitment_claimed.0, &c_eq),
            );

            let y = scalar_random();
            let y_max = point_mul(&h, &y);

            append_labeled(t, "fee-sigma-y-max", point_compress(&y_max).as_slice());
            append_labeled(t, "fee-sigma-y-delta", point_compress(&y_delta).as_slice());
            append_labeled(t, "fee-sigma-y-claimed", point_compress(&y_claimed).as_slice());
            let c = challenge_scalar(t, "fee-sigma-challenge");
            let c_max = scalar_sub(&c, &c_eq);

            let z_max = scalar_add(&scalar_mul(&c_max, &opening_fee.0), &y);

            FeeSigmaProof { y_max, y_delta, y_claimed, z_max, c_max, z_x, z_delta, z_claimed }
        }
    }

    /// Checks both branches against the fee, delta and claimed commitments;
    /// succeeds exactly when [`Self::spec_accepts`] holds.
    pub fn verify(
        &self,
        commitment_fee: &PedersenCommitment,
        commitment_delta: &PedersenCommitment,
        commitment_claimed: &PedersenCommitment,
        maximum_fee: u64,
        t: &mut ProofTranscript,
    ) -> (r: Result<(), ProofError>)
        ensures
            r is Ok <==> self.spec_accepts(
                *commitment_fee,
                *commitment_delta,
                *commitment_claimed,
                maximum_fee,
                *old(t),
            ),
            *final(t) == self.spec_post_state(*old(t)),
            r is Err ==> r->Err_0 == ProofError::Verification,
    {
        proof {
            lemma_protocol_labels_fit();
        }
        let g = g_base();
        let h = h_base();
        let fee_minus_max = point_sub(&commitment_fee.0, &point_mul(&g, &scalar_from_u64(
        maximum_fee)));

        append_labeled(t, "fee-sigma-y-max", point_compress(&self.y_max).as_slice());
        append_labeled(t, "fee-sigma-y-delta", point_compress(&self.y_delta).as_slice());
        append_labeled(t, "fee-sigma-y-claimed", point_compress(&self.y_claimed).as_slice());
        let c = challenge_scalar(t, "fee-sigma-challenge");
        let c_eq = scalar_sub(&c, &self.c_max);

        // z_max * H == c_max * (commitment_fee - max * G) + y_max
        let ok_max = point_eq(
            &point_mul(&h, &self.z_max),
            &point_add(&point_mul(&fee_minus_max, &self.c_max), &self.y_max),
        );
        // z_x * G + z_delta * H == c_eq * commitment_delta + y_delta
        let ok_delta = point_eq(
            &point_add(&point_mul(&g, &self.z_x), &point_mul(&h, &self.z_delta)),
            &point_add(&point_mul(&commitment_delta.0, &c_eq), &self.y_delta),
        );
        // z_x * G + z_claimed * H == c_eq * commitment_claimed + y_claimed
        let ok_claimed = point_eq(
            &point_add(&point_mul(&g, &self.z_x), &point_mul(&h, &self.z_claimed)),
            &point_add(&point_mul(&commitment_claimed.0, &c_eq), &self.y_claimed),
        );

        if ok_max && ok_delta && ok_claimed {
            Ok(())
        } else {
            Err(ProofError::Verification)
        }
    }

    /// The fixed 256-byte layout:
    /// `y_max ‖ y_delta ‖ y_claimed ‖ z_max ‖ c_max ‖ z_x ‖ z_delta ‖ z_claimed`.
    pub open spec fn spec_to_bytes(self) -> Seq<u8> {
        compressed(self.y_max) + compressed(self.y_delta) + compressed(self.y_claimed)
            + scalar_bytes(self.z_max) + scalar_bytes(self.c_max) + scalar_bytes(self.z_x)
            + scalar_bytes(self.z_delta) + scalar_bytes(self.z_claimed)
    }

    /// Whether a buffer decodes: 256 bytes whose chunks are all canonical.
    pub open spec fn spec_decodable(b: Seq<u8>) -> bool {
        &&& b.len() == FEE_SIGMA_PROOF_LEN
        &&& point_decoded(b.subrange(0, 32)) is Some
        &&& point_decoded(b.subrange(32, 64)) is Some
        &&& point_decoded(b.subrange(64, 96)) is Some
        &&& scalar_decoded(b.subrange(96, 128)) is Some
        &&& scalar_decoded(b.subrange(128, 160)) is Some
        &&& scalar_decoded(b.subrange(160, 192)) is Some
        &&& scalar_decoded(b.subrange(192, 224)) is Some
        &&& scalar_decoded(b.subrange(224, 256)) is Some
    }

    /// What a decodable buffer decodes to.
    pub open spec fn spec_decoded(b: Seq<u8>) -> FeeSigmaProof {
        FeeSigmaProof {
            y_max: point_decoded(b.subrange(0, 32))->0,
            y_delta: point_decoded(b.subrange(32, 64))->0,
            y_claimed: point_decoded(b.subrange(64, 96))->0,
            z_max: scalar_decoded(b.subrange(96, 128))->0,
            c_max: scalar_decoded(b.subrange(128, 160))->0,
            z_x: scalar_decoded(b.subrange(160, 192))->0,
            z_delta: scalar_decoded(b.subrange(192, 224))->0,
            z_claimed: scalar_decoded(b.subrange(224, 256))->0,
        }
    }

    pub fn to_bytes(&self) -> (r: Vec<u8>)
        ensures
            r@ == self.spec_to_bytes(),
            r@.len() == FEE_SIGMA_PROOF_LEN,
            compressed(self.y_max).len() == 32,
            compressed(self.y_delta).len() == 32,
            compressed(self.y_claimed).len() == 32,
            scalar_bytes(self.z_max).len() == 32,
            scalar_bytes(self.c_max).len() == 32,
            scalar_bytes(self.z_x).len() == 32,
            scalar_bytes(self.z_delta).len() == 32,
            scalar_bytes(self.z_claimed).len() == 32,
    {
        let mut out = point_compress(&self.y_max);
        push_bytes(&mut out, point_compress(&self.y_delta).as_slice());
        push_bytes(&mut out, point_compress(&self.y_claimed).as_slice());
        push_bytes(&mut out, scalar_to_bytes(&self.z_max).as_slice());
        push_bytes(&mut out, scalar_to_bytes(&self.c_max).as_slice());
        push_bytes(&mut out, scalar_to_bytes(&self.z_x).as_slice());
        push_bytes(&mut out, scalar_to_bytes(&self.z_delta).as_slice());
        push_bytes(&mut out, scalar_to_bytes(&self.z_claimed).as_slice());
        out
    }

    /// Decodes the layout of [`Self::spec_to_bytes`]: succeeds exactly when
    /// the buffer is decodable.
    pub fn from_bytes(bytes: &[u8]) -> (r: Result<Self, ProofError>)
        ensures
            r is Ok <==> Self::spec_decodable(bytes@),
            r is Ok ==> r->Ok_0 == Self::spec_decoded(bytes@),
            r is Err ==> r->Err_0 == ProofError::Verification,
    {
        if bytes.len() != FEE_SIGMA_PROOF_LEN {
            return Err(ProofError::Verification);
        }
        let y_max = read_point(bytes, 0)?;
        let y_delta = read_point(bytes, 32)?;
        let y_claimed = read_point(bytes, 64)?;
        let z_max = read_scalar(bytes, 96)?;
        let c_max = read_scalar(bytes, 128)?;
        let z_x = read_scalar(bytes, 160)?;
        let z_delta = read_scalar(bytes, 192)?;
        let z_claimed = read_scalar(bytes, 224)?;
        Ok(FeeSigmaProof { y_max, y_delta, y_claimed, z_max, c_max, z_x, z_delta, z_claimed })
    }
}

} // verus!

//! The range-proof step: five committed values proved non-negative with
//! their declared bit widths, over one shared transcript.
//!
//! The five statements are: the new source balance fits 64 bits, each
//! transfer-amount limb fits 32 bits, the fee delta fits 64 bits, and
//! `FEE_DENOMINATOR - delta` fits 64 bits — the last two together pin the
//! delta into `[0, FEE_DENOMINATOR]` without a dedicated bounded-range
//! primitive. The engine proves one value per call, so the bundle holds five
//! proofs, bound to each other and to everything before them by the shared
//! transcript.

use vstd::prelude::*;
use crate::bytes_util::bytes_chunk;
use crate::bytes_util::push_bytes;
use crate::errors::ProofError;
use crate::fee::FEE_DENOMINATOR;
use crate::outside::ProofTranscript;
use crate::outside::RangeProofData;
use crate::outside::proof_bytes;
use crate::outside::proof_decoded;
use crate::outside::range_check;
use crate::outside::range_proof_from_bytes;
use crate::outside::range_proof_to_bytes;
use crate::outside::range_prove;
use crate::outside::range_verify;
use crate::pedersen::PedersenCommitment;
use crate::pedersen::PedersenOpening;

verus! {

/// The encoded size of a single 64-bit range proof.
pub const RANGE_PROOF_64_LEN: usize = 672;

/// The encoded size of a single 32-bit range proof.
pub const RANGE_PROOF_32_LEN: usize = 608;

/// The encoded size of the whole bundle: three 64-bit and two 32-bit proofs.
pub const RANGE_PROOF_BUNDLE_LEN: usize = 3232;

/// The five range proofs, in the fixed protocol order.
#[derive(Clone)]
pub struct RangeProofBundle {
    pub proof_new_balance: RangeProofData,
    pub proof_amount_lo: RangeProofData,
    pub proof_amount_hi: RangeProofData,
    pub proof_delta: RangeProofData,
    pub proof_delta_complement: RangeProofData,
}

impl RangeProofBundle {
    /// Whether the five deterministic engine checks all pass, chained over
    /// the shared transcript in the fixed order, each against its
    /// commitment and declared bit width.
    pub open spec fn spec_all_valid(
        self,
        commitment_new_balance: PedersenCommitment,
        commitment_lo: PedersenCommitment,
        commitment_hi: PedersenCommitment,
        commitment_claimed: PedersenCommitment,
        commitment_claimed_complement: PedersenCommitment,
        t: ProofTranscript,
    ) -> bool {
        let s0 = range_check(self.proof_new_balance, t, commitment_new_balance.0, 64);
        let s1 = range_check(self.proof_amount_lo, s0.1, commitment_lo.0, 32);
        let s2 = range_check(self.proof_amount_hi, s1.1, commitment_hi.0, 32);
        let s3 = range_check(self.proof_delta, s2.1, commitment_claimed.0, 64);
        let s4 = range_check(self.proof_delta_complement, s3.1, commitment_claimed_complement.0,
        64);
        s0.0 && s1.0 && s2.0 && s3.0 && s4.0
    }

    /// The transcript state after all five engine checks have run, in order.
    pub open spec fn spec_post_state(
        self,
        commitment_new_balance: PedersenCommitment,
        commitment_lo: PedersenCommitment,
        commitment_hi: PedersenCommitment,
        commitment_claimed: PedersenCommitment,
        commitment_claimed_complement: PedersenCommitment,
        t: ProofTranscript,
    ) -> ProofTranscript {
        let s0 = range_check(self.proof_new_balance, t, commitment_new_balance.0, 64);
        let s1 = range_check(self.proof_amount_lo, s0.1, commitment_lo.0, 32);
        let s2 = range_check(self.proof_amount_hi, s1.1, commitment_hi.0, 32);
        let s3 = range_check(self.proof_delta, s2.1, commitment_claimed.0, 64);
        let s4 = range_check(self.proof_delta_complement, s3.1, commitment_claimed_complement.0,
        64);
        s4.1
    }

    /// Proves all five statements in order, extending the shared transcript.
    /// Returns `None` only when the engine refuses a proof, which it does
    /// with negligible probability on a degenerate transcript challenge.
    pub fn new(
        new_balance: u64,
        amount_lo: u32,
        amount_hi: u32,
        delta_fee: u64,
        opening_balance: &PedersenOpening,
        opening_lo: &PedersenOpening,
        opening_hi: &PedersenOpening,
        opening_claimed: &PedersenOpening,
        opening_claimed_neg: &PedersenOpening,
        t: &mut ProofTranscript,
    ) -> Option<Self>
        requires
            delta_fee <= FEE_DENOMINATOR,
    {
        let proof_new_balance = match range_prove(t, new_balance, &opening_balance.0, 64) {
            Some(p) => p,
            None => {
                return None;
            },
        };
        let proof_amount_lo = match range_prove(t, amount_lo as u64, &opening_lo.0, 32) {
            Some(p) => p,
            None => {
                return None;
            },
        };
        let proof_amount_hi = match range_prove(t, amount_hi as u64, &opening_hi.0, 32) {
            Some(p) => p,
            None => {
                return None;
            },
        };
        let proof_delta = match range_prove(t, delta_fee, &opening_claimed.0, 64) {
            Some(p) => p,
            None => {
                return None;
            },
        };
        let proof_delta_complement = match range_prove(
            t,
            FEE_DENOMINATOR - delta_fee,
            &opening_claimed_neg.0,
            64,
        ) {
            Some(p) => p,
            None => {
                return None;
            },
        };
        Some(
            RangeProofBundle {
                proof_new_balance,
                proof_amount_lo,
                proof_amount_hi,
                proof_delta,
                proof_delta_complement,
            },
        )
    }

    /// Checks all five statements in the same order against the matching
    /// commitments, aborting on the first failure. A bundle whose five
    /// deterministic engine checks hold always verifies, and success leaves
    /// the transcript at the five checks' chained post-state — so a body
    /// that accepts without driving the engine cannot meet this contract.
    /// The converse of acceptance is not stated, because the engine's final
    /// check is randomly batched (see `range_verify`).
    pub fn verify(
        &self,
        commitment_new_balance: &PedersenCommitment,
        commitment_lo: &PedersenCommitment,
        commitment_hi: &PedersenCommitment,
        commitment_claimed: &PedersenCommitment,
        commitment_claimed_complement: &PedersenCommitment,
        t: &mut ProofTranscript,
    ) -> (r: Result<(), ProofError>)
        ensures
            self.spec_all_valid(
                *commitment_new_balance,
                *commitment_lo,
                *commitment_hi,
                *commitment_claimed,
                *commitment_claimed_complement,
                *old(t),
            ) ==> r is Ok,
            r is Ok ==> *final(t) == self.spec_post_state(
                *commitment_new_balance,
                *commitment_lo,
                *commitment_hi,
                *commitment_claimed,
                *commitment_claimed_complement,
                *old(t),
            ),
            r is Err ==> r->Err_0 == ProofError::Verification,
    {
        if !range_verify(&self.proof_new_balance, t, &commitment_new_balance.0, 64) {
            return Err(ProofError::Verification);
        }
        if !range_verify(&self.proof_amount_lo, t, &commitment_lo.0, 32) {
            return Err(ProofError::Verification);
        }
        if !range_verify(&self.proof_amount_hi, t, &commitment_hi.0, 32) {
            return Err(ProofError::Verification);
        }
        if !range_verify(&self.proof_delta, t, &commitment_claimed.0, 64) {
            return Err(ProofError::Verification);
        }
        if !range_verify(&self.proof_delta_complement, t, &commitment_claimed_complement.0, 64) {
            return Err(ProofError::Verification);
        }
        Ok(())
    }

    /// The concatenation of the five proofs' fixed-layout encodings, in
    /// order. An honestly generated bundle encodes to
    /// [`RANGE_PROOF_BUNDLE_LEN`] bytes.
    pub open spec fn spec_to_bytes(self) -> Seq<u8> {
        proof_bytes(self.proof_new_balance) + proof_bytes(self.proof_amount_lo) + proof_bytes(
            self.proof_amount_hi,
        ) + proof_bytes(self.proof_delta) + proof_bytes(self.proof_delta_complement)
    }

    /// Whether a buffer decodes: exactly [`RANGE_PROOF_BUNDLE_LEN`] bytes
    /// whose five fixed-offset chunks each parse as an engine proof.
    pub open spec fn spec_decodable(b: Seq<u8>) -> bool {
        &&& b.len() == RANGE_PROOF_BUNDLE_LEN
        &&& proof_decoded(b.subrange(0, 672)) is Some
        &&& proof_decoded(b.subrange(672, 1280)) is Some
        &&& proof_decoded(b.subrange(1280, 1888)) is Some
        &&& proof_decoded(b.subrange(1888, 2560)) is Some
        &&& proof_decoded(b.subrange(2560, 3232)) is Some
    }

    /// What a decodable buffer decodes to.
    pub open spec fn spec_decoded(b: Seq<u8>) -> RangeProofBundle {
        RangeProofBundle {
            proof_new_balance: proof_decoded(b.subrange(0, 672))->0,
            proof_amount_lo: proof_decoded(b.subrange(672, 1280))->0,
            proof_amount_hi: proof_decoded(b.subrange(1280, 1888))->0,
            proof_delta: proof_decoded(b.subrange(1888, 2560))->0,
            proof_delta_complement: proof_decoded(b.subrange(2560, 3232))->0,
        }
    }

    pub fn to_bytes(&self) -> (r: Vec<u8>)
        ensures
            r@ == self.spec_to_bytes(),
    {
        let mut out = range_proof_to_bytes(&self.proof_new_balance);
        push_bytes(&mut out, range_proof_to_bytes(&self.proof_amount_lo).as_slice());
        push_bytes(&mut out, range_proof_to_bytes(&self.proof_amount_hi).as_slice());
        push_bytes(&mut out, range_proof_to_bytes(&self.proof_delta).as_slice());
        push_bytes(&mut out, range_proof_to_bytes(&self.proof_delta_complement).as_slice());
        out
    }

    /// Decodes the layout of [`Self::spec_to_bytes`]: succeeds exactly when
    /// the buffer is decodable.
    pub fn from_bytes(bytes: &[u8]) -> (r: Result<Self, ProofError>)
        ensures
            r is Ok <==> Self::spec_decodable(bytes@),
            r is Ok ==> r->Ok_0 == Self::spec_decoded(bytes@),
            r is Err ==> r->Err_0 == ProofError::Verification,
    {
        if bytes.len() != RANGE_PROOF_BUNDLE_LEN {
            return Err(ProofError::Verification);
        }
        let proof_new_balance = match range_proof_from_bytes(
            bytes_chunk(bytes, 0, RANGE_PROOF_64_LEN).as_slice(),
        ) {
            Some(p) => p,
            None => {
                return Err(ProofError::Verification);
            },
        };
        let proof_amount_lo = match range_proof_from_bytes(
            bytes_chunk(bytes, 672, RANGE_PROOF_32_LEN).as_slice(),
        ) {
            Some(p) => p,
            None => {
                return Err(ProofError::Verification);
            },
        };
        let proof_amount_hi = match range_proof_from_bytes(
            bytes_chunk(bytes, 1280, RANGE_PROOF_32_LEN).as_slice(),
        ) {
            Some(p) => p,
            None => {
                return Err(ProofError::Verification);
            },
        };
        let proof_delta = match range_proof_from_bytes(
            bytes_chunk(bytes, 1888, RANGE_PROOF_64_LEN).as_slice(),
        ) {
            Some(p) => p,
            None => {
                return Err(ProofError::Verification);
            },
        };
        let proof_delta_complement = match range_proof_from_bytes(
            bytes_chunk(bytes, 2560, RANGE_PROOF_64_LEN).as_slice(),
        ) {
            Some(p) => p,
            None => {
                return Err(ProofError::Verification);
            },
        };
        Ok(
            RangeProofBundle {
                proof_new_balance,
                proof_amount_lo,
                proof_amount_hi,
                proof_delta,
                proof_delta_complement,
            },
        )
    }
}

} // verus!

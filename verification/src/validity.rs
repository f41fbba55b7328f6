//! Validity sigma proofs: a commitment and its decrypt handles are
//! well-formed for two recipient keys.
//!
//! The prover knows the value `x` and the opening `r` with
//! `commitment = x * G + r * H`, `handle1 = r * pubkey1` and
//! `handle2 = r * pubkey2`. The commitments `y0 = yx * G + yr * H`,
//! `y1 = yr * pubkey1` and `y2 = yr * pubkey2` are absorbed into the
//! transcript, the challenge `c` is drawn, and the responses are
//! `zx = c * x + yx`, `zr = c * r + yr`.
//!
//! The aggregated form folds the two limb statements into one with a
//! transcript-drawn aggregation scalar `a`: value `lo + a * hi`, opening
//! `opening_lo + a * opening_hi`, and the matching combined commitments and
//! handles on the verifier's side.

use vstd::prelude::*;
use vstd::string::StringSliceAdditionalSpecFns;
use crate::bytes_util::push_bytes;
use crate::elgamal::DecryptHandle;
use crate::elgamal::ElGamalPubkey;
use crate::errors::ProofError;
use crate::outside::GroupPoint;
use crate::outside::GroupScalar;
use crate::outside::ProofTranscript;
use crate::outside::compressed;
use crate::outside::g_base;
use crate::outside::g_pt;
use crate::outside::h_base;
use crate::outside::h_pt;
use crate::outside::point_add;
use crate::outside::point_compress;
use crate::outside::point_decoded;
use crate::outside::point_eq;
use crate::outside::point_mul;
use crate::outside::point_scaled;
use crate::outside::point_sum;
use crate::outside::scalar_add;
use crate::outside::scalar_bytes;
use crate::outside::scalar_decoded;
use crate::outside::scalar_from_u64;
use crate::outside::scalar_mul;
use crate::outside::scalar_prod;
use crate::outside::scalar_random;
use crate::outside::scalar_sum;
use crate::outside::scalar_to_bytes;
use crate::outside::u64_scalar;
use crate::pedersen::PedersenCommitment;
use crate::pedersen::PedersenOpening;
use crate::point_codec::read_point;
use crate::point_codec::read_scalar;
use crate::transcript_util::append_labeled;
use crate::transcript_util::lemma_protocol_labels_fit;
use crate::transcript_util::challenge_scalar;
use crate::transcript_util::spec_appended;
use crate::transcript_util::spec_challenge;
use crate::transcript_util::spec_challenged;

verus! {

/// The 160-byte validity proof: three commitments and two responses.
#[derive(Clone, Copy)]
pub struct ValidityProof {
    pub y0: GroupPoint,
    pub y1: GroupPoint,
    pub y2: GroupPoint,
    pub zx: GroupScalar,
    pub zr: GroupScalar,
}

/// The encoded size of a validity proof.
pub const VALIDITY_PROOF_LEN: usize = 160;

impl ValidityProof {
    /// The transcript state after the proof's three commitments are
    /// absorbed.
    pub open spec fn spec_commitments_state(self, t: ProofTranscript) -> ProofTranscript {
        spec_appended(
            spec_appended(
                spec_appended(t, "validity-y0".spec_bytes(), compressed(self.y0)),
                "validity-y1".spec_bytes(),
                compressed(self.y1),
            ),
            "validity-y2".spec_bytes(),
            compressed(self.y2),
        )
    }

    /// The challenge both sides derive after the commitments.
    pub open spec fn spec_challenge_value(self, t: ProofTranscript) -> GroupScalar {
        spec_challenge(self.spec_commitments_state(t), "validity-challenge".spec_bytes())
    }

    /// The transcript state this proof leaves behind, accepted or not.
    pub open spec fn spec_post_state(self, t: ProofTranscript) -> ProofTranscript {
        spec_challenged(self.spec_commitments_state(t), "validity-challenge".spec_bytes())
    }

    /// The three verification equations at the derived challenge, over a
    /// raw commitment point and two raw handle points:
    /// `zx * G + zr * H == c * C + y0`, `zr * P1 == c * D1 + y1`,
    /// `zr * P2 == c * D2 + y2`.
    pub open spec fn spec_accepts_raw(
        self,
        commitment: GroupPoint,
        pubkey_1: ElGamalPubkey,
        pubkey_2: ElGamalPubkey,
        handle_1: GroupPoint,
        handle_2: GroupPoint,
        t: ProofTranscript,
    ) -> bool {
        let c = self.spec_challenge_value(t);
        &&& point_sum(point_scaled(g_pt(), self.zx), point_scaled(h_pt(), self.zr)) == point_sum(
            point_scaled(commitment, c),
            self.y0,
        )
        &&& point_scaled(pubkey_1.0, self.zr) == point_sum(point_scaled(handle_1, c), self.y1)
        &&& point_scaled(pubkey_2.0, self.zr) == point_sum(point_scaled(handle_2, c), self.y2)
    }

    /// Proves well-formedness for a scalar value; the aggregated form needs
    /// the value as a scalar, so the integer entry point wraps this one.
    /// For some nonces `yx`, `yr`, the output is exactly the protocol's
    /// (commitments, responses) pair at the derived challenge.
    pub(crate) fn new_from_scalar(
        pubkey_1: &ElGamalPubkey,
        pubkey_2: &ElGamalPubkey,
        value: &GroupScalar,
        opening: &GroupScalar,
        t: &mut ProofTranscript,
    ) -> (r: Self)
        ensures
            *final(t) == r.spec_post_state(*old(t)),
            exists|yx: GroupScalar, yr: GroupScalar|
                {
                    let c = r.spec_challenge_value(*old(t));
                    &&& r.y0 == point_sum(
                        #[trigger] point_scaled(g_pt(), yx),
                        #[trigger] point_scaled(h_pt(), yr),
                    )
                    &&& r.y1 == point_scaled(pubkey_1.0, yr)
                    &&& r.y2 == point_scaled(pubkey_2.0, yr)
                    &&& r.zx == scalar_sum(scalar_prod(c, *value), yx)
                    &&& r.zr == scalar_sum(scalar_prod(c, *opening), yr)
                },
    {
        proof {
            lemma_protocol_labels_fit();
        }
        let g = g_base();
        let h = h_base();

        let yx = scalar_random();
        let yr = scalar_random();

        let y0 = point_add(&point_mul(&g, &yx), &point_mul(&h, &yr));
        let y1 = point_mul(&pubkey_1.0, &yr);
        let y2 = point_mul(&pubkey_2.0, &yr);

        append_labeled(t, "validity-y0", point_compress(&y0).as_slice());
        append_labeled(t, "validity-y1", point_compress(&y1).as_slice());
        append_labeled(t, "validity-y2", point_compress(&y2).as_slice());
        let c = challenge_scalar(t, "validity-challenge");

        let zx = scalar_add(&scalar_mul(&c, value), &yx);
        let zr = scalar_add(&scalar_mul(&c, opening), &yr);

        ValidityProof { y0, y1, y2, zx, zr }
    }

    /// Proves that `opening` encrypts `amount` to the two recipient keys.
    pub fn new(
        pubkey_1: &ElGamalPubkey,
        pubkey_2: &ElGamalPubkey,
        amount: u64,
        opening: &PedersenOpening,
        t: &mut ProofTranscript,
    ) -> (r: Self)
        ensures
            *final(t) == r.spec_post_state(*old(t)),
            exists|yx: GroupScalar, yr: GroupScalar|
                {
                    let c = r.spec_challenge_value(*old(t));
                    &&& r.y0 == point_sum(
                        #[trigger] point_scaled(g_pt(), yx),
                        #[trigger] point_scaled(h_pt(), yr),
                    )
                    &&& r.y1 == point_scaled(pubkey_1.0, yr)
                    &&& r.y2 == point_scaled(pubkey_2.0, yr)
                    &&& r.zx == scalar_sum(scalar_prod(c, u64_scalar(amount)), yx)
                    &&& r.zr == scalar_sum(scalar_prod(c, opening.0), yr)
                },
    {
        ValidityProof::new_from_scalar(pubkey_1, pubkey_2, &scalar_from_u64(amount), &opening.0, t)
    }

    /// The raw three-equation check: succeeds exactly when
    /// [`Self::spec_accepts_raw`] holds.
    pub(crate) fn verify_raw(
        &self,
        commitment: &GroupPoint,
        pubkey_1: &ElGamalPubkey,
        pubkey_2: &ElGamalPubkey,
        handle_1: &GroupPoint,
        handle_2: &GroupPoint,
        t: &mut ProofTranscript,
    ) -> (r: Result<(), ProofError>)
        ensures
            r is Ok <==> self.spec_accepts_raw(
                *commitment,
                *pubkey_1,
                *pubkey_2,
                *handle_1,
                *handle_2,
                *old(t),
            ),
            *final(t) == self.spec_post_state(*old(t)),
            r is Err ==> r->Err_0 == ProofError::Verification,
    {
        proof {
            lemma_protocol_labels_fit();
        }
        let g = g_base();
        let h = h_base();

        append_labeled(t, "validity-y0", point_compress(&self.y0).as_slice());
        append_labeled(t, "validity-y1", point_compress(&self.y1).as_slice());
        append_labeled(t, "validity-y2", point_compress(&self.y2).as_slice());
        let c = challenge_scalar(t, "validity-challenge");

        // zx * G + zr * H == c * commitment + y0
        let ok0 = point_eq(
            &point_add(&point_mul(&g, &self.zx), &point_mul(&h, &self.zr)),
            &point_add(&point_mul(commitment, &c), &self.y0),
        );
        // zr * pubkey1 == c * handle1 + y1
        let ok1 = point_eq(
            &point_mul(&pubkey_1.0, &self.zr),
            &point_add(&point_mul(handle_1, &c), &self.y1),
        );
        // zr * pubkey2 == c * handle2 + y2
        let ok2 = point_eq(
            &point_mul(&pubkey_2.0, &self.zr),
            &point_add(&point_mul(handle_2, &c), &self.y2),
        );

        if ok0 && ok1 && ok2 {
            Ok(())
        } else {
            Err(ProofError::Verification)
        }
    }

    /// Checks the proof against the fee commitment and the two fee handles;
    /// succeeds exactly when [`Self::spec_accepts_raw`] holds of them.
    pub fn verify(
        &self,
        commitment: &PedersenCommitment,
        pubkey_1: &ElGamalPubkey,
        pubkey_2: &ElGamalPubkey,
        handle_1: &DecryptHandle,
        handle_2: &DecryptHandle,
        t: &mut ProofTranscript,
    ) -> (r: Result<(), ProofError>)
        ensures
            r is Ok <==> self.spec_accepts_raw(
                commitment.0,
                *pubkey_1,
                *pubkey_2,
                handle_1.0,
                handle_2.0,
                *old(t),
            ),
            *final(t) == self.spec_post_state(*old(t)),
            r is Err ==> r->Err_0 == ProofError::Verification,
    {
        self.verify_raw(&commitment.0, pubkey_1, pubkey_2, &handle_1.0, &handle_2.0, t)
    }

    /// The fixed 160-byte layout: `y0 ‖ y1 ‖ y2 ‖ zx ‖ zr`.
    pub open spec fn spec_to_bytes(self) -> Seq<u8> {
        compressed(self.y0) + compressed(self.y1) + compressed(self.y2) + scalar_bytes(self.zx)
            + scalar_bytes(self.zr)
    }

    /// Whether a buffer decodes: 160 bytes whose chunks are all canonical.
    pub open spec fn spec_decodable(b: Seq<u8>) -> bool {
        &&& b.len() == VALIDITY_PROOF_LEN
        &&& point_decoded(b.subrange(0, 32)) is Some
        &&& point_decoded(b.subrange(32, 64)) is Some
        &&& point_decoded(b.subrange(64, 96)) is Some
        &&& scalar_decoded(b.subrange(96, 128)) is Some
        &&& scalar_decoded(b.subrange(128, 160)) is Some
    }

    /// What a decodable buffer decodes to.
    pub open spec fn spec_decoded(b: Seq<u8>) -> ValidityProof {
        ValidityProof {
            y0: point_decoded(b.subrange(0, 32))->0,
            y1: point_decoded(b.subrange(32, 64))->0,
            y2: point_decoded(b.subrange(64, 96))->0,
            zx: scalar_decoded(b.subrange(96, 128))->0,
            zr: scalar_decoded(b.subrange(128, 160))->0,
        }
    }

    pub fn to_bytes(&self) -> (r: Vec<u8>)
        ensures
            r@ == self.spec_to_bytes(),
            r@.len() == VALIDITY_PROOF_LEN,
            compressed(self.y0).len() == 32,
            compressed(self.y1).len() == 32,
            compressed(self.y2).len() == 32,
            scalar_bytes(self.zx).len() == 32,
            scalar_bytes(self.zr).len() == 32,
    {
        let mut out = point_compress(&self.y0);
        push_bytes(&mut out, point_compress(&self.y1).as_slice());
        push_bytes(&mut out, point_compress(&self.y2).as_slice());
        push_bytes(&mut out, scalar_to_bytes(&self.zx).as_slice());
        push_bytes(&mut out, scalar_to_bytes(&self.zr).as_slice());
        out
    }

    /// Decodes the layout of [`Self::spec_to_bytes`]: succeeds exactly when
    /// the buffer is decodable.
    pub fn from_bytes(bytes: &[u8]) -> (r: Result<Self, ProofError>)
        ensures
            r is Ok <==> Self::spec_decodable(bytes@),
            r is Ok ==> r->Ok_0 == Self::spec_decoded(bytes@),
            r is Err ==> r->Err_0 == ProofError::Verification,
    {
        if bytes.len() != VALIDITY_PROOF_LEN {
            return Err(ProofError::Verification);
        }
        let y0 = read_point(bytes, 0)?;
        let y1 = read_point(bytes, 32)?;
        let y2 = read_point(bytes, 64)?;
        let zx = read_scalar(bytes, 96)?;
        let zr = read_scalar(bytes, 128)?;
        Ok(ValidityProof { y0, y1, y2, zx, zr })
    }
}

/// A validity proof for both transfer-amount limbs at once, folded under a
/// transcript-drawn aggregation scalar.
#[derive(Clone, Copy)]
pub struct AggregatedValidityProof(pub ValidityProof);

/// The encoded size of an aggregated validity proof.
pub const AGGREGATED_VALIDITY_PROOF_LEN: usize = 160;

impl AggregatedValidityProof {
    /// The folded statement: the inner proof's equations against
    /// `C_lo + a * C_hi` and the equally-folded handles, where `a` is the
    /// aggregation challenge drawn first.
    pub open spec fn spec_accepts(
        self,
        pubkey_dest: ElGamalPubkey,
        pubkey_auditor: ElGamalPubkey,
        commitment_lo: PedersenCommitment,
        commitment_hi: PedersenCommitment,
        handle_dest_lo: DecryptHandle,
        handle_dest_hi: DecryptHandle,
        handle_auditor_lo: DecryptHandle,
        handle_auditor_hi: DecryptHandle,
        t: ProofTranscript,
    ) -> bool {
        let a = spec_challenge(t, "aggregation-scalar".spec_bytes());
        let t_inner = spec_challenged(t, "aggregation-scalar".spec_bytes());
        self.0.spec_accepts_raw(
            point_sum(commitment_lo.0, point_scaled(commitment_hi.0, a)),
            pubkey_dest,
            pubkey_auditor,
            point_sum(handle_dest_lo.0, point_scaled(handle_dest_hi.0, a)),
            point_sum(handle_auditor_lo.0, point_scaled(handle_auditor_hi.0, a)),
            t_inner,
        )
    }

    /// The transcript state this proof leaves behind.
    pub open spec fn spec_post_state(self, t: ProofTranscript) -> ProofTranscript {
        self.0.spec_post_state(spec_challenged(t, "aggregation-scalar".spec_bytes()))
    }

    /// Proves that both limb encryptions are well-formed for the destination
    /// and auditor keys relative to a single combined opening pair: the
    /// inner proof speaks of the folded value `lo + a * hi` and the folded
    /// opening, under the aggregation challenge `a` drawn first.
    pub fn new(
        pubkey_dest: &ElGamalPubkey,
        pubkey_auditor: &ElGamalPubkey,
        amount_lo: u32,
        amount_hi: u32,
        opening_lo: &PedersenOpening,
        opening_hi: &PedersenOpening,
        t: &mut ProofTranscript,
    ) -> (r: Self)
        ensures
            *final(t) == r.spec_post_state(*old(t)),
            exists|yx: GroupScalar, yr: GroupScalar|
                {
                    let a = spec_challenge(*old(t), "aggregation-scalar".spec_bytes());
                    let c = r.0.spec_challenge_value(
                        spec_challenged(*old(t), "aggregation-scalar".spec_bytes()),
                    );
                    &&& r.0.y0 == point_sum(
                        #[trigger] point_scaled(g_pt(), yx),
                        #[trigger] point_scaled(h_pt(), yr),
                    )
                    &&& r.0.y1 == point_scaled(pubkey_dest.0, yr)
                    &&& r.0.y2 == point_scaled(pubkey_auditor.0, yr)
                    &&& r.0.zx == scalar_sum(
                        scalar_prod(
                            c,
                            scalar_sum(
                                u64_scalar(amount_lo as u64),
                                scalar_prod(a, u64_scalar(amount_hi as u64)),
                            ),
                        ),
                        yx,
                    )
                    &&& r.0.zr == scalar_sum(
                        scalar_prod(c, scalar_sum(opening_lo.0, scalar_prod(a, opening_hi.0))),
                        yr,
                    )
                },
    {
        proof {
            lemma_protocol_labels_fit();
        }
        let a = challenge_scalar(t, "aggregation-scalar");
        let value = scalar_add(
            &scalar_from_u64(amount_lo as u64),
            &scalar_mul(&a, &scalar_from_u64(amount_hi as u64)),
        );
        let opening = scalar_add(&opening_lo.0, &scalar_mul(&a, &opening_hi.0));
        AggregatedValidityProof(
            ValidityProof::new_from_scalar(pubkey_dest, pubkey_auditor, &value, &opening, t),
        )
    }

    /// Checks the folded statement against both limb commitments and both
    /// limbs' destination and auditor handles; succeeds exactly when
    /// [`Self::spec_accepts`] holds.
    pub fn verify(
        &self,
        pubkey_dest: &ElGamalPubkey,
        pubkey_auditor: &ElGamalPubkey,
        commitment_lo: &PedersenCommitment,
        commitment_hi: &PedersenCommitment,
        handle_dest_lo: &DecryptHandle,
        handle_dest_hi: &DecryptHandle,
        handle_auditor_lo: &DecryptHandle,
        handle_auditor_hi: &DecryptHandle,
        t: &mut ProofTranscript,
    ) -> (r: Result<(), ProofError>)
        ensures
            r is Ok <==> self.spec_accepts(
                *pubkey_dest,
                *pubkey_auditor,
                *commitment_lo,
                *commitment_hi,
                *handle_dest_lo,
                *handle_dest_hi,
                *handle_auditor_lo,
                *handle_auditor_hi,
                *old(t),
            ),
            *final(t) == self.spec_post_state(*old(t)),
            r is Err ==> r->Err_0 == ProofError::Verification,
    {
        proof {
            lemma_protocol_labels_fit();
        }
        let a = challenge_scalar(t, "aggregation-scalar");
        let commitment = point_add(&commitment_lo.0, &point_mul(&commitment_hi.0, &a));
        let handle_dest = point_add(&handle_dest_lo.0, &point_mul(&handle_dest_hi.0, &a));
        let handle_auditor = point_add(&handle_auditor_lo.0, &point_mul(&handle_auditor_hi.0, &a));
        self.0.verify_raw(&commitment, pubkey_dest, pubkey_auditor, &handle_dest, &handle_auditor, t)
    }

    pub fn to_bytes(&self) -> (r: Vec<u8>)
        ensures
            r@ == self.0.spec_to_bytes(),
            r@.len() == AGGREGATED_VALIDITY_PROOF_LEN,
            compressed(self.0.y0).len() == 32,
            compressed(self.0.y1).len() == 32,
            compressed(self.0.y2).len() == 32,
            scalar_bytes(self.0.zx).len() == 32,
            scalar_bytes(self.0.zr).len() == 32,
    {
        self.0.to_bytes()
    }

    pub fn from_bytes(bytes: &[u8]) -> (r: Result<Self, ProofError>)
        ensures
            r is Ok <==> ValidityProof::spec_decodable(bytes@),
            r is Ok ==> r->Ok_0.0 == ValidityProof::spec_decoded(bytes@),
            r is Err ==> r->Err_0 == ProofError::Verification,
    {
        match ValidityProof::from_bytes(bytes) {
            Ok(inner) => Ok(AggregatedValidityProof(inner)),
            Err(e) => Err(e),
        }
    }
}

} // verus!

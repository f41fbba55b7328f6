//! The equality sigma proof: a ciphertext under the source key and a
//! standalone commitment hide the same value.
//!
//! The prover knows the source secret `s` (with `pubkey = inverse(s) * H`,
//! so `s * pubkey == H`), the value `x`, and the commitment opening `r`. The
//! three commitments `y0 = ys * pubkey`, `y1 = yx * G + ys * handle` and
//! `y2 = yx * G + yr * H` are absorbed into the transcript, the challenge `c`
//! is drawn, and the responses are `zs = c * s + ys`, `zx = c * x + yx`,
//! `zr = c * r + yr`. The verifier re-absorbs the commitments, re-draws `c`,
//! and accepts exactly when the three linear relations of
//! [`EqualityProof::spec_accepts`] hold.

use vstd::prelude::*;
use vstd::string::StringSliceAdditionalSpecFns;
use crate::bytes_util::push_bytes;
use crate::elgamal::ElGamalCiphertext;
use crate::elgamal::ElGamalKeypair;
use crate::elgamal::ElGamalPubkey;
use crate::errors::ProofError;
use crate::outside::GroupPoint;
use crate::outside::GroupScalar;
use crate::outside::ProofTranscript;
use crate::outside::compressed;
use crate::outside::g_base;
use crate::outside::g_pt;
use crate::outside::h_base;
use crate::outside::h_pt;
use crate::outside::point_add;
use crate::outside::point_compress;
use crate::outside::point_decoded;
use crate::outside::point_eq;
use crate::outside::point_mul;
use crate::outside::point_scaled;
use crate::outside::point_sum;
use crate::outside::scalar_add;
use crate::outside::scalar_bytes;
use crate::outside::scalar_decoded;
use crate::outside::scalar_from_u64;
use crate::outside::scalar_mul;
use crate::outside::scalar_prod;
use crate::outside::scalar_random;
use crate::outside::scalar_sum;
use crate::outside::u64_scalar;
use crate::outside::scalar_to_bytes;
use crate::pedersen::PedersenCommitment;
use crate::pedersen::PedersenOpening;
use crate::point_codec::read_point;
use crate::point_codec::read_scalar;
use crate::transcript_util::append_labeled;
use crate::transcript_util::lemma_protocol_labels_fit;
use crate::transcript_util::challenge_scalar;
use crate::transcript_util::spec_appended;
use crate::transcript_util::spec_challenge;
use crate::transcript_util::spec_challenged;

verus! {

/// The 192-byte equality proof: three commitments and three responses.
#[derive(Clone, Copy)]
pub struct EqualityProof {
    pub y0: GroupPoint,
    pub y1: GroupPoint,
    pub y2: GroupPoint,
    pub zs: GroupScalar,
    pub zx: GroupScalar,
    pub zr: GroupScalar,
}

/// The encoded size of an equality proof.
pub const EQUALITY_PROOF_LEN: usize = 192;

impl EqualityProof {
    /// The transcript state after the proof's three commitments are
    /// absorbed.
    pub open spec fn spec_commitments_state(self, t: ProofTranscript) -> ProofTranscript {
        spec_appended(
            spec_appended(
                spec_appended(t, "equality-y0".spec_bytes(), compressed(self.y0)),
                "equality-y1".spec_bytes(),
                compressed(self.y1),
            ),
            "equality-y2".spec_bytes(),
            compressed(self.y2),
        )
    }

    /// The challenge both sides derive after the commitments.
    pub open spec fn spec_challenge_value(self, t: ProofTranscript) -> GroupScalar {
        spec_challenge(self.spec_commitments_state(t), "equality-challenge".spec_bytes())
    }

    /// The transcript state this proof leaves behind, accepted or not.
    pub open spec fn spec_post_state(self, t: ProofTranscript) -> ProofTranscript {
        spec_challenged(self.spec_commitments_state(t), "equality-challenge".spec_bytes())
    }

    /// The three verification equations at the derived challenge:
    /// `zs * pubkey == c * H + y0`, `zx * G + zs * handle == c * C_ct + y1`,
    /// `zx * G + zr * H == c * C + y2`.
    pub open spec fn spec_accepts(
        self,
        pubkey: ElGamalPubkey,
        ciphertext: ElGamalCiphertext,
        commitment: PedersenCommitment,
        t: ProofTranscript,
    ) -> bool {
        let c = self.spec_challenge_value(t);
        &&& point_scaled(pubkey.0, self.zs) == point_sum(point_scaled(h_pt(), c), self.y0)
        &&& point_sum(point_scaled(g_pt(), self.zx), point_scaled(ciphertext.handle.0, self.zs))
            == point_sum(point_scaled(ciphertext.commitment.0, c), self.y1)
        &&& point_sum(point_scaled(g_pt(), self.zx), point_scaled(h_pt(), self.zr)) == point_sum(
            point_scaled(commitment.0, c),
            self.y2,
        )
    }

    /// Proves that `ciphertext` (under the keypair) and the commitment opened
    /// by `opening` both hide `amount`. The responses are the challenge-blinded
    /// secrets over the nonces behind the three commitments: for some nonces
    /// `ys`, `yx`, `yr`, the output is exactly the protocol's
    /// (commitments, responses) pair at the derived challenge.
    pub fn new(
        keypair: &ElGamalKeypair,
        ciphertext: &ElGamalCiphertext,
        amount: u64,
        opening: &PedersenOpening,
        t: &mut ProofTranscript,
    ) -> (r: Self)
        ensures
            *final(t) == r.spec_post_state(*old(t)),
            exists|ys: GroupScalar, yx: GroupScalar, yr: GroupScalar|
                {
                    let c = r.spec_challenge_value(*old(t));
                    &&& r.y0 == #[trigger] point_scaled(keypair.public.0, ys)
                    &&& r.y1 == point_sum(
                        #[trigger] point_scaled(g_pt(), yx),
                        point_scaled(ciphertext.handle.0, ys),
                    )
                    &&& r.y2 == point_sum(point_scaled(g_pt(), yx), #[trigger] point_scaled(
                        h_pt(),
                        yr,
                    ))
                    &&& r.zs == scalar_sum(scalar_prod(c, keypair.secret.0), ys)
                    &&& r.zx == scalar_sum(scalar_prod(c, u64_scalar(amount)), yx)
                    &&& r.zr == scalar_sum(scalar_prod(c, opening.0), yr)
                },
    {
        proof {
            lemma_protocol_labels_fit();
        }
        let g = g_base();
        let h = h_base();
        let handle = &ciphertext.handle.0;

        let ys = scalar_random();
        let yx = scalar_random();
        let yr = scalar_random();

        let y0 = point_mul(&keypair.public.0, &ys);
        let y1 = point_add(&point_mul(&g, &yx), &point_mul(handle, &ys));
        let y2 = point_add(&point_mul(&g, &yx), &point_mul(&h, &yr));

        append_labeled(t, "equality-y0", point_compress(&y0).as_slice());
        append_labeled(t, "equality-y1", point_compress(&y1).as_slice());
        append_labeled(t, "equality-y2", point_compress(&y2).as_slice());
        let c = challenge_scalar(t, "equality-challenge");

        let x = scalar_from_u64(amount);
        let zs = scalar_add(&scalar_mul(&c, &keypair.secret.0), &ys);
        let zx = scalar_add(&scalar_mul(&c, &x), &yx);
        let zr = scalar_add(&scalar_mul(&c, &opening.0), &yr);

        EqualityProof { y0, y1, y2, zs, zx, zr }
    }

    /// Checks the proof against the public key, the ciphertext and the
    /// commitment, extending the transcript exactly as generation did;
    /// succeeds exactly when [`Self::spec_accepts`] holds.
    pub fn verify(
        &self,
        pubkey: &ElGamalPubkey,
        ciphertext: &ElGamalCiphertext,
        commitment: &PedersenCommitment,
        t: &mut ProofTranscript,
    ) -> (r: Result<(), ProofError>)
        ensures
            r is Ok <==> self.spec_accepts(*pubkey, *ciphertext, *commitment, *old(t)),
            *final(t) == self.spec_post_state(*old(t)),
            r is Err ==> r->Err_0 == ProofError::Verification,
    {
        proof {
            lemma_protocol_labels_fit();
        }
        let g = g_base();
        let h = h_base();

        append_labeled(t, "equality-y0", point_compress(&self.y0).as_slice());
        append_labeled(t, "equality-y1", point_compress(&self.y1).as_slice());
        append_labeled(t, "equality-y2", point_compress(&self.y2).as_slice());
        let c = challenge_scalar(t, "equality-challenge");

        // zs * pubkey == c * H + y0
        let ok0 = point_eq(
            &point_mul(&pubkey.0, &self.zs),
            &point_add(&point_mul(&h, &c), &self.y0),
        );
        // zx * G + zs * handle == c * C + y1
        let ok1 = point_eq(
            &point_add(&point_mul(&g, &self.zx), &point_mul(&ciphertext.handle.0, &self.zs)),
            &point_add(&point_mul(&ciphertext.commitment.0, &c), &self.y1),
        );
        // zx * G + zr * H == c * commitment + y2
        let ok2 = point_eq(
            &point_add(&point_mul(&g, &self.zx), &point_mul(&h, &self.zr)),
            &point_add(&point_mul(&commitment.0, &c), &self.y2),
        );

        if ok0 && ok1 && ok2 {
            Ok(())
        } else {
            Err(ProofError::Verification)
        }
    }

    /// The fixed 192-byte layout: `y0 ‖ y1 ‖ y2 ‖ zs ‖ zx ‖ zr`.
    pub open spec fn spec_to_bytes(self) -> Seq<u8> {
        compressed(self.y0) + compressed(self.y1) + compressed(self.y2) + scalar_bytes(self.zs)
            + scalar_bytes(self.zx) + scalar_bytes(self.zr)
    }

    /// Whether a buffer decodes: 192 bytes whose three point chunks and
    /// three scalar chunks are all canonical.
    pub open spec fn spec_decodable(b: Seq<u8>) -> bool {
        &&& b.len() == EQUALITY_PROOF_LEN
        &&& point_decoded(b.subrange(0, 32)) is Some
        &&& point_decoded(b.subrange(32, 64)) is Some
        &&& point_decoded(b.subrange(64, 96)) is Some
        &&& scalar_decoded(b.subrange(96, 128)) is Some
        &&& scalar_decoded(b.subrange(128, 160)) is Some
        &&& scalar_decoded(b.subrange(160, 192)) is Some
    }

    /// What a decodable buffer decodes to.
    pub open spec fn spec_decoded(b: Seq<u8>) -> EqualityProof {
        EqualityProof {
            y0: point_decoded(b.subrange(0, 32))->0,
            y1: point_decoded(b.subrange(32, 64))->0,
            y2: point_decoded(b.subrange(64, 96))->0,
            zs: scalar_decoded(b.subrange(96, 128))->0,
            zx: scalar_decoded(b.subrange(128, 160))->0,
            zr: scalar_decoded(b.subrange(160, 192))->0,
        }
    }

    pub fn to_bytes(&self) -> (r: Vec<u8>)
        ensures
            r@ == self.spec_to_bytes(),
            r@.len() == EQUALITY_PROOF_LEN,
            compressed(self.y0).len() == 32,
            compressed(self.y1).len() == 32,
            compressed(self.y2).len() == 32,
            scalar_bytes(self.zs).len() == 32,
            scalar_bytes(self.zx).len() == 32,
            scalar_bytes(self.zr).len() == 32,
    {
        let mut out = point_compress(&self.y0);
        push_bytes(&mut out, point_compress(&self.y1).as_slice());
        push_bytes(&mut out, point_compress(&self.y2).as_slice());
        push_bytes(&mut out, scalar_to_bytes(&self.zs).as_slice());
        push_bytes(&mut out, scalar_to_bytes(&self.zx).as_slice());
        push_bytes(&mut out, scalar_to_bytes(&self.zr).as_slice());
        out
    }

    /// Decodes the layout of [`Self::spec_to_bytes`]: succeeds exactly when
    /// the buffer is decodable; a wrong length, a non-canonical group
    /// element or a non-canonical scalar is a `Verification` error.
    pub fn from_bytes(bytes: &[u8]) -> (r: Result<Self, ProofError>)
        ensures
            r is Ok <==> Self::spec_decodable(bytes@),
            r is Ok ==> r->Ok_0 == Self::spec_decoded(bytes@),
            r is Err ==> r->Err_0 == ProofError::Verification,
    {
        if bytes.len() != EQUALITY_PROOF_LEN {
            return Err(ProofError::Verification);
        }
        let y0 = read_point(bytes, 0)?;
        let y1 = read_point(bytes, 32)?;
        let y2 = read_point(bytes, 64)?;
        let zs = read_scalar(bytes, 96)?;
        let zx = read_scalar(bytes, 128)?;
        let zr = read_scalar(bytes, 160)?;
        Ok(EqualityProof { y0, y1, y2, zs, zx, zr })
    }
}

} // verus!

//! The transfer-with-fee envelope: the instruction payload combining the
//! limb ciphertexts, the public keys, the fee ciphertext and parameters, and
//! the six-part proof bundle; generation from plaintext inputs, stateless
//! verification from public data, and selective decryption per role.

use vstd::prelude::*;
use vstd::string::StringSliceAdditionalSpecFns;
use crate::amount::TWO_32;
use crate::amount::combine_u32_ciphertexts;
use crate::amount::spec_combine_ciphertexts;
use crate::amount::split_u64_into_u32;
use crate::bytes_util::bytes_chunk;
use crate::bytes_util::push_bytes;
use crate::delta::compute_delta_commitment;
use crate::delta::compute_delta_commitment_and_opening;
use crate::delta::spec_delta_commitment;
use crate::elgamal::DecryptHandle;
use crate::elgamal::ElGamalCiphertext;
use crate::elgamal::ElGamalKeypair;
use crate::elgamal::ElGamalPubkey;
use crate::elgamal::ElGamalSecretKey;
use crate::elgamal::Role;
use crate::equality::EqualityProof;
use crate::errors::ProofError;
use crate::fee::FEE_DENOMINATOR;
use crate::fee::FeeParameters;
use crate::fee::calculate_fee;
use crate::fee::cap_fee;
use crate::fee::spec_capped_fee;
use crate::fee_sigma::FeeSigmaProof;
use crate::outside::GroupScalar;
use crate::outside::ProofTranscript;
use crate::outside::commit_of;
use crate::outside::compressed;
use crate::outside::g_pt;
use crate::outside::new_transcript;
use crate::outside::point_decoded;
use crate::outside::point_diff;
use crate::outside::point_scaled;
use crate::outside::spec_domain;
use crate::outside::u64_scalar;
use crate::pedersen::PedersenCommitment;
use crate::pedersen::PedersenOpening;
use crate::pedersen::pedersen_encode;
use crate::pedersen::pedersen_new;
use crate::pedersen::pedersen_with;
use crate::range::RangeProofBundle;
use crate::transcript_util::append_labeled;
use crate::transcript_util::lemma_protocol_labels_fit;
use crate::transcript_util::spec_appended;
use crate::validity::AggregatedValidityProof;
use crate::validity::ValidityProof;

verus! {

/// One limb's encryption: a commitment viewable by source, destination and
/// auditor through their respective handles.
#[derive(Clone, Copy)]
pub struct TransferAmountEncryption {
    pub commitment: PedersenCommitment,
    pub source: DecryptHandle,
    pub dest: DecryptHandle,
    pub auditor: DecryptHandle,
}

/// The encoded size of a limb encryption.
pub const TRANSFER_AMOUNT_ENCRYPTION_LEN: usize = 128;

impl TransferAmountEncryption {
    /// Encrypts one limb under a fresh opening, with a handle for each of
    /// the three viewers; the commitment and all three handles share the
    /// returned opening.
    pub fn new(
        amount: u32,
        pubkey_source: &ElGamalPubkey,
        pubkey_dest: &ElGamalPubkey,
        pubkey_auditor: &ElGamalPubkey,
    ) -> (r: (Self, PedersenOpening))
        ensures
            r.0.commitment.0 == commit_of(u64_scalar(amount as u64), r.1.0),
            r.0.source.0 == point_scaled(pubkey_source.0, r.1.0),
            r.0.dest.0 == point_scaled(pubkey_dest.0, r.1.0),
            r.0.auditor.0 == point_scaled(pubkey_auditor.0, r.1.0),
    {
        let opening = PedersenOpening::random();
        let encryption = TransferAmountEncryption {
            commitment: pedersen_with(amount as u64, &opening),
            source: pubkey_source.decrypt_handle(&opening),
            dest: pubkey_dest.decrypt_handle(&opening),
            auditor: pubkey_auditor.decrypt_handle(&opening),
        };
        (encryption, opening)
    }

    /// The 128-byte layout: `commitment ‖ source ‖ dest ‖ auditor`.
    pub open spec fn spec_to_bytes(self) -> Seq<u8> {
        compressed(self.commitment.0) + compressed(self.source.0) + compressed(self.dest.0)
            + compressed(self.auditor.0)
    }

    /// Whether a buffer decodes: 128 bytes of four canonical group-element
    /// encodings.
    pub open spec fn spec_decodable(b: Seq<u8>) -> bool {
        &&& b.len() == TRANSFER_AMOUNT_ENCRYPTION_LEN
        &&& point_decoded(b.subrange(0, 32)) is Some
        &&& point_decoded(b.subrange(32, 64)) is Some
        &&& point_decoded(b.subrange(64, 96)) is Some
        &&& point_decoded(b.subrange(96, 128)) is Some
    }

    /// What a decodable buffer decodes to.
    pub open spec fn spec_decoded(b: Seq<u8>) -> TransferAmountEncryption {
        TransferAmountEncryption {
            commitment: PedersenCommitment(point_decoded(b.subrange(0, 32))->0),
            source: DecryptHandle(point_decoded(b.subrange(32, 64))->0),
            dest: DecryptHandle(point_decoded(b.subrange(64, 96))->0),
            auditor: DecryptHandle(point_decoded(b.subrange(96, 128))->0),
        }
    }

    pub fn to_bytes(&self) -> (r: Vec<u8>)
        ensures
            r@ == self.spec_to_bytes(),
            r@.len() == TRANSFER_AMOUNT_ENCRYPTION_LEN,
            compressed(self.commitment.0).len() == 32,
            compressed(self.source.0).len() == 32,
            compressed(self.dest.0).len() == 32,
            compressed(self.auditor.0).len() == 32,
            point_decoded(compressed(self.commitment.0)) == Some(self.commitment.0),
            point_decoded(compressed(self.source.0)) == Some(self.source.0),
            point_decoded(compressed(self.dest.0)) == Some(self.dest.0),
            point_decoded(compressed(self.auditor.0)) == Some(self.auditor.0),
    {
        let mut out = self.commitment.to_bytes();
        push_bytes(&mut out, self.source.to_bytes().as_slice());
        push_bytes(&mut out, self.dest.to_bytes().as_slice());
        push_bytes(&mut out, self.auditor.to_bytes().as_slice());
        out
    }

    /// Decodes the layout of [`Self::spec_to_bytes`]: succeeds exactly when
    /// the buffer is decodable.
    pub fn from_bytes(bytes: &[u8]) -> (r: Result<Self, ProofError>)
        ensures
            r is Ok <==> Self::spec_decodable(bytes@),
            r is Ok ==> r->Ok_0 == Self::spec_decoded(bytes@),
            r is Err ==> r->Err_0 == ProofError::Verification,
    {
        if bytes.len() != TRANSFER_AMOUNT_ENCRYPTION_LEN {
            return Err(ProofError::Verification);
        }
        let commitment = PedersenCommitment::from_bytes(bytes_chunk(bytes, 0, 32).as_slice())?;
        let source = DecryptHandle::from_bytes(bytes_chunk(bytes, 32, 32).as_slice())?;
        let dest = DecryptHandle::from_bytes(bytes_chunk(bytes, 64, 32).as_slice())?;
        let auditor = DecryptHandle::from_bytes(bytes_chunk(bytes, 96, 32).as_slice())?;
        Ok(TransferAmountEncryption { commitment, source, dest, auditor })
    }
}

/// The fee's encryption: a commitment viewable by destination and fee
/// collector.
#[derive(Clone, Copy)]
pub struct FeeEncryption {
    pub commitment: PedersenCommitment,
    pub dest: DecryptHandle,
    pub fee_collector: DecryptHandle,
}

/// The encoded size of a fee encryption.
pub const FEE_ENCRYPTION_LEN: usize = 96;

impl FeeEncryption {
    /// Encrypts the (already capped) fee under a fresh opening: one
    /// commitment, two authorized viewers sharing the returned opening.
    pub fn new(
        amount: u64,
        pubkey_dest: &ElGamalPubkey,
        pubkey_fee_collector: &ElGamalPubkey,
    ) -> (r: (Self, PedersenOpening))
        ensures
            r.0.commitment.0 == commit_of(u64_scalar(amount), r.1.0),
            r.0.dest.0 == point_scaled(pubkey_dest.0, r.1.0),
            r.0.fee_collector.0 == point_scaled(pubkey_fee_collector.0, r.1.0),
    {
        let opening = PedersenOpening::random();
        let encryption = FeeEncryption {
            commitment: pedersen_with(amount, &opening),
            dest: pubkey_dest.decrypt_handle(&opening),
            fee_collector: pubkey_fee_collector.decrypt_handle(&opening),
        };
        (encryption, opening)
    }

    /// The 96-byte layout: `commitment ‖ dest ‖ fee_collector`.
    pub open spec fn spec_to_bytes(self) -> Seq<u8> {
        compressed(self.commitment.0) + compressed(self.dest.0) + compressed(self.fee_collector.0)
    }

    /// Whether a buffer decodes: 96 bytes of three canonical group-element
    /// encodings.
    pub open spec fn spec_decodable(b: Seq<u8>) -> bool {
        &&& b.len() == FEE_ENCRYPTION_LEN
        &&& point_decoded(b.subrange(0, 32)) is Some
        &&& point_decoded(b.subrange(32, 64)) is Some
        &&& point_decoded(b.subrange(64, 96)) is Some
    }

    /// What a decodable buffer decodes to.
    pub open spec fn spec_decoded(b: Seq<u8>) -> FeeEncryption {
        FeeEncryption {
            commitment: PedersenCommitment(point_decoded(b.subrange(0, 32))->0),
            dest: DecryptHandle(point_decoded(b.subrange(32, 64))->0),
            fee_collector: DecryptHandle(point_decoded(b.subrange(64, 96))->0),
        }
    }

    pub fn to_bytes(&self) -> (r: Vec<u8>)
        ensures
            r@ == self.spec_to_bytes(),
            r@.len() == FEE_ENCRYPTION_LEN,
            compressed(self.commitment.0).len() == 32,
            compressed(self.dest.0).len() == 32,
            compressed(self.fee_collector.0).len() == 32,
            point_decoded(compressed(self.commitment.0)) == Some(self.commitment.0),
            point_decoded(compressed(self.dest.0)) == Some(self.dest.0),
            point_decoded(compressed(self.fee_collector.0)) == Some(self.fee_collector.0),
    {
        let mut out = self.commitment.to_bytes();
        push_bytes(&mut out, self.dest.to_bytes().as_slice());
        push_bytes(&mut out, self.fee_collector.to_bytes().as_slice());
        out
    }

    /// Decodes the layout of [`Self::spec_to_bytes`]: succeeds exactly when
    /// the buffer is decodable.
    pub fn from_bytes(bytes: &[u8]) -> (r: Result<Self, ProofError>)
        ensures
            r is Ok <==> Self::spec_decodable(bytes@),
            r is Ok ==> r->Ok_0 == Self::spec_decoded(bytes@),
            r is Err ==> r->Err_0 == ProofError::Verification,
    {
        if bytes.len() != FEE_ENCRYPTION_LEN {
            return Err(ProofError::Verification);
        }
        let commitment = PedersenCommitment::from_bytes(bytes_chunk(bytes, 0, 32).as_slice())?;
        let dest = DecryptHandle::from_bytes(bytes_chunk(bytes, 32, 32).as_slice())?;
        let fee_collector = DecryptHandle::from_bytes(bytes_chunk(bytes, 64, 32).as_slice())?;
        Ok(FeeEncryption { commitment, dest, fee_collector })
    }
}

/// The four public keys participating in the transfer.
#[derive(Clone, Copy)]
pub struct TransferWithFeePubkeys {
    pub source: ElGamalPubkey,
    pub dest: ElGamalPubkey,
    pub auditor: ElGamalPubkey,
    pub fee_collector: ElGamalPubkey,
}

/// The encoded size of the pubkey set.
pub const TRANSFER_WITH_FEE_PUBKEYS_LEN: usize = 128;

impl TransferWithFeePubkeys {
    pub fn new(
        source: &ElGamalPubkey,
        dest: &ElGamalPubkey,
        auditor: &ElGamalPubkey,
        fee_collector: &ElGamalPubkey,
    ) -> (r: Self)
        ensures
            r.source == *source,
            r.dest == *dest,
            r.auditor == *auditor,
            r.fee_collector == *fee_collector,
    {
        TransferWithFeePubkeys {
            source: *source,
            dest: *dest,
            auditor: *auditor,
            fee_collector: *fee_collector,
        }
    }

    /// The 128-byte layout: `source ‖ dest ‖ auditor ‖ fee_collector`.
    pub open spec fn spec_to_bytes(self) -> Seq<u8> {
        compressed(self.source.0) + compressed(self.dest.0) + compressed(self.auditor.0)
            + compressed(self.fee_collector.0)
    }

    /// Whether a buffer decodes: 128 bytes of four canonical group-element
    /// encodings.
    pub open spec fn spec_decodable(b: Seq<u8>) -> bool {
        &&& b.len() == TRANSFER_WITH_FEE_PUBKEYS_LEN
        &&& point_decoded(b.subrange(0, 32)) is Some
        &&& point_decoded(b.subrange(32, 64)) is Some
        &&& point_decoded(b.subrange(64, 96)) is Some
        &&& point_decoded(b.subrange(96, 128)) is Some
    }

    /// What a decodable buffer decodes to.
    pub open spec fn spec_decoded(b: Seq<u8>) -> TransferWithFeePubkeys {
        TransferWithFeePubkeys {
            source: ElGamalPubkey(point_decoded(b.subrange(0, 32))->0),
            dest: ElGamalPubkey(point_decoded(b.subrange(32, 64))->0),
            auditor: ElGamalPubkey(point_decoded(b.subrange(64, 96))->0),
            fee_collector: ElGamalPubkey(point_decoded(b.subrange(96, 128))->0),
        }
    }

    pub fn to_bytes(&self) -> (r: Vec<u8>)
        ensures
            r@ == self.spec_to_bytes(),
            r@.len() == TRANSFER_WITH_FEE_PUBKEYS_LEN,
            compressed(self.source.0).len() == 32,
            compressed(self.dest.0).len() == 32,
            compressed(self.auditor.0).len() == 32,
            compressed(self.fee_collector.0).len() == 32,
            point_decoded(compressed(self.source.0)) == Some(self.source.0),
            point_decoded(compressed(self.dest.0)) == Some(self.dest.0),
            point_decoded(compressed(self.auditor.0)) == Some(self.auditor.0),
            point_decoded(compressed(self.fee_collector.0)) == Some(self.fee_collector.0),
    {
        let mut out = self.source.to_bytes();
        push_bytes(&mut out, self.dest.to_bytes().as_slice());
        push_bytes(&mut out, self.auditor.to_bytes().as_slice());
        push_bytes(&mut out, self.fee_collector.to_bytes().as_slice());
        out
    }

    /// Decodes the layout of [`Self::spec_to_bytes`]: succeeds exactly when
    /// each consecutive 32-byte segment decodes as a public key.
    pub fn from_bytes(bytes: &[u8]) -> (r: Result<Self, ProofError>)
        ensures
            r is Ok <==> Self::spec_decodable(bytes@),
            r is Ok ==> r->Ok_0 == Self::spec_decoded(bytes@),
            r is Err ==> r->Err_0 == ProofError::Verification,
    {
        if bytes.len() != TRANSFER_WITH_FEE_PUBKEYS_LEN {
            return Err(ProofError::Verification);
        }
        let source = ElGamalPubkey::from_bytes(bytes_chunk(bytes, 0, 32).as_slice())?;
        let dest = ElGamalPubkey::from_bytes(bytes_chunk(bytes, 32, 32).as_slice())?;
        let auditor = ElGamalPubkey::from_bytes(bytes_chunk(bytes, 64, 32).as_slice())?;
        let fee_collector = ElGamalPubkey::from_bytes(bytes_chunk(bytes, 96, 32).as_slice())?;
        Ok(TransferWithFeePubkeys { source, dest, auditor, fee_collector })
    }
}

/// The six-part proof bundle: two standalone commitments and five sub-proofs,
/// immutable once constructed, verified statelessly against the ciphertexts
/// and parameters it accompanies.
#[derive(Clone)]
pub struct TransferWithFeeProof {
    pub commitment_new_source: PedersenCommitment,
    pub commitment_claimed: PedersenCommitment,
    pub equality_proof: EqualityProof,
    pub ciphertext_amount_validity_proof: AggregatedValidityProof,
    pub fee_sigma_proof: FeeSigmaProof,
    pub ciphertext_fee_validity_proof: ValidityProof,
    pub range_proof: RangeProofBundle,
}

/// The encoded size of the proof bundle.
pub const TRANSFER_WITH_FEE_PROOF_LEN: usize = 4064;

impl TransferWithFeeProof {
    /// The shared transcript start: the protocol domain separator, then the
    /// pubkeys and the three ciphertexts in the fixed order, each as its
    /// canonical byte encoding.
    pub open spec fn spec_transcript_new(
        pubkeys: TransferWithFeePubkeys,
        ciphertext_lo: TransferAmountEncryption,
        ciphertext_hi: TransferAmountEncryption,
        ciphertext_fee: FeeEncryption,
    ) -> ProofTranscript {
        spec_appended(
            spec_appended(
                spec_appended(
                    spec_appended(
                        new_transcript(spec_domain()),
                        "transfer-with-fee-pubkeys".spec_bytes(),
                        pubkeys.spec_to_bytes(),
                    ),
                    "ciphertext-lo".spec_bytes(),
                    ciphertext_lo.spec_to_bytes(),
                ),
                "ciphertext-hi".spec_bytes(),
                ciphertext_hi.spec_to_bytes(),
            ),
            "ciphertext-fee".spec_bytes(),
            ciphertext_fee.spec_to_bytes(),
        )
    }

    /// Builds the transcript of [`Self::spec_transcript_new`], bit-identical
    /// between generation and verification.
    pub fn transcript_new(
        pubkeys: &TransferWithFeePubkeys,
        ciphertext_lo: &TransferAmountEncryption,
        ciphertext_hi: &TransferAmountEncryption,
        ciphertext_fee: &FeeEncryption,
    ) -> (r: ProofTranscript)
        ensures
            r == Self::spec_transcript_new(
                *pubkeys,
                *ciphertext_lo,
                *ciphertext_hi,
                *ciphertext_fee,
            ),
    {
        proof {
            lemma_protocol_labels_fit();
        }
        let mut t = crate::outside::transcript_new();
        append_labeled(&mut t, "transfer-with-fee-pubkeys", pubkeys.to_bytes().as_slice());
        append_labeled(&mut t, "ciphertext-lo", ciphertext_lo.to_bytes().as_slice());
        append_labeled(&mut t, "ciphertext-hi", ciphertext_hi.to_bytes().as_slice());
        append_labeled(&mut t, "ciphertext-fee", ciphertext_fee.to_bytes().as_slice());
        t
    }

    /// The transcript state after the two standalone commitments are
    /// absorbed, before any sub-proof.
    pub open spec fn spec_commitments_state(self, t: ProofTranscript) -> ProofTranscript {
        spec_appended(
            spec_appended(
                t,
                "commitment-new-source".spec_bytes(),
                compressed(self.commitment_new_source.0),
            ),
            "commitment-claimed".spec_bytes(),
            compressed(self.commitment_claimed.0),
        )
    }

    /// Whether the four deterministic sub-verifiers all accept, each at its
    /// exact chained transcript state, in the fixed order: equality,
    /// aggregated validity, fee sigma (against the delta commitment
    /// recomputed from the public commitments), fee validity. The range step
    /// has its own predicate, [`Self::spec_range_valid`].
    pub open spec fn spec_sigma_accepts(
        self,
        ciphertext_lo: TransferAmountEncryption,
        ciphertext_hi: TransferAmountEncryption,
        pubkeys: TransferWithFeePubkeys,
        new_spendable_ciphertext: ElGamalCiphertext,
        ciphertext_fee: FeeEncryption,
        fee_parameters: FeeParameters,
        t: ProofTranscript,
    ) -> bool {
        let t1 = self.spec_commitments_state(t);
        let t2 = self.equality_proof.spec_post_state(t1);
        let t3 = self.ciphertext_amount_validity_proof.spec_post_state(t2);
        let t4 = self.fee_sigma_proof.spec_post_state(t3);
        &&& self.equality_proof.spec_accepts(
            pubkeys.source,
            new_spendable_ciphertext,
            self.commitment_new_source,
            t1,
        )
        &&& self.ciphertext_amount_validity_proof.spec_accepts(
            pubkeys.dest,
            pubkeys.auditor,
            ciphertext_lo.commitment,
            ciphertext_hi.commitment,
            ciphertext_lo.dest,
            ciphertext_hi.dest,
            ciphertext_lo.auditor,
            ciphertext_hi.auditor,
            t2,
        )
        &&& self.fee_sigma_proof.spec_accepts(
            ciphertext_fee.commitment,
            spec_delta_commitment(
                ciphertext_lo.commitment,
                ciphertext_hi.commitment,
                ciphertext_fee.commitment,
                fee_parameters.fee_rate_basis_points,
            ),
            self.commitment_claimed,
            fee_parameters.maximum_fee,
            t3,
        )
        &&& self.ciphertext_fee_validity_proof.spec_accepts_raw(
            ciphertext_fee.commitment.0,
            pubkeys.dest,
            pubkeys.fee_collector,
            ciphertext_fee.dest.0,
            ciphertext_fee.fee_collector.0,
            t4,
        )
    }

    /// The complement commitment the verifier recomputes, never transmitted:
    /// `encode(FEE_DENOMINATOR) - commitment_claimed`.
    pub open spec fn spec_claimed_complement(self) -> PedersenCommitment {
        PedersenCommitment(
            point_diff(
                commit_of(u64_scalar(FEE_DENOMINATOR), u64_scalar(0)),
                self.commitment_claimed.0,
            ),
        )
    }

    /// Whether the five range checks hold, at the transcript state the four
    /// sigma verifiers leave behind, against the bundle's own commitments,
    /// the limb commitments, and the recomputed complement, with bit widths
    /// 64, 32, 32, 64, 64.
    pub open spec fn spec_range_valid(
        self,
        ciphertext_lo: TransferAmountEncryption,
        ciphertext_hi: TransferAmountEncryption,
        t: ProofTranscript,
    ) -> bool {
        let t5 = self.ciphertext_fee_validity_proof.spec_post_state(
            self.fee_sigma_proof.spec_post_state(
                self.ciphertext_amount_validity_proof.spec_post_state(
                    self.equality_proof.spec_post_state(self.spec_commitments_state(t)),
                ),
            ),
        );
        self.range_proof.spec_all_valid(
            self.commitment_new_source,
            ciphertext_lo.commitment,
            ciphertext_hi.commitment,
            self.commitment_claimed,
            self.spec_claimed_complement(),
            t5,
        )
    }

    /// Drives the transcript and the five sub-proof generators in the fixed
    /// protocol order. `fee_amount` is the uncapped fee from
    /// [`calculate_fee`]; the encrypted fee is its capped value. The two
    /// standalone commitments of the result commit to the new balance and
    /// the delta under some fresh openings. Fails (with a `Generation`
    /// error) only if the range-proof engine refuses a proof.
    pub fn new(
        amount_lo: u32,
        ciphertext_lo: &TransferAmountEncryption,
        opening_lo: &PedersenOpening,
        amount_hi: u32,
        ciphertext_hi: &TransferAmountEncryption,
        opening_hi: &PedersenOpening,
        keypair_source: &ElGamalKeypair,
        pubkey_dest: &ElGamalPubkey,
        pubkey_auditor: &ElGamalPubkey,
        source_new_balance: u64,
        ciphertext_new_source: &ElGamalCiphertext,
        fee_amount: u64,
        ciphertext_fee: &FeeEncryption,
        opening_fee: &PedersenOpening,
        delta_fee: u64,
        pubkey_fee_collector: &ElGamalPubkey,
        fee_parameters: FeeParameters,
        t: &mut ProofTranscript,
    ) -> (r: Result<Self, ProofError>)
        requires
            delta_fee < FEE_DENOMINATOR,
        ensures
            r is Ok ==> exists|op: GroupScalar|
                r->Ok_0.commitment_new_source.0 == #[trigger] commit_of(
                    u64_scalar(source_new_balance),
                    op,
                ),
            r is Ok ==> exists|op: GroupScalar|
                r->Ok_0.commitment_claimed.0 == #[trigger] commit_of(u64_scalar(delta_fee), op),
            r is Err ==> r->Err_0 == ProofError::Generation,
    {
        proof {
            lemma_protocol_labels_fit();
        }
        let (commitment_new_source, opening_source) = pedersen_new(source_new_balance);
        let (commitment_claimed, opening_claimed) = pedersen_new(delta_fee);

        append_labeled(t, "commitment-new-source", commitment_new_source.to_bytes().as_slice());
        append_labeled(t, "commitment-claimed", commitment_claimed.to_bytes().as_slice());

        let equality_proof = EqualityProof::new(
            keypair_source,
            ciphertext_new_source,
            source_new_balance,
            &opening_source,
            t,
        );

        let ciphertext_amount_validity_proof = AggregatedValidityProof::new(
            pubkey_dest,
            pubkey_auditor,
            amount_lo,
            amount_hi,
            opening_lo,
            opening_hi,
            t,
        );

        let (commitment_delta, opening_delta) = compute_delta_commitment_and_opening(
            &ciphertext_lo.commitment,
            opening_lo,
            &ciphertext_hi.commitment,
            opening_hi,
            &ciphertext_fee.commitment,
            opening_fee,
            fee_parameters.fee_rate_basis_points,
        );

        let fee_sigma_proof = FeeSigmaProof::new(
            fee_amount,
            &ciphertext_fee.commitment,
            opening_fee,
            delta_fee,
            &commitment_delta,
            &opening_delta,
            &commitment_claimed,
            &opening_claimed,
            fee_parameters.maximum_fee,
            t,
        );

        // The fee validity proof speaks of the value actually encrypted: the
        // capped fee.
        let encrypted_fee = cap_fee(fee_amount, fee_parameters.maximum_fee);
        let ciphertext_fee_validity_proof = ValidityProof::new(
            pubkey_dest,
            pubkey_fee_collector,
            encrypted_fee,
            opening_fee,
            t,
        );

        let opening_claimed_negated = opening_claimed.negate();
        let range_proof = match RangeProofBundle::new(
            source_new_balance,
            amount_lo,
            amount_hi,
            delta_fee,
            &opening_source,
            opening_lo,
            opening_hi,
            &opening_claimed,
            &opening_claimed_negated,
            t,
        ) {
            Some(bundle) => bundle,
            None => {
                return Err(ProofError::Generation);
            },
        };

        proof {
            assert(commitment_new_source.0 == commit_of(
                u64_scalar(source_new_balance),
                opening_source.0,
            ));
            assert(commitment_claimed.0 == commit_of(u64_scalar(delta_fee), opening_claimed.0));
        }
        Ok(
            TransferWithFeeProof {
                commitment_new_source,
                commitment_claimed,
                equality_proof,
                ciphertext_amount_validity_proof,
                fee_sigma_proof,
                ciphertext_fee_validity_proof,
                range_proof,
            },
        )
    }

    /// Re-runs the five sub-proof verifiers in the generation order against
    /// the public data, mirroring every transcript append, and aborts on the
    /// first failure. Success implies the four deterministic sub-proofs
    /// accept at their chained states; conversely, when they accept and the
    /// five range checks hold, verification succeeds. The delta commitment
    /// and the claimed complement are recomputed from public commitments;
    /// neither is ever transmitted.
    pub fn verify(
        &self,
        ciphertext_lo: &TransferAmountEncryption,
        ciphertext_hi: &TransferAmountEncryption,
        transfer_with_fee_pubkeys: &TransferWithFeePubkeys,
        new_spendable_ciphertext: &ElGamalCiphertext,
        ciphertext_fee: &FeeEncryption,
        fee_parameters: FeeParameters,
        t: &mut ProofTranscript,
    ) -> (r: Result<(), ProofError>)
        ensures
            r is Ok ==> self.spec_sigma_accepts(
                *ciphertext_lo,
                *ciphertext_hi,
                *transfer_with_fee_pubkeys,
                *new_spendable_ciphertext,
                *ciphertext_fee,
                fee_parameters,
                *old(t),
            ),
            self.spec_sigma_accepts(
                *ciphertext_lo,
                *ciphertext_hi,
                *transfer_with_fee_pubkeys,
                *new_spendable_ciphertext,
                *ciphertext_fee,
                fee_parameters,
                *old(t),
            ) && self.spec_range_valid(*ciphertext_lo, *ciphertext_hi, *old(t)) ==> r is Ok,
            r is Err ==> r->Err_0 == ProofError::Verification,
    {
        proof {
            lemma_protocol_labels_fit();
        }
        append_labeled(t, "commitment-new-source", self.commitment_new_source.to_bytes().as_slice());
        append_labeled(t, "commitment-claimed", self.commitment_claimed.to_bytes().as_slice());

        self.equality_proof.verify(
            &transfer_with_fee_pubkeys.source,
            new_spendable_ciphertext,
            &self.commitment_new_source,
            t,
        )?;

        self.ciphertext_amount_validity_proof.verify(
            &transfer_with_fee_pubkeys.dest,
            &transfer_with_fee_pubkeys.auditor,
            &ciphertext_lo.commitment,
            &ciphertext_hi.commitment,
            &ciphertext_lo.dest,
            &ciphertext_hi.dest,
            &ciphertext_lo.auditor,
            &ciphertext_hi.auditor,
            t,
        )?;

        let commitment_delta = compute_delta_commitment(
            &ciphertext_lo.commitment,
            &ciphertext_hi.commitment,
            &ciphertext_fee.commitment,
            fee_parameters.fee_rate_basis_points,
        );

        self.fee_sigma_proof.verify(
            &ciphertext_fee.commitment,
            &commitment_delta,
            &self.commitment_claimed,
            fee_parameters.maximum_fee,
            t,
        )?;

        self.ciphertext_fee_validity_proof.verify(
            &ciphertext_fee.commitment,
            &transfer_with_fee_pubkeys.dest,
            &transfer_with_fee_pubkeys.fee_collector,
            &ciphertext_fee.dest,
            &ciphertext_fee.fee_collector,
            t,
        )?;

        let commitment_claimed_complement = pedersen_encode(FEE_DENOMINATOR).sub(
            &self.commitment_claimed,
        );
        self.range_proof.verify(
            &self.commitment_new_source,
            &ciphertext_lo.commitment,
            &ciphertext_hi.commitment,
            &self.commitment_claimed,
            &commitment_claimed_complement,
            t,
        )
    }

    /// The concatenation, in field order, of the two commitments and the
    /// five sub-proof encodings.
    pub open spec fn spec_to_bytes(self) -> Seq<u8> {
        compressed(self.commitment_new_source.0) + compressed(self.commitment_claimed.0)
            + self.equality_proof.spec_to_bytes() + self.ciphertext_amount_validity_proof.0
            .spec_to_bytes() + self.fee_sigma_proof.spec_to_bytes()
            + self.ciphertext_fee_validity_proof.spec_to_bytes() + self.range_proof.spec_to_bytes()
    }

    /// Whether a buffer decodes: 4064 bytes whose fixed-offset pieces all
    /// decode.
    pub open spec fn spec_decodable(b: Seq<u8>) -> bool {
        &&& b.len() == TRANSFER_WITH_FEE_PROOF_LEN
        &&& point_decoded(b.subrange(0, 32)) is Some
        &&& point_decoded(b.subrange(32, 64)) is Some
        &&& EqualityProof::spec_decodable(b.subrange(64, 256))
        &&& ValidityProof::spec_decodable(b.subrange(256, 416))
        &&& FeeSigmaProof::spec_decodable(b.subrange(416, 672))
        &&& ValidityProof::spec_decodable(b.subrange(672, 832))
        &&& RangeProofBundle::spec_decodable(b.subrange(832, 4064))
    }

    /// What a decodable buffer decodes to.
    pub open spec fn spec_decoded(b: Seq<u8>) -> TransferWithFeeProof {
        TransferWithFeeProof {
            commitment_new_source: PedersenCommitment(point_decoded(b.subrange(0, 32))->0),
            commitment_claimed: PedersenCommitment(point_decoded(b.subrange(32, 64))->0),
            equality_proof: EqualityProof::spec_decoded(b.subrange(64, 256)),
            ciphertext_amount_validity_proof: AggregatedValidityProof(
                ValidityProof::spec_decoded(b.subrange(256, 416)),
            ),
            fee_sigma_proof: FeeSigmaProof::spec_decoded(b.subrange(416, 672)),
            ciphertext_fee_validity_proof: ValidityProof::spec_decoded(b.subrange(672, 832)),
            range_proof: RangeProofBundle::spec_decoded(b.subrange(832, 4064)),
        }
    }

    /// An honestly generated proof encodes to
    /// [`TRANSFER_WITH_FEE_PROOF_LEN`] bytes; the engine encodings' lengths
    /// are theirs to fix.
    pub fn to_bytes(&self) -> (r: Vec<u8>)
        ensures
            r@ == self.spec_to_bytes(),
    {
        let mut out = self.commitment_new_source.to_bytes();
        push_bytes(&mut out, self.commitment_claimed.to_bytes().as_slice());
        push_bytes(&mut out, self.equality_proof.to_bytes().as_slice());
        push_bytes(&mut out, self.ciphertext_amount_validity_proof.to_bytes().as_slice());
        push_bytes(&mut out, self.fee_sigma_proof.to_bytes().as_slice());
        push_bytes(&mut out, self.ciphertext_fee_validity_proof.to_bytes().as_slice());
        push_bytes(&mut out, self.range_proof.to_bytes().as_slice());
        proof {
            assert(out@ =~= self.spec_to_bytes());
        }
        out
    }

    /// Decodes the layout of [`Self::spec_to_bytes`]: succeeds exactly when
    /// the buffer is decodable.
    pub fn from_bytes(bytes: &[u8]) -> (r: Result<Self, ProofError>)
        ensures
            r is Ok <==> Self::spec_decodable(bytes@),
            r is Ok ==> r->Ok_0 == Self::spec_decoded(bytes@),
            r is Err ==> r->Err_0 == ProofError::Verification,
    {
        if bytes.len() != TRANSFER_WITH_FEE_PROOF_LEN {
            return Err(ProofError::Verification);
        }
        let commitment_new_source = PedersenCommitment::from_bytes(
            bytes_chunk(bytes, 0, 32).as_slice(),
        )?;
        let commitment_claimed = PedersenCommitment::from_bytes(
            bytes_chunk(bytes, 32, 32).as_slice(),
        )?;
        let equality_proof = EqualityProof::from_bytes(bytes_chunk(bytes, 64, 192).as_slice())?;
        let ciphertext_amount_validity_proof = AggregatedValidityProof::from_bytes(
            bytes_chunk(bytes, 256, 160).as_slice(),
        )?;
        let fee_sigma_proof = FeeSigmaProof::from_bytes(bytes_chunk(bytes, 416, 256).as_slice())?;
        let ciphertext_fee_validity_proof = ValidityProof::from_bytes(
            bytes_chunk(bytes, 672, 160).as_slice(),
        )?;
        let range_proof = RangeProofBundle::from_bytes(bytes_chunk(bytes, 832, 3232).as_slice())?;
        Ok(
            TransferWithFeeProof {
                commitment_new_source,
                commitment_claimed,
                equality_proof,
                ciphertext_amount_validity_proof,
                fee_sigma_proof,
                ciphertext_fee_validity_proof,
                range_proof,
            },
        )
    }
}

/// The full instruction payload: everything a verifier needs, by value.
/// Constructed once by the sender, verified any number of times from public
/// data, never mutated.
#[derive(Clone)]
pub struct TransferWithFeeData {
    /// Group encryption of the low 32 bits of the transfer amount.
    pub ciphertext_lo: TransferAmountEncryption,
    /// Group encryption of the high 32 bits of the transfer amount.
    pub ciphertext_hi: TransferAmountEncryption,
    /// The public keys associated with the transfer.
    pub transfer_with_fee_pubkeys: TransferWithFeePubkeys,
    /// The final spendable ciphertext after the transfer.
    pub ciphertext_new_source: ElGamalCiphertext,
    /// The transfer fee encryption.
    pub ciphertext_fee: FeeEncryption,
    /// The public fee parameters.
    pub fee_parameters: FeeParameters,
    /// The transfer-with-fee proof bundle.
    pub proof_bundle: TransferWithFeeProof,
}

/// The encoded size of the whole envelope.
pub const TRANSFER_WITH_FEE_DATA_LEN: usize = 4618;

impl TransferWithFeeData {
    /// The low-limb ciphertext as seen by a role.
    pub open spec fn spec_ciphertext_lo(self, role: Role) -> ElGamalCiphertext {
        ElGamalCiphertext {
            commitment: self.ciphertext_lo.commitment,
            handle: match role {
                Role::Source => self.ciphertext_lo.source,
                Role::Dest => self.ciphertext_lo.dest,
                Role::Auditor => self.ciphertext_lo.auditor,
            },
        }
    }

    /// The high-limb ciphertext as seen by a role.
    pub open spec fn spec_ciphertext_hi(self, role: Role) -> ElGamalCiphertext {
        ElGamalCiphertext {
            commitment: self.ciphertext_hi.commitment,
            handle: match role {
                Role::Source => self.ciphertext_hi.source,
                Role::Dest => self.ciphertext_hi.dest,
                Role::Auditor => self.ciphertext_hi.auditor,
            },
        }
    }

    /// Generates the envelope from plaintext inputs: splits and encrypts the
    /// amount, subtracts it from the spendable ciphertext (the stored
    /// new-source ciphertext is exactly `old - combine(lo, hi)` over the
    /// source-handle limb ciphertexts), computes and caps the fee (the
    /// stored fee commitment commits to the capped fee under some opening),
    /// and drives the proof bundle. Exceeding the spendable balance is a
    /// `Generation` error before any proof work; every other failure (the
    /// range-proof engine refusing a proof, with negligible probability) is
    /// also a `Generation` error.
    pub fn new(
        transfer_amount: u64,
        spendable_balance: u64,
        ciphertext_old_source: &ElGamalCiphertext,
        keypair_source: &ElGamalKeypair,
        pubkey_dest: &ElGamalPubkey,
        pubkey_auditor: &ElGamalPubkey,
        fee_parameters: FeeParameters,
        pubkey_fee_collector: &ElGamalPubkey,
    ) -> (r: Result<Self, ProofError>)
        requires
            fee_parameters.fee_rate_basis_points <= FEE_DENOMINATOR,
        ensures
            transfer_amount > spendable_balance ==> r is Err,
            r is Ok ==> transfer_amount <= spendable_balance,
            r is Ok ==> ({
                let d = r->Ok_0;
                let combined = spec_combine_ciphertexts(
                    (ElGamalCiphertext {
                        commitment: d.ciphertext_lo.commitment,
                        handle: d.ciphertext_lo.source,
                    }),
                    (ElGamalCiphertext {
                        commitment: d.ciphertext_hi.commitment,
                        handle: d.ciphertext_hi.source,
                    }),
                );
                &&& d.ciphertext_new_source.commitment.0 == point_diff(
                    ciphertext_old_source.commitment.0,
                    combined.commitment.0,
                )
                &&& d.ciphertext_new_source.handle.0 == point_diff(
                    ciphertext_old_source.handle.0,
                    combined.handle.0,
                )
            }),
            r is Ok ==> exists|op: GroupScalar|
                r->Ok_0.ciphertext_fee.commitment.0 == #[trigger] commit_of(
                    u64_scalar(
                        spec_capped_fee(
                            transfer_amount,
                            fee_parameters.fee_rate_basis_points,
                            fee_parameters.maximum_fee,
                        ) as u64,
                    ),
                    op,
                ),
            r is Ok ==> r->Ok_0.transfer_with_fee_pubkeys == (TransferWithFeePubkeys {
                source: keypair_source.public,
                dest: *pubkey_dest,
                auditor: *pubkey_auditor,
                fee_collector: *pubkey_fee_collector,
            }),
            r is Ok ==> r->Ok_0.fee_parameters == fee_parameters,
            r is Err ==> r->Err_0 == ProofError::Generation,
    {
        // Split and encrypt the transfer amount.
        let (amount_lo, amount_hi) = split_u64_into_u32(transfer_amount);
        let (ciphertext_lo, opening_lo) = TransferAmountEncryption::new(
            amount_lo,
            &keypair_source.public,
            pubkey_dest,
            pubkey_auditor,
        );
        let (ciphertext_hi, opening_hi) = TransferAmountEncryption::new(
            amount_hi,
            &keypair_source.public,
            pubkey_dest,
            pubkey_auditor,
        );

        // Subtract the transfer amount from the spendable ciphertext; an
        // underflow aborts generation before any proof work.
        if transfer_amount > spendable_balance {
            return Err(ProofError::Generation);
        }
        let new_spendable_balance = spendable_balance - transfer_amount;

        let transfer_amount_lo_source = ElGamalCiphertext {
            commitment: ciphertext_lo.commitment,
            handle: ciphertext_lo.source,
        };
        let transfer_amount_hi_source = ElGamalCiphertext {
            commitment: ciphertext_hi.commitment,
            handle: ciphertext_hi.source,
        };
        let ciphertext_new_source = ciphertext_old_source.sub_ciphertext(
            &combine_u32_ciphertexts(&transfer_amount_lo_source, &transfer_amount_hi_source),
        );

        // Calculate, cap and encrypt the fee.
        let (fee_amount, delta_fee) = calculate_fee(
            transfer_amount,
            fee_parameters.fee_rate_basis_points,
        );
        let fee_to_encrypt = cap_fee(fee_amount, fee_parameters.maximum_fee);
        proof {
            assert(fee_to_encrypt as int == spec_capped_fee(
                transfer_amount,
                fee_parameters.fee_rate_basis_points,
                fee_parameters.maximum_fee,
            ));
        }
        let (ciphertext_fee, opening_fee) = FeeEncryption::new(
            fee_to_encrypt,
            pubkey_dest,
            pubkey_fee_collector,
        );

        // Bind all public inputs into the transcript, then prove.
        let pubkeys = TransferWithFeePubkeys::new(
            &keypair_source.public,
            pubkey_dest,
            pubkey_auditor,
            pubkey_fee_collector,
        );
        let mut transcript = TransferWithFeeProof::transcript_new(
            &pubkeys,
            &ciphertext_lo,
            &ciphertext_hi,
            &ciphertext_fee,
        );

        let proof_bundle = TransferWithFeeProof::new(
            amount_lo,
            &ciphertext_lo,
            &opening_lo,
            amount_hi,
            &ciphertext_hi,
            &opening_hi,
            keypair_source,
            pubkey_dest,
            pubkey_auditor,
            new_spendable_balance,
            &ciphertext_new_source,
            fee_amount,
            &ciphertext_fee,
            &opening_fee,
            delta_fee,
            pubkey_fee_collector,
            fee_parameters,
            &mut transcript,
        )?;

        proof {
            let ghost capped = spec_capped_fee(
                transfer_amount,
                fee_parameters.fee_rate_basis_points,
                fee_parameters.maximum_fee,
            );
            assert(capped as u64 == fee_to_encrypt);
            assert(ciphertext_fee.commitment.0 == commit_of(
                u64_scalar(capped as u64),
                opening_fee.0,
            ));
        }
        Ok(
            TransferWithFeeData {
                ciphertext_lo,
                ciphertext_hi,
                transfer_with_fee_pubkeys: pubkeys,
                ciphertext_new_source,
                ciphertext_fee,
                fee_parameters,
                proof_bundle,
            },
        )
    }

    /// The low-limb ciphertext as seen by `role`: the limb commitment with
    /// that role's decrypt handle.
    pub fn ciphertext_lo(&self, role: Role) -> (r: ElGamalCiphertext)
        ensures
            r == self.spec_ciphertext_lo(role),
    {
        let handle = match role {
            Role::Source => self.ciphertext_lo.source,
            Role::Dest => self.ciphertext_lo.dest,
            Role::Auditor => self.ciphertext_lo.auditor,
        };
        ElGamalCiphertext { commitment: self.ciphertext_lo.commitment, handle }
    }

    /// The high-limb ciphertext as seen by `role`.
    pub fn ciphertext_hi(&self, role: Role) -> (r: ElGamalCiphertext)
        ensures
            r == self.spec_ciphertext_hi(role),
    {
        let handle = match role {
            Role::Source => self.ciphertext_hi.source,
            Role::Dest => self.ciphertext_hi.dest,
            Role::Auditor => self.ciphertext_hi.auditor,
        };
        ElGamalCiphertext { commitment: self.ciphertext_hi.commitment, handle }
    }

    /// Decrypts the transfer amount for one role: both limbs are searched in
    /// full before either result is examined, so the control flow does not
    /// depend on which limb fails, and the limbs recombine as
    /// `lo + 2^32 * hi`. Whatever is returned is provably the recombination
    /// of the two limbs' discrete logarithms for that role's handles. A
    /// limb that does not resolve (wrong key, corrupted ciphertext, search
    /// exhausted) is a `Verification` error.
    pub fn decrypt_amount(&self, role: Role, sk: &ElGamalSecretKey) -> (r: Result<
        u64,
        ProofError,
    >)
        ensures
            r is Ok ==> exists|lo: u32, hi: u32|
                {
                    &&& r->Ok_0 == lo as u64 + TWO_32 as u64 * (hi as u64)
                    &&& point_scaled(g_pt(), #[trigger] u64_scalar(lo as u64))
                        == self.spec_ciphertext_lo(role).spec_decrypt_target(*sk)
                    &&& point_scaled(g_pt(), #[trigger] u64_scalar(hi as u64))
                        == self.spec_ciphertext_hi(role).spec_decrypt_target(*sk)
                },
            r is Err ==> r->Err_0 == ProofError::Verification,
    {
        let ciphertext_lo = self.ciphertext_lo(role);
        let ciphertext_hi = self.ciphertext_hi(role);

        let amount_lo = ciphertext_lo.decrypt_u32(sk);
        let amount_hi = ciphertext_hi.decrypt_u32(sk);

        match (amount_lo, amount_hi) {
            (Some(lo), Some(hi)) => Ok((lo as u64) + TWO_32 * (hi as u64)),
            _ => Err(ProofError::Verification),
        }
    }

    /// Verifies the envelope from public data alone: rebuilds the transcript
    /// bit-identically to generation and runs the proof bundle against the
    /// stored ciphertexts, keys and parameters. Success implies the four
    /// deterministic sub-proofs accept on that transcript; conversely, when
    /// they accept and the five range checks hold, verification succeeds.
    pub fn verify(&self) -> (r: Result<(), ProofError>)
        ensures
            r is Ok ==> self.proof_bundle.spec_sigma_accepts(
                self.ciphertext_lo,
                self.ciphertext_hi,
                self.transfer_with_fee_pubkeys,
                self.ciphertext_new_source,
                self.ciphertext_fee,
                self.fee_parameters,
                TransferWithFeeProof::spec_transcript_new(
                    self.transfer_with_fee_pubkeys,
                    self.ciphertext_lo,
                    self.ciphertext_hi,
                    self.ciphertext_fee,
                ),
            ),
            ({
                let t0 = TransferWithFeeProof::spec_transcript_new(
                    self.transfer_with_fee_pubkeys,
                    self.ciphertext_lo,
                    self.ciphertext_hi,
                    self.ciphertext_fee,
                );
                self.proof_bundle.spec_sigma_accepts(
                    self.ciphertext_lo,
                    self.ciphertext_hi,
                    self.transfer_with_fee_pubkeys,
                    self.ciphertext_new_source,
                    self.ciphertext_fee,
                    self.fee_parameters,
                    t0,
                ) && self.proof_bundle.spec_range_valid(self.ciphertext_lo, self.ciphertext_hi, t0)
            }) ==> r is Ok,
            r is Err ==> r->Err_0 == ProofError::Verification,
    {
        let mut transcript = TransferWithFeeProof::transcript_new(
            &self.transfer_with_fee_pubkeys,
            &self.ciphertext_lo,
            &self.ciphertext_hi,
            &self.ciphertext_fee,
        );
        self.proof_bundle.verify(
            &self.ciphertext_lo,
            &self.ciphertext_hi,
            &self.transfer_with_fee_pubkeys,
            &self.ciphertext_new_source,
            &self.ciphertext_fee,
            self.fee_parameters,
            &mut transcript,
        )
    }

    /// The fixed envelope layout: `ciphertext_lo ‖ ciphertext_hi ‖ pubkeys ‖
    /// ciphertext_new_source ‖ ciphertext_fee ‖ fee_parameters ‖ proof`.
    pub open spec fn spec_to_bytes(self) -> Seq<u8> {
        self.ciphertext_lo.spec_to_bytes() + self.ciphertext_hi.spec_to_bytes()
            + self.transfer_with_fee_pubkeys.spec_to_bytes() + (compressed(
            self.ciphertext_new_source.commitment.0,
        ) + compressed(self.ciphertext_new_source.handle.0)) + self.ciphertext_fee.spec_to_bytes()
            + self.fee_parameters.spec_to_bytes() + self.proof_bundle.spec_to_bytes()
    }

    /// Whether a buffer decodes: 4618 bytes whose fixed-offset pieces all
    /// decode (every 10-byte fee-parameter chunk does).
    pub open spec fn spec_decodable(b: Seq<u8>) -> bool {
        &&& b.len() == TRANSFER_WITH_FEE_DATA_LEN
        &&& TransferAmountEncryption::spec_decodable(b.subrange(0, 128))
        &&& TransferAmountEncryption::spec_decodable(b.subrange(128, 256))
        &&& TransferWithFeePubkeys::spec_decodable(b.subrange(256, 384))
        &&& ElGamalCiphertext::spec_decodable(b.subrange(384, 448))
        &&& FeeEncryption::spec_decodable(b.subrange(448, 544))
        &&& TransferWithFeeProof::spec_decodable(b.subrange(554, 4618))
    }

    /// What a decodable buffer decodes to.
    pub open spec fn spec_decoded(b: Seq<u8>) -> TransferWithFeeData {
        TransferWithFeeData {
            ciphertext_lo: TransferAmountEncryption::spec_decoded(b.subrange(0, 128)),
            ciphertext_hi: TransferAmountEncryption::spec_decoded(b.subrange(128, 256)),
            transfer_with_fee_pubkeys: TransferWithFeePubkeys::spec_decoded(b.subrange(256, 384)),
            ciphertext_new_source: ElGamalCiphertext::spec_decoded(b.subrange(384, 448)),
            ciphertext_fee: FeeEncryption::spec_decoded(b.subrange(448, 544)),
            fee_parameters: FeeParameters::spec_from_bytes(b.subrange(544, 554)),
            proof_bundle: TransferWithFeeProof::spec_decoded(b.subrange(554, 4618)),
        }
    }

    /// An honestly generated envelope encodes to
    /// [`TRANSFER_WITH_FEE_DATA_LEN`] bytes.
    pub fn to_bytes(&self) -> (r: Vec<u8>)
        ensures
            r@ == self.spec_to_bytes(),
    {
        let mut out = self.ciphertext_lo.to_bytes();
        push_bytes(&mut out, self.ciphertext_hi.to_bytes().as_slice());
        push_bytes(&mut out, self.transfer_with_fee_pubkeys.to_bytes().as_slice());
        push_bytes(&mut out, self.ciphertext_new_source.to_bytes().as_slice());
        push_bytes(&mut out, self.ciphertext_fee.to_bytes().as_slice());
        push_bytes(&mut out, self.fee_parameters.to_bytes().as_slice());
        push_bytes(&mut out, self.proof_bundle.to_bytes().as_slice());
        proof {
            assert(out@ =~= self.spec_to_bytes());
        }
        out
    }

    /// Decodes the layout of [`Self::spec_to_bytes`]: succeeds exactly when
    /// the buffer is decodable.
    pub fn from_bytes(bytes: &[u8]) -> (r: Result<Self, ProofError>)
        ensures
            r is Ok <==> Self::spec_decodable(bytes@),
            r is Ok ==> r->Ok_0 == Self::spec_decoded(bytes@),
            r is Err ==> r->Err_0 == ProofError::Verification,
    {
        if bytes.len() != TRANSFER_WITH_FEE_DATA_LEN {
            return Err(ProofError::Verification);
        }
        let ciphertext_lo = TransferAmountEncryption::from_bytes(
            bytes_chunk(bytes, 0, 128).as_slice(),
        )?;
        let ciphertext_hi = TransferAmountEncryption::from_bytes(
            bytes_chunk(bytes, 128, 128).as_slice(),
        )?;
        let transfer_with_fee_pubkeys = TransferWithFeePubkeys::from_bytes(
            bytes_chunk(bytes, 256, 128).as_slice(),
        )?;
        let ciphertext_new_source = ElGamalCiphertext::from_bytes(
            bytes_chunk(bytes, 384, 64).as_slice(),
        )?;
        let ciphertext_fee = FeeEncryption::from_bytes(bytes_chunk(bytes, 448, 96).as_slice())?;
        let fee_parameters = FeeParameters::from_bytes(bytes_chunk(bytes, 544, 10).as_slice());
        let proof_bundle = TransferWithFeeProof::from_bytes(
            bytes_chunk(bytes, 554, 4064).as_slice(),
        )?;
        Ok(
            TransferWithFeeData {
                ciphertext_lo,
                ciphertext_hi,
                transfer_with_fee_pubkeys,
                ciphertext_new_source,
                ciphertext_fee,
                fee_parameters,
                proof_bundle,
            },
        )
    }
}

} // verus!

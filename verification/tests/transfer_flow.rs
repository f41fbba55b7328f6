use fee_transfer_proof::FeeParameters;
use fee_transfer_proof::equality::EqualityProof;
use fee_transfer_proof::fee_sigma::FeeSigmaProof;
use fee_transfer_proof::validity::ValidityProof;
use fee_transfer_proof::ProofError;
use fee_transfer_proof::Role;
use fee_transfer_proof::elgamal::ElGamalCiphertext;
use fee_transfer_proof::elgamal::ElGamalKeypair;
use fee_transfer_proof::transfer_with_fee::TransferWithFeeData;
use fee_transfer_proof::transfer_with_fee::TRANSFER_WITH_FEE_DATA_LEN;

struct Party {
    source: ElGamalKeypair,
    dest: ElGamalKeypair,
    auditor: ElGamalKeypair,
    fee_collector: ElGamalKeypair,
}

fn parties() -> Party {
    Party {
        source: ElGamalKeypair::new_rand(),
        dest: ElGamalKeypair::new_rand(),
        auditor: ElGamalKeypair::new_rand(),
        fee_collector: ElGamalKeypair::new_rand(),
    }
}

fn generate(
    p: &Party,
    spendable_balance: u64,
    transfer_amount: u64,
    fee_parameters: FeeParameters,
) -> Result<TransferWithFeeData, ProofError> {
    let spendable_ciphertext = p.source.public.encrypt(spendable_balance);
    TransferWithFeeData::new(
        transfer_amount,
        spendable_balance,
        &spendable_ciphertext,
        &p.source,
        &p.dest.public,
        &p.auditor.public,
        fee_parameters,
        &p.fee_collector.public,
    )
}

#[test]
fn test_fee_correctness() {
    let keypair_source = ElGamalKeypair::new_rand();
    let pubkey_dest = ElGamalKeypair::new_rand().public;
    let pubkey_auditor = ElGamalKeypair::new_rand().public;
    let pubkey_fee_collector = ElGamalKeypair::new_rand().public;

    let spendable_balance: u64 = 120;
    let spendable_ciphertext = keypair_source.public.encrypt(spendable_balance);

    let transfer_amount: u64 = 100;

    let fee_parameters = FeeParameters { fee_rate_basis_points: 100, maximum_fee: 3 };

    let fee_data = TransferWithFeeData::new(
        transfer_amount,
        spendable_balance,
        &spendable_ciphertext,
        &keypair_source,
        &pubkey_dest,
        &pubkey_auditor,
        fee_parameters,
        &pubkey_fee_collector,
    )
    .unwrap();

    assert!(fee_data.verify().is_ok());
}

#[test]
fn test_new_source_balance() {
    // The concrete scenario: balance 120, transfer 100 at 1% with cap 3:
    // the fee is 1 with no rounding, the cap is a no-op, and the new source
    // balance ciphertext decrypts to 20 under the source key.
    let p = parties();
    let params = FeeParameters { fee_rate_basis_points: 100, maximum_fee: 3 };
    let data = generate(&p, 120, 100, params).unwrap();
    assert!(data.verify().is_ok());
    let decrypted = data.ciphertext_new_source.decrypt_u32(&p.source.secret);
    assert_eq!(decrypted, Some(20));
}

#[test]
fn test_underflow_rejection() {
    // A transfer above the spendable balance aborts generation.
    let p = parties();
    let params = FeeParameters { fee_rate_basis_points: 100, maximum_fee: 3 };
    let result = generate(&p, 100, 101, params);
    assert!(matches!(result, Err(ProofError::Generation)));
}

#[test]
fn test_round_trip_with_rounding() {
    // A rate that does not divide the scaled amount: the fee rounds up and
    // the delta is nonzero, and the proof still verifies.
    let p = parties();
    let params = FeeParameters { fee_rate_basis_points: 1, maximum_fee: 100 };
    let data = generate(&p, 1000, 3, params).unwrap();
    assert!(data.verify().is_ok());
}

#[test]
fn test_capped_fee() {
    // 100% rate on a 10000-token transfer gives a raw fee of 10000, capped
    // to 50; verification succeeds and the destination decrypts the capped
    // value, not the raw one.
    let p = parties();
    let params = FeeParameters { fee_rate_basis_points: 10000, maximum_fee: 50 };
    let data = generate(&p, 20000, 10000, params).unwrap();
    assert!(data.verify().is_ok());

    let fee_ciphertext_dest = ElGamalCiphertext {
        commitment: data.ciphertext_fee.commitment,
        handle: data.ciphertext_fee.dest,
    };
    assert_eq!(fee_ciphertext_dest.decrypt_u32(&p.dest.secret), Some(50));
}

#[test]
fn test_decrypt_amount_all_roles() {
    let p = parties();
    let params = FeeParameters { fee_rate_basis_points: 100, maximum_fee: 3 };
    let data = generate(&p, 120, 100, params).unwrap();
    assert_eq!(data.decrypt_amount(Role::Source, &p.source.secret), Ok(100));
    assert_eq!(data.decrypt_amount(Role::Dest, &p.dest.secret), Ok(100));
    assert_eq!(data.decrypt_amount(Role::Auditor, &p.auditor.secret), Ok(100));
}

#[test]
fn test_envelope_byte_round_trip() {
    let p = parties();
    let params = FeeParameters { fee_rate_basis_points: 55, maximum_fee: 77 };
    let data = generate(&p, 5000, 1234, params).unwrap();
    let bytes = data.to_bytes();
    assert_eq!(bytes.len(), TRANSFER_WITH_FEE_DATA_LEN);
    let decoded = TransferWithFeeData::from_bytes(&bytes).unwrap();
    assert!(decoded.verify().is_ok());
    assert_eq!(decoded.to_bytes(), bytes);
}

/// Flipping one byte at `offset` must make the envelope fail: either the
/// flipped buffer no longer decodes, or the decoded envelope no longer
/// verifies. Both surface as the same `Verification` error.
fn assert_tamper_detected(bytes: &[u8], offset: usize) {
    let mut tampered = bytes.to_vec();
    tampered[offset] ^= 1;
    match TransferWithFeeData::from_bytes(&tampered) {
        Err(e) => assert_eq!(e, ProofError::Verification),
        Ok(data) => assert_eq!(data.verify(), Err(ProofError::Verification)),
    }
}

#[test]
fn test_tamper_ciphertexts_and_keys() {
    let p = parties();
    let params = FeeParameters { fee_rate_basis_points: 100, maximum_fee: 3 };
    let data = generate(&p, 120, 100, params).unwrap();
    let bytes = data.to_bytes();
    assert_tamper_detected(&bytes, 5); // ciphertext_lo commitment
    assert_tamper_detected(&bytes, 200); // ciphertext_hi handle
    assert_tamper_detected(&bytes, 260); // source pubkey
    assert_tamper_detected(&bytes, 400); // new-source ciphertext
    assert_tamper_detected(&bytes, 460); // fee ciphertext
}

#[test]
fn test_tamper_proof_fields() {
    let p = parties();
    let params = FeeParameters { fee_rate_basis_points: 100, maximum_fee: 3 };
    let data = generate(&p, 120, 100, params).unwrap();
    let bytes = data.to_bytes();
    assert_tamper_detected(&bytes, 545); // fee parameters (rate)
    assert_tamper_detected(&bytes, 554); // commitment_new_source
    assert_tamper_detected(&bytes, 554 + 64 + 100); // equality proof response
    assert_tamper_detected(&bytes, 554 + 416 + 130); // fee sigma challenge share
    assert_tamper_detected(&bytes, 554 + 832 + 40); // range proof body
}

#[test]
fn test_subproof_decode_length_errors() {
    assert!(matches!(EqualityProof::from_bytes(&[0u8; 10]), Err(ProofError::Verification)));
    assert!(matches!(ValidityProof::from_bytes(&[0u8; 161]), Err(ProofError::Verification)));
    assert!(matches!(FeeSigmaProof::from_bytes(&[0u8; 0]), Err(ProofError::Verification)));
    assert!(matches!(
        TransferWithFeeData::from_bytes(&[0u8; 100]),
        Err(ProofError::Verification)
    ));
}

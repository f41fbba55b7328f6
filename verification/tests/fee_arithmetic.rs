use fee_transfer_proof::FeeParameters;
use fee_transfer_proof::calculate_fee;
use fee_transfer_proof::cap_fee;
use fee_transfer_proof::amount::split_u64_into_u32;
use fee_transfer_proof::fee::FEE_DENOMINATOR;

#[test]
fn calculate_fee_exact_division() {
    // 1% of 100 is exactly 1: no rounding, zero delta.
    assert_eq!(calculate_fee(100, 100), (1, 0));
}

#[test]
fn calculate_fee_full_rate() {
    // 100% of 10000 is exactly 10000.
    assert_eq!(calculate_fee(10000, 10000), (10000, 0));
}

#[test]
fn calculate_fee_rounds_up() {
    // 0.01% of 3 is 0.0003 tokens: rounded up to 1, delta is 10000 - 3.
    assert_eq!(calculate_fee(3, 1), (1, 9997));
    // 5 basis points of 999 is 4995/10000: rounded up to 1, delta 5005.
    assert_eq!(calculate_fee(999, 5), (1, 5005));
}

#[test]
fn calculate_fee_zero_cases() {
    assert_eq!(calculate_fee(0, 100), (0, 0));
    assert_eq!(calculate_fee(12345, 0), (0, 0));
}

#[test]
fn calculate_fee_satisfies_delta_identity() {
    // fee * DENOMINATOR - delta == amount * rate, and delta < DENOMINATOR.
    for &(amount, rate) in &[
        (100u64, 100u16),
        (3, 1),
        (999, 5),
        (10000, 10000),
        (u64::MAX, 10000),
        (u64::MAX, 9999),
        (1, 1),
        (7777, 33),
    ] {
        let (fee, delta) = calculate_fee(amount, rate);
        assert!(delta < FEE_DENOMINATOR);
        assert_eq!(
            (fee as u128) * (FEE_DENOMINATOR as u128),
            (amount as u128) * (rate as u128) + delta as u128
        );
    }
}

#[test]
fn cap_fee_selects_minimum() {
    assert_eq!(cap_fee(1, 3), 1);
    assert_eq!(cap_fee(10000, 50), 50);
    assert_eq!(cap_fee(5, 5), 5);
    assert_eq!(cap_fee(0, 0), 0);
    assert_eq!(cap_fee(u64::MAX, 1), 1);
    assert_eq!(cap_fee(1, u64::MAX), 1);
}

#[test]
fn split_u64_limbs() {
    assert_eq!(split_u64_into_u32(0), (0, 0));
    assert_eq!(split_u64_into_u32(100), (100, 0));
    assert_eq!(split_u64_into_u32(0xffff_ffff), (0xffff_ffff, 0));
    assert_eq!(split_u64_into_u32(0x1_0000_0000), (0, 1));
    assert_eq!(split_u64_into_u32(u64::MAX), (0xffff_ffff, 0xffff_ffff));
    let (lo, hi) = split_u64_into_u32(0x1234_5678_9abc_def0);
    assert_eq!((lo as u64) + ((hi as u64) << 32), 0x1234_5678_9abc_def0);
}

#[test]
fn fee_parameters_byte_round_trip() {
    let params = FeeParameters { fee_rate_basis_points: 100, maximum_fee: 3 };
    let bytes = params.to_bytes();
    assert_eq!(bytes.len(), 10);
    // Little-endian u16 rate, then little-endian u64 maximum fee.
    assert_eq!(bytes, vec![100, 0, 3, 0, 0, 0, 0, 0, 0, 0]);
    let decoded = FeeParameters::from_bytes(&bytes);
    assert_eq!(decoded, params);

    let params = FeeParameters { fee_rate_basis_points: 0xabcd, maximum_fee: u64::MAX - 7 };
    let decoded = FeeParameters::from_bytes(&params.to_bytes());
    assert_eq!(decoded, params);
}

//! Confidential transfer-with-fee proof layer.
//!
//! A sender proves to an untrusted verifier that an encrypted token transfer
//! was formed correctly: the transfer amount is encrypted to sender, receiver
//! and an auditor; the sender's new balance is the old balance minus the
//! amount and is a non-negative 64-bit value; and the transfer fee — a
//! basis-point percentage of the amount, rounded up and capped at a configured
//! maximum — was derived and encrypted to receiver and fee collector. The
//! verifier learns none of the amounts.
//!
//! The elliptic-curve group, the Fiat-Shamir transcript and the range-proof
//! engine come from outside crates and are reached only through the trusted
//! declarations in [`outside`]; everything above that boundary is verified.
//!
//! Secret material (openings, secret keys, nonce scalars) is held in plain
//! `Copy` values and is **not** zeroized when it goes out of scope; a caller
//! who needs erasure of secrets from memory must arrange it.

pub mod amount;
pub mod bytes_util;
pub mod delta;
pub mod elgamal;
pub mod equality;
pub mod errors;
pub mod fee;
pub mod fee_sigma;
pub mod outside;
pub mod pedersen;
pub mod point_codec;
pub mod range;
pub mod transcript_util;
pub mod transfer_with_fee;
pub mod validity;

pub use elgamal::ElGamalKeypair;
pub use elgamal::Role;
pub use errors::ProofError;
pub use fee::FeeParameters;
pub use fee::calculate_fee;
pub use fee::cap_fee;
pub use transfer_with_fee::FeeEncryption;
pub use transfer_with_fee::TransferWithFeeData;
pub use transfer_with_fee::TransferWithFeeProof;
pub use transfer_with_fee::TransferWithFeePubkeys;

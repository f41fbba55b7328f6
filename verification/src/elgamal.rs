//! The additively homomorphic encryption collaborator: keypairs, decrypt
//! handles, twisted-ElGamal ciphertexts, and the bounded discrete-log
//! decryption of 32-bit values.
//!
//! A ciphertext is a Pedersen commitment plus one decrypt handle per
//! authorized viewer: the handle is `opening * pubkey`, the pubkey is
//! `inverse(secret) * H`, so `commitment - secret * handle` cancels the
//! blinding and leaves `value * G`, recovered by a baby-step/giant-step
//! search over the 32-bit space.

use vstd::prelude::*;
use std::collections::HashMap;
use crate::bytes_util::bytes_chunk;
use crate::bytes_util::push_bytes;
use crate::errors::ProofError;
use crate::outside::GroupPoint;
use crate::outside::commit_of;
use crate::outside::compressed;
use crate::outside::g_base;
use crate::outside::g_pt;
use crate::outside::h_pt;
use crate::outside::point_decoded;
use crate::outside::point_diff;
use crate::outside::point_scaled;
use crate::outside::point_sum;
use crate::outside::scalar_inverse;
use crate::outside::u64_scalar;
use crate::outside::h_base;
use crate::outside::point_add;
use crate::outside::point_compress;
use crate::outside::point_decompress;
use crate::outside::point_eq;
use crate::outside::point_mul;
use crate::outside::point_sub;
use crate::outside::scalar_from_u64;
use crate::outside::scalar_invert;
use crate::outside::scalar_random;
use crate::pedersen::PedersenCommitment;
use crate::pedersen::PedersenOpening;
use crate::pedersen::pedersen_with;

verus! {

/// The three visibility roles that may decrypt a transfer amount.
#[derive(Clone, Copy, Debug, PartialEq, Eq, Structural)]
pub enum Role {
    Source,
    Dest,
    Auditor,
}

/// An opaque 32-byte public encryption key.
#[derive(Clone, Copy)]
pub struct ElGamalPubkey(pub GroupPoint);

/// The secret scalar paired with a public key. A `Copy` value, not zeroized
/// on drop.
#[derive(Clone, Copy)]
pub struct ElGamalSecretKey(pub crate::outside::GroupScalar);

/// A public/secret key pair.
#[derive(Clone, Copy)]
pub struct ElGamalKeypair {
    pub public: ElGamalPubkey,
    pub secret: ElGamalSecretKey,
}

/// An opaque 32-byte value letting one specific keyholder recover the value
/// behind a commitment.
#[derive(Clone, Copy)]
pub struct DecryptHandle(pub GroupPoint);

/// A commitment paired with the decrypt handle of one viewer.
#[derive(Clone, Copy)]
pub struct ElGamalCiphertext {
    pub commitment: PedersenCommitment,
    pub handle: DecryptHandle,
}

impl ElGamalKeypair {
    /// A fresh key pair from the system rng; the public key is the blinding
    /// base scaled by the inverse of the secret.
    pub fn new_rand() -> (r: Self)
        ensures
            r.public.0 == point_scaled(h_pt(), scalar_inverse(r.secret.0)),
    {
        let secret = scalar_random();
        let public = point_mul(&h_base(), &scalar_invert(&secret));
        ElGamalKeypair { public: ElGamalPubkey(public), secret: ElGamalSecretKey(secret) }
    }
}

impl ElGamalPubkey {
    /// The canonical 32-byte encoding; decoding it yields the key back.
    pub fn to_bytes(&self) -> (r: Vec<u8>)
        ensures
            r@ == compressed(self.0),
            r@.len() == 32,
            point_decoded(compressed(self.0)) == Some(self.0),
    {
        point_compress(&self.0)
    }

    /// Decodes a 32-byte buffer: succeeds exactly when the buffer is 32
    /// bytes that decode as a canonical group element; everything else is a
    /// `Verification` error.
    pub fn from_bytes(bytes: &[u8]) -> (r: Result<Self, ProofError>)
        ensures
            r is Ok <==> bytes@.len() == 32 && point_decoded(bytes@) is Some,
            r is Ok ==> point_decoded(bytes@) == Some(r->Ok_0.0),
            r is Err ==> r->Err_0 == ProofError::Verification,
    {
        if bytes.len() != 32 {
            return Err(ProofError::Verification);
        }
        match point_decompress(bytes) {
            Some(p) => Ok(ElGamalPubkey(p)),
            None => Err(ProofError::Verification),
        }
    }

    /// The decrypt handle binding this key to a commitment's opening:
    /// `opening * pubkey`.
    pub fn decrypt_handle(&self, opening: &PedersenOpening) -> (r: DecryptHandle)
        ensures
            r.0 == point_scaled(self.0, opening.0),
    {
        DecryptHandle(point_mul(&self.0, &opening.0))
    }

    /// Encrypts `amount` under a fresh opening, viewable by this key alone:
    /// the commitment and the handle share one opening.
    pub fn encrypt(&self, amount: u64) -> (r: ElGamalCiphertext)
        ensures
            exists|op: crate::outside::GroupScalar|
                r.commitment.0 == #[trigger] commit_of(u64_scalar(amount), op) && r.handle.0
                    == point_scaled(self.0, op),
    {
        let opening = PedersenOpening::random();
        let r = ElGamalCiphertext {
            commitment: pedersen_with(amount, &opening),
            handle: self.decrypt_handle(&opening),
        };
        proof {
            assert(r.commitment.0 == commit_of(u64_scalar(amount), opening.0) && r.handle.0
                == point_scaled(self.0, opening.0));
        }
        r
    }
}

impl DecryptHandle {
    /// The canonical 32-byte encoding; decoding it yields the handle back.
    pub fn to_bytes(&self) -> (r: Vec<u8>)
        ensures
            r@ == compressed(self.0),
            r@.len() == 32,
            point_decoded(compressed(self.0)) == Some(self.0),
    {
        point_compress(&self.0)
    }

    /// Succeeds exactly when the buffer is 32 bytes decoding as a canonical
    /// group element.
    pub fn from_bytes(bytes: &[u8]) -> (r: Result<Self, ProofError>)
        ensures
            r is Ok <==> bytes@.len() == 32 && point_decoded(bytes@) is Some,
            r is Ok ==> point_decoded(bytes@) == Some(r->Ok_0.0),
            r is Err ==> r->Err_0 == ProofError::Verification,
    {
        if bytes.len() != 32 {
            return Err(ProofError::Verification);
        }
        match point_decompress(bytes) {
            Some(p) => Ok(DecryptHandle(p)),
            None => Err(ProofError::Verification),
        }
    }
}

/// How many baby steps the decryption table holds.
const BABY_STEP_COUNT: u32 = 4096;

/// How many giant steps cover the full 32-bit space.
const GIANT_STEP_COUNT: u32 = 1048576;

impl ElGamalCiphertext {
    /// Whether a 64-byte buffer decodes: both halves must be canonical
    /// group-element encodings.
    pub open spec fn spec_decodable(b: Seq<u8>) -> bool {
        b.len() == 64 && point_decoded(b.subrange(0, 32)) is Some && point_decoded(
            b.subrange(32, 64),
        ) is Some
    }

    /// What a decodable 64-byte buffer decodes to.
    pub open spec fn spec_decoded(b: Seq<u8>) -> ElGamalCiphertext {
        ElGamalCiphertext {
            commitment: PedersenCommitment(point_decoded(b.subrange(0, 32))->0),
            handle: DecryptHandle(point_decoded(b.subrange(32, 64))->0),
        }
    }

    /// The 64-byte layout: commitment then handle.
    pub fn to_bytes(&self) -> (r: Vec<u8>)
        ensures
            r@ == compressed(self.commitment.0) + compressed(self.handle.0),
            r@.len() == 64,
            compressed(self.commitment.0).len() == 32,
            compressed(self.handle.0).len() == 32,
            point_decoded(compressed(self.commitment.0)) == Some(self.commitment.0),
            point_decoded(compressed(self.handle.0)) == Some(self.handle.0),
    {
        let mut out = self.commitment.to_bytes();
        let handle_bytes = self.handle.to_bytes();
        push_bytes(&mut out, handle_bytes.as_slice());
        out
    }

    /// Decodes the layout of [`Self::to_bytes`]: succeeds exactly when both
    /// halves are canonical encodings.
    pub fn from_bytes(bytes: &[u8]) -> (r: Result<Self, ProofError>)
        ensures
            r is Ok <==> Self::spec_decodable(bytes@),
            r is Ok ==> r->Ok_0 == Self::spec_decoded(bytes@),
            r is Err ==> r->Err_0 == ProofError::Verification,
    {
        if bytes.len() != 64 {
            return Err(ProofError::Verification);
        }
        let commitment = PedersenCommitment::from_bytes(bytes_chunk(bytes, 0, 32).as_slice())?;
        let handle = DecryptHandle::from_bytes(bytes_chunk(bytes, 32, 32).as_slice())?;
        Ok(ElGamalCiphertext { commitment, handle })
    }

    /// The homomorphic difference of two ciphertexts under the same key,
    /// componentwise.
    pub fn sub_ciphertext(&self, other: &Self) -> (r: Self)
        ensures
            r.commitment.0 == point_diff(self.commitment.0, other.commitment.0),
            r.handle.0 == point_diff(self.handle.0, other.handle.0),
    {
        ElGamalCiphertext {
            commitment: self.commitment.sub(&other.commitment),
            handle: DecryptHandle(point_sub(&self.handle.0, &other.handle.0)),
        }
    }

    /// The group element a decryption must match: the commitment with the
    /// handle's blinding removed by the secret key, `C - secret * handle`.
    pub open spec fn spec_decrypt_target(self, secret_key: ElGamalSecretKey) -> GroupPoint {
        point_diff(self.commitment.0, point_scaled(self.handle.0, secret_key.0))
    }

    /// Recovers a 32-bit committed value with the matching secret key: a
    /// baby-step/giant-step discrete-log search over the bounded space.
    /// Returns `None` when no 32-bit value matches (wrong key or corrupted
    /// ciphertext). The lookup table is keyed by the full canonical 32-byte
    /// encoding, which is unique per group element, and every hit is
    /// confirmed against the full group element before it is returned.
    ///
    /// This path is not constant-time: the table probe is an ordinary hash
    /// lookup and the search stops at the recovered value, so its duration
    /// depends on the plaintext. Callers must not rely on it for
    /// timing-sensitive use.
    ///
    /// Whatever is returned is the discrete logarithm: a returned value `v`
    /// provably satisfies `v * G == C - secret * handle`. The converse —
    /// that a representable value is always found — would need the group
    /// laws (distributing scalars over the walk's additions) that the
    /// opaque model deliberately does not state; it is exercised by the
    /// test suite instead.
    pub fn decrypt_u32(&self, secret_key: &ElGamalSecretKey) -> (r: Option<u32>)
        ensures
            r is Some ==> point_scaled(g_pt(), u64_scalar(r->0 as u64)) == self.spec_decrypt_target(
                *secret_key,
            ),
    {
        let g = g_base();
        let target = point_sub(&self.commitment.0, &point_mul(&self.handle.0, &secret_key.0));

        // Baby table: the canonical encoding of j * G for j below
        // BABY_STEP_COUNT.
        let mut table: HashMap<Vec<u8>, u32> = HashMap::new();
        let mut cur = point_mul(&g, &scalar_from_u64(0));
        let mut j: u32 = 0;
        while j < BABY_STEP_COUNT
            invariant
                j <= BABY_STEP_COUNT,
            decreases BABY_STEP_COUNT - j,
        {
            let bytes = point_compress(&cur);
            table.insert(bytes, j);
            cur = point_add(&cur, &g);
            j = j + 1;
        }

        // Giant steps: walk target - k * (BABY_STEP_COUNT * G) through the table.
        let giant = point_mul(&g, &scalar_from_u64(BABY_STEP_COUNT as u64));
        let mut walker = target;
        let mut k: u32 = 0;
        while k < GIANT_STEP_COUNT
            invariant
                k <= GIANT_STEP_COUNT,
                g == g_pt(),
                target == self.spec_decrypt_target(*secret_key),
            decreases GIANT_STEP_COUNT - k,
        {
            let bytes = point_compress(&walker);
            match table.get(&bytes) {
                Some(j_hit) => {
                    let j_val = *j_hit;
                    if j_val < BABY_STEP_COUNT {
                        let candidate: u64 = (k as u64) * 4096u64 + (j_val as u64);
                        proof {
                            assert(candidate < 0x1_0000_0000) by (nonlinear_arith)
                                requires
                                    candidate == (k as u64) * 4096u64 + (j_val as u64),
                                    k < 1048576u32,
                                    j_val < 4096u32;
                        }
                        let check = point_mul(&g, &scalar_from_u64(candidate));
                        if point_eq(&check, &target) {
                            proof {
                                assert(candidate as u32 as u64 == candidate);
                            }
                            return Some(candidate as u32);
                        }
                    }
                },
                None => {},
            }
            walker = point_sub(&walker, &giant);
            k = k + 1;
        }
        None
    }
}

} // verus!

//! Labeled appends and challenges over the Fiat-Shamir transcript.
//!
//! Every appended item is framed as its label followed by its payload, each a
//! length-framed transcript message of its own, so prover and verifier agree
//! on the hash chain exactly when they append the same labels, the same
//! payloads, and in the same order. The spec functions mirror the exec
//! helpers over the transcript names, so contracts can pin the exact
//! transcript states both sides compute. The transcript refuses messages
//! whose length does not fit in a `u32`; [`lemma_protocol_labels_fit`]
//! discharges that bound once for every label of this protocol.

use vstd::prelude::*;
use vstd::string::StringSliceAdditionalSpecFns;
use vstd::string::is_ascii;
use vstd::string::is_ascii_spec_bytes;
use crate::outside::GroupScalar;
use crate::outside::ProofTranscript;
use crate::outside::appended;
use crate::outside::challenged;
use crate::outside::scalar_from_wide;
use crate::outside::transcript_append;
use crate::outside::transcript_challenge;
use crate::outside::wide_scalar;

verus! {

/// The transcript state after one labeled append.
pub open spec fn spec_appended(t: ProofTranscript, label: Seq<u8>, payload: Seq<u8>)
    -> ProofTranscript {
    appended(appended(t, label), payload)
}

/// The scalar a labeled challenge yields from a state.
pub open spec fn spec_challenge(t: ProofTranscript, label: Seq<u8>) -> GroupScalar {
    wide_scalar(challenged(appended(t, label)).0)
}

/// The transcript state after a labeled challenge is drawn.
pub open spec fn spec_challenged(t: ProofTranscript, label: Seq<u8>) -> ProofTranscript {
    challenged(appended(t, label)).1
}

/// Every label this protocol ever appends is a short ASCII string, so each
/// fits a transcript message. Callers invoke this once before their labeled
/// appends and challenges.
pub proof fn lemma_protocol_labels_fit()
    ensures
        "transfer-with-fee-pubkeys".spec_bytes().len() < 0x1_0000_0000,
        "ciphertext-lo".spec_bytes().len() < 0x1_0000_0000,
        "ciphertext-hi".spec_bytes().len() < 0x1_0000_0000,
        "ciphertext-fee".spec_bytes().len() < 0x1_0000_0000,
        "commitment-new-source".spec_bytes().len() < 0x1_0000_0000,
        "commitment-claimed".spec_bytes().len() < 0x1_0000_0000,
        "equality-y0".spec_bytes().len() < 0x1_0000_0000,
        "equality-y1".spec_bytes().len() < 0x1_0000_0000,
        "equality-y2".spec_bytes().len() < 0x1_0000_0000,
        "equality-challenge".spec_bytes().len() < 0x1_0000_0000,
        "validity-y0".spec_bytes().len() < 0x1_0000_0000,
        "validity-y1".spec_bytes().len() < 0x1_0000_0000,
        "validity-y2".spec_bytes().len() < 0x1_0000_0000,
        "validity-challenge".spec_bytes().len() < 0x1_0000_0000,
        "aggregation-scalar".spec_bytes().len() < 0x1_0000_0000,
        "fee-sigma-y-max".spec_bytes().len() < 0x1_0000_0000,
        "fee-sigma-y-delta".spec_bytes().len() < 0x1_0000_0000,
        "fee-sigma-y-claimed".spec_bytes().len() < 0x1_0000_0000,
        "fee-sigma-challenge".spec_bytes().len() < 0x1_0000_0000,
{
    reveal_strlit("transfer-with-fee-pubkeys");
    reveal_strlit("ciphertext-lo");
    reveal_strlit("ciphertext-hi");
    reveal_strlit("ciphertext-fee");
    reveal_strlit("commitment-new-source");
    reveal_strlit("commitment-claimed");
    reveal_strlit("equality-y0");
    reveal_strlit("equality-y1");
    reveal_strlit("equality-y2");
    reveal_strlit("equality-challenge");
    reveal_strlit("validity-y0");
    reveal_strlit("validity-y1");
    reveal_strlit("validity-y2");
    reveal_strlit("validity-challenge");
    reveal_strlit("aggregation-scalar");
    reveal_strlit("fee-sigma-y-max");
    reveal_strlit("fee-sigma-y-delta");
    reveal_strlit("fee-sigma-y-claimed");
    reveal_strlit("fee-sigma-challenge");
    is_ascii_spec_bytes("transfer-with-fee-pubkeys");
    is_ascii_spec_bytes("ciphertext-lo");
    is_ascii_spec_bytes("ciphertext-hi");
    is_ascii_spec_bytes("ciphertext-fee");
    is_ascii_spec_bytes("commitment-new-source");
    is_ascii_spec_bytes("commitment-claimed");
    is_ascii_spec_bytes("equality-y0");
    is_ascii_spec_bytes("equality-y1");
    is_ascii_spec_bytes("equality-y2");
    is_ascii_spec_bytes("equality-challenge");
    is_ascii_spec_bytes("validity-y0");
    is_ascii_spec_bytes("validity-y1");
    is_ascii_spec_bytes("validity-y2");
    is_ascii_spec_bytes("validity-challenge");
    is_ascii_spec_bytes("aggregation-scalar");
    is_ascii_spec_bytes("fee-sigma-y-max");
    is_ascii_spec_bytes("fee-sigma-y-delta");
    is_ascii_spec_bytes("fee-sigma-y-claimed");
    is_ascii_spec_bytes("fee-sigma-challenge");
    assert(is_ascii("transfer-with-fee-pubkeys"));
    assert(is_ascii("ciphertext-lo"));
    assert(is_ascii("ciphertext-hi"));
    assert(is_ascii("ciphertext-fee"));
    assert(is_ascii("commitment-new-source"));
    assert(is_ascii("commitment-claimed"));
    assert(is_ascii("equality-y0"));
    assert(is_ascii("equality-y1"));
    assert(is_ascii("equality-y2"));
    assert(is_ascii("equality-challenge"));
    assert(is_ascii("validity-y0"));
    assert(is_ascii("validity-y1"));
    assert(is_ascii("validity-y2"));
    assert(is_ascii("validity-challenge"));
    assert(is_ascii("aggregation-scalar"));
    assert(is_ascii("fee-sigma-y-max"));
    assert(is_ascii("fee-sigma-y-delta"));
    assert(is_ascii("fee-sigma-y-claimed"));
    assert(is_ascii("fee-sigma-challenge"));
}

/// Absorbs a labeled byte payload into the transcript. Label and payload
/// must each fit a transcript message.
pub(crate) fn append_labeled(t: &mut ProofTranscript, label: &str, payload: &[u8])
    requires
        label.spec_bytes().len() < 0x1_0000_0000,
        payload@.len() < 0x1_0000_0000,
    ensures
        *final(t) == spec_appended(*old(t), label.spec_bytes(), payload@),
{
    transcript_append(t, label.as_bytes());
    transcript_append(t, payload);
}

/// Draws a labeled challenge scalar from everything appended so far.
pub(crate) fn challenge_scalar(t: &mut ProofTranscript, label: &str) -> (r: GroupScalar)
    requires
        label.spec_bytes().len() < 0x1_0000_0000,
    ensures
        r == spec_challenge(*old(t), label.spec_bytes()),
        *final(t) == spec_challenged(*old(t), label.spec_bytes()),
{
    transcript_append(t, label.as_bytes());
    let wide = transcript_challenge(t);
    scalar_from_wide(wide.as_slice())
}

} // verus!

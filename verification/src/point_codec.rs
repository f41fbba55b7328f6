//! Shared decoding of group elements and scalars out of fixed-offset byte
//! buffers; every malformed chunk is the same `Verification` error.

use vstd::prelude::*;
use crate::bytes_util::bytes_chunk;
use crate::errors::ProofError;
use crate::outside::GroupPoint;
use crate::outside::GroupScalar;
use crate::outside::point_decoded;
use crate::outside::point_decompress;
use crate::outside::scalar_decoded;
use crate::outside::scalar_from_canonical;

verus! {

/// Decodes the 32-byte group element at `offset`: succeeds exactly when the
/// chunk is a canonical group-element encoding.
pub(crate) fn read_point(bytes: &[u8], offset: usize) -> (r: Result<GroupPoint, ProofError>)
    requires
        offset + 32 <= bytes@.len(),
    ensures
        r is Ok <==> point_decoded(bytes@.subrange(offset as int, offset + 32)) is Some,
        r is Ok ==> point_decoded(bytes@.subrange(offset as int, offset + 32)) == Some(r->Ok_0),
        r is Err ==> r->Err_0 == ProofError::Verification,
{
    let chunk = bytes_chunk(bytes, offset, 32);
    match point_decompress(chunk.as_slice()) {
        Some(p) => Ok(p),
        None => Err(ProofError::Verification),
    }
}

/// Decodes the canonical 32-byte scalar at `offset`: succeeds exactly when
/// the chunk is a canonical scalar encoding.
pub(crate) fn read_scalar(bytes: &[u8], offset: usize) -> (r: Result<GroupScalar, ProofError>)
    requires
        offset + 32 <= bytes@.len(),
    ensures
        r is Ok <==> scalar_decoded(bytes@.subrange(offset as int, offset + 32)) is Some,
        r is Ok ==> scalar_decoded(bytes@.subrange(offset as int, offset + 32)) == Some(r->Ok_0),
        r is Err ==> r->Err_0 == ProofError::Verification,
{
    let chunk = bytes_chunk(bytes, offset, 32);
    match scalar_from_canonical(chunk.as_slice()) {
        Some(s) => Ok(s),
        None => Err(ProofError::Verification),
    }
}

} // verus!

//! Single-block zstd compression, as the `zstd` crate's bulk API computes it.

use crate::error::{route_message, NativeTacticRouteRunError};
use vstd::prelude::*;

verus! {

/// What `zstd::bulk::compress(data, level)` returns: the compressed block,
/// or `None` where it reports an error.
pub uninterp spec fn zstd_bulk_compress(data: Seq<u8>, level: i32) -> Option<Seq<u8>>;

/// What `zstd::bulk::decompress(data, capacity)` returns: the decompressed
/// block, or `None` where it reports an error.
pub uninterp spec fn zstd_bulk_decompress(data: Seq<u8>, capacity: usize) -> Option<Seq<u8>>;

/// Calls `zstd::bulk::compress`. Trusted: its outcome is the one named by
/// `zstd_bulk_compress`, and zstd is lossless: decompressing the returned
/// block with a capacity of at least the input's length gives the input
/// back. Nothing is claimed of the compressed bytes themselves, nor of
/// the text of a reported error, which is zstd's own.
#[verifier::external_body]
pub(crate) fn zstd_compress(data: &[u8], level: i32) -> (r: Result<Vec<u8>, NativeTacticRouteRunError>)
    ensures
        r is Ok <==> zstd_bulk_compress(data@, level) is Some,
        r matches Ok(c) ==> zstd_bulk_compress(data@, level) == Some(c@),
        r matches Ok(c) ==> forall|capacity: usize|
            capacity >= data@.len() ==> #[trigger] zstd_bulk_decompress(c@, capacity) == Some(data@),
{
    match zstd::bulk::compress(data, level) {
        Ok(compressed) => Ok(compressed),
        Err(error) => Err(route_message(&error.to_string())),
    }
}

/// Calls `zstd::bulk::decompress`. Trusted: its outcome is the one named
/// by `zstd_bulk_decompress`, and a decompressed block never exceeds
/// `capacity` bytes, the bound the crate documents. The text of a
/// reported error is zstd's own, and nothing is claimed of it.
#[verifier::external_body]
pub(crate) fn zstd_decompress(data: &[u8], capacity: usize) -> (r: Result<Vec<u8>, NativeTacticRouteRunError>)
    ensures
        r is Ok <==> zstd_bulk_decompress(data@, capacity) is Some,
        r matches Ok(v) ==> zstd_bulk_decompress(data@, capacity) == Some(v@),
        r matches Ok(v) ==> v@.len() <= capacity,
{
    match zstd::bulk::decompress(data, capacity) {
        Ok(decompressed) => Ok(decompressed),
        Err(error) => Err(route_message(&error.to_string())),
    }
}

} // verus!

//! The segment codec: zstd compression of one segment's bytes.

use vstd::prelude::*;
use crate::errors::ArchiveError;

verus! {

/// The compression level the engine archives at: near the top of zstd's
/// range, trading time for density.
pub const ZSTD_COMPRESSION_LEVEL: i32 = 21;

/// What `zstd::stream::decode_all` makes of a byte string: the decompressed
/// bytes if the input is a complete, well-formed zstd frame, and nothing
/// otherwise. A function of the input bytes alone.
pub uninterp spec fn zstd_plain(frame: Seq<u8>) -> Option<Seq<u8>>;

/// Relies on zstd's `stream::encode_all`: on success the result is a zstd
/// frame holding exactly the input, so `stream::decode_all` — the codec is
/// lossless — gives the input back.
#[verifier::external_body]
pub(crate) fn zstd_compress(data: &[u8], level: i32) -> (r: Result<Vec<u8>, std::io::Error>)
    ensures
        r matches Ok(c) ==> zstd_plain(c@) == Some(data@),
{
    zstd::stream::encode_all(data, level)
}

/// Relies on zstd's `stream::decode_all`: it decompresses a complete zstd
/// frame and fails on anything else, deciding by the input bytes alone.
#[verifier::external_body]
pub(crate) fn zstd_decompress(data: &[u8]) -> (r: Result<Vec<u8>, std::io::Error>)
    ensures
        r matches Ok(p) ==> zstd_plain(data@) == Some(p@),
        r is Err ==> zstd_plain(data@) is None,
{
    zstd::stream::decode_all(data)
}

/// Recovers the cleartext bytes of one compressed artifact.
pub fn decompress_artifact(data: &Vec<u8>) -> (r: Result<Vec<u8>, ArchiveError>)
    ensures
        r matches Ok(p) ==> zstd_plain(data@) == Some(p@),
        r matches Err(e) ==> zstd_plain(data@) is None && e is CodecFailure,
{
    match zstd_decompress(data.as_slice()) {
        Ok(p) => Ok(p),
        Err(e) => Err(ArchiveError::CodecFailure(e)),
    }
}

} // verus!

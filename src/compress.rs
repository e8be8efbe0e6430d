//! Compression of sidecar contents.

use vstd::prelude::*;

use crate::error::TvError;

verus! {

#[verifier::external_type_specification]
#[verifier::external_body]
pub struct ExIoError(std::io::Error);

/// What `zstd::encode_all` produces from `data` at compression `level`.
pub uninterp spec fn zstd_encoded(data: Seq<u8>, level: int) -> Seq<u8>;

/// What `zstd::decode_all` produces from `data`: the decompressed bytes, or
/// nothing when `data` is not a sequence of valid zstd frames.
pub uninterp spec fn zstd_decoded(data: Seq<u8>) -> Option<Seq<u8>>;

/// Relies on `zstd::encode_all`: compresses all of `data` at `level` into one
/// zstd frame (the level is clamped to zstd's bounds; reading a slice and
/// writing a `Vec` cannot fail), which zstd's lossless format decodes back
/// to `data`.
#[verifier::external_body]
fn zstd_encode_all(data: &[u8], level: i32) -> (r: Result<Vec<u8>, std::io::Error>)
    ensures
        r is Ok,
        r matches Ok(c) ==> c@ == zstd_encoded(data@, level as int),
        r matches Ok(c) ==> zstd_decoded(c@) == Some(data@),
{
    zstd::encode_all(data, level)
}

/// Relies on `zstd::decode_all`: decompresses all the frames in `data`, and
/// fails exactly when they are not valid.
#[verifier::external_body]
fn zstd_decode_all(data: &[u8]) -> (r: Result<Vec<u8>, std::io::Error>)
    ensures
        r is Ok <==> zstd_decoded(data@) is Some,
        r matches Ok(d) ==> zstd_decoded(data@) == Some(d@),
{
    zstd::decode_all(data)
}

/// The compression level of sidecar files.
pub const COMPRESSION_LEVEL: i32 = 15;

/// Compresses the serialized content of a sidecar; decompressing the result
/// gives `data` back.
pub fn compress(data: &[u8]) -> (r: Vec<u8>)
    ensures
        r@ == zstd_encoded(data@, COMPRESSION_LEVEL as int),
        zstd_decoded(r@) == Some(data@),
{
    zstd_encode_all(data, COMPRESSION_LEVEL).unwrap()
}

/// Decompresses the content of a sidecar; fails with `Load` exactly when it
/// is not valid zstd data.
pub fn decompress(data: &[u8]) -> (r: Result<Vec<u8>, TvError>)
    ensures
        match zstd_decoded(data@) {
            Some(d) => r matches Ok(x) && x@ == d,
            None => r matches Err(TvError::Load { .. }),
        },
{
    match zstd_decode_all(data) {
        Ok(d) => Ok(d),
        Err(e) => Err(TvError::Load { message: e.to_string() }),
    }
}

} // verus!

//! The byte-level codec of stored chunks: zlib compression and the Adler-32
//! checksum (from `yazi`), and the digest of a dimension (from `wyhash`).
use vstd::prelude::*;
use std::hash::Hasher;
use crate::chunk_types::CompressionFailure;

verus! {

#[verifier::external_type_specification]
#[verifier::external_body]
pub struct ExYaziError(yazi::Error);

/// What `yazi::compress` produces from `data` in zlib format at the fastest
/// compression level.
pub uninterp spec fn zlib_deflate_fast(data: Seq<u8>) -> Seq<u8>;

/// What `yazi::decompress` gives for `data` read as zlib: the decompressed
/// bytes and the checksum found in the stream's footer, or `None` when the
/// data is not a complete zlib stream.
pub uninterp spec fn zlib_inflate(data: Seq<u8>) -> Option<(Seq<u8>, Option<u32>)>;

/// The error `yazi::decompress` gives for `data` read as zlib, when it is not
/// a complete zlib stream.
pub uninterp spec fn inflate_error(data: Seq<u8>) -> yazi::Error;

/// What a `yazi::Error` is reported as.
pub uninterp spec fn compression_failure_of(err: yazi::Error) -> CompressionFailure;

/// What WyHash (version 1, the crate's default), seeded with 0, gives for
/// the bytes written to it.
pub uninterp spec fn wyhash0(bytes: Seq<u8>) -> u64;

/// The two running sums of Adler-32, each modulo 65521.
pub open spec fn adler_sums(data: Seq<u8>) -> (int, int)
    decreases data.len(),
{
    if data.len() == 0 {
        (1, 0)
    } else {
        let (a, b) = adler_sums(data.drop_last());
        let a2 = (a + data.last()) % 65521;
        (a2, (b + a2) % 65521)
    }
}

/// The Adler-32 checksum: the second sum in the high half, the first in the
/// low half.
pub open spec fn adler32(data: Seq<u8>) -> u32 {
    let (a, b) = adler_sums(data);
    (b * 65536 + a) as u32
}

/// `yazi::compress` in zlib format at `CompressionLevel::BestSpeed`. Writing
/// into a vector never fails (the vector sink's `put_bits`, `write` and `pad`
/// always return `Ok`). As the crate documents, decompressing its output gives
/// back the input, with the input's Adler-32 checksum in the footer.
#[verifier::external_body]
pub(crate) fn deflate_fast(data: &[u8]) -> (r: Result<Vec<u8>, yazi::Error>)
    ensures
        r is Ok,
        r matches Ok(v) ==> v@ == zlib_deflate_fast(data@) && zlib_inflate(v@) == Some(
            (data@, Some(adler32(data@))),
        ),
{
    yazi::compress(data, yazi::Format::Zlib, yazi::CompressionLevel::BestSpeed)
}

/// `yazi::decompress` in zlib format.
#[verifier::external_body]
pub(crate) fn inflate(data: &[u8]) -> (r: Result<(Vec<u8>, Option<u32>), yazi::Error>)
    ensures
        match r {
            Ok((bytes, checksum)) => zlib_inflate(data@) == Some((bytes@, checksum)),
            Err(e) => zlib_inflate(data@) is None && e == inflate_error(data@),
        },
{
    yazi::decompress(data, yazi::Format::Zlib)
}

/// `Adler32::from_buf` followed by `finish`: the Adler-32 checksum of `data`.
#[verifier::external_body]
pub(crate) fn checksum_of(data: &[u8]) -> (r: u32)
    ensures
        r == adler32(data@),
{
    yazi::Adler32::from_buf(data).finish()
}

/// The variants of `yazi::Error`.
#[verifier::external_body]
pub(crate) fn classify_compression_error(err: yazi::Error) -> (r: CompressionFailure)
    ensures
        r == compression_failure_of(err),
{
    match err {
        yazi::Error::Underflow => CompressionFailure::Underflow,
        yazi::Error::InvalidBitstream => CompressionFailure::InvalidBitstream,
        yazi::Error::Overflow => CompressionFailure::Overflow,
        yazi::Error::Finished => CompressionFailure::Finished,
        yazi::Error::Io(e) => CompressionFailure::Io(e),
    }
}

/// `WyHash::with_seed(0)`, then `write` of the bytes, then `finish`.
#[verifier::external_body]
pub(crate) fn wyhash_seed0(bytes: &[u8]) -> (r: u64)
    ensures
        r == wyhash0(bytes@),
{
    let mut hasher = wyhash::WyHash::with_seed(0);
    hasher.write(bytes);
    hasher.finish()
}

} // verus!

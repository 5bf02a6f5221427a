//! The chunk database: compressed chunks stored in the backend's `chunks`
//! table under a key made of the dimension and the chunk position.
//!
//! Chunks travel through this module in serialized form; turning a chunk into
//! bytes and back is the caller's business.
use vstd::prelude::*;
use crate::chunk_codec::{
    adler32, checksum_of, classify_compression_error, compression_failure_of, deflate_fast, inflate,
    inflate_error, wyhash0, wyhash_seed0, zlib_deflate_fast, zlib_inflate,
};
use crate::chunk_types::{spec_dimension_bytes, spec_pack, ChunkPos, Dimension, WorldError};
use crate::errors::{from_engine, StorageError};
use crate::heed_ops::table_missing;
use crate::lmdb::{bytes_of, changed_in, changed_through, lookup_failure, read_in, seen_in, StorageBackend};
use crate::table::{spec_delete, spec_upsert};

verus! {

/// The digest of a dimension: WyHash seeded with 0 over its bytes.
pub open spec fn spec_dimension_digest(dimension: Dimension) -> u64 {
    wyhash0(spec_dimension_bytes(dimension))
}

/// The key of a chunk: the low 32 bits of the dimension's digest in the top
/// 32 bits of the key, the packed position in the low 64 bits.
pub open spec fn spec_chunk_key(dimension: Dimension, pos: ChunkPos) -> u128 {
    ((spec_dimension_digest(dimension) as int % 0x1_0000_0000) * 0x1_0000_0000_0000_0000_0000_0000
        + spec_pack(pos) as int) as u128
}

/// What reading back stored chunk bytes gives: the serialized chunk, or the
/// (computed, stored) checksums that disagree, or `None` when the bytes are
/// not a zlib stream. The checksum is compared only when asked to, and only
/// when the stream carries one.
pub open spec fn spec_decode_chunk(stored: Seq<u8>, verify: bool) -> Result<Seq<u8>, Option<(u32, u32)>> {
    match zlib_inflate(stored) {
        None => Err(None),
        Some((data, checksum)) => {
            if verify && checksum is Some && adler32(data) != checksum->Some_0 {
                Err(Some((adler32(data), checksum->Some_0)))
            } else {
                Ok(data)
            }
        },
    }
}

/// The storage errors that reach the chunk database's caller, for the
/// `chunks` table of an environment.
pub open spec fn is_storage_error(env_id: int, e: WorldError) -> bool {
    e matches WorldError::Storage(se) && lookup_failure(env_id, "chunks"@, se)
}

/// What reading a chunk gives for the bytes found under its key.
pub open spec fn chunk_result(found: Option<Seq<u8>>, verify: bool, r: Result<Vec<u8>, WorldError>) -> bool {
    match found {
        None => r matches Err(WorldError::ChunkNotFound),
        Some(bytes) => match spec_decode_chunk(bytes, verify) {
            Ok(data) => r matches Ok(v) && v@ == data,
            Err(Some((computed, expected))) => r matches Err(WorldError::CorruptedChunkData(a, b))
                && a == computed && b == expected,
            Err(None) => r matches Err(WorldError::Compression(f)) && f == compression_failure_of(
                inflate_error(bytes),
            ),
        },
    }
}

/// The key under which a chunk is stored.
pub fn create_key(dimension: Dimension, pos: ChunkPos) -> (r: u128)
    ensures
        r == spec_chunk_key(dimension, pos),
{
    let bytes = dimension.digest_bytes();
    let dim_hash: u64 = wyhash_seed0(bytes.as_slice());
    let packed: u64 = pos.pack();
    let wide_hash: u128 = dim_hash as u128;
    let wide_pos: u128 = packed as u128;
    let key = (wide_hash << 96u128) | wide_pos;
    assert((wide_hash << 96u128) | wide_pos == (wide_hash % 0x1_0000_0000)
        * 0x1_0000_0000_0000_0000_0000_0000 + wide_pos) by (bit_vector)
        requires
            wide_hash < 0x1_0000_0000_0000_0000,
            wide_pos < 0x1_0000_0000_0000_0000,
    ;
    key
}

/// Compresses a serialized chunk for storage. What it gives back reads back
/// as the serialized chunk, whether or not the checksum is verified.
pub fn encode_chunk(serialized: &[u8]) -> (r: Result<Vec<u8>, WorldError>)
    ensures
        match r {
            Ok(stored) => stored@ == zlib_deflate_fast(serialized@) && forall|verify: bool|
                #[trigger] spec_decode_chunk(stored@, verify) == Ok::<Seq<u8>, Option<(u32, u32)>>(
                    serialized@,
                ),
            Err(_) => false,
        },
{
    match deflate_fast(serialized) {
        Ok(stored) => Ok(stored),
        Err(e) => Err(WorldError::Compression(classify_compression_error(e))),
    }
}

/// Decompresses stored chunk bytes, checking the stored checksum when
/// `verify` is set.
pub fn decode_chunk(stored: &[u8], verify: bool) -> (r: Result<Vec<u8>, WorldError>)
    ensures
        chunk_result(Some(stored@), verify, r),
{
    let (data, checksum) = match inflate(stored) {
        Ok(decoded) => decoded,
        Err(e) => return Err(WorldError::Compression(classify_compression_error(e))),
    };
    if verify {
        if let Some(expected_checksum) = checksum {
            let real_checksum = checksum_of(data.as_slice());
            if real_checksum != expected_checksum {
                return Err(WorldError::CorruptedChunkData(real_checksum, expected_checksum));
            }
        }
    }
    Ok(data)
}

/// The serialized chunk from what the table holds under its key: missing
/// bytes are `ChunkNotFound`, present bytes are decoded.
pub fn chunk_from_stored(stored: Option<Vec<u8>>, verify: bool) -> (r: Result<Vec<u8>, WorldError>)
    ensures
        chunk_result(bytes_of(stored), verify, r),
{
    match stored {
        Some(compressed) => decode_chunk(compressed.as_slice(), verify),
        None => Err(WorldError::ChunkNotFound),
    }
}

/// The name of the table chunks are stored in, which holds no NUL character.
fn chunks_table() -> (r: &'static str)
    ensures
        r@ == "chunks"@,
        !r@.contains('\0'),
{
    proof {
        reveal_strlit("chunks");
    }
    "chunks"
}

/// Stores a serialized chunk, compressed, under its key in the `chunks`
/// table, creating the table first when it does not exist.
pub fn save_chunk_internal(
    storage: &StorageBackend,
    pos: ChunkPos,
    dimension: Dimension,
    serialized: &[u8],
) -> (r: Result<(), WorldError>)
    ensures
        r is Ok ==> exists|before: Map<u128, Seq<u8>>, after: Map<u128, Seq<u8>>|
            #[trigger] changed_in(storage.env_id(), "chunks"@, before, after) && after
                == spec_upsert(
                before,
                spec_chunk_key(dimension, pos),
                zlib_deflate_fast(serialized@),
            ),
        r matches Err(e) ==> e matches WorldError::Storage(se) && from_engine(se),
{
    let table = chunks_table();
    let db = match storage.find_table(table) {
        Ok(Some(db)) => db,
        Ok(None) => match storage.create_table_handle(table) {
            Ok(db) => db,
            Err(e) => return Err(WorldError::Storage(e)),
        },
        Err(e) => return Err(WorldError::Storage(e)),
    };
    let as_bytes = encode_chunk(serialized)?;
    let digest = create_key(dimension, pos);
    let stored = storage.upsert_with(db, digest, as_bytes);
    proof {
        if stored is Ok {
            let (before, after) = choose|before: Map<u128, Seq<u8>>, after: Map<u128, Seq<u8>>|
                #[trigger] changed_through(storage.env_id(), db, before, after) && after
                    == spec_upsert(before, spec_chunk_key(dimension, pos), zlib_deflate_fast(serialized@));
            assert(changed_in(storage.env_id(), "chunks"@, before, after));
        }
    }
    match stored {
        Ok(_) => Ok(()),
        Err(e) => Err(WorldError::Storage(e)),
    }
}

/// Loads a serialized chunk from under its key in the `chunks` table,
/// checking its checksum when `verify` is set.
pub fn load_chunk_internal(
    storage: &StorageBackend,
    pos: ChunkPos,
    dimension: Dimension,
    verify: bool,
) -> (r: Result<Vec<u8>, WorldError>)
    ensures
        match r {
            Err(WorldError::Storage(e)) => lookup_failure(storage.env_id(), "chunks"@, e),
            _ => exists|found: Option<Seq<u8>>|
                #[trigger] read_in(storage.env_id(), "chunks"@, spec_chunk_key(dimension, pos), found)
                    && chunk_result(found, verify, r),
        },
{
    let table = chunks_table();
    let digest = create_key(dimension, pos);
    let stored = match storage.get(table, digest) {
        Ok(found) => found,
        Err(e) => return Err(WorldError::Storage(e)),
    };
    let ghost found = bytes_of(stored);
    let r = chunk_from_stored(stored, verify);
    proof {
        assert(read_in(storage.env_id(), "chunks"@, spec_chunk_key(dimension, pos), found));
    }
    r
}

/// Whether a chunk is stored under its key; `false` when the `chunks` table
/// does not exist.
pub fn chunk_exists_internal(storage: &StorageBackend, pos: ChunkPos, dimension: Dimension) -> (r:
    Result<bool, WorldError>)
    ensures
        r matches Ok(b) ==> (!b && table_missing(storage.env_id(), "chunks"@)) || exists|
            found: Option<Seq<u8>>,
        |
            #[trigger] read_in(storage.env_id(), "chunks"@, spec_chunk_key(dimension, pos), found)
                && b == found is Some,
        r matches Err(e) ==> e matches WorldError::Storage(se) && from_engine(se),
{
    let table = chunks_table();
    let db = match storage.find_table(table) {
        Ok(Some(db)) => db,
        Ok(None) => return Ok(false),
        Err(e) => return Err(WorldError::Storage(e)),
    };
    let digest = create_key(dimension, pos);
    match storage.get_with(db, digest) {
        Ok(found) => {
            proof {
                assert(read_in(storage.env_id(), "chunks"@, spec_chunk_key(dimension, pos), bytes_of(found)));
            }
            Ok(found.is_some())
        },
        Err(e) => Err(WorldError::Storage(e)),
    }
}

/// Deletes the chunk stored under its key; `KeyNotFound` when there is none.
pub fn delete_chunk_internal(storage: &StorageBackend, pos: ChunkPos, dimension: Dimension) -> (r:
    Result<(), WorldError>)
    ensures
        r is Ok ==> exists|before: Map<u128, Seq<u8>>, after: Map<u128, Seq<u8>>|
            #[trigger] changed_in(storage.env_id(), "chunks"@, before, after) && spec_delete(
                before,
                spec_chunk_key(dimension, pos),
            ) == Ok::<Map<u128, Seq<u8>>, StorageError>(after),
        r matches Err(e) ==> is_storage_error(storage.env_id(), e) || (e == WorldError::Storage(
            StorageError::KeyNotFound(spec_chunk_key(dimension, pos) as u64),
        ) && exists|before: Map<u128, Seq<u8>>|
            #[trigger] seen_in(storage.env_id(), "chunks"@, before) && !before.contains_key(
                spec_chunk_key(dimension, pos),
            )),
{
    let table = chunks_table();
    let digest = create_key(dimension, pos);
    match storage.delete(table, digest) {
        Ok(()) => Ok(()),
        Err(e) => Err(WorldError::Storage(e)),
    }
}

/// Flushes the backend to disk.
pub fn sync_internal(storage: &StorageBackend) -> (r: Result<(), WorldError>)
    ensures
        r matches Err(e) ==> e matches WorldError::Storage(se) && from_engine(se),
{
    match storage.flush() {
        Ok(()) => Ok(()),
        Err(e) => Err(WorldError::Storage(e)),
    }
}

/// Chunks of one dimension at different positions have different keys.
pub proof fn law_chunk_keys_distinct(dimension: Dimension, a: ChunkPos, b: ChunkPos)
    requires
        a != b,
    ensures
        spec_chunk_key(dimension, a) != spec_chunk_key(dimension, b),
{
    let (ax, az, bx, bz) = (a.x, a.z, b.x, b.z);
    assert(ax as u32 == bx as u32 ==> ax == bx) by (bit_vector);
    assert(az as u32 == bz as u32 ==> az == bz) by (bit_vector);
}

/// Decoding gives back the serialized chunk whenever the stored bytes
/// decompress to it with its own checksum.
pub proof fn law_decode_inverts_encode(serialized: Seq<u8>, stored: Seq<u8>, verify: bool)
    requires
        zlib_inflate(stored) == Some((serialized, Some(adler32(serialized)))),
    ensures
        spec_decode_chunk(stored, verify) == Ok::<Seq<u8>, Option<(u32, u32)>>(serialized),
{
}

} // verus!

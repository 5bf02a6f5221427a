use std::hash::{Hash, Hasher};
use temper_storage::chunk_types::{ChunkPos, Dimension, WorldError};
use temper_storage::chunks::{chunk_from_stored, create_key, decode_chunk, encode_chunk};

#[test]
fn chunk_key_layout() {
    let pos = ChunkPos::new(1, 2);
    assert_eq!(pos.pack(), 0x0000_0001_0000_0002);
    assert_eq!(ChunkPos::new(-1, -2).pack(), 0xFFFF_FFFF_FFFF_FFFE);
    let key = create_key(Dimension::Overworld, pos);
    assert_eq!(key as u64, pos.pack());
    assert_eq!((key >> 64) as u32, 0);
    let other = create_key(Dimension::Overworld, ChunkPos::new(2, 1));
    assert_ne!(key, other);
    assert_eq!(create_key(Dimension::Overworld, pos), key);
    let nether = create_key(Dimension::Nether, pos);
    assert_eq!(nether as u64, pos.pack());
    assert_ne!(nether >> 96, key >> 96);
}

#[test]
fn decode_reverses_encode() {
    let data = b"Wikipedia".to_vec();
    let stored = encode_chunk(&data).unwrap();
    assert_ne!(stored, data);
    assert_eq!(decode_chunk(&stored, true).unwrap(), data);
    assert_eq!(decode_chunk(&stored, false).unwrap(), data);
}

#[test]
fn corrupted_checksum_is_detected_only_when_verifying() {
    let data = b"Wikipedia".to_vec();
    let mut stored = encode_chunk(&data).unwrap();
    let n = stored.len();
    stored[n - 1] ^= 0xFF;
    let expected = u32::from_be_bytes([stored[n - 4], stored[n - 3], stored[n - 2], stored[n - 1]]);
    match decode_chunk(&stored, true) {
        Err(WorldError::CorruptedChunkData(computed, found)) => {
            assert_eq!(computed, 0x11E6_0398);
            assert_eq!(found, expected);
        }
        Ok(_) => panic!("corruption was not detected"),
        Err(other) => panic!("unexpected error {:?}", other),
    }
    assert_eq!(decode_chunk(&stored, false).unwrap(), data);
}

#[test]
fn garbage_is_a_compression_error() {
    let err = decode_chunk(&[0xde, 0xad, 0xbe, 0xef], true).unwrap_err();
    assert!(matches!(err, WorldError::Compression(_)));
    assert!(matches!(chunk_from_stored(None, true), Err(WorldError::ChunkNotFound)));
}

#[test]
fn dimension_digest_matches_hashing_the_dimension() {
    for dimension in [Dimension::Overworld, Dimension::Nether, Dimension::End] {
        let mut hasher = wyhash::WyHash::with_seed(0);
        dimension.hash(&mut hasher);
        let digest = hasher.finish();
        let key = create_key(dimension, ChunkPos::new(5, 6));
        assert_eq!((key >> 96) as u32, digest as u32);
        assert_eq!(key as u64, ChunkPos::new(5, 6).pack());
    }
}

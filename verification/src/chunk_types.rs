//! The values the chunk database works with: dimensions, chunk positions and
//! its errors.
use vstd::prelude::*;
use crate::errors::StorageError;

verus! {

/// A dimension of the world.
#[derive(Debug, Clone, Copy, PartialEq, Eq, Hash)]
pub enum Dimension {
    Overworld,
    Nether,
    End,
}

/// The bytes a dimension is digested from: its number (0, 1, 2 in the order
/// above) as a 64-bit little-endian integer.
pub open spec fn spec_dimension_bytes(d: Dimension) -> Seq<u8> {
    let n: u8 = match d {
        Dimension::Overworld => 0,
        Dimension::Nether => 1,
        Dimension::End => 2,
    };
    seq![n, 0, 0, 0, 0, 0, 0, 0]
}

impl Dimension {
    /// The bytes the dimension is digested from.
    pub fn digest_bytes(&self) -> (r: Vec<u8>)
        ensures
            r@ == spec_dimension_bytes(*self),
    {
        let n: u8 = match self {
            Dimension::Overworld => 0,
            Dimension::Nether => 1,
            Dimension::End => 2,
        };
        let r = vec![n, 0, 0, 0, 0, 0, 0, 0];
        assert(r@ =~= spec_dimension_bytes(*self));
        r
    }
}

/// The position of a chunk: its column coordinates.
#[derive(Debug, Clone, Copy, PartialEq, Eq, Hash)]
pub struct ChunkPos {
    pub x: i32,
    pub z: i32,
}

/// The packed form of a chunk position: `x` in the high 32 bits, `z` in the
/// low 32 bits, each as its two's-complement bit pattern.
pub open spec fn spec_pack(pos: ChunkPos) -> u64 {
    ((pos.x as u32) as int * 0x1_0000_0000 + (pos.z as u32) as int) as u64
}

impl ChunkPos {
    pub fn new(x: i32, z: i32) -> (r: ChunkPos)
        ensures
            r.x == x,
            r.z == z,
    {
        ChunkPos { x, z }
    }

    /// Packs the position into 64 bits.
    pub fn pack(&self) -> (r: u64)
        ensures
            r == spec_pack(*self),
    {
        let hi: u64 = self.x as u32 as u64;
        let lo: u64 = self.z as u32 as u64;
        assert((hi << 32u64) | lo == hi * 0x1_0000_0000 + lo) by (bit_vector)
            requires
                hi < 0x1_0000_0000,
                lo < 0x1_0000_0000,
        ;
        (hi << 32u64) | lo
    }
}

/// The failures of the zlib codec.
#[derive(Debug)]
pub enum CompressionFailure {
    Underflow,
    InvalidBitstream,
    Overflow,
    Finished,
    Io(std::io::Error),
}

/// Errors of the chunk database.
#[derive(Debug)]
pub enum WorldError {
    /// The stored checksum does not match the data: (computed, stored).
    CorruptedChunkData(u32, u32),
    ChunkNotFound,
    BitcodeDeserializeError(String),
    Storage(StorageError),
    Compression(CompressionFailure),
}

} // verus!

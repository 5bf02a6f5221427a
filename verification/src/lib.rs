pub mod cache;
pub mod chunk_codec;
pub mod chunk_types;
pub mod chunks;
pub mod door;
pub mod errors;
pub mod heed_ops;
pub mod lmdb;
pub mod table;
pub mod text;

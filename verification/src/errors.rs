//! Error types of the storage layer and of the chunk database built on it.
use vstd::prelude::*;
use vstd::std_specs::convert::FromSpecImpl;
use crate::heed_ops::{classify_engine_error, engine_failure_of};

verus! {

#[verifier::external_type_specification]
#[verifier::external_body]
pub struct ExIoError(std::io::Error);

/// What went wrong inside the key-value engine, reduced to plain values.
#[derive(Debug)]
pub enum EngineFailure {
    /// An operating-system I/O failure.
    Io(std::io::Error),
    /// A key or value could not be encoded; carries the encoder's message.
    Encoding(String),
    /// A stored value could not be decoded; carries the decoder's message.
    Decoding(String),
    /// Any other engine failure; carries the engine's description of it.
    Other(String),
}

/// Errors reported by the storage backend.
#[derive(Debug)]
pub enum StorageError {
    GenericIoError(std::io::Error),
    WriteError(String),
    ReadError(String),
    DatabaseError(String),
    DatabaseInitError(String),
    InvalidPath,
    KeyExists(u64),
    KeyNotFound(u64),
    TableError(String),
}

/// The storage error that an engine failure is reported as.
pub open spec fn spec_error_of_failure(f: EngineFailure) -> StorageError {
    match f {
        EngineFailure::Io(e) => StorageError::GenericIoError(e),
        EngineFailure::Encoding(m) => StorageError::WriteError(m),
        EngineFailure::Decoding(m) => StorageError::ReadError(m),
        EngineFailure::Other(m) => StorageError::DatabaseError(m),
    }
}

impl StorageError {
    /// True of the errors that only the engine itself produces.
    pub open spec fn is_engine_failure(self) -> bool {
        ||| self is GenericIoError
        ||| self is WriteError
        ||| self is ReadError
        ||| self is DatabaseError
    }

    /// Reports an engine failure as a storage error.
    pub fn from_failure(f: EngineFailure) -> (r: StorageError)
        ensures
            r == spec_error_of_failure(f),
            r.is_engine_failure(),
    {
        match f {
            EngineFailure::Io(e) => StorageError::GenericIoError(e),
            EngineFailure::Encoding(m) => StorageError::WriteError(m),
            EngineFailure::Decoding(m) => StorageError::ReadError(m),
            EngineFailure::Other(m) => StorageError::DatabaseError(m),
        }
    }
}

/// The error is how an error of the engine is reported.
pub open spec fn from_engine(e: StorageError) -> bool {
    exists|err: heed::Error| e == spec_error_of_failure(#[trigger] engine_failure_of(err))
}

impl StorageError {
    /// Reports an error of the engine.
    pub fn from_engine_error(err: heed::Error) -> (r: StorageError)
        ensures
            r == spec_error_of_failure(engine_failure_of(err)),
            from_engine(r),
    {
        let r = StorageError::from_failure(classify_engine_error(err));
        proof {
            assert(r == spec_error_of_failure(engine_failure_of(err)));
        }
        r
    }
}

/// An engine error is reported by the kind of failure it is.
impl From<heed::Error> for StorageError {
    fn from(err: heed::Error) -> (r: StorageError) {
        StorageError::from_failure(classify_engine_error(err))
    }
}

impl FromSpecImpl<heed::Error> for StorageError {
    open spec fn obeys_from_spec() -> bool {
        true
    }

    open spec fn from_spec(v: heed::Error) -> StorageError {
        spec_error_of_failure(engine_failure_of(v))
    }
}

} // verus!

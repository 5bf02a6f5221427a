use temper_storage::errors::{EngineFailure, StorageError};

#[test]
fn engine_failures_map_to_storage_errors() {
    match StorageError::from_failure(EngineFailure::Encoding("bad key".to_string())) {
        StorageError::WriteError(m) => assert_eq!(m, "bad key"),
        other => panic!("unexpected {:?}", other),
    }
    match StorageError::from_failure(EngineFailure::Decoding("bad value".to_string())) {
        StorageError::ReadError(m) => assert_eq!(m, "bad value"),
        other => panic!("unexpected {:?}", other),
    }
    match StorageError::from_failure(EngineFailure::Other("map full".to_string())) {
        StorageError::DatabaseError(m) => assert_eq!(m, "map full"),
        other => panic!("unexpected {:?}", other),
    }
    let io = std::io::Error::new(std::io::ErrorKind::NotFound, "gone");
    match StorageError::from_failure(EngineFailure::Io(io)) {
        StorageError::GenericIoError(e) => assert_eq!(e.kind(), std::io::ErrorKind::NotFound),
        other => panic!("unexpected {:?}", other),
    }
}

#[test]
fn engine_errors_convert_by_kind() {
    let err: StorageError = heed::Error::Io(std::io::Error::new(std::io::ErrorKind::Other, "disk")).into();
    assert!(matches!(err, StorageError::GenericIoError(_)));
    let err: StorageError = heed::Error::Encoding("no".into()).into();
    match err {
        StorageError::WriteError(m) => assert_eq!(m, "no"),
        other => panic!("unexpected {:?}", other),
    }
    let err: StorageError = heed::Error::Decoding("nope".into()).into();
    match err {
        StorageError::ReadError(m) => assert_eq!(m, "nope"),
        other => panic!("unexpected {:?}", other),
    }
    let err: StorageError = heed::Error::EnvAlreadyOpened.into();
    assert!(matches!(err, StorageError::DatabaseError(_)));
}

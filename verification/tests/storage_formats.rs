use gymnarium_application::storage::{
    load_format, storage_format, store_format, LoadError, StorageFormat, StoreError,
};

#[test]
fn the_end_of_the_name_tells_the_format() {
    assert_eq!(storage_format("state.json"), Some(StorageFormat::Json));
    assert_eq!(storage_format("state.ron"), Some(StorageFormat::Ron));
    assert_eq!(storage_format("state.bin"), Some(StorageFormat::Bincode));
    assert_eq!(
        storage_format("/tmp/some dir/agent.v2.json"),
        Some(StorageFormat::Json)
    );
    assert_eq!(storage_format(".json"), Some(StorageFormat::Json));
    assert_eq!(storage_format(".ron"), Some(StorageFormat::Ron));
    assert_eq!(storage_format(".bin"), Some(StorageFormat::Bincode));
    assert_eq!(storage_format("state.json.ron"), Some(StorageFormat::Ron));
    assert_eq!(
        storage_format("state.ron.bin"),
        Some(StorageFormat::Bincode)
    );
}

#[test]
fn a_name_that_ends_otherwise_tells_none() {
    for path in [
        "",
        "state",
        "json",
        "state.JSON",
        "state.json ",
        "state.jso",
        "x.unknown",
        "bin",
    ] {
        assert_eq!(storage_format(path), None, "{:?}", path);
    }
}

#[test]
fn loading_from_a_file_of_unknown_format_fails() {
    assert_eq!(
        load_format("x.unknown"),
        Err(LoadError::UnknownFormat("x.unknown".to_string()))
    );
    assert_eq!(
        load_format("x.unknown").unwrap_err().to_string(),
        "The file \"x.unknown\" has an unknown file ending"
    );
    assert_eq!(load_format("x.json"), Ok(StorageFormat::Json));
    assert_eq!(load_format("x.ron"), Ok(StorageFormat::Ron));
    assert_eq!(load_format("x.bin"), Ok(StorageFormat::Bincode));
}

#[test]
fn storing_in_a_file_of_unknown_format_fails() {
    assert_eq!(
        store_format("x.unknown"),
        Err(StoreError::UnknownFormat("x.unknown".to_string()))
    );
    assert_eq!(
        store_format("x.unknown").unwrap_err().to_string(),
        "The file \"x.unknown\" has an unknown file ending"
    );
    assert_eq!(store_format("x.json"), Ok(StorageFormat::Json));
    assert_eq!(store_format("x.ron"), Ok(StorageFormat::Ron));
    assert_eq!(store_format("x.bin"), Ok(StorageFormat::Bincode));
}

#[test]
fn load_errors_have_their_messages() {
    assert_eq!(
        LoadError::IoError("No such file".to_string()).to_string(),
        "Received IoError (No such file)"
    );
    assert_eq!(
        LoadError::SerdeJsonError("EOF".to_string()).to_string(),
        "Received SerdeJsonError (EOF)"
    );
    assert_eq!(
        LoadError::RonError("1:1".to_string()).to_string(),
        "Received RonError (1:1)"
    );
    assert_eq!(
        LoadError::BincodeError("short".to_string()).to_string(),
        "Received BincodeError (short)"
    );
    assert_eq!(
        LoadError::EnvironmentAgentError("no".to_string()).to_string(),
        "Recedived EnvironmentError(no)"
    );
    assert_eq!(
        LoadError::UnknownFormat("a b".to_string()).to_string(),
        "The file \"a b\" has an unknown file ending"
    );
}

#[test]
fn store_errors_have_their_messages() {
    assert_eq!(
        StoreError::IoError("Read-only".to_string()).to_string(),
        "Received IoError (Read-only)"
    );
    assert_eq!(
        StoreError::SerdeJsonError("key".to_string()).to_string(),
        "Received SerdeJsonError (key)"
    );
    assert_eq!(
        StoreError::RonError(String::new()).to_string(),
        "Received RonError ()"
    );
    assert_eq!(
        StoreError::BincodeError("limit".to_string()).to_string(),
        "Received BincodeError (limit)"
    );
    assert_eq!(
        StoreError::UnknownFormat(String::new()).to_string(),
        "The file \"\" has an unknown file ending"
    );
}

use aetherdb::storage::error::checked_range_len;
use aetherdb::storage::local::{ensure_valid_relative_path, first_forbidden_component, PathComponentKind};
use aetherdb::storage::{LocalStorage, StorageError};
use std::path::{Path, PathBuf};

#[test]
fn ensure_valid_relative_path_accepts_simple_relative_path() {
    let path = Path::new("segments/000001.seg");
    assert!(ensure_valid_relative_path(path).is_ok());
}

#[test]
fn ensure_valid_relative_path_rejects_parent_dir_path() {
    let path = Path::new("../etc/passwd");
    let result = ensure_valid_relative_path(path);

    assert!(matches!(result, Err(StorageError::Unauthorized(_))));
}

#[test]
fn ensure_valid_relative_path_rejects_absolute_path() {
    let path = Path::new("/tmp/segment.seg");
    let result = ensure_valid_relative_path(path);

    assert!(matches!(result, Err(StorageError::Unauthorized(_))));
}

#[test]
fn forbidden_path_message_shows_the_path() {
    let result = ensure_valid_relative_path(Path::new("a/../../b"));
    assert_eq!(
        result,
        Err(StorageError::Unauthorized(String::from(
            "path: `a/../../b` is forbidden. Only simple relative paths are allowed"
        )))
    );
    assert!(ensure_valid_relative_path(Path::new("./a/b/./c")).is_ok());
    assert!(ensure_valid_relative_path(Path::new("")).is_ok());
    assert!(ensure_valid_relative_path(Path::new("a/b..c")).is_ok());
}

#[test]
fn first_forbidden_component_finds_the_earliest() {
    assert_eq!(first_forbidden_component(&vec![PathComponentKind::CurDir, PathComponentKind::Normal, PathComponentKind::Normal]), None);
    assert_eq!(first_forbidden_component(&vec![PathComponentKind::Normal, PathComponentKind::ParentDir, PathComponentKind::RootDir]), Some(1));
    assert_eq!(first_forbidden_component(&vec![PathComponentKind::RootDir, PathComponentKind::Normal]), Some(0));
    assert_eq!(first_forbidden_component(&vec![PathComponentKind::Normal, PathComponentKind::Prefix]), Some(1));
    assert_eq!(first_forbidden_component(&vec![]), None);
}

#[test]
fn full_path_joins_valid_paths_under_the_root() {
    let storage = LocalStorage::new(String::from("file://local-test"), PathBuf::from("/data/root"));
    assert_eq!(storage.root_ref(), &PathBuf::from("/data/root"));
    assert_eq!(
        storage.full_path(Path::new("segments/1.seg")),
        Ok(PathBuf::from("/data/root/segments/1.seg"))
    );
    assert!(matches!(
        storage.full_path(Path::new("../escape")),
        Err(StorageError::Unauthorized(_))
    ));
    assert!(matches!(
        storage.full_path(Path::new("/etc/passwd")),
        Err(StorageError::Unauthorized(_))
    ));
}

#[test]
fn byte_ranges_must_not_be_reversed() {
    assert_eq!(checked_range_len(2, 7), Ok(5));
    assert_eq!(checked_range_len(3, 3), Ok(0));
    assert_eq!(
        checked_range_len(4, 1),
        Err(StorageError::Io(String::from("invalid range: start 4 is greater than end 1")))
    );
}

#[test]
fn io_failures_keep_their_kind() {
    let missing = std::io::Error::new(std::io::ErrorKind::NotFound, "no such file");
    assert_eq!(
        StorageError::from_io_error(missing),
        StorageError::NotFound(String::from("no such file"))
    );
    let eof = std::io::Error::new(std::io::ErrorKind::UnexpectedEof, "short read");
    assert_eq!(StorageError::from_io_error(eof), StorageError::Io(String::from("short read")));
    assert_eq!(
        StorageError::from_io_failure(true, String::from("x")),
        StorageError::NotFound(String::from("x"))
    );
}

#[test]
fn storage_error_messages_carry_their_label() {
    assert_eq!(StorageError::NotFound(String::from("a")).to_string(), "storage notfound error a");
    assert_eq!(
        StorageError::Unauthorized(String::from("b")).to_string(),
        "storage unauthorized error b"
    );
    assert_eq!(StorageError::Internal(String::from("c")).to_string(), "storage internal error c");
    assert_eq!(StorageError::Io(String::from("d")).to_string(), "storage IO error d");
}

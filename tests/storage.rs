use std::cell::Cell;

use farfalle::error::Error;
use farfalle::id::{IdGen, RandomIdGen};
use farfalle::storage::{after_check, AllocStep, FilesystemStorage, LoadError, PasteId, MAX_ATTEMPTS};

struct Counting {
    base: usize,
}

impl IdGen for Counting {
    fn next_id(&self, attempts: u32) -> String {
        "a".repeat(self.base + attempts as usize)
    }
}

#[test]
fn paste_id_accepts_alphanumerics() {
    let id = PasteId::new("aZ09".to_string()).unwrap();
    assert_eq!(id.as_str(), "aZ09");
}

#[test]
fn paste_id_rejects_other_characters() {
    assert_eq!(PasteId::new("a.b".to_string()).unwrap_err(), "a.b");
    assert_eq!(PasteId::new("../x".to_string()).unwrap_err(), "../x");
    assert_eq!(PasteId::new("ä".to_string()).unwrap_err(), "ä");
    assert_eq!(PasteId::new("a b".to_string()).unwrap_err(), "a b");
    assert_eq!(PasteId::new(String::new()).unwrap_err(), "");
}

#[test]
fn random_ids_grow_with_attempts() {
    let gen = RandomIdGen::new(3);
    for attempt in 0..10u32 {
        let id = gen.next_id(attempt);
        assert_eq!(id.len(), 3 + attempt as usize);
        assert!(id.bytes().all(|b| b.is_ascii_alphanumeric()));
    }
}

#[test]
fn allocation_returns_tenth_candidate() {
    let storage = FilesystemStorage::new("/srv/pastes".to_string(), Counting { base: 3 });
    let calls = Cell::new(0u32);
    let taken = |id: &PasteId| {
        calls.set(calls.get() + 1);
        id.as_str().len() < 3 + 9
    };
    let id = storage.allocate(&taken).unwrap();
    assert_eq!(id.as_str().len(), 3 + 9);
    assert_eq!(calls.get(), 10);
}

#[test]
fn allocation_exhausts_after_ten_attempts() {
    let storage = FilesystemStorage::new("/srv/pastes".to_string(), Counting { base: 3 });
    let calls = Cell::new(0u32);
    let taken = |_: &PasteId| {
        calls.set(calls.get() + 1);
        true
    };
    assert!(storage.allocate(&taken).is_err());
    assert_eq!(calls.get(), MAX_ATTEMPTS);
}

#[test]
fn allocation_takes_first_free() {
    let storage = FilesystemStorage::new("/srv/pastes".to_string(), RandomIdGen::new(3));
    let id = storage.allocate(&|_: &PasteId| false).unwrap();
    assert_eq!(id.as_str().len(), 3);
    assert_eq!(storage.root(), "/srv/pastes");
}

#[test]
fn allocation_skips_malformed_candidates() {
    let storage = FilesystemStorage::new("r".to_string(), Counting { base: 0 });
    let id = storage.allocate(&|_: &PasteId| false).unwrap();
    assert_eq!(id.as_str(), "a");
}

#[test]
fn load_errors_map_to_client_and_server_errors() {
    assert!(matches!(LoadError::NotFound.to_error(), Error::NotFound));
    let io = std::io::Error::new(std::io::ErrorKind::PermissionDenied, "denied");
    assert!(matches!(LoadError::from_io(io).to_error(), Error::StorageError));
    let missing = std::io::Error::new(std::io::ErrorKind::NotFound, "gone");
    assert!(matches!(LoadError::from_io(missing), LoadError::NotFound));
}

#[test]
fn retry_decision_follows_the_check() {
    assert_eq!(after_check(0, true), AllocStep::Accept);
    assert_eq!(after_check(0, false), AllocStep::Retry(1));
    assert_eq!(after_check(8, false), AllocStep::Retry(9));
    assert_eq!(after_check(9, false), AllocStep::Exhausted);
    assert_eq!(after_check(9, true), AllocStep::Accept);
}

#[test]
fn open_failures_keep_not_found_apart() {
    let e = std::io::Error::new(std::io::ErrorKind::Other, "x");
    assert!(matches!(LoadError::from_open_error(e, true), LoadError::NotFound));
    let e = std::io::Error::new(std::io::ErrorKind::NotFound, "x");
    assert!(matches!(LoadError::from_open_error(e, false), LoadError::IoError(_)));
}

use advisory_file_lock::FileLockError;
use advisory_file_lock::FileLockMode;
use advisory_file_lock::LockState;

#[test]
fn mode_predicates() {
    assert!(FileLockMode::Shared.is_shared());
    assert!(!FileLockMode::Shared.is_exclusive());
    assert!(FileLockMode::Exclusive.is_exclusive());
    assert!(!FileLockMode::Exclusive.is_shared());
}

#[test]
fn shared_open_flags_are_read_only() {
    let flags = FileLockMode::Shared.open_flags();
    assert!(flags.read);
    assert!(!flags.write);
    assert!(!flags.create);
}

#[test]
fn exclusive_open_flags_create_and_write() {
    let flags = FileLockMode::Exclusive.open_flags();
    assert!(flags.read);
    assert!(flags.write);
    assert!(flags.create);
}

#[test]
fn native_request_follows_mode() {
    assert_eq!(FileLockMode::Shared.native_request(1, 2), 1);
    assert_eq!(FileLockMode::Exclusive.native_request(1, 2), 2);

    let state = LockState::new(FileLockMode::Shared);
    assert_eq!(state.mode().native_request(1, 2), 1);
}

#[test]
fn contention_code_maps_to_already_locked() {
    let err = FileLockError::classify_nonblocking(11, 11, String::from("resource busy"));
    assert!(matches!(err, FileLockError::AlreadyLocked));
    assert!(err.is_already_locked());
    assert!(!err.is_io_error());
}

#[test]
fn other_codes_map_to_io_error() {
    let err = FileLockError::classify_nonblocking(9, 11, String::from("bad file descriptor"));
    match err {
        FileLockError::IOError(description) => {
            assert_eq!(description, "bad file descriptor");
        }
        FileLockError::AlreadyLocked => panic!("contention reported for a non-contention code"),
    }
}

#[test]
fn io_failure_keeps_description() {
    let err = FileLockError::io(String::from("permission denied"));
    assert!(err.is_io_error());
    assert!(!err.is_already_locked());
    match err {
        FileLockError::IOError(description) => {
            assert_eq!(description, "permission denied");
        }
        FileLockError::AlreadyLocked => unreachable!(),
    }
}

#[test]
fn fresh_state_holds_no_lock() {
    let shared = LockState::new(FileLockMode::Shared);
    assert!(!shared.is_locked());
    assert!(shared.is_shared());
    assert!(!shared.is_exclusive());

    let exclusive = LockState::new(FileLockMode::Exclusive);
    assert!(!exclusive.is_locked());
    assert!(exclusive.is_exclusive());
    assert!(!exclusive.is_shared());
}

#[test]
fn successful_acquire_marks_locked() {
    let mut state = LockState::new(FileLockMode::Exclusive);
    let outcome = state.apply_acquire(Ok(()));
    assert!(outcome.is_ok());
    assert!(state.is_locked());
    assert!(state.is_exclusive());
}

#[test]
fn failed_acquire_leaves_state_unlocked() {
    let mut state = LockState::new(FileLockMode::Shared);
    let outcome = state.apply_acquire(Err(FileLockError::io(String::from("interrupted"))));
    match outcome {
        Err(FileLockError::IOError(description)) => {
            assert_eq!(description, "interrupted");
        }
        _ => panic!("the driver failure was not handed back"),
    }
    assert!(!state.is_locked());
    assert!(state.is_shared());
}

#[test]
fn contended_try_acquire_leaves_state_unlocked() {
    let mut state = LockState::new(FileLockMode::Exclusive);
    let outcome = state.apply_acquire(Err(FileLockError::AlreadyLocked));
    assert!(matches!(outcome, Err(FileLockError::AlreadyLocked)));
    assert!(!state.is_locked());
}

#[test]
fn release_after_acquire_clears_lock() {
    let mut state = LockState::new(FileLockMode::Exclusive);
    assert!(state.apply_acquire(Ok(())).is_ok());
    assert!(state.is_locked());
    assert!(state.apply_release(Ok(())).is_ok());
    assert!(!state.is_locked());
    assert!(state.is_exclusive());
}

#[test]
fn failed_release_keeps_lock_held() {
    let mut state = LockState::new(FileLockMode::Shared);
    assert!(state.apply_acquire(Ok(())).is_ok());
    let outcome = state.apply_release(Err(FileLockError::io(String::from("device gone"))));
    assert!(outcome.is_err());
    assert!(state.is_locked());
}

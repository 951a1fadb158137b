use terrarium::error::BackendError;
use terrarium::lock::{finish_lock, lock, unlock, LockContainer, LockInfo};
use terrarium::state::{check_lock, delete_state, get_state, put_state, LockQuery, StateContainer};

fn record(id: &str, created: Option<&str>) -> LockInfo {
    LockInfo {
        ID: id.to_string(),
        Operation: Some("OperationTypeApply".to_string()),
        Info: None,
        Who: Some("alice@host".to_string()),
        Version: Some("1.6.0".to_string()),
        Created: created.map(|c| c.to_string()),
    }
}

fn query(id: Option<&str>) -> LockQuery {
    LockQuery { ID: id.map(|s| s.to_string()) }
}

#[test]
fn new_registry_holds_no_lock() {
    let locks = LockContainer::new("locks".to_string());
    assert!(locks.get("ws1").is_none());
    assert!(!locks.verify_lock("ws1", "tok-1"));
    assert_eq!(locks.persisted(), "locks");
}

#[test]
fn lock_echoes_record_and_stores_it() {
    let mut locks = LockContainer::new("locks".to_string());
    let got = lock(&mut locks, "ws1", record("tok-1", Some("2024-01-01T00:00:00Z"))).unwrap();
    assert_eq!(got.ID, "tok-1");
    assert_eq!(got.Created.as_deref(), Some("2024-01-01T00:00:00Z"));
    assert_eq!(got.Who.as_deref(), Some("alice@host"));
    let held = locks.get("ws1").unwrap();
    assert_eq!(held.ID, "tok-1");
    assert_eq!(held.Operation.as_deref(), Some("OperationTypeApply"));
    assert!(held.Info.is_none());
    assert!(locks.get("ws2").is_none());
}

#[test]
fn second_lock_conflicts_and_keeps_first() {
    let mut locks = LockContainer::new("locks".to_string());
    assert!(lock(&mut locks, "ws1", record("tok-1", Some("t1"))).is_ok());
    let second = lock(&mut locks, "ws1", record("tok-2", Some("t2")));
    assert_eq!(second.unwrap_err(), BackendError::Conflict);
    assert_eq!(locks.get("ws1").unwrap().ID, "tok-1");
    assert!(locks.verify_lock("ws1", "tok-1"));
    assert!(!locks.verify_lock("ws1", "tok-2"));
}

#[test]
fn unlock_returns_record_then_not_found() {
    let mut locks = LockContainer::new("locks".to_string());
    lock(&mut locks, "ws1", record("tok-1", Some("t1"))).unwrap();
    let released = unlock(&mut locks, "ws1").unwrap();
    assert_eq!(released.ID, "tok-1");
    assert_eq!(released.Version.as_deref(), Some("1.6.0"));
    assert_eq!(unlock(&mut locks, "ws1").unwrap_err(), BackendError::NotFound);
    assert!(locks.get("ws1").is_none());
}

#[test]
fn unlock_of_never_locked_is_not_found() {
    let mut locks = LockContainer::new("locks".to_string());
    assert_eq!(unlock(&mut locks, "ws9").unwrap_err(), BackendError::NotFound);
}

#[test]
fn locks_of_different_names_are_independent() {
    let mut locks = LockContainer::new("locks".to_string());
    assert!(lock(&mut locks, "a", record("t-a", Some("t1"))).is_ok());
    assert!(lock(&mut locks, "b", record("t-b", Some("t2"))).is_ok());
    assert!(unlock(&mut locks, "a").is_ok());
    assert_eq!(locks.get("b").unwrap().ID, "t-b");
}

#[test]
fn repeated_attempts_give_one_success() {
    let mut locks = LockContainer::new("locks".to_string());
    let mut wins = 0;
    let mut conflicts = 0;
    for i in 0..8 {
        match lock(&mut locks, "ws1", record(&format!("tok-{i}"), Some("t"))) {
            Ok(_) => wins += 1,
            Err(e) => {
                assert_eq!(e, BackendError::Conflict);
                conflicts += 1;
            }
        }
    }
    assert_eq!(wins, 1);
    assert_eq!(conflicts, 7);
    assert_eq!(locks.get("ws1").unwrap().ID, "tok-0");
}

#[test]
fn insert_only_when_vacant() {
    let mut locks = LockContainer::new("locks".to_string());
    assert!(!locks.insert("ws1", record("tok-0", None)));
    assert!(locks.get("ws1").is_none());
    assert!(locks.insert("ws1", record("tok-1", Some("t1"))));
    assert!(!locks.insert("ws1", record("tok-2", Some("t2"))));
    assert_eq!(locks.remove("ws1").unwrap().ID, "tok-1");
    assert!(locks.remove("ws1").is_none());
}

#[test]
fn audit_path_files_by_name_and_time() {
    let locks = LockContainer::new("./locks".to_string());
    let r = record("tok-1", Some("2024-01-01T00:00:00Z"));
    assert_eq!(
        locks.audit_path("ws1", &r).unwrap(),
        "./locks/ws1/2024-01-01T00:00:00Z.lock"
    );
    assert!(locks.audit_path("ws1", &record("tok-1", None)).is_none());
}

#[test]
fn state_path_joins_dir_and_name() {
    let states = StateContainer::new("./state".to_string());
    assert_eq!(states.path("ws1"), "./state/ws1");
}

#[test]
fn unlocked_write_without_token_is_allowed() {
    let states = StateContainer::new("./state".to_string());
    let locks = LockContainer::new("./locks".to_string());
    assert_eq!(put_state(&states, &locks, "ws1", &query(None)).unwrap(), "./state/ws1");
    assert_eq!(delete_state(&states, &locks, "ws1", &query(None)).unwrap(), "./state/ws1");
}

#[test]
fn locked_write_needs_matching_token() {
    let states = StateContainer::new("./state".to_string());
    let mut locks = LockContainer::new("./locks".to_string());
    lock(&mut locks, "ws1", record("tok-1", Some("t1"))).unwrap();
    assert_eq!(put_state(&states, &locks, "ws1", &query(None)).unwrap_err(), BackendError::LockMismatch);
    assert_eq!(put_state(&states, &locks, "ws1", &query(Some("wrong"))).unwrap_err(), BackendError::LockMismatch);
    assert_eq!(delete_state(&states, &locks, "ws1", &query(None)).unwrap_err(), BackendError::LockMismatch);
    assert_eq!(delete_state(&states, &locks, "ws1", &query(Some("wrong"))).unwrap_err(), BackendError::LockMismatch);
    assert_eq!(put_state(&states, &locks, "ws1", &query(Some("tok-1"))).unwrap(), "./state/ws1");
    assert_eq!(delete_state(&states, &locks, "ws1", &query(Some("tok-1"))).unwrap(), "./state/ws1");
    assert!(put_state(&states, &locks, "ws2", &query(None)).is_ok());
}

#[test]
fn token_on_unlocked_workspace_is_refused() {
    let locks = LockContainer::new("./locks".to_string());
    let token = Some("tok-1".to_string());
    assert_eq!(check_lock(&locks, "ws1", &token).unwrap_err(), BackendError::LockMismatch);
    assert!(check_lock(&locks, "ws1", &None).is_ok());
}

#[test]
fn read_outcomes() {
    assert_eq!(get_state(Some(b"hello".to_vec())).unwrap(), b"hello".to_vec());
    assert_eq!(get_state(Some(Vec::new())).unwrap(), Vec::<u8>::new());
    assert_eq!(get_state(None).unwrap_err(), BackendError::NotFound);
}

#[test]
fn status_codes() {
    assert_eq!(BackendError::NotFound.status(), 404);
    assert_eq!(BackendError::Conflict.status(), 409);
    assert_eq!(BackendError::LockMismatch.status(), 423);
    assert_eq!(BackendError::MissingCreated.status(), 400);
    assert_eq!(BackendError::StorageFailure.status(), 500);
}

#[test]
fn lock_write_unlock_scenario() {
    let states = StateContainer::new("./state".to_string());
    let mut locks = LockContainer::new("./locks".to_string());
    let info = LockInfo {
        ID: "tok-1".to_string(),
        Operation: None,
        Info: None,
        Who: None,
        Version: None,
        Created: Some("2024-01-01T00:00:00Z".to_string()),
    };
    let echoed = lock(&mut locks, "ws1", info).unwrap();
    assert_eq!(echoed.ID, "tok-1");
    assert_eq!(echoed.Created.as_deref(), Some("2024-01-01T00:00:00Z"));
    assert!(put_state(&states, &locks, "ws1", &query(Some("tok-1"))).is_ok());
    let wrong = delete_state(&states, &locks, "ws1", &query(Some("wrong"))).unwrap_err();
    assert_eq!(wrong.status(), 423);
    assert_eq!(unlock(&mut locks, "ws1").unwrap().ID, "tok-1");
    assert!(delete_state(&states, &locks, "ws1", &query(None)).is_ok());
}

#[test]
fn lock_without_creation_time_is_refused() {
    let mut locks = LockContainer::new("locks".to_string());
    let r = lock(&mut locks, "ws1", record("tok-1", None));
    assert_eq!(r.unwrap_err(), BackendError::MissingCreated);
    assert!(locks.get("ws1").is_none());
    lock(&mut locks, "ws1", record("tok-1", Some("t1"))).unwrap();
    let again = lock(&mut locks, "ws1", record("tok-2", None));
    assert_eq!(again.unwrap_err(), BackendError::Conflict);
    assert_eq!(locks.get("ws1").unwrap().ID, "tok-1");
}

#[test]
fn failed_audit_write_takes_lock_back() {
    let mut locks = LockContainer::new("locks".to_string());
    lock(&mut locks, "ws1", record("tok-1", Some("t1"))).unwrap();
    assert!(finish_lock(&mut locks, "ws1", true).is_ok());
    assert_eq!(locks.get("ws1").unwrap().ID, "tok-1");
    assert_eq!(finish_lock(&mut locks, "ws1", false).unwrap_err(), BackendError::StorageFailure);
    assert!(locks.get("ws1").is_none());
}

use pty_sessions::error::SessionError;
use pty_sessions::registry::{resize_outcome, write_outcome, SessionHandle, SessionRegistry};

fn handle(master: &str, writer: &[u8]) -> SessionHandle<String, Vec<u8>> {
    SessionHandle { master: String::from(master), writer: writer.to_vec() }
}

#[test]
fn new_registry_is_empty() {
    let registry: SessionRegistry<String, Vec<u8>> = SessionRegistry::new();
    assert_eq!(registry.len(), 0);
    assert!(!registry.contains(1));
}

#[test]
fn registered_session_is_found_under_its_id() {
    let mut registry = SessionRegistry::new();
    registry.register(4242, handle("pty0", b""));
    assert!(registry.contains(4242));
    assert!(!registry.contains(4243));
    assert_eq!(registry.len(), 1);
    assert_eq!(registry.master_of(4242), Ok(&String::from("pty0")));
}

#[test]
fn sessions_are_registered_under_the_ids_they_were_opened_with() {
    let mut registry = SessionRegistry::new();
    let ids: [u32; 5] = [100, 7, 65536, 0, u32::MAX];
    for id in ids {
        registry.register(id, handle("pty", b""));
    }
    assert_eq!(registry.len(), 5);
    for id in ids {
        assert!(registry.contains(id));
    }
    assert!(!registry.contains(101));
}

#[test]
fn no_two_registered_sessions_share_an_id() {
    let mut registry = SessionRegistry::new();
    registry.register(9, handle("first", b"a"));
    registry.register(9, handle("second", b"b"));
    assert_eq!(registry.len(), 1);
    assert_eq!(registry.master_of(9), Ok(&String::from("second")));
    assert_eq!(registry.writer_of(9), Ok(&mut b"b".to_vec()));
}

#[test]
fn write_to_unknown_session_is_not_found_and_changes_nothing() {
    let mut registry = SessionRegistry::new();
    registry.register(1, handle("pty1", b"x"));
    assert_eq!(registry.writer_of(2), Err(SessionError::SessionNotFound(2)));
    assert_eq!(registry.len(), 1);
    assert!(registry.contains(1));
    assert!(!registry.contains(2));
    assert_eq!(registry.writer_of(1), Ok(&mut b"x".to_vec()));
    assert_eq!(registry.master_of(1), Ok(&String::from("pty1")));
}

#[test]
fn write_to_unknown_session_in_an_empty_registry() {
    let mut registry: SessionRegistry<String, Vec<u8>> = SessionRegistry::new();
    assert_eq!(registry.writer_of(77), Err(SessionError::SessionNotFound(77)));
    assert_eq!(registry.len(), 0);
}

#[test]
fn resize_of_unknown_session_is_not_found() {
    let mut registry = SessionRegistry::new();
    registry.register(1, handle("pty1", b""));
    assert_eq!(registry.master_of(3), Err(SessionError::SessionNotFound(3)));
}

#[test]
fn writer_is_the_sessions_own_and_keeps_what_is_written() {
    let mut registry = SessionRegistry::new();
    registry.register(1, handle("pty1", b""));
    registry.register(2, handle("pty2", b""));
    registry.writer_of(1).unwrap().extend_from_slice(b"ls\n");
    registry.writer_of(2).unwrap().extend_from_slice(b"pwd\n");
    registry.writer_of(1).unwrap().extend_from_slice(b"exit\n");
    assert_eq!(registry.writer_of(1), Ok(&mut b"ls\nexit\n".to_vec()));
    assert_eq!(registry.writer_of(2), Ok(&mut b"pwd\n".to_vec()));
    assert_eq!(registry.master_of(1), Ok(&String::from("pty1")));
    assert_eq!(registry.master_of(2), Ok(&String::from("pty2")));
    assert_eq!(registry.len(), 2);
}

#[test]
fn close_takes_the_session_off_the_registry() {
    let mut registry = SessionRegistry::new();
    registry.register(5, handle("pty5", b""));
    registry.register(6, handle("pty6", b""));
    assert_eq!(registry.close(5), Ok(()));
    assert!(!registry.contains(5));
    assert!(registry.contains(6));
    assert_eq!(registry.len(), 1);
}

#[test]
fn close_of_unknown_session_is_not_found() {
    let mut registry = SessionRegistry::new();
    registry.register(5, handle("pty5", b""));
    assert_eq!(registry.close(8), Err(SessionError::SessionNotFound(8)));
    assert_eq!(registry.len(), 1);
    assert!(registry.contains(5));
}

#[test]
fn closing_twice_is_not_found_the_second_time() {
    let mut registry = SessionRegistry::new();
    registry.register(5, handle("pty5", b""));
    assert_eq!(registry.close(5), Ok(()));
    assert_eq!(registry.close(5), Err(SessionError::SessionNotFound(5)));
}

#[test]
fn write_right_after_close_is_not_found() {
    let mut registry = SessionRegistry::new();
    registry.register(31, handle("pty", b""));
    assert_eq!(registry.close(31), Ok(()));
    assert_eq!(registry.writer_of(31), Err(SessionError::SessionNotFound(31)));
}

#[test]
fn resize_right_after_close_is_not_found() {
    let mut registry = SessionRegistry::new();
    registry.register(31, handle("pty", b""));
    assert_eq!(registry.close(31), Ok(()));
    assert_eq!(registry.master_of(31), Err(SessionError::SessionNotFound(31)));
}

#[test]
fn close_spares_the_other_sessions() {
    let mut registry = SessionRegistry::new();
    registry.register(1, handle("one", b"1"));
    registry.register(2, handle("two", b"2"));
    assert_eq!(registry.close(1), Ok(()));
    assert_eq!(registry.master_of(2), Ok(&String::from("two")));
    assert_eq!(registry.writer_of(2), Ok(&mut b"2".to_vec()));
}

#[test]
fn an_id_can_be_registered_again_after_close() {
    let mut registry = SessionRegistry::new();
    registry.register(12, handle("old", b""));
    assert_eq!(registry.close(12), Ok(()));
    registry.register(12, handle("new", b""));
    assert_eq!(registry.master_of(12), Ok(&String::from("new")));
    assert_eq!(registry.len(), 1);
}

#[test]
fn close_releases_the_handles() {
    let shared = std::rc::Rc::new(());
    let mut registry = SessionRegistry::new();
    registry.register(3, SessionHandle { master: shared.clone(), writer: shared.clone() });
    assert_eq!(std::rc::Rc::strong_count(&shared), 3);
    assert_eq!(registry.close(3), Ok(()));
    assert_eq!(std::rc::Rc::strong_count(&shared), 1);
}

#[test]
fn register_releases_the_handles_it_replaces() {
    let old = std::rc::Rc::new(());
    let new = std::rc::Rc::new(());
    let mut registry = SessionRegistry::new();
    registry.register(3, SessionHandle { master: old.clone(), writer: old.clone() });
    registry.register(3, SessionHandle { master: new.clone(), writer: new.clone() });
    assert_eq!(std::rc::Rc::strong_count(&old), 1);
    assert_eq!(std::rc::Rc::strong_count(&new), 3);
}

#[test]
fn write_outcome_of_a_full_write_is_ok() {
    assert_eq!(write_outcome(Ok(())), Ok(()));
}

#[test]
fn write_outcome_of_a_failed_write_is_a_write_error() {
    assert_eq!(
        write_outcome(Err(String::from("Broken pipe"))),
        Err(SessionError::Write(String::from("Broken pipe")))
    );
}

#[test]
fn failed_write_leaves_the_session_registered() {
    let mut registry = SessionRegistry::new();
    registry.register(1, handle("pty1", b""));
    let _writer = registry.writer_of(1).unwrap();
    let outcome = write_outcome(Err(String::from("Input/output error")));
    assert_eq!(outcome, Err(SessionError::Write(String::from("Input/output error"))));
    assert!(registry.contains(1));
}

#[test]
fn resize_outcome_of_a_done_resize_is_ok() {
    assert_eq!(resize_outcome(Ok(())), Ok(()));
}

#[test]
fn resize_outcome_of_a_refused_resize_is_a_resize_error() {
    assert_eq!(
        resize_outcome(Err(String::from("Bad file descriptor"))),
        Err(SessionError::Resize(String::from("Bad file descriptor")))
    );
}

use ponder::crypto::session::timed_out;
use ponder::crypto::session::Passphrase;
use ponder::crypto::SessionManager;

#[test]
fn test_session_initially_locked() {
    let session = SessionManager::new(30);
    assert!(session.is_locked());
    assert!(session.get_passphrase().is_err());
}

#[test]
fn test_session_unlock_and_cache() {
    let mut session = SessionManager::new(30);
    session.unlock(Passphrase::new("test-passphrase".to_string()));
    assert!(!session.is_locked());
    let cached = session.get_passphrase();
    assert!(cached.is_ok());
    assert_eq!(cached.unwrap().expose(), "test-passphrase");
}

#[test]
fn test_session_timeout() {
    let mut session = SessionManager::new(0);
    session.unlock(Passphrase::new("test-passphrase".to_string()));
    assert!(session.is_locked());
    assert!(session.get_passphrase().is_err());
}

#[test]
fn test_explicit_lock() {
    let mut session = SessionManager::new(30);
    session.unlock(Passphrase::new("test-passphrase".to_string()));
    assert!(!session.is_locked());
    session.lock();
    assert!(session.is_locked());
    assert!(session.get_passphrase().is_err());
}

#[test]
fn test_drop_zeroizes() {
    {
        let mut session = SessionManager::new(30);
        let passphrase = Passphrase::new("test-passphrase".to_string());
        session.unlock(passphrase);
        assert!(!session.is_locked());
    }
}

#[test]
fn test_passphrase_caching_within_timeout() {
    let mut session = SessionManager::new(30);
    session.unlock(Passphrase::new("test-passphrase".to_string()));
    for _ in 0..5 {
        assert!(session.get_passphrase().is_ok());
    }
}

#[test]
fn touch_keeps_an_unlocked_session_unlocked() {
    let mut session = SessionManager::new(30);
    session.unlock(Passphrase::new("p".to_string()));
    session.touch();
    assert!(!session.is_locked());
    let mut locked = SessionManager::new(30);
    locked.touch();
    assert!(locked.is_locked());
}

#[test]
fn timeout_decision_over_elapsed_seconds() {
    assert!(timed_out(1800, 1800));
    assert!(timed_out(1801, 1800));
    assert!(!timed_out(1799, 1800));
    assert!(timed_out(0, 0));
    let mut session = SessionManager::new(30);
    assert!(session.is_locked_after(0));
    assert!(session.passphrase_after(0).is_err());
    session.unlock(Passphrase::new("p".to_string()));
    assert!(!session.is_locked_after(1799));
    assert!(session.is_locked_after(1800));
    assert_eq!(session.passphrase_after(10).unwrap().expose(), "p");
    assert!(session.passphrase_after(5000).is_err());
}

#[test]
fn lock_state_follows_the_last_call() {
    let mut session = SessionManager::new(1);
    session.touch();
    assert!(session.is_locked_after(0));
    session.unlock(Passphrase::new("a".to_string()));
    assert!(!session.is_locked_after(59));
    assert!(session.is_locked_after(60));
    session.lock();
    assert!(session.is_locked_after(0));
    session.unlock(Passphrase::new("b".to_string()));
    assert!(!session.is_locked());
    assert_eq!(session.get_passphrase().unwrap().expose(), "b");
}

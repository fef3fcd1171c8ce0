use ponder::cli::PonderCommand;
use ponder::commands::{after_failed_open, command_or_default, date_or_today, logging_choice, parse_date_range, OpenRetry};
use ponder::crypto::session::{check_existing_passphrase, check_new_passphrase, passphrase_source, PassphraseSource};
use ponder::dates::Date;
use ponder::errors::{AppError, CryptoError, DatabaseError};

fn d(y: i32, m: u32, day: u32) -> Date {
    Date::from_ymd_opt(y, m, day).unwrap()
}

#[test]
fn date_ranges_need_both_ends() {
    assert_eq!(parse_date_range(None, None).unwrap(), None);
    assert_eq!(parse_date_range(Some("2024-01-01"), Some("2024-06-30")).unwrap(), Some((d(2024, 1, 1), d(2024, 6, 30))));
    match parse_date_range(Some("2024-01-01"), None) {
        Err(AppError::Journal(m)) => assert_eq!(m, "Both --from and --to must be specified together"),
        _ => panic!("Expected a journal error"),
    }
    match parse_date_range(Some("20240101"), Some("2024-01-02")) {
        Err(AppError::Journal(m)) => assert!(m.starts_with("Invalid 'from' date: ")),
        _ => panic!("Expected a journal error"),
    }
    match parse_date_range(Some("2024-01-01"), Some("x")) {
        Err(AppError::Journal(m)) => assert_eq!(m, "Invalid 'to' date: input contains invalid characters"),
        _ => panic!("Expected a journal error"),
    }
}

#[test]
fn command_dates_default_to_today() {
    let today = d(2024, 5, 5);
    assert_eq!(date_or_today(None, today).unwrap(), today);
    assert_eq!(date_or_today(Some("20240115"), today).unwrap(), d(2024, 1, 15));
    match date_or_today(Some("nope"), today) {
        Err(AppError::Journal(m)) => assert_eq!(m, "Invalid date format: input contains invalid characters"),
        _ => panic!("Expected a journal error"),
    }
}

#[test]
fn wrong_passphrases_are_retried_three_times() {
    match after_failed_open(1, AppError::Database(DatabaseError::WrongPassphrase)) {
        OpenRetry::LockAndRetry { next_attempt } => assert_eq!(next_attempt, 2),
        _ => panic!("Expected a retry"),
    }
    match after_failed_open(3, AppError::Database(DatabaseError::WrongPassphrase)) {
        OpenRetry::LockAndFail(AppError::Crypto(CryptoError::MaxRetriesExceeded)) => {}
        _ => panic!("Expected giving up"),
    }
    match after_failed_open(1, AppError::Journal("x".to_string())) {
        OpenRetry::Fail(AppError::Journal(m)) => assert_eq!(m, "x"),
        _ => panic!("Expected the error"),
    }
}

#[test]
fn logging_follows_flags() {
    assert_eq!(logging_choice("json", false, false), (true, "warn"));
    assert_eq!(logging_choice("text", true, true), (true, "info"));
    assert_eq!(logging_choice("text", false, true), (false, "info"));
}

#[test]
fn no_command_means_editing_today() {
    match command_or_default(None) {
        PonderCommand::Edit(a) => assert!(!a.retro && !a.reminisce && a.date.is_none()),
        _ => panic!("Expected Edit"),
    }
    assert!(matches!(command_or_default(Some(PonderCommand::Lock)), PonderCommand::Lock));
}

#[test]
fn passphrases_are_checked() {
    assert_eq!(passphrase_source(true, true), PassphraseSource::Environment);
    assert_eq!(passphrase_source(false, true), PassphraseSource::PromptExisting);
    assert_eq!(passphrase_source(false, false), PassphraseSource::PromptNew);
    assert!(matches!(check_new_passphrase("a", "b"), Err(CryptoError::PassphraseMismatch)));
    assert!(matches!(check_new_passphrase("", ""), Err(CryptoError::EmptyPassphrase)));
    assert!(check_new_passphrase("pw", "pw").is_ok());
    assert!(matches!(check_existing_passphrase(""), Err(CryptoError::EmptyPassphrase)));
    assert!(check_existing_passphrase("pw").is_ok());
}

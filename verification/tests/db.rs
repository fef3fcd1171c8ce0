use ponder::db::patterns::PatternType;
use ponder::db::summaries::SummaryLevel;
use ponder::db::BackupRecord;

#[test]
fn test_pattern_type_conversion() {
    assert_eq!(PatternType::Temporal.as_str(), "temporal");
    assert_eq!(PatternType::Topic.as_str(), "topic");
    assert_eq!(PatternType::Sentiment.as_str(), "sentiment");
    assert_eq!(PatternType::Correlation.as_str(), "correlation");

    assert_eq!(PatternType::from_str("temporal"), Some(PatternType::Temporal));
    assert_eq!(PatternType::from_str("topic"), Some(PatternType::Topic));
    assert_eq!(PatternType::from_str("sentiment"), Some(PatternType::Sentiment));
    assert_eq!(PatternType::from_str("correlation"), Some(PatternType::Correlation));
    assert_eq!(PatternType::from_str("invalid"), None);
}

#[test]
fn test_summary_level_conversion() {
    assert_eq!(SummaryLevel::Daily.as_str(), "daily");
    assert_eq!(SummaryLevel::Weekly.as_str(), "weekly");
    assert_eq!(SummaryLevel::Monthly.as_str(), "monthly");

    assert_eq!(SummaryLevel::from_str("daily"), Some(SummaryLevel::Daily));
    assert_eq!(SummaryLevel::from_str("weekly"), Some(SummaryLevel::Weekly));
    assert_eq!(SummaryLevel::from_str("monthly"), Some(SummaryLevel::Monthly));
    assert_eq!(SummaryLevel::from_str("invalid"), None);
}

#[test]
fn stored_names_read_back_to_the_same_kind() {
    for t in [PatternType::Temporal, PatternType::Topic, PatternType::Sentiment, PatternType::Correlation] {
        assert_eq!(PatternType::from_str(t.as_str()), Some(t));
    }
    for l in [SummaryLevel::Daily, SummaryLevel::Weekly, SummaryLevel::Monthly] {
        assert_eq!(SummaryLevel::from_str(l.as_str()), Some(l));
    }
    assert_eq!(PatternType::from_str("Temporal"), None);
    assert_eq!(SummaryLevel::from_str(""), None);
}

#[test]
fn backup_records_compare_by_fields() {
    let a = BackupRecord {
        id: 1,
        backup_path: "backup.tar.gz.age".to_string(),
        backup_type: "full".to_string(),
        entries_count: 10,
        archive_size: 1024,
        checksum: "abc".to_string(),
        created_at: "2024-01-01 00:00:00".to_string(),
    };
    let b = a.clone();
    assert_eq!(a, b);
}

use ponder::db::{
    check_embedding_dimensions, entry_not_found, missing_table_error, needs_embedding_update, open_check_error,
    pattern_not_found, require_changed, required_table_names, schema_version_status, should_expand_window,
    SchemaVersionStatus,
};
use ponder::errors::{AppError, DatabaseError};

#[test]
fn update_needed_when_never_embedded() {
    assert!(needs_embedding_update(None, Some("abc123"), "abc123"));
}

#[test]
fn update_needed_when_checksum_changed() {
    assert!(needs_embedding_update(Some("2024-01-01 00:00:00"), Some("abc123"), "def456"));
}

#[test]
fn no_update_when_unchanged() {
    assert!(!needs_embedding_update(Some("2024-01-01 00:00:00"), Some("abc123"), "abc123"));
}

#[test]
fn missing_entry_message() {
    match entry_not_found(999) {
        DatabaseError::NotFound(m) => assert_eq!(m, "Entry with id 999 not found"),
        _ => panic!("Expected NotFound"),
    }
}

#[test]
fn missing_pattern_message() {
    match require_changed(0, pattern_not_found(999)) {
        Err(AppError::Database(DatabaseError::Custom(m))) => assert_eq!(m, "Pattern 999 not found"),
        _ => panic!("Expected a missing pattern"),
    }
    assert!(require_changed(1, pattern_not_found(1)).is_ok());
}

#[test]
fn embedding_dimensions_checked() {
    match check_embedding_dimensions("embedding", 100) {
        Err(AppError::Database(DatabaseError::Custom(m))) => {
            assert_eq!(m, "Invalid embedding dimensions: expected 768, got 100")
        }
        _ => panic!("Expected a dimension error"),
    }
    assert!(check_embedding_dimensions("query embedding", 768).is_ok());
}

#[test]
fn wrong_passphrase_is_recognised() {
    assert!(matches!(open_check_error("file is not a database"), DatabaseError::WrongPassphrase));
    match open_check_error("disk I/O error") {
        DatabaseError::Sqlite(m) => assert_eq!(m, "disk I/O error"),
        _ => panic!("Expected Sqlite"),
    }
}

#[test]
fn schema_checks() {
    assert_eq!(required_table_names(), vec!["entries", "embeddings", "schema_version"]);
    match missing_table_error("entries") {
        DatabaseError::Custom(m) => assert!(m.starts_with("Required table 'entries' missing.")),
        _ => panic!("Expected Custom"),
    }
    assert_eq!(schema_version_status(Some(1)), SchemaVersionStatus::Current);
    assert_eq!(schema_version_status(Some(0)), SchemaVersionStatus::Older);
    assert_eq!(schema_version_status(Some(2)), SchemaVersionStatus::Newer);
    assert_eq!(schema_version_status(None), SchemaVersionStatus::Missing);
}

#[test]
fn window_expands_only_for_implicit_ranges() {
    assert!(should_expand_window(1, 3, true, false));
    assert!(!should_expand_window(1, 3, true, true));
    assert!(!should_expand_window(3, 3, true, false));
    assert!(!should_expand_window(0, 3, false, false));
}

#[test]
fn not_found_messages_cover_every_id() {
    match entry_not_found(i64::MIN) {
        DatabaseError::NotFound(m) => assert_eq!(m, format!("Entry with id {} not found", i64::MIN)),
        other => panic!("unexpected {:?}", other),
    }
    match pattern_not_found(-42) {
        DatabaseError::Custom(m) => assert_eq!(m, "Pattern -42 not found"),
        other => panic!("unexpected {:?}", other),
    }
}

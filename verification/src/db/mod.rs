//! The encrypted database: stored kinds of records and the decisions made
//! around database access.
pub mod patterns;
pub mod summaries;

use vstd::prelude::*;
use crate::constants::EMBEDDING_DIMENSIONS;
use crate::errors::{AppError, AppResult, DatabaseError};
use crate::util::{concat3, decimal, push_decimal, push_str_chars, seq_contains_run, str_contains, str_eq, string_from_chars};

verus! {

/// Record of a backup operation.
#[derive(Debug, Clone, PartialEq)]
pub struct BackupRecord {
    /// Unique identifier
    pub id: i64,
    /// Path to the backup archive
    pub backup_path: String,
    /// Type of backup ("full" or "incremental")
    pub backup_type: String,
    /// Number of entries in the backup
    pub entries_count: i64,
    /// Size of the archive in bytes
    pub archive_size: i64,
    /// Checksum of the archive
    pub checksum: String,
    /// Timestamp when backup was created
    pub created_at: String,
}

/// Version of the database schema this program writes.
pub const SCHEMA_VERSION: i32 = 1;

/// Whether an error message from the integrity check after opening the
/// database means that the passphrase is wrong.
pub open spec fn means_wrong_passphrase(message: Seq<char>) -> bool {
    ||| seq_contains_run(message, "file is not a database"@)
    ||| seq_contains_run(message, "file is encrypted"@)
    ||| seq_contains_run(message, "cipher"@)
}

/// The error for a failed integrity check after opening the database: a
/// wrong passphrase when the message says so, otherwise the SQLite error.
pub fn open_check_error(message: &str) -> (r: DatabaseError)
    ensures
        means_wrong_passphrase(message@) ==> (r matches DatabaseError::WrongPassphrase),
        !means_wrong_passphrase(message@) ==> (r matches DatabaseError::Sqlite(m) && m@ == message@),
{
    if str_contains(message, "file is not a database") || str_contains(message, "file is encrypted")
        || str_contains(message, "cipher") {
        DatabaseError::WrongPassphrase
    } else {
        DatabaseError::Sqlite(String::from_str(message))
    }
}

/// The tables a valid database must have, in the order they are checked.
pub open spec fn required_tables() -> Seq<Seq<char>> {
    seq!["entries"@, "embeddings"@, "schema_version"@]
}

/// The tables a valid database must have, in the order they are checked.
pub fn required_table_names() -> (r: Vec<&'static str>)
    ensures
        r@.map_values(|t: &'static str| t@) == required_tables(),
{
    let r = vec!["entries", "embeddings", "schema_version"];
    assert(r@.map_values(|t: &'static str| t@) =~= required_tables());
    r
}

/// The error for a required table that is missing.
pub fn missing_table_error(table: &str) -> (r: DatabaseError)
    ensures
        r matches DatabaseError::Custom(m) && m@ == "Required table '"@ + table@
            + "' missing. Database may be corrupted or incompletely initialized."@,
{
    DatabaseError::Custom(concat3(
        "Required table '",
        table,
        "' missing. Database may be corrupted or incompletely initialized.",
    ))
}

/// How a stored schema version compares with the one this program writes.
#[derive(Debug, Clone, Copy, PartialEq, Eq, Structural)]
pub enum SchemaVersionStatus {
    /// The same version.
    Current,
    /// An older version: a migration may be needed.
    Older,
    /// A newer version: this program may be out of date.
    Newer,
    /// No version is stored.
    Missing,
}

/// How the stored schema version `found` compares with `SCHEMA_VERSION`.
pub fn schema_version_status(found: Option<i32>) -> (r: SchemaVersionStatus)
    ensures
        r == match found {
            Some(v) => if v == SCHEMA_VERSION {
                SchemaVersionStatus::Current
            } else if v < SCHEMA_VERSION {
                SchemaVersionStatus::Older
            } else {
                SchemaVersionStatus::Newer
            },
            None => SchemaVersionStatus::Missing,
        },
{
    match found {
        Some(v) => {
            if v == SCHEMA_VERSION {
                SchemaVersionStatus::Current
            } else if v < SCHEMA_VERSION {
                SchemaVersionStatus::Older
            } else {
                SchemaVersionStatus::Newer
            }
        },
        None => SchemaVersionStatus::Missing,
    }
}

/// Whether the embeddings of an entry must be (re)generated: it was never
/// embedded, or its content changed since (its stored checksum differs).
pub fn needs_embedding_update(embedded_at: Option<&str>, stored_checksum: Option<&str>, current_checksum: &str) -> (r: bool)
    ensures
        r == (embedded_at is None || match stored_checksum {
            Some(c) => c@ != current_checksum@,
            None => true,
        }),
{
    if embedded_at.is_none() {
        return true;
    }
    match stored_checksum {
        Some(c) => !str_eq(c, current_checksum),
        None => true,
    }
}

/// The error for an entry id that is not in the database.
pub fn entry_not_found(entry_id: i64) -> (r: DatabaseError)
    ensures
        r matches DatabaseError::NotFound(m) && m@ == "Entry with id "@ + crate::util::signed_decimal(entry_id as int) + " not found"@,
{
    let mut out: Vec<char> = Vec::new();
    push_str_chars(&mut out, "Entry with id ");
    crate::util::push_signed_decimal(&mut out, entry_id);
    push_str_chars(&mut out, " not found");
    DatabaseError::NotFound(string_from_chars(&out))
}

/// The error for a pattern id that is not in the database.
pub fn pattern_not_found(id: i64) -> (r: DatabaseError)
    ensures
        r matches DatabaseError::Custom(m) && m@ == "Pattern "@ + crate::util::signed_decimal(id as int) + " not found"@,
{
    let mut out: Vec<char> = Vec::new();
    push_str_chars(&mut out, "Pattern ");
    crate::util::push_signed_decimal(&mut out, id);
    push_str_chars(&mut out, " not found");
    DatabaseError::Custom(string_from_chars(&out))
}

/// An update or delete that changed no row failed with `missing`.
pub fn require_changed(rows_affected: usize, missing: DatabaseError) -> (r: AppResult<()>)
    ensures
        rows_affected == 0 ==> r == Err::<(), AppError>(AppError::Database(missing)),
        rows_affected > 0 ==> r is Ok,
{
    if rows_affected == 0 {
        Err(AppError::Database(missing))
    } else {
        Ok(())
    }
}

/// Checks the length of an embedding vector (`what`: "embedding" or
/// "query embedding") against the model's dimensions.
pub fn check_embedding_dimensions(what: &str, len: usize) -> (r: AppResult<()>)
    ensures
        len == EMBEDDING_DIMENSIONS ==> r is Ok,
        len != EMBEDDING_DIMENSIONS ==> (r matches Err(AppError::Database(DatabaseError::Custom(m)))
            && m@ == "Invalid "@ + what@ + " dimensions: expected "@ + decimal(EMBEDDING_DIMENSIONS as nat)
                + ", got "@ + decimal(len as nat)),
{
    if len == EMBEDDING_DIMENSIONS {
        return Ok(());
    }
    let mut out: Vec<char> = Vec::new();
    push_str_chars(&mut out, "Invalid ");
    push_str_chars(&mut out, what);
    push_str_chars(&mut out, " dimensions: expected ");
    push_decimal(&mut out, EMBEDDING_DIMENSIONS as u64);
    push_str_chars(&mut out, ", got ");
    push_decimal(&mut out, len as u64);
    Err(AppError::Database(DatabaseError::Custom(string_from_chars(&out))))
}

/// Whether a date-filtered similarity search with `found` results is
/// repeated without the filter: only when it found fewer than `threshold`,
/// a date range was applied, and the range was not given by the user.
pub fn should_expand_window(found: usize, threshold: usize, has_date_range: bool, explicit_constraint: bool) -> (r: bool)
    ensures
        r == (found < threshold && has_date_range && !explicit_constraint),
{
    found < threshold && has_date_range && !explicit_constraint
}

} // verus!

//! Constants used throughout the application, grouped by concern.
use vstd::prelude::*;

verus! {

// Application metadata

/// The name of the application.
pub const APP_NAME: &'static str = "ponder";
/// The description of the application used in CLI help text.
pub const APP_DESCRIPTION: &'static str = "A simple journaling tool for daily reflections";

// CLI arguments and defaults

/// Default command for the editor if not specified otherwise.
pub const DEFAULT_EDITOR_COMMAND: &'static str = "vim";
/// Log format identifier for plain text.
pub const LOG_FORMAT_TEXT: &'static str = "text";
/// Log format identifier for JSON.
pub const LOG_FORMAT_JSON: &'static str = "json";
/// Default log level.
pub const DEFAULT_LOG_LEVEL: &'static str = "info";

// Configuration keys and environment variables

/// Environment variable for specifying the Ponder journal directory.
pub const ENV_VAR_PONDER_DIR: &'static str = "PONDER_DIR";
/// Environment variable for specifying the preferred Ponder editor.
pub const ENV_VAR_PONDER_EDITOR: &'static str = "PONDER_EDITOR";
/// Environment variable for specifying the database path.
pub const ENV_VAR_PONDER_DB: &'static str = "PONDER_DB";
/// Environment variable for specifying session timeout in minutes.
pub const ENV_VAR_PONDER_SESSION_TIMEOUT: &'static str = "PONDER_SESSION_TIMEOUT";
/// Environment variable for specifying Ollama API URL.
pub const ENV_VAR_OLLAMA_URL: &'static str = "OLLAMA_URL";
/// Environment variable overriding the embedding model.
pub const ENV_VAR_PONDER_EMBED_MODEL: &'static str = "PONDER_EMBED_MODEL";
/// Environment variable overriding the chat model.
pub const ENV_VAR_PONDER_CHAT_MODEL: &'static str = "PONDER_CHAT_MODEL";
/// Environment variable overriding the reasoning model.
pub const ENV_VAR_PONDER_REASONING_MODEL: &'static str = "PONDER_REASONING_MODEL";
/// Environment variable overriding the summary model.
pub const ENV_VAR_PONDER_SUMMARY_MODEL: &'static str = "PONDER_SUMMARY_MODEL";
/// Standard environment variable for specifying the default editor.
pub const ENV_VAR_EDITOR: &'static str = "EDITOR";
/// Standard environment variable for the user's home directory.
pub const ENV_VAR_HOME: &'static str = "HOME";
/// Environment variable often used to indicate a Continuous Integration environment.
pub const ENV_VAR_CI: &'static str = "CI";
/// Default sub-directory name for journal entries within the user's home directory.
pub const DEFAULT_JOURNAL_SUBDIR: &'static str = "Documents/rubberducks";

// Validation

/// Characters forbidden in editor commands because a shell would give them
/// a meaning, in the order in which they are checked.
pub open spec fn editor_forbidden_chars() -> Seq<char> {
    seq!['|', '&', ';', '$', '(', ')', '`', '\\', '<', '>', '\'', '"']
}

/// The characters forbidden in editor commands.
pub fn editor_forbidden_char_list() -> (r: Vec<char>)
    ensures
        r@ == editor_forbidden_chars(),
{
    let r = vec!['|', '&', ';', '$', '(', ')', '`', '\\', '<', '>', '\'', '"'];
    assert(r@ == editor_forbidden_chars());
    r
}

/// Placeholder string for redacted information in debug output.
pub const REDACTED_PLACEHOLDER: &'static str = "[REDACTED]";

// File system parameters

/// File extension for journal entries.
pub const JOURNAL_FILE_EXTENSION: &'static str = ".md";
/// POSIX permissions for newly created directories (owner read/write/execute).
pub const DEFAULT_DIR_PERMISSIONS: u32 = 0o700;
/// POSIX permissions for newly created files (owner read/write).
pub const DEFAULT_FILE_PERMISSIONS: u32 = 0o600;

// Date and time logic

/// Date format string for ISO date format (YYYY-MM-DD).
pub const DATE_FORMAT_ISO: &'static str = "%Y-%m-%d";
/// Date format string for compact date format (YYYYMMDD).
pub const DATE_FORMAT_COMPACT: &'static str = "%Y%m%d";
/// Date format used in journal headers ("January 15, 2023: Sunday").
pub const JOURNAL_HEADER_DATE_FORMAT: &'static str = "%B %d, %Y: %A";
/// Time format used in journal headers ("14:30:45").
pub const JOURNAL_HEADER_TIME_FORMAT: &'static str = "%H:%M:%S";
/// Number of months ago for the 'one month' reminisce option.
pub const REMINISCE_ONE_MONTH_AGO: u32 = 1;
/// Number of months ago for the 'three months' reminisce option.
pub const REMINISCE_THREE_MONTHS_AGO: u32 = 3;
/// Number of months ago for the 'six months' reminisce option.
pub const REMINISCE_SIX_MONTHS_AGO: u32 = 6;
/// Number of months in a year.
pub const MONTHS_PER_YEAR: u32 = 12;
/// Maximum number of years ago for reminisce.
pub const MAX_REMINISCE_YEARS_AGO: u32 = 100;
/// Number of days ago for retro.
pub const RETRO_DAYS: i64 = 7;

// Logging configuration

/// Service name used in tracing spans and structured logs.
pub const TRACING_SERVICE_NAME: &'static str = "ponder";
/// Name for the root tracing span covering an application invocation.
pub const TRACING_ROOT_SPAN_NAME: &'static str = "app_invocation";

// Cryptography configuration

/// Default session timeout in minutes for passphrase caching.
pub const DEFAULT_SESSION_TIMEOUT_MINUTES: u64 = 30;
/// File extension for encrypted files using age encryption.
pub const ENCRYPTED_FILE_EXTENSION: &'static str = ".age";

/// RAM-based temporary filesystem paths checked, in order, for secure temp
/// file storage.
pub open spec fn tmpfs_paths() -> Seq<Seq<char>> {
    seq!["/dev/shm"@, "/run/shm"@]
}

// Database configuration

/// Default database filename within the journal directory.
pub const DEFAULT_DB_FILENAME: &'static str = "ponder.db";
/// Embedding vector dimensions.
pub const EMBEDDING_DIMENSIONS: usize = 768;
/// Default limit for vector similarity search results.
pub const VECTOR_SEARCH_LIMIT: usize = 12;

// AI configuration

/// Default URL for Ollama API.
pub const DEFAULT_OLLAMA_URL: &'static str = "http://127.0.0.1:11434";
/// Default embedding model for semantic search.
pub const DEFAULT_EMBED_MODEL: &'static str = "nomic-embed-text";
/// Default chat model for insights and reflections.
pub const DEFAULT_CHAT_MODEL: &'static str = "gemma3:4b";
/// Default model for multi-step reasoning.
pub const DEFAULT_REASONING_MODEL: &'static str = "deepseek-r1:8b";
/// Default model for summaries.
pub const DEFAULT_SUMMARY_MODEL: &'static str = "phi4:3.8b";
/// Default chunk size in words for text chunking.
pub const DEFAULT_CHUNK_SIZE: usize = 700;
/// Default overlap in words between consecutive chunks.
pub const DEFAULT_CHUNK_OVERLAP: usize = 100;

} // verus!

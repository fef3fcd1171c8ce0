//! Error types of the application and the messages they display.
//!
//! Each error type has a `to_string` method whose result is stated exactly
//! by a spec function `text`, and `source` where the error wraps an I/O
//! failure. Failures of outside libraries (the encryption library, the
//! database, the HTTP client) are carried as the message they display.
use vstd::prelude::*;
use crate::util::{concat2, concat3, concat5, push_str_chars, push_signed_decimal, signed_decimal, string_from_chars};

verus! {

/// The category of an I/O failure, as `std::io::ErrorKind` names it.
#[derive(Debug, Clone, Copy, PartialEq, Eq, Structural)]
pub enum IoErrorKind {
    NotFound,
    PermissionDenied,
    ConnectionRefused,
    ConnectionReset,
    NetworkUnreachable,
    AlreadyExists,
    WouldBlock,
    InvalidInput,
    InvalidData,
    TimedOut,
    WriteZero,
    Interrupted,
    Unsupported,
    UnexpectedEof,
    OutOfMemory,
    Other,
}

/// An I/O failure: its kind and the message it displays.
#[derive(Debug, Clone)]
pub struct IoFailure {
    pub kind: IoErrorKind,
    pub message: String,
}

impl IoFailure {
    /// A failure of the given kind displaying `message`.
    pub fn new(kind: IoErrorKind, message: &str) -> (r: IoFailure)
        ensures
            r.kind == kind,
            r.message@ == message@,
    {
        IoFailure { kind, message: String::from_str(message) }
    }

    /// A failure of kind `Other` displaying `message`.
    pub fn other(message: &str) -> (r: IoFailure)
        ensures
            r.kind == IoErrorKind::Other,
            r.message@ == message@,
    {
        IoFailure { kind: IoErrorKind::Other, message: String::from_str(message) }
    }

    /// The kind of the failure.
    pub fn kind(&self) -> (r: IoErrorKind)
        ensures
            r == self.kind,
    {
        self.kind
    }

    /// The message the failure displays.
    pub fn to_string(&self) -> (r: String)
        ensures
            r@ == self.message@,
    {
        self.message.clone()
    }
}

/// Errors when launching or running the external editor.
#[derive(Debug)]
pub enum EditorError {
    /// The editor command does not exist.
    CommandNotFound { command: String, source: IoFailure },
    /// Permission was denied to execute the editor command.
    PermissionDenied { command: String, source: IoFailure },
    /// The editor could not be executed for another I/O reason.
    ExecutionFailed { command: String, source: IoFailure },
    /// The editor exited with a non-zero status code.
    NonZeroExit { command: String, status_code: i32 },
    /// Any other editor problem.
    Other { command: String, message: String },
}

impl EditorError {
    /// The message an editor error displays.
    pub open spec fn text(&self) -> Seq<char> {
        match self {
            EditorError::CommandNotFound { command, source } => "Editor command '"@ + command@
                + "' not found: "@ + source.message@
                + ". Please check that the editor is installed and available in your PATH."@,
            EditorError::PermissionDenied { command, source } =>
                "Permission denied when trying to execute editor '"@ + command@ + "': "@
                + source.message@
                + ". Please check file permissions or try running with appropriate access rights."@,
            EditorError::ExecutionFailed { command, source } => "Failed to execute editor '"@
                + command@ + "': "@ + source.message@
                + ". Please check system resources, disk space, or editor installation."@,
            EditorError::NonZeroExit { command, status_code } => "Editor '"@ + command@
                + "' exited with non-zero status code: "@ + signed_decimal(*status_code as int)
                + ". This may indicate an issue with editor configuration or the file being edited."@,
            EditorError::Other { command, message } =>
                "An unexpected issue occurred while trying to use editor '"@ + command@ + "': "@
                + message@,
        }
    }

    /// The message this error displays.
    pub fn to_string(&self) -> (r: String)
        ensures
            r@ == self.text(),
    {
        match self {
            EditorError::CommandNotFound { command, source } => concat5(
                "Editor command '",
                command.as_str(),
                "' not found: ",
                source.message.as_str(),
                ". Please check that the editor is installed and available in your PATH.",
            ),
            EditorError::PermissionDenied { command, source } => concat5(
                "Permission denied when trying to execute editor '",
                command.as_str(),
                "': ",
                source.message.as_str(),
                ". Please check file permissions or try running with appropriate access rights.",
            ),
            EditorError::ExecutionFailed { command, source } => concat5(
                "Failed to execute editor '",
                command.as_str(),
                "': ",
                source.message.as_str(),
                ". Please check system resources, disk space, or editor installation.",
            ),
            EditorError::NonZeroExit { command, status_code } => {
                let mut out: Vec<char> = Vec::new();
                push_str_chars(&mut out, "Editor '");
                push_str_chars(&mut out, command.as_str());
                push_str_chars(&mut out, "' exited with non-zero status code: ");
                push_signed_decimal(&mut out, *status_code as i64);
                push_str_chars(
                    &mut out,
                    ". This may indicate an issue with editor configuration or the file being edited.",
                );
                string_from_chars(&out)
            },
            EditorError::Other { command, message } => concat3(
                "An unexpected issue occurred while trying to use editor '",
                command.as_str(),
                concat2("': ", message.as_str()).as_str(),
            ),
        }
    }

    /// The I/O failure this error wraps, if any.
    pub fn source(&self) -> (r: Option<&IoFailure>)
        ensures
            match self {
                EditorError::CommandNotFound { source, .. } => r == Some(source),
                EditorError::PermissionDenied { source, .. } => r == Some(source),
                EditorError::ExecutionFailed { source, .. } => r == Some(source),
                _ => r is None,
            },
    {
        match self {
            EditorError::CommandNotFound { source, .. } => Some(source),
            EditorError::PermissionDenied { source, .. } => Some(source),
            EditorError::ExecutionFailed { source, .. } => Some(source),
            _ => None,
        }
    }
}

/// Errors when locking journal files for editing.
#[derive(Debug)]
pub enum LockError {
    /// The file is locked by another process.
    FileBusy { path: String },
    /// The lock could not be acquired for a technical reason.
    AcquisitionFailed { path: String, source: IoFailure },
}

impl LockError {
    /// The message a lock error displays.
    pub open spec fn text(&self) -> Seq<char> {
        match self {
            LockError::FileBusy { path } =>
                "Journal file is currently being edited by another process: "@ + path@
                + ". Please wait for the other editor to close or check for existing ponder processes."@,
            LockError::AcquisitionFailed { path, source } =>
                "Failed to acquire lock for journal file "@ + path@ + ": "@ + source.message@
                + ". Please check file permissions and ensure the directory is accessible."@,
        }
    }

    /// The message this error displays.
    pub fn to_string(&self) -> (r: String)
        ensures
            r@ == self.text(),
    {
        match self {
            LockError::FileBusy { path } => concat3(
                "Journal file is currently being edited by another process: ",
                path.as_str(),
                ". Please wait for the other editor to close or check for existing ponder processes.",
            ),
            LockError::AcquisitionFailed { path, source } => concat5(
                "Failed to acquire lock for journal file ",
                path.as_str(),
                ": ",
                source.message.as_str(),
                ". Please check file permissions and ensure the directory is accessible.",
            ),
        }
    }

    /// The I/O failure this error wraps, if any.
    pub fn source(&self) -> (r: Option<&IoFailure>)
        ensures
            match self {
                LockError::AcquisitionFailed { source, .. } => r == Some(source),
                LockError::FileBusy { .. } => r is None,
            },
    {
        match self {
            LockError::AcquisitionFailed { source, .. } => Some(source),
            LockError::FileBusy { .. } => None,
        }
    }
}

/// Errors of encryption, decryption and key management. Failures of the
/// encryption library are carried as the message they display.
#[derive(Debug)]
pub enum CryptoError {
    /// The session is locked and must be unlocked first.
    VaultLocked,
    /// The passphrase does not decrypt the data.
    InvalidPassphrase(String),
    /// The encrypted data has an unsupported format.
    UnsupportedFormat,
    /// An invalid file path was given.
    InvalidPath(String),
    /// Encryption failed.
    EncryptionFailed(String),
    /// Decryption failed.
    DecryptionFailed(String),
    /// The passphrase could not be read from the terminal.
    PassphrasePrompt(String),
    /// The passphrase and its confirmation differ.
    PassphraseMismatch,
    /// An empty passphrase was entered.
    EmptyPassphrase,
    /// Too many wrong passphrases were entered.
    MaxRetriesExceeded,
}

impl CryptoError {
    /// The message a cryptographic error displays.
    pub open spec fn text(&self) -> Seq<char> {
        match self {
            CryptoError::VaultLocked =>
                "Session locked. Run command again to unlock with your passphrase.\n\nNote: Sessions automatically lock after inactivity (configurable via PONDER_SESSION_TIMEOUT)."@,
            CryptoError::InvalidPassphrase(_) =>
                "Incorrect passphrase. Please try again with the correct passphrase used to encrypt your journal."@,
            CryptoError::UnsupportedFormat => "Unsupported encryption format"@,
            CryptoError::InvalidPath(p) => "Invalid file path: "@ + p@,
            CryptoError::EncryptionFailed(m) => "Encryption failed: "@ + m@,
            CryptoError::DecryptionFailed(m) => "Decryption failed: "@ + m@,
            CryptoError::PassphrasePrompt(m) => "Failed to read passphrase: "@ + m@,
            CryptoError::PassphraseMismatch => "Passphrases do not match"@,
            CryptoError::EmptyPassphrase => "Passphrase cannot be empty"@,
            CryptoError::MaxRetriesExceeded => "Too many incorrect passphrase attempts"@,
        }
    }

    /// The message this error displays.
    pub fn to_string(&self) -> (r: String)
        ensures
            r@ == self.text(),
    {
        match self {
            CryptoError::VaultLocked => String::from_str(
                "Session locked. Run command again to unlock with your passphrase.\n\nNote: Sessions automatically lock after inactivity (configurable via PONDER_SESSION_TIMEOUT).",
            ),
            CryptoError::InvalidPassphrase(_) => String::from_str(
                "Incorrect passphrase. Please try again with the correct passphrase used to encrypt your journal.",
            ),
            CryptoError::UnsupportedFormat => String::from_str("Unsupported encryption format"),
            CryptoError::InvalidPath(p) => concat2("Invalid file path: ", p.as_str()),
            CryptoError::EncryptionFailed(m) => concat2("Encryption failed: ", m.as_str()),
            CryptoError::DecryptionFailed(m) => concat2("Decryption failed: ", m.as_str()),
            CryptoError::PassphrasePrompt(m) => concat2("Failed to read passphrase: ", m.as_str()),
            CryptoError::PassphraseMismatch => String::from_str("Passphrases do not match"),
            CryptoError::EmptyPassphrase => String::from_str("Passphrase cannot be empty"),
            CryptoError::MaxRetriesExceeded => String::from_str("Too many incorrect passphrase attempts"),
        }
    }
}

/// Errors of the encrypted database. Failures of the database library and
/// of the connection pool are carried as the message they display.
#[derive(Debug)]
pub enum DatabaseError {
    /// An SQLite error.
    Sqlite(String),
    /// No connection could be taken from the pool.
    Pool(String),
    /// A requested entry does not exist.
    NotFound(String),
    /// Any other database problem.
    Custom(String),
    /// The passphrase does not open the encrypted database.
    WrongPassphrase,
}

impl DatabaseError {
    /// The message a database error displays.
    pub open spec fn text(&self) -> Seq<char> {
        match self {
            DatabaseError::Sqlite(m) => "Database error: "@ + m@
                + "\n\nIf you're seeing 'file is not a database' or cipher errors, this may indicate:\n- Wrong passphrase (the database is encrypted with SQLCipher)\n- Corrupted database file\n- Incompatible database format"@,
            DatabaseError::Pool(m) => "Failed to get connection from pool: "@ + m@
                + "\n\nThis may indicate database connection issues. Try closing other ponder instances."@,
            DatabaseError::NotFound(m) => "Entry not found: "@ + m@,
            DatabaseError::Custom(m) => "Database error: "@ + m@,
            DatabaseError::WrongPassphrase => "Incorrect passphrase for the encrypted database"@,
        }
    }

    /// The message this error displays.
    pub fn to_string(&self) -> (r: String)
        ensures
            r@ == self.text(),
    {
        match self {
            DatabaseError::Sqlite(m) => concat3(
                "Database error: ",
                m.as_str(),
                "\n\nIf you're seeing 'file is not a database' or cipher errors, this may indicate:\n- Wrong passphrase (the database is encrypted with SQLCipher)\n- Corrupted database file\n- Incompatible database format",
            ),
            DatabaseError::Pool(m) => concat3(
                "Failed to get connection from pool: ",
                m.as_str(),
                "\n\nThis may indicate database connection issues. Try closing other ponder instances.",
            ),
            DatabaseError::NotFound(m) => concat2("Entry not found: ", m.as_str()),
            DatabaseError::Custom(m) => concat2("Database error: ", m.as_str()),
            DatabaseError::WrongPassphrase => String::from_str("Incorrect passphrase for the encrypted database"),
        }
    }
}

/// Errors of the AI backend. A failure of the HTTP client is carried as the
/// message it displays.
#[derive(Debug)]
pub enum AIError {
    /// The Ollama API could not be reached.
    OllamaOffline(String),
    /// The requested model is not installed.
    ModelNotFound(String),
    /// The API answered with something unexpected.
    InvalidResponse(String),
    /// The model cannot perform the requested operation.
    ModelNotSupported { model: String, operation: String, suggestion: String },
}

impl AIError {
    /// The message an AI error displays.
    pub open spec fn text(&self) -> Seq<char> {
        match self {
            AIError::OllamaOffline(m) => "Ollama API error: "@ + m@
                + ". Is Ollama running? Try: ollama serve"@,
            AIError::ModelNotFound(m) => "Model not found: "@ + m@ + ". Try: ollama pull "@ + m@,
            AIError::InvalidResponse(m) => "Invalid response from Ollama: "@ + m@,
            AIError::ModelNotSupported { model, operation, suggestion } => "Model '"@ + model@
                + "' does not support "@ + operation@ + ". Try: "@ + suggestion@,
        }
    }

    /// The message this error displays.
    pub fn to_string(&self) -> (r: String)
        ensures
            r@ == self.text(),
    {
        match self {
            AIError::OllamaOffline(m) => concat3(
                "Ollama API error: ",
                m.as_str(),
                ". Is Ollama running? Try: ollama serve",
            ),
            AIError::ModelNotFound(m) => concat3(
                "Model not found: ",
                m.as_str(),
                concat2(". Try: ollama pull ", m.as_str()).as_str(),
            ),
            AIError::InvalidResponse(m) => concat2("Invalid response from Ollama: ", m.as_str()),
            AIError::ModelNotSupported { model, operation, suggestion } => {
                let mut out: Vec<char> = Vec::new();
                push_str_chars(&mut out, "Model '");
                push_str_chars(&mut out, model.as_str());
                push_str_chars(&mut out, "' does not support ");
                push_str_chars(&mut out, operation.as_str());
                push_str_chars(&mut out, ". Try: ");
                push_str_chars(&mut out, suggestion.as_str());
                string_from_chars(&out)
            },
        }
    }
}

/// All errors of the application.
#[derive(Debug)]
pub enum AppError {
    /// Configuration loading or validation failed.
    Config(String),
    /// A filesystem operation failed.
    Io(IoFailure),
    /// Journal entry logic failed (e.g. an invalid date).
    Journal(String),
    /// The editor failed.
    Editor(EditorError),
    /// File locking failed.
    Lock(LockError),
    /// A cryptographic operation failed.
    Crypto(CryptoError),
    /// A database operation failed.
    Database(DatabaseError),
    /// An AI operation failed.
    AI(AIError),
}

/// `Result` with the application's error type.
pub type AppResult<T> = Result<T, AppError>;

impl AppError {
    /// The message an application error displays: a category prefix and the
    /// message of what it wraps.
    pub open spec fn text(&self) -> Seq<char> {
        match self {
            AppError::Config(m) => "Configuration error: "@ + m@,
            AppError::Io(e) => "I/O error: "@ + e.message@,
            AppError::Journal(m) => "Journal logic error: "@ + m@,
            AppError::Editor(e) => "Editor error: "@ + e.text(),
            AppError::Lock(e) => "File locking error: "@ + e.text(),
            AppError::Crypto(e) => "Cryptographic error: "@ + e.text(),
            AppError::Database(e) => "Database error: "@ + e.text(),
            AppError::AI(e) => "AI error: "@ + e.text(),
        }
    }

    /// The message this error displays.
    pub fn to_string(&self) -> (r: String)
        ensures
            r@ == self.text(),
    {
        match self {
            AppError::Config(m) => concat2("Configuration error: ", m.as_str()),
            AppError::Io(e) => concat2("I/O error: ", e.message.as_str()),
            AppError::Journal(m) => concat2("Journal logic error: ", m.as_str()),
            AppError::Editor(e) => concat2("Editor error: ", e.to_string().as_str()),
            AppError::Lock(e) => concat2("File locking error: ", e.to_string().as_str()),
            AppError::Crypto(e) => concat2("Cryptographic error: ", e.to_string().as_str()),
            AppError::Database(e) => concat2("Database error: ", e.to_string().as_str()),
            AppError::AI(e) => concat2("AI error: ", e.to_string().as_str()),
        }
    }

    /// The error this one wraps, one level down the chain: the I/O failure,
    /// or the editor, lock, cryptographic, database or AI error; none for a
    /// configuration or journal message.
    pub fn source(&self) -> (r: Option<AppErrorSource<'_>>)
        ensures
            match self {
                AppError::Config(_) => r is None,
                AppError::Journal(_) => r is None,
                AppError::Io(e) => r == Some(AppErrorSource::Io(e)),
                AppError::Editor(e) => r == Some(AppErrorSource::Editor(e)),
                AppError::Lock(e) => r == Some(AppErrorSource::Lock(e)),
                AppError::Crypto(e) => r == Some(AppErrorSource::Crypto(e)),
                AppError::Database(e) => r == Some(AppErrorSource::Database(e)),
                AppError::AI(e) => r == Some(AppErrorSource::AI(e)),
            },
    {
        match self {
            AppError::Config(_) => None,
            AppError::Journal(_) => None,
            AppError::Io(e) => Some(AppErrorSource::Io(e)),
            AppError::Editor(e) => Some(AppErrorSource::Editor(e)),
            AppError::Lock(e) => Some(AppErrorSource::Lock(e)),
            AppError::Crypto(e) => Some(AppErrorSource::Crypto(e)),
            AppError::Database(e) => Some(AppErrorSource::Database(e)),
            AppError::AI(e) => Some(AppErrorSource::AI(e)),
        }
    }
}

/// The error an application error wraps.
#[derive(Debug)]
pub enum AppErrorSource<'a> {
    Io(&'a IoFailure),
    Editor(&'a EditorError),
    Lock(&'a LockError),
    Crypto(&'a CryptoError),
    Database(&'a DatabaseError),
    AI(&'a AIError),
}

impl From<IoFailure> for AppError {
    fn from(e: IoFailure) -> (r: AppError) {
        AppError::Io(e)
    }
}

impl vstd::std_specs::convert::FromSpecImpl<IoFailure> for AppError {
    open spec fn obeys_from_spec() -> bool {
        true
    }

    open spec fn from_spec(e: IoFailure) -> AppError {
        AppError::Io(e)
    }
}

impl From<EditorError> for AppError {
    fn from(e: EditorError) -> (r: AppError) {
        AppError::Editor(e)
    }
}

impl vstd::std_specs::convert::FromSpecImpl<EditorError> for AppError {
    open spec fn obeys_from_spec() -> bool {
        true
    }

    open spec fn from_spec(e: EditorError) -> AppError {
        AppError::Editor(e)
    }
}

impl From<LockError> for AppError {
    fn from(e: LockError) -> (r: AppError) {
        AppError::Lock(e)
    }
}

impl vstd::std_specs::convert::FromSpecImpl<LockError> for AppError {
    open spec fn obeys_from_spec() -> bool {
        true
    }

    open spec fn from_spec(e: LockError) -> AppError {
        AppError::Lock(e)
    }
}

impl From<CryptoError> for AppError {
    fn from(e: CryptoError) -> (r: AppError) {
        AppError::Crypto(e)
    }
}

impl vstd::std_specs::convert::FromSpecImpl<CryptoError> for AppError {
    open spec fn obeys_from_spec() -> bool {
        true
    }

    open spec fn from_spec(e: CryptoError) -> AppError {
        AppError::Crypto(e)
    }
}

impl From<DatabaseError> for AppError {
    fn from(e: DatabaseError) -> (r: AppError) {
        AppError::Database(e)
    }
}

impl vstd::std_specs::convert::FromSpecImpl<DatabaseError> for AppError {
    open spec fn obeys_from_spec() -> bool {
        true
    }

    open spec fn from_spec(e: DatabaseError) -> AppError {
        AppError::Database(e)
    }
}

impl From<AIError> for AppError {
    fn from(e: AIError) -> (r: AppError) {
        AppError::AI(e)
    }
}

impl vstd::std_specs::convert::FromSpecImpl<AIError> for AppError {
    open spec fn obeys_from_spec() -> bool {
        true
    }

    open spec fn from_spec(e: AIError) -> AppError {
        AppError::AI(e)
    }
}

} // verus!

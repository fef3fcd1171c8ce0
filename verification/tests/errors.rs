use ponder::errors::{AIError, AppError, AppErrorSource, AppResult, CryptoError, DatabaseError, EditorError, IoErrorKind, IoFailure, LockError};

#[test]
fn test_editor_error_variants() {
    let error = EditorError::CommandNotFound {
        command: "vim".to_string(),
        source: IoFailure::new(IoErrorKind::NotFound, "command not found"),
    };
    assert!(error.to_string().contains("not found"));
    assert!(error.to_string().contains("vim"));

    let error = EditorError::PermissionDenied {
        command: "vim".to_string(),
        source: IoFailure::new(IoErrorKind::PermissionDenied, "permission denied"),
    };
    assert!(error.to_string().contains("Permission denied"));
    assert!(error.to_string().contains("vim"));

    let error = EditorError::ExecutionFailed { command: "vim".to_string(), source: IoFailure::other("some other error") };
    assert!(error.to_string().contains("Failed to execute"));
    assert!(error.to_string().contains("vim"));

    let error = EditorError::NonZeroExit { command: "vim".to_string(), status_code: 1 };
    assert!(error.to_string().contains("non-zero status code"));
    assert!(error.to_string().contains("vim"));
    assert!(error.to_string().contains("1"));

    let error = EditorError::Other { command: "vim".to_string(), message: "unexpected error".to_string() };
    assert!(error.to_string().contains("unexpected issue"));
    assert!(error.to_string().contains("vim"));
    assert!(error.to_string().contains("unexpected error"));
}

#[test]
fn test_lock_error_variants() {
    let error = LockError::FileBusy { path: "/path/to/journal.md".to_string() };
    assert!(error.to_string().contains("currently being edited"));
    assert!(error.to_string().contains("/path/to/journal.md"));

    let error = LockError::AcquisitionFailed {
        path: "/path/to/journal.md".to_string(),
        source: IoFailure::new(IoErrorKind::PermissionDenied, "permission denied"),
    };
    assert!(error.to_string().contains("Failed to acquire lock"));
    assert!(error.to_string().contains("/path/to/journal.md"));
    assert!(error.to_string().contains("permission denied"));
}

#[test]
fn test_enhanced_editor_error_display_with_resolution_hints() {
    let error = EditorError::CommandNotFound {
        command: "vim".to_string(),
        source: IoFailure::new(IoErrorKind::NotFound, "command not found"),
    };
    let message = error.to_string();
    assert!(message.contains("not found"));
    assert!(message.contains("vim"));
    assert!(message.contains("install") || message.contains("PATH"));

    let error = EditorError::PermissionDenied {
        command: "vim".to_string(),
        source: IoFailure::new(IoErrorKind::PermissionDenied, "permission denied"),
    };
    let message = error.to_string();
    assert!(message.contains("Permission denied"));
    assert!(message.contains("vim"));
    assert!(message.contains("permission") || message.contains("access"));

    let error = EditorError::NonZeroExit { command: "vim".to_string(), status_code: 1 };
    let message = error.to_string();
    assert!(message.contains("non-zero status code"));
    assert!(message.contains("vim"));
    assert!(message.contains("1"));
    assert!(message.contains("configuration") || message.contains("file"));

    let error = EditorError::ExecutionFailed { command: "vim".to_string(), source: IoFailure::other("disk full") };
    let message = error.to_string();
    assert!(message.contains("Failed to execute"));
    assert!(message.contains("vim"));
    assert!(message.contains("disk") || message.contains("space") || message.contains("resource"));
}

#[test]
fn test_enhanced_lock_error_display_with_resolution_hints() {
    let error = LockError::FileBusy { path: "/path/to/journal.md".to_string() };
    let message = error.to_string();
    assert!(message.contains("currently being edited"));
    assert!(message.contains("/path/to/journal.md"));
    assert!(message.contains("wait") || message.contains("process") || message.contains("close"));

    let error = LockError::AcquisitionFailed {
        path: "/path/to/journal.md".to_string(),
        source: IoFailure::new(IoErrorKind::PermissionDenied, "permission denied"),
    };
    let message = error.to_string();
    assert!(message.contains("Failed to acquire lock"));
    assert!(message.contains("/path/to/journal.md"));
    assert!(message.contains("permission denied"));
    assert!(message.contains("permission") || message.contains("access") || message.contains("directory"));
}

#[test]
fn test_editor_error_source_chaining() {
    let editor_error = EditorError::CommandNotFound {
        command: "vim".to_string(),
        source: IoFailure::new(IoErrorKind::NotFound, "command not found"),
    };
    let source = editor_error.source().expect("EditorError::CommandNotFound should have a source");
    assert_eq!(source.kind(), IoErrorKind::NotFound);
    assert_eq!(source.to_string(), "command not found");

    let editor_error = EditorError::PermissionDenied {
        command: "vim".to_string(),
        source: IoFailure::new(IoErrorKind::PermissionDenied, "permission denied"),
    };
    let source = editor_error.source().expect("EditorError::PermissionDenied should have a source");
    assert_eq!(source.kind(), IoErrorKind::PermissionDenied);

    let editor_error = EditorError::ExecutionFailed { command: "vim".to_string(), source: IoFailure::other("execution failed") };
    let source = editor_error.source().expect("EditorError::ExecutionFailed should have a source");
    assert_eq!(source.to_string(), "execution failed");

    let editor_error = EditorError::NonZeroExit { command: "vim".to_string(), status_code: 1 };
    assert!(editor_error.source().is_none(), "EditorError::NonZeroExit should not have a source");

    let editor_error = EditorError::Other { command: "vim".to_string(), message: "unexpected error".to_string() };
    assert!(editor_error.source().is_none(), "EditorError::Other should not have a source");
}

#[test]
fn test_lock_error_source_chaining() {
    let lock_error = LockError::AcquisitionFailed {
        path: "/path/to/journal.md".to_string(),
        source: IoFailure::new(IoErrorKind::PermissionDenied, "permission denied"),
    };
    let source = lock_error.source().expect("LockError::AcquisitionFailed should have a source");
    assert_eq!(source.kind(), IoErrorKind::PermissionDenied);
    assert_eq!(source.to_string(), "permission denied");

    let lock_error = LockError::FileBusy { path: "/path/to/journal.md".to_string() };
    assert!(lock_error.source().is_none(), "LockError::FileBusy should not have a source");
}

#[test]
fn test_comprehensive_lock_error_display() {
    let long_path = format!("/{}", "very_long_path_name/".repeat(20)).trim_end_matches('/').to_string();
    let paths = vec![
        ("simple", "/journal.md".to_string()),
        ("nested", "/home/user/documents/journal/2024/01/15.md".to_string()),
        ("windows", r"C:\Users\User\Documents\journal.md".to_string()),
        ("unicode", "/用户/文档/日记.md".to_string()),
        ("spaces", "/path with spaces/journal entry.md".to_string()),
        ("long", long_path),
        ("relative", "./journal.md".to_string()),
    ];
    for (desc, path) in paths {
        let display = LockError::FileBusy { path: path.clone() }.to_string();
        assert!(display.contains(&path), "FileBusy should contain file path for {}", desc);
        assert!(
            display.contains("currently being edited") || display.contains("being edited"),
            "FileBusy should indicate file is being edited for {}",
            desc
        );
        assert!(
            display.contains("wait") || display.contains("process") || display.contains("close"),
            "FileBusy should provide resolution hint for {}",
            desc
        );
    }

    let io_errors = vec![
        ("Permission", IoFailure::new(IoErrorKind::PermissionDenied, "permission denied")),
        ("Not found", IoFailure::new(IoErrorKind::NotFound, "directory not found")),
        ("Read only", IoFailure::new(IoErrorKind::PermissionDenied, "read-only file system")),
        ("Disk full", IoFailure::new(IoErrorKind::WriteZero, "no space left on device")),
        ("Network", IoFailure::new(IoErrorKind::NetworkUnreachable, "network is unreachable")),
    ];
    for (desc, io_error) in io_errors {
        let path = "/test/journal.md";
        let display = LockError::AcquisitionFailed { path: path.to_string(), source: io_error }.to_string();
        assert!(display.contains(path), "AcquisitionFailed should contain file path for {}", desc);
        assert!(display.contains("Failed to acquire lock"), "AcquisitionFailed should indicate lock failure for {}", desc);
        assert!(
            display.contains("permission") || display.contains("access") || display.contains("directory"),
            "AcquisitionFailed should provide resolution hint for {}",
            desc
        );
    }
}

#[test]
fn mod_test_app_error_display() {
    assert_eq!(
        AppError::Config("Invalid configuration".to_string()).to_string(),
        "Configuration error: Invalid configuration"
    );
    assert_eq!(
        AppError::Io(IoFailure::new(IoErrorKind::PermissionDenied, "permission denied")).to_string(),
        "I/O error: permission denied"
    );
    assert_eq!(AppError::Journal("Invalid date".to_string()).to_string(), "Journal logic error: Invalid date");
}

#[test]
fn mod_test_app_error_from_io_error() {
    let app_error: AppError = IoFailure::new(IoErrorKind::NotFound, "file not found").into();
    match app_error {
        AppError::Io(inner) => assert_eq!(inner.kind(), IoErrorKind::NotFound),
        _ => panic!("Expected AppError::Io variant"),
    }
}

#[test]
fn test_editor_error_conversion_to_app_error() {
    let editor_error = EditorError::CommandNotFound {
        command: "vim".to_string(),
        source: IoFailure::new(IoErrorKind::NotFound, "command not found"),
    };
    let app_error: AppError = editor_error.into();
    match app_error {
        AppError::Editor(EditorError::CommandNotFound { command, .. }) => assert_eq!(command, "vim"),
        _ => panic!("Expected AppError::Editor variant"),
    }
}

#[test]
fn test_lock_error_conversion_to_app_error() {
    let app_error: AppError = LockError::FileBusy { path: "/path/to/journal.md".to_string() }.into();
    match app_error {
        AppError::Lock(LockError::FileBusy { path }) => assert_eq!(path, "/path/to/journal.md"),
        _ => panic!("Expected AppError::Lock variant"),
    }
}

#[test]
fn test_enhanced_app_error_display_clarity() {
    let message = AppError::Config("Invalid log level configuration: unknown".to_string()).to_string();
    assert!(message.contains("Configuration"));
    assert!(message.contains("Invalid log level configuration"));
    let message = AppError::Journal("Invalid date format: abc".to_string()).to_string();
    assert!(message.contains("Journal"));
    assert!(message.contains("Invalid date format"));
}

#[test]
fn test_app_error_display_wrapping_behavior() {
    let e = AppError::Editor(EditorError::CommandNotFound {
        command: "vim".to_string(),
        source: IoFailure::new(IoErrorKind::NotFound, "command not found"),
    });
    let d = e.to_string();
    assert!(d.starts_with("Editor error: "));
    assert!(d.contains("vim"));
    assert!(d.contains("not found"));
    let e = AppError::Lock(LockError::AcquisitionFailed {
        path: "/test/journal.md".to_string(),
        source: IoFailure::new(IoErrorKind::PermissionDenied, "permission denied"),
    });
    let d = e.to_string();
    assert!(d.starts_with("File locking error: "));
    assert!(d.contains("/test/journal.md"));
    assert!(d.contains("permission denied"));
}

#[test]
fn nested_errors_have_exact_messages() {
    assert_eq!(
        EditorError::NonZeroExit { command: "nano".to_string(), status_code: -1 }.to_string(),
        "Editor 'nano' exited with non-zero status code: -1. This may indicate an issue with editor configuration or the file being edited."
    );
    assert_eq!(
        AppError::Crypto(CryptoError::InvalidPath("x".to_string())).to_string(),
        "Cryptographic error: Invalid file path: x"
    );
    assert_eq!(
        AppError::Database(DatabaseError::NotFound("Entry with id 123 not found".to_string())).to_string(),
        "Database error: Entry not found: Entry with id 123 not found"
    );
    assert_eq!(
        AIError::ModelNotFound("llama3.2:3b".to_string()).to_string(),
        "Model not found: llama3.2:3b. Try: ollama pull llama3.2:3b"
    );
    assert!(CryptoError::VaultLocked.to_string().contains("locked"));
    assert!(CryptoError::VaultLocked.to_string().contains("passphrase"));
}

#[test]
fn mod_test_result_combinators() {
    let io_result: Result<(), IoFailure> = Err(IoFailure::other("test error"));
    let app_result: AppResult<()> = io_result.map_err(AppError::Io);
    assert!(app_result.is_err());
    match app_result {
        Err(AppError::Io(inner)) => assert_eq!(inner.kind(), IoErrorKind::Other),
        _ => panic!("Expected AppError::Io variant"),
    }
}

#[test]
fn test_app_error_source_chaining() {
    let app_error = AppError::Editor(EditorError::CommandNotFound {
        command: "vim".to_string(),
        source: IoFailure::new(IoErrorKind::NotFound, "command not found"),
    });
    let editor_source = match app_error.source().expect("AppError::Editor should have a source") {
        AppErrorSource::Editor(e) => e,
        _ => panic!("First source should be EditorError"),
    };
    let io_source = editor_source.source().expect("EditorError should have a source");
    assert_eq!(io_source.kind(), IoErrorKind::NotFound);

    let app_error = AppError::Lock(LockError::AcquisitionFailed {
        path: "/path/to/journal.md".to_string(),
        source: IoFailure::new(IoErrorKind::PermissionDenied, "permission denied"),
    });
    let lock_source = match app_error.source().expect("AppError::Lock should have a source") {
        AppErrorSource::Lock(e) => e,
        _ => panic!("First source should be LockError"),
    };
    let io_source = lock_source.source().expect("LockError should have a source");
    assert_eq!(io_source.kind(), IoErrorKind::PermissionDenied);

    let app_error = AppError::Io(IoFailure::new(IoErrorKind::NotFound, "file not found"));
    match app_error.source().expect("AppError::Io should have a source") {
        AppErrorSource::Io(e) => assert_eq!(e.kind(), IoErrorKind::NotFound),
        _ => panic!("Source should be an I/O failure"),
    }

    let config_error = AppError::Config("Invalid configuration".to_string());
    assert!(config_error.source().is_none(), "AppError::Config should not have a source");
    let journal_error = AppError::Journal("Invalid date".to_string());
    assert!(journal_error.source().is_none(), "AppError::Journal should not have a source");
}

/// The messages down an error's chain of sources.
fn error_chain(e: &AppError) -> Vec<String> {
    let mut chain = vec![e.to_string()];
    match e.source() {
        Some(AppErrorSource::Io(io)) => chain.push(io.to_string()),
        Some(AppErrorSource::Editor(ed)) => {
            chain.push(ed.to_string());
            if let Some(io) = ed.source() {
                chain.push(io.to_string());
            }
        }
        Some(AppErrorSource::Lock(l)) => {
            chain.push(l.to_string());
            if let Some(io) = l.source() {
                chain.push(io.to_string());
            }
        }
        Some(AppErrorSource::Crypto(c)) => chain.push(c.to_string()),
        Some(AppErrorSource::Database(d)) => chain.push(d.to_string()),
        Some(AppErrorSource::AI(a)) => chain.push(a.to_string()),
        None => {}
    }
    chain
}

#[test]
fn test_full_error_chain_traversal() {
    let app_error = AppError::Editor(EditorError::CommandNotFound {
        command: "vim".to_string(),
        source: IoFailure::new(IoErrorKind::NotFound, "vim: command not found"),
    });
    let chain = error_chain(&app_error);
    assert_eq!(chain.len(), 3, "Error chain should have 3 levels: AppError -> EditorError -> io::Error");
    assert!(chain[0].contains("Editor error"), "First error should be AppError::Editor");
    assert!(chain[1].contains("not found") && chain[1].contains("vim"), "Second error should be EditorError::CommandNotFound");
    assert!(chain[2].contains("vim: command not found"), "Third error should be the underlying I/O error");

    let app_error = AppError::Io(IoFailure::new(IoErrorKind::PermissionDenied, "permission denied"));
    let chain = error_chain(&app_error);
    assert_eq!(chain.len(), 2, "Direct io::Error chain should have 2 levels: AppError -> io::Error");
    assert!(chain[0].contains("I/O error"), "First error should be AppError::Io");
    assert!(chain[1].contains("permission denied"), "Second error should be the underlying I/O error");
}

#[test]
fn test_error_construction_context_preservation() {
    let editor_error = EditorError::CommandNotFound {
        command: "vim".to_string(),
        source: IoFailure::new(IoErrorKind::NotFound, "vim: command not found"),
    };
    match editor_error {
        EditorError::CommandNotFound { command, source } => {
            assert_eq!(command, "vim");
            assert_eq!(source.kind(), IoErrorKind::NotFound);
            assert_eq!(source.to_string(), "vim: command not found");
        }
        _ => panic!("Expected CommandNotFound variant"),
    }
    let lock_error = LockError::AcquisitionFailed {
        path: "/test/journal.md".to_string(),
        source: IoFailure::new(IoErrorKind::PermissionDenied, "permission denied"),
    };
    match lock_error {
        LockError::AcquisitionFailed { path, source } => {
            assert_eq!(path, "/test/journal.md");
            assert_eq!(source.kind(), IoErrorKind::PermissionDenied);
            assert_eq!(source.to_string(), "permission denied");
        }
        _ => panic!("Expected AcquisitionFailed variant"),
    }
    match AppError::Config("Invalid log level: unknown".to_string()) {
        AppError::Config(message) => assert_eq!(message, "Invalid log level: unknown"),
        _ => panic!("Expected Config variant"),
    }
}

#[test]
fn test_comprehensive_error_display_formatting() {
    let long_message = "X".repeat(1000);
    let config_errors = vec![
        ("Empty config", "".to_string()),
        ("Simple message", "Invalid setting".to_string()),
        ("Unicode message", "配置错误: invalid 设置".to_string()),
        ("Long message", long_message),
        ("Special chars", "Config with\nnewlines\tand\ttabs".to_string()),
    ];
    for (desc, message) in config_errors {
        let display = AppError::Config(message.clone()).to_string();
        assert!(display.starts_with("Configuration error: "), "Config error should start with proper prefix for {}", desc);
        assert!(display.contains(&message), "Config error should contain the given message for {}", desc);
    }
    let long_date_error = format!("Very long date error: {}", "x".repeat(500));
    let journal_errors = vec![
        ("Date parsing", "Invalid date format: 2024-13-45".to_string()),
        ("Empty date", "Date cannot be empty".to_string()),
        ("Unicode date", "无效日期: 2024年13月".to_string()),
        ("Long date error", long_date_error),
    ];
    for (desc, message) in journal_errors {
        let display = AppError::Journal(message.clone()).to_string();
        assert!(display.starts_with("Journal logic error: "), "Journal error should start with proper prefix for {}", desc);
        assert!(display.contains(&message), "Journal error should contain the given message for {}", desc);
    }
}

#[test]
fn test_comprehensive_editor_error_display() {
    let long_command = "x".repeat(100);
    let commands = vec![
        ("simple", "vim".to_string()),
        ("with-dashes", "text-editor".to_string()),
        ("with_underscores", "my_editor".to_string()),
        ("unicode", "编辑器".to_string()),
        ("long", long_command),
        ("absolute path", "/usr/bin/vim".to_string()),
        ("relative path", "./vim".to_string()),
    ];
    for (desc, command) in commands {
        let error = EditorError::CommandNotFound {
            command: command.clone(),
            source: IoFailure::new(IoErrorKind::NotFound, "command not found"),
        };
        let display = error.to_string();
        assert!(display.contains(&command), "CommandNotFound should contain command name for {}", desc);
        assert!(display.contains("not found"), "CommandNotFound should indicate not found for {}", desc);
        assert!(display.contains("PATH") || display.contains("install"), "CommandNotFound should provide resolution hint for {}", desc);
    }
    let permission_scenarios = vec![
        ("No permission", IoFailure::new(IoErrorKind::PermissionDenied, "permission denied")),
        ("Access denied", IoFailure::new(IoErrorKind::PermissionDenied, "access denied")),
        ("Read-only", IoFailure::new(IoErrorKind::PermissionDenied, "read-only file system")),
    ];
    for (desc, io_error) in permission_scenarios {
        let display = EditorError::PermissionDenied { command: "vim".to_string(), source: io_error }.to_string();
        assert!(display.contains("vim"), "PermissionDenied should contain command for {}", desc);
        assert!(display.contains("Permission denied") || display.contains("denied"), "PermissionDenied should indicate permission issue for {}", desc);
    }
    let execution_failures = vec![
        ("Resource", IoFailure::other("insufficient resources")),
        ("Disk full", IoFailure::other("no space left on device")),
        ("Memory", IoFailure::other("out of memory")),
        ("Signal", IoFailure::other("killed by signal")),
    ];
    for (desc, io_error) in execution_failures {
        let display = EditorError::ExecutionFailed { command: "vim".to_string(), source: io_error }.to_string();
        assert!(display.contains("vim"), "ExecutionFailed should contain command for {}", desc);
        assert!(display.contains("Failed to execute"), "ExecutionFailed should indicate execution failure for {}", desc);
    }
    for code in vec![1, 127, 130, 255] {
        let display = EditorError::NonZeroExit { command: "vim".to_string(), status_code: code }.to_string();
        assert!(display.contains("vim"), "NonZeroExit should contain command for code {}", code);
        assert!(display.contains(&code.to_string()), "NonZeroExit should contain status code {}", code);
        assert!(display.contains("non-zero"), "NonZeroExit should indicate non-zero exit for code {}", code);
    }
    let long_message = "x".repeat(500);
    let other_messages = vec![
        ("Timeout", "editor operation timed out".to_string()),
        ("Corruption", "editor config file corrupted".to_string()),
        ("Network", "editor requires network access".to_string()),
        ("Unicode", "编辑器错误信息".to_string()),
        ("Empty", "".to_string()),
        ("Long", long_message),
    ];
    for (desc, message) in other_messages {
        let display = EditorError::Other { command: "vim".to_string(), message: message.clone() }.to_string();
        assert!(display.contains("vim"), "Other variant should contain command for {}", desc);
        assert!(display.contains("unexpected issue") || display.contains("issue"), "Other variant should indicate unexpected issue for {}", desc);
        if !message.is_empty() {
            assert!(display.contains(&message), "Other variant should contain custom message for {}", desc);
        }
    }
}

#[test]
fn test_error_display_consistency_and_standards() {
    let errors = vec![
        (AppError::Config("test".to_string()), "Configuration error: "),
        (AppError::Journal("test".to_string()), "Journal logic error: "),
        (AppError::Io(IoFailure::other("test")), "I/O error: "),
    ];
    for (error, expected_prefix) in errors {
        let display = error.to_string();
        assert!(display.starts_with(expected_prefix), "Error display should start with consistent prefix: {}", expected_prefix);
        assert!(!display.ends_with('\n'), "Error display should not end with newline");
        assert!(!display.starts_with(' '), "Error display should not start with whitespace");
        assert!(!display.ends_with(' '), "Error display should not end with whitespace");
    }
    let long_message = "This is a very long error message that should still be properly formatted and readable even when it exceeds typical line lengths and contains various types of information";
    let display = AppError::Config(long_message.to_string()).to_string();
    assert!(display.contains(long_message), "Long error messages should be preserved completely");
    assert!(display.len() > long_message.len(), "Error display should include both prefix and the given message");
    let special_chars = "Message with\ttabs\nand newlines\rand\0null bytes";
    let display = AppError::Journal(special_chars.to_string()).to_string();
    assert!(display.contains("tabs"), "Error display should preserve readable parts of special character messages");
    assert!(display.starts_with("Journal logic error: "), "Error display should maintain proper formatting even with special characters");
}

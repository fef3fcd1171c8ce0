use ponder::cli::{AskArgs, CliArgs, PonderCommand};

#[test]
fn test_debug_impl_redacts_sensitive_info() {
    let args = CliArgs {
        command: Some(PonderCommand::Ask(AskArgs {
            question: "What did I write about anxiety?".to_string(),
            from: None,
            to: None,
        })),
        verbose: true,
        log_format: "text".to_string(),
    };

    let debug_output = args.debug_string();
    assert!(debug_output.contains("verbose: true"));
    assert!(debug_output.contains("[REDACTED]"));
    assert!(!debug_output.contains("anxiety"));
}


#[test]
fn debug_string_matches_the_debug_format() {
    let args = CliArgs { command: None, verbose: false, log_format: "text".to_string() };
    assert_eq!(args.debug_string(), "CliArgs { command: \"[REDACTED]\", verbose: false, log_format: \"text\" }");
    let args = CliArgs { command: None, verbose: true, log_format: "a\"b\\c\n".to_string() };
    assert_eq!(
        args.debug_string(),
        format!("CliArgs {{ command: {:?}, verbose: true, log_format: {:?} }}", "[REDACTED]", "a\"b\\c\n")
    );
}

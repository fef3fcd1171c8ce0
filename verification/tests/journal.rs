use chrono::Datelike;
use ponder::dates::{Date, LocalDateTime};
use ponder::errors::{AppError, EditorError, IoErrorKind, IoFailure, LockError};
use ponder::journal::io::FileSystemIO;
use ponder::editor::SystemEditor;
use ponder::journal::{append_date_time_text, EntryOpening, OpenAction, OpenStage};
use ponder::journal_core::DateSpecifier;
use ponder::journal_io::{
    check_journal_dir_absolute, editor_outcome, lock_error_for, timestamp_header, with_context, EditAction,
    EditSession, EditStage, ExitInfo, LockFailure,
};
use ponder::journal_logic::{date_header_if_needed, entry_filename_for, get_entry_path_for_date, join_path};

fn d(y: i32, m: u32, day: u32) -> Date {
    Date::from_ymd_opt(y, m, day).unwrap()
}

fn today() -> Date {
    let n = chrono::Local::now().date_naive();
    d(n.year(), n.month(), n.day())
}

fn at(date: Date, hour: u32, minute: u32, second: u32) -> LocalDateTime {
    LocalDateTime { date, hour, minute, second, nanosecond: 0 }
}

#[test]
fn test_from_cli_args_today() {
    let spec = DateSpecifier::from_cli_args(false, false, None).unwrap();
    assert_eq!(spec, DateSpecifier::Today);
}

#[test]
fn test_from_cli_args_retro() {
    let spec = DateSpecifier::from_cli_args(true, false, None).unwrap();
    assert_eq!(spec, DateSpecifier::Retro);
}

#[test]
fn test_from_cli_args_reminisce() {
    let spec = DateSpecifier::from_cli_args(false, true, None).unwrap();
    assert_eq!(spec, DateSpecifier::Reminisce);
}

#[test]
fn test_from_cli_args_specific_date() {
    match DateSpecifier::from_cli_args(false, false, Some("2023-01-15")).unwrap() {
        DateSpecifier::Specific(date) => {
            assert_eq!(date.year(), 2023);
            assert_eq!(date.month(), 1);
            assert_eq!(date.day(), 15);
        }
        _ => panic!("Expected Specific variant"),
    }
}

#[test]
fn test_from_cli_args_specific_date_compact() {
    match DateSpecifier::from_cli_args(false, false, Some("20230115")).unwrap() {
        DateSpecifier::Specific(date) => {
            assert_eq!(date.year(), 2023);
            assert_eq!(date.month(), 1);
            assert_eq!(date.day(), 15);
        }
        _ => panic!("Expected Specific variant"),
    }
}

#[test]
fn test_from_cli_args_invalid_date() {
    let result = DateSpecifier::from_cli_args(false, false, Some("invalid-date"));
    assert!(result.is_err());
    match result {
        Err(e) => assert!(e.to_string().contains("input contains invalid characters")),
        _ => panic!("Expected a parse error"),
    }
}

#[test]
fn retro_takes_precedence_over_reminisce_in_cli_args() {
    assert_eq!(DateSpecifier::from_cli_args(true, true, None).unwrap(), DateSpecifier::Retro);
    match DateSpecifier::from_cli_args(true, true, Some("2020-02-29")).unwrap() {
        DateSpecifier::Specific(date) => assert_eq!(date, d(2020, 2, 29)),
        _ => panic!("Expected Specific variant"),
    }
}

#[test]
fn test_resolve_dates_today() {
    let reference_date = d(2023, 6, 15);
    let dates = DateSpecifier::Today.resolve_dates(reference_date);
    assert_eq!(dates.len(), 1);
    assert_eq!(dates[0], reference_date);
}

#[test]
fn test_resolve_dates_retro() {
    let dates = DateSpecifier::Retro.resolve_dates(d(2023, 6, 15));
    assert_eq!(dates.len(), 7);
    assert_eq!(dates[0], d(2023, 6, 14));
    assert_eq!(dates[6], d(2023, 6, 8));
}

#[test]
fn test_resolve_dates_reminisce() {
    let dates = DateSpecifier::Reminisce.resolve_dates(d(2023, 6, 15));
    assert!(dates.contains(&d(2023, 5, 15)));
    assert!(dates.contains(&d(2023, 3, 15)));
    assert!(dates.contains(&d(2022, 12, 15)));
    assert!(dates.contains(&d(2022, 6, 15)));
}

#[test]
fn test_resolve_dates_specific() {
    let specific_date = d(2023, 1, 15);
    let dates = DateSpecifier::Specific(specific_date).resolve_dates(d(2023, 6, 15));
    assert_eq!(dates.len(), 1);
    assert_eq!(dates[0], specific_date);
}

#[test]
fn reminisce_dates_are_distinct_and_newest_first() {
    let dates = DateSpecifier::Reminisce.resolve_dates(d(2024, 2, 29));
    assert_eq!(dates.len(), 103);
    assert_eq!(dates[0], d(2024, 1, 29));
    assert_eq!(dates[3], d(2023, 2, 28));
    assert_eq!(dates[102], d(1924, 2, 29));
    for i in 1..dates.len() {
        assert!(dates[i].is_before(&dates[i - 1]));
    }
}

#[test]
fn retro_dates_cross_year_start() {
    let dates = DateSpecifier::Retro.resolve_dates(d(2023, 1, 3));
    assert_eq!(dates[1], d(2023, 1, 1));
    assert_eq!(dates[2], d(2022, 12, 31));
    assert_eq!(dates[6], d(2022, 12, 27));
}

#[test]
fn test_date_specifier_from_args() {
    assert!(DateSpecifier::from_args(false, false, None).is_ok());
}

#[test]
fn from_args_prefers_reminisce_and_wraps_parse_errors() {
    assert_eq!(DateSpecifier::from_args(true, true, None).unwrap(), DateSpecifier::Reminisce);
    assert_eq!(DateSpecifier::from_args(true, false, None).unwrap(), DateSpecifier::Retro);
    match DateSpecifier::from_args(false, false, Some("abc")) {
        Err(AppError::Journal(m)) => assert_eq!(m, "Invalid date format: input contains invalid characters"),
        _ => panic!("Expected a journal error"),
    }
}

#[test]
fn test_get_dates_today() {
    let dates = DateSpecifier::Today.get_dates();
    assert_eq!(dates.len(), 1);
    assert_eq!(dates[0], today());
}

#[test]
fn test_get_dates_retro() {
    let dates = DateSpecifier::Retro.get_dates();
    assert_eq!(dates.len(), 7);
    let t = today();
    let expected = DateSpecifier::Retro.resolve_dates(t);
    assert_eq!(dates, expected);
    for (i, date) in dates.iter().enumerate() {
        let n = chrono::NaiveDate::from_ymd_opt(t.year(), t.month(), t.day()).unwrap()
            - chrono::Duration::days(i as i64 + 1);
        assert_eq!(*date, d(n.year(), n.month(), n.day()));
    }
}

#[test]
fn test_get_dates_reminisce() {
    let dates = DateSpecifier::Reminisce.get_dates();
    assert!(dates.len() >= 4);
    for i in 1..dates.len() {
        assert!(dates[i].is_before(&dates[i - 1]));
    }
}

#[test]
fn test_get_dates_specific() {
    let specific_date = d(2023, 1, 15);
    let dates = DateSpecifier::Specific(specific_date).get_dates();
    assert_eq!(dates.len(), 1);
    assert_eq!(dates[0], specific_date);
}

#[test]
fn test_path_generation() {
    let io = FileSystemIO { journal_dir: "/tmp/journal".to_string() };
    assert_eq!(io.generate_path_for_naive_date(d(2023, 1, 15)), "/tmp/journal/20230115.md");
    assert_eq!(io.generate_path_for_date(&at(d(2023, 1, 15), 12, 0, 0)), "/tmp/journal/20230115.md");
}

#[test]
fn entry_file_names_and_paths() {
    assert_eq!(entry_filename_for(d(2023, 1, 5)), "20230105.md");
    assert_eq!(entry_filename_for(d(987, 11, 30)), "09871130.md");
    assert_eq!(entry_filename_for(d(-5, 3, 1)), "-0050301.md");
    assert_eq!(get_entry_path_for_date("/j/", d(2023, 1, 5)), "/j/20230105.md");
    assert_eq!(join_path("", "x.md"), "x.md");
    assert_eq!(join_path("rel", "x.md"), "rel/x.md");
}

#[test]
fn headers_for_new_and_existing_entries() {
    let t = at(d(2023, 1, 15), 14, 3, 9);
    assert_eq!(date_header_if_needed("", &t), Some("# January 15, 2023: Sunday\n\n## 14:03:09\n\n".to_string()));
    assert_eq!(date_header_if_needed("Existing content", &t), None);
    assert_eq!(timestamp_header("", &t), "# January 15, 2023: Sunday\n\n## 14:03:09\n\n");
    assert_eq!(timestamp_header("# May 29, 2025: Thursday\n\n", &t), "## 14:03:09\n\n");
    assert_eq!(append_date_time_text("text", &t), "\n\n## 14:03:09\n\n");
    let leap = LocalDateTime { nanosecond: 1_500_000_000, ..at(d(2016, 12, 31), 23, 59, 59) };
    assert_eq!(timestamp_header("x", &leap), "## 23:59:60\n\n");
}

#[test]
fn test_ensure_journal_directory_exists_rejects_relative_path() {
    match check_journal_dir_absolute("relative/path/to/journal") {
        Err(AppError::Journal(msg)) => {
            assert!(msg.contains("must be absolute"));
            assert!(msg.contains("relative/path/to/journal"));
        }
        _ => panic!("Expected AppError::Journal variant"),
    }
    assert!(check_journal_dir_absolute("/abs").is_ok());
}

#[test]
fn io_context_keeps_kind() {
    let e = with_context("Failed to create journal directory", &IoFailure::new(IoErrorKind::PermissionDenied, "denied"));
    assert_eq!(e.kind(), IoErrorKind::PermissionDenied);
    assert_eq!(e.to_string(), "Failed to create journal directory: denied");
}

#[test]
fn editor_outcomes_are_classified() {
    assert!(editor_outcome("vim", Ok(ExitInfo { success: true, code: Some(0) })).is_ok());
    match editor_outcome("vim", Ok(ExitInfo { success: false, code: None })) {
        Err(AppError::Editor(EditorError::NonZeroExit { command, status_code })) => {
            assert_eq!(command, "vim");
            assert_eq!(status_code, -1);
        }
        _ => panic!("Expected NonZeroExit"),
    }
    match editor_outcome("vim", Err(IoFailure::new(IoErrorKind::NotFound, "nf"))) {
        Err(AppError::Editor(EditorError::CommandNotFound { .. })) => {}
        _ => panic!("Expected CommandNotFound"),
    }
    match editor_outcome("vim", Err(IoFailure::new(IoErrorKind::PermissionDenied, "pd"))) {
        Err(AppError::Editor(EditorError::PermissionDenied { .. })) => {}
        _ => panic!("Expected PermissionDenied"),
    }
    match editor_outcome("vim", Err(IoFailure::new(IoErrorKind::WouldBlock, "wb"))) {
        Err(AppError::Editor(EditorError::ExecutionFailed { .. })) => {}
        _ => panic!("Expected ExecutionFailed"),
    }
}

#[test]
fn lock_failures_are_classified() {
    match lock_error_for("/j/a.md", LockFailure::Lock(IoFailure::new(IoErrorKind::WouldBlock, "busy"))) {
        LockError::FileBusy { path } => assert_eq!(path, "/j/a.md"),
        _ => panic!("Expected FileBusy"),
    }
    match lock_error_for("/j/a.md", LockFailure::Lock(IoFailure::other("odd"))) {
        LockError::AcquisitionFailed { .. } => {}
        _ => panic!("Expected AcquisitionFailed"),
    }
    match lock_error_for("/j/a.md", LockFailure::Open(IoFailure::new(IoErrorKind::WouldBlock, "x"))) {
        LockError::AcquisitionFailed { .. } => {}
        _ => panic!("Expected AcquisitionFailed"),
    }
}

#[test]
fn edit_session_with_no_dates_finishes_at_once() {
    let (s, a) = EditSession::start("/j", "vim", &[]);
    assert_eq!(s.stage(), EditStage::Done);
    assert!(matches!(a, EditAction::Finish(Ok(()))));
}

#[test]
fn edit_session_locks_existing_entries_then_runs_editor() {
    let dates = [d(2023, 6, 14), d(2023, 6, 13), d(2023, 6, 12)];
    let (mut s, a) = EditSession::start("/j", "vim", &dates);
    // Several dates: no entry is created, existing ones are looked for.
    match a {
        EditAction::CheckExists { path } => assert_eq!(path, "/j/20230614.md"),
        _ => panic!("Expected CheckExists"),
    }
    match s.on_existence(true) {
        EditAction::CheckExists { path } => assert_eq!(path, "/j/20230613.md"),
        _ => panic!("Expected CheckExists"),
    }
    assert!(matches!(s.on_existence(false), EditAction::CheckExists { .. }));
    match s.on_existence(true) {
        EditAction::Lock { path } => assert_eq!(path, "/j/20230614.md"),
        _ => panic!("Expected Lock"),
    }
    match s.on_locked(Ok(())) {
        EditAction::Lock { path } => assert_eq!(path, "/j/20230612.md"),
        _ => panic!("Expected Lock"),
    }
    match s.on_locked(Ok(())) {
        EditAction::LaunchEditor { command, paths } => {
            assert_eq!(command, "vim");
            assert_eq!(paths, vec!["/j/20230614.md".to_string(), "/j/20230612.md".to_string()]);
        }
        _ => panic!("Expected LaunchEditor"),
    }
    assert!(matches!(s.on_editor_exited(Ok(())), EditAction::Finish(Ok(()))));
    assert_eq!(s.stage(), EditStage::Done);
}

#[test]
fn edit_session_with_one_date_creates_it_first() {
    let (mut s, a) = EditSession::start("/j", "vim", &[d(2024, 1, 2)]);
    assert!(matches!(a, EditAction::AppendTimestamp { ref path } if path == "/j/20240102.md"));
    assert!(matches!(s.on_appended(Ok(())), EditAction::CheckExists { ref path } if path == "/j/20240102.md"));
    assert!(matches!(s.on_existence(true), EditAction::Lock { .. }));
}

#[test]
fn edit_session_stops_at_a_busy_file() {
    let (mut s, _) = EditSession::start("/j", "vim", &[d(2023, 6, 15)]);
    s.on_appended(Ok(()));
    s.on_existence(true);
    match s.on_locked(Err(LockFailure::Lock(IoFailure::new(IoErrorKind::WouldBlock, "busy")))) {
        EditAction::Finish(Err(AppError::Lock(LockError::FileBusy { path }))) => assert_eq!(path, "/j/20230615.md"),
        _ => panic!("Expected FileBusy"),
    }
}

#[test]
fn edit_session_ends_when_no_entry_exists_or_header_fails() {
    let (mut s, _) = EditSession::start("/j", "vim", &[d(2023, 6, 15), d(2023, 6, 14)]);
    s.on_existence(false);
    assert!(matches!(s.on_existence(false), EditAction::Finish(Ok(()))));
    let (mut s, _) = EditSession::start("/j", "vim", &[d(2023, 6, 15)]);
    match s.on_appended(Err(AppError::Io(IoFailure::other("disk")))) {
        EditAction::Finish(Err(AppError::Io(e))) => assert_eq!(e.to_string(), "disk"),
        _ => panic!("Expected the append error"),
    }
}

#[test]
fn test_system_editor_empty_paths() {
    let editor = SystemEditor { editor_cmd: "vim".to_string() };
    let paths: Vec<String> = Vec::new();
    // Nothing is launched for no paths, and that counts as success.
    assert!(!editor.should_launch(paths.len()));
    assert!(editor.open_outcome(Ok(())).is_ok());
}

#[test]
fn system_editor_failure_names_the_command() {
    let editor = SystemEditor { editor_cmd: "vim".to_string() };
    assert!(editor.should_launch(2));
    match editor.open_outcome(Err(IoFailure::new(IoErrorKind::NotFound, "No such file"))) {
        Err(AppError::Editor(EditorError::Other { command, message })) => {
            assert_eq!(command, "vim");
            assert_eq!(message, "Failed to open files: No such file");
        }
        other => panic!("unexpected {:?}", other),
    }
}

#[test]
fn opening_today_appends_a_heading_then_opens() {
    let (mut s, a) = EntryOpening::start(DateSpecifier::Today);
    assert!(matches!(a, OpenAction::TodayPath));
    let a = s.on_path(Ok("/j/20240115.md".to_string()));
    assert!(matches!(a, OpenAction::AppendDateTime { ref path } if path == "/j/20240115.md"));
    let a = s.on_appended(Ok(()));
    match a {
        OpenAction::OpenFiles { paths } => assert_eq!(paths, vec!["/j/20240115.md".to_string()]),
        other => panic!("unexpected {:?}", other),
    }
    let a = s.on_opened(Ok(()));
    assert!(matches!(a, OpenAction::Finish(Ok(()))));
    assert_eq!(s.stage(), OpenStage::Done);
}

#[test]
fn opening_a_specific_date_creates_a_missing_entry() {
    let date = d(2024, 1, 15);
    let (mut s, a) = EntryOpening::start(DateSpecifier::Specific(date));
    assert!(matches!(a, OpenAction::DatePath { date: x } if x == date));
    let a = s.on_path(Ok("/j/20240115.md".to_string()));
    assert!(matches!(a, OpenAction::CheckExists { ref path } if path == "/j/20240115.md"));
    let a = s.on_exists(false);
    assert!(matches!(a, OpenAction::AppendDateTime { ref path } if path == "/j/20240115.md"));
    let a = s.on_appended(Ok(()));
    assert!(matches!(a, OpenAction::OpenFiles { ref paths } if paths.len() == 1));
    let a = s.on_opened(Err(AppError::Journal("editor".to_string())));
    assert!(matches!(a, OpenAction::Finish(Err(AppError::Journal(_)))));
}

#[test]
fn opening_an_existing_specific_entry_skips_the_heading() {
    let (mut s, _) = EntryOpening::start(DateSpecifier::Specific(d(2023, 6, 1)));
    s.on_path(Ok("/j/20230601.md".to_string()));
    let a = s.on_exists(true);
    match a {
        OpenAction::OpenFiles { paths } => assert_eq!(paths, vec!["/j/20230601.md".to_string()]),
        other => panic!("unexpected {:?}", other),
    }
}

#[test]
fn opening_the_past_week_opens_only_existing_entries_in_order() {
    let (mut s, mut a) = EntryOpening::start(DateSpecifier::Retro);
    assert_eq!(s.dates().len(), 7);
    let io = FileSystemIO { journal_dir: "/j".to_string() };
    let mut expected: Vec<String> = Vec::new();
    let mut k = 0;
    loop {
        a = match a {
            OpenAction::DatePath { date } => s.on_path(Ok(io.generate_path_for_naive_date(date))),
            OpenAction::CheckExists { path } => {
                let exists = k % 2 == 0;
                if exists {
                    expected.push(path);
                }
                k += 1;
                s.on_exists(exists)
            }
            OpenAction::OpenFiles { paths } => {
                assert_eq!(paths, expected);
                s.on_opened(Ok(()))
            }
            OpenAction::Finish(r) => {
                assert!(r.is_ok());
                break;
            }
            other => panic!("unexpected {:?}", other),
        };
    }
    assert_eq!(k, 7);
    assert_eq!(expected.len(), 4);
}

#[test]
fn opening_reminisce_dates_with_no_entries_opens_nothing() {
    let (mut s, mut a) = EntryOpening::start(DateSpecifier::Reminisce);
    loop {
        a = match a {
            OpenAction::DatePath { .. } => s.on_path(Ok("/j/x.md".to_string())),
            OpenAction::CheckExists { .. } => s.on_exists(false),
            OpenAction::Finish(r) => {
                assert!(r.is_ok());
                break;
            }
            other => panic!("unexpected {:?}", other),
        };
    }
    assert_eq!(s.found().len(), 0);
}

#[test]
fn a_failed_path_lookup_ends_the_opening() {
    let (mut s, _) = EntryOpening::start(DateSpecifier::Retro);
    let a = s.on_path(Err(AppError::Journal("bad date".to_string())));
    assert!(matches!(a, OpenAction::Finish(Err(AppError::Journal(_)))));
    assert_eq!(s.stage(), OpenStage::Done);
}

#[test]
fn heading_if_empty_style_adds_headings_without_checking_existence() {
    let (mut s, a) = EntryOpening::start_with(DateSpecifier::Specific(d(2024, 2, 29)), true);
    assert!(s.heading_if_empty());
    assert!(matches!(a, OpenAction::DatePath { .. }));
    let a = s.on_path(Ok("/j/20240229.md".to_string()));
    assert!(matches!(a, OpenAction::AddHeadingIfEmpty { ref path } if path == "/j/20240229.md"));
    let a = s.on_appended(Ok(()));
    assert!(matches!(a, OpenAction::OpenFiles { ref paths } if paths == &vec!["/j/20240229.md".to_string()]));

    let (mut s, a) = EntryOpening::start_with(DateSpecifier::Today, true);
    assert!(matches!(a, OpenAction::TodayPath));
    let a = s.on_path(Ok("/j/t.md".to_string()));
    assert!(matches!(a, OpenAction::AddHeadingIfEmpty { .. }));
    let a = s.on_appended(Err(AppError::Journal("disk full".to_string())));
    assert!(matches!(a, OpenAction::Finish(Err(AppError::Journal(_)))));
}

#[test]
fn heading_if_empty_style_still_checks_past_week_entries() {
    let (mut s, a) = EntryOpening::start_with(DateSpecifier::Retro, true);
    assert!(matches!(a, OpenAction::DatePath { .. }));
    let a = s.on_path(Ok("/j/a.md".to_string()));
    assert!(matches!(a, OpenAction::CheckExists { .. }));
}

#[test]
fn today_path_names_follow_chrono_year_format() {
    let io = FileSystemIO { journal_dir: "/j".to_string() };
    for (y, m, day) in [(2024, 1, 5), (987, 12, 31), (12345, 6, 7), (-3, 2, 1)] {
        let t = at(d(y, m, day), 10, 0, 0);
        let expected = format!(
            "/j/{}.md",
            chrono::NaiveDate::from_ymd_opt(y, m, day).unwrap().format("%Y%m%d")
        );
        assert_eq!(io.generate_path_for_date(&t), expected);
    }
    assert_eq!(io.generate_path_for_date(&at(d(12345, 6, 7), 0, 0, 0)), "/j/+123450607.md");
}

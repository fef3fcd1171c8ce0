//! Decisions of the `ponder` command: which command runs, how dates given
//! on the command line are read, when a wrong passphrase is asked again,
//! and how logging is set up.
use vstd::prelude::*;
use crate::cli::{EditArgs, PonderCommand};
use crate::constants::{DATE_FORMAT_ISO, DEFAULT_LOG_LEVEL, LOG_FORMAT_JSON};
use crate::dates::{chrono_parse_date, parse_date_with, valid_ymd, Date};
use crate::errors::{AppError, AppResult, CryptoError, DatabaseError};
use crate::journal_core::{parse_date_spec, DateSpecifier};
use crate::util::{concat2, str_eq};

verus! {

/// A date range given as `--from` and `--to`, both as `YYYY-MM-DD`.
pub open spec fn date_range_outcome(
    from: Option<Seq<char>>,
    to: Option<Seq<char>>,
    r: AppResult<Option<(Date, Date)>>,
) -> bool {
    match (from, to) {
        (Some(f), Some(t)) => match chrono_parse_date(f, DATE_FORMAT_ISO@) {
            Err(e) => r matches Err(AppError::Journal(m)) && m@ == "Invalid 'from' date: "@ + e,
            Ok(fd) => match chrono_parse_date(t, DATE_FORMAT_ISO@) {
                Err(e) => r matches Err(AppError::Journal(m)) && m@ == "Invalid 'to' date: "@ + e,
                Ok(td) => r matches Ok(Some((a, b))) && a@ == fd && b@ == td,
            },
        },
        (None, None) => r matches Ok(None),
        _ => r matches Err(AppError::Journal(m)) && m@ == "Both --from and --to must be specified together"@,
    }
}

/// The view of an optional argument.
pub open spec fn opt_arg(o: Option<&str>) -> Option<Seq<char>> {
    match o {
        Some(s) => Some(s@),
        None => None,
    }
}

/// Reads the date range of `ask` and `search`: both ends or neither.
pub fn parse_date_range(from: Option<&str>, to: Option<&str>) -> (r: AppResult<Option<(Date, Date)>>)
    ensures
        date_range_outcome(opt_arg(from), opt_arg(to), r),
{
    match (from, to) {
        (Some(f), Some(t)) => {
            let fd = match parse_date_with(f, DATE_FORMAT_ISO) {
                Ok(d) => d,
                Err(e) => return Err(AppError::Journal(concat2("Invalid 'from' date: ", e.as_str()))),
            };
            let td = match parse_date_with(t, DATE_FORMAT_ISO) {
                Ok(d) => d,
                Err(e) => return Err(AppError::Journal(concat2("Invalid 'to' date: ", e.as_str()))),
            };
            Ok(Some((fd, td)))
        },
        (None, None) => Ok(None),
        _ => Err(AppError::Journal(String::from_str("Both --from and --to must be specified together"))),
    }
}

/// The date a command works on: the date given (as `YYYY-MM-DD` or
/// `YYYYMMDD`), or `today`.
pub fn date_or_today(date_str: Option<&str>, today: Date) -> (r: AppResult<Date>)
    ensures
        match date_str {
            None => r matches Ok(d) && d == today,
            Some(s) => match parse_date_spec(s@) {
                Ok(v) => r matches Ok(d) && d@ == v,
                Err(e) => r matches Err(AppError::Journal(m)) && m@ == "Invalid date format: "@ + e,
            },
        },
{
    match date_str {
        None => Ok(today),
        Some(s) => match DateSpecifier::from_cli_args(false, false, Some(s)) {
            Ok(DateSpecifier::Specific(d)) => Ok(d),
            Ok(_) => Ok(today),
            Err(e) => Err(AppError::Journal(concat2("Invalid date format: ", e.message.as_str()))),
        },
    }
}

/// How many passphrases may be tried when opening the database.
pub const MAX_PASSPHRASE_ATTEMPTS: u32 = 3;

/// What follows a failed attempt to open the database.
#[derive(Debug)]
pub enum OpenRetry {
    /// The passphrase was wrong: lock the session and try again.
    LockAndRetry { next_attempt: u32 },
    /// The passphrase was wrong too often: lock the session and fail.
    LockAndFail(AppError),
    /// Another failure: fail with it.
    Fail(AppError),
}

/// What follows attempt number `attempt` (from 1) failing with `error`: a
/// wrong passphrase is asked again until the attempts are used up; any
/// other error ends at once.
pub fn after_failed_open(attempt: u32, error: AppError) -> (r: OpenRetry)
    requires
        1 <= attempt <= MAX_PASSPHRASE_ATTEMPTS,
    ensures
        match error {
            AppError::Database(DatabaseError::WrongPassphrase) => if attempt < MAX_PASSPHRASE_ATTEMPTS {
                r matches OpenRetry::LockAndRetry { next_attempt } && next_attempt == attempt + 1
            } else {
                r matches OpenRetry::LockAndFail(AppError::Crypto(CryptoError::MaxRetriesExceeded))
            },
            _ => r matches OpenRetry::Fail(e) && e == error,
        },
{
    match error {
        AppError::Database(DatabaseError::WrongPassphrase) => {
            if attempt < MAX_PASSPHRASE_ATTEMPTS {
                OpenRetry::LockAndRetry { next_attempt: attempt + 1 }
            } else {
                OpenRetry::LockAndFail(AppError::Crypto(CryptoError::MaxRetriesExceeded))
            }
        },
        other => OpenRetry::Fail(other),
    }
}

/// How logs are written: as JSON when asked for or in CI, and from which
/// level unless the environment sets a filter (`info` when verbose, `warn`
/// otherwise).
pub fn logging_choice(log_format: &str, ci: bool, verbose: bool) -> (r: (bool, &'static str))
    ensures
        r.0 == (log_format@ == LOG_FORMAT_JSON@ || ci),
        r.1@ == (if verbose { DEFAULT_LOG_LEVEL@ } else { "warn"@ }),
{
    let json = str_eq(log_format, LOG_FORMAT_JSON) || ci;
    let level = if verbose { DEFAULT_LOG_LEVEL } else { "warn" };
    (json, level)
}

/// The command to run: the one given, or editing today's entry.
pub fn command_or_default(command: Option<PonderCommand>) -> (r: PonderCommand)
    ensures
        match command {
            Some(c) => r == c,
            None => r matches PonderCommand::Edit(a) && !a.retro && !a.reminisce && a.date is None,
        },
{
    match command {
        Some(c) => c,
        None => PonderCommand::Edit(EditArgs { retro: false, reminisce: false, date: None }),
    }
}

} // verus!

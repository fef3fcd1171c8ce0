//! Journal entry logic: reading the date selection from the command line,
//! naming entry files, and the headers written into entries.
//!
//! Filesystem access and launching the editor are done by the application;
//! it hands the results to the functions here.
use vstd::prelude::*;
use crate::constants::{JOURNAL_FILE_EXTENSION, JOURNAL_HEADER_DATE_FORMAT};
use crate::dates::{chrono_format_date, local_now, time_fields_valid, valid_ymd, Date, LocalDateTime};
use crate::errors::{AppError, AppResult};
use crate::journal_core::{
    dates_view, parse_date_spec, parsed_view, resolves_to, DateParseError,
};
use crate::util::{push_chars, push_decimal, push_str_chars, push_zero_padded, str_chars, string_from_chars, decimal, zero_padded};

pub use crate::journal_core::DateSpecifier;

verus! {

/// The specifier chosen by the `edit` arguments when a date string, if
/// given, was read as `parsed`: a date takes precedence, then reminisce,
/// then retro, then today; an unreadable date is a journal error.
pub open spec fn args_choice(
    retro: bool,
    reminisce: bool,
    parsed: Option<Result<(int, int, int), Seq<char>>>,
    r: AppResult<DateSpecifier>,
) -> bool {
    match parsed {
        Some(Ok(v)) => r matches Ok(DateSpecifier::Specific(d)) && d@ == v,
        Some(Err(m)) => r matches Err(AppError::Journal(msg)) && msg@ == "Invalid date format: "@ + m,
        None => r matches Ok(s) && s == (if reminisce {
            DateSpecifier::Reminisce
        } else if retro {
            DateSpecifier::Retro
        } else {
            DateSpecifier::Today
        }),
    }
}

/// Law: without a date string, the `edit` arguments choose the reminisce
/// dates whenever `--reminisce` is given (whatever `--retro` says), the past
/// week when only `--retro` is given, and today's entry when neither is.
pub proof fn law_edit_args_reminisce_first(retro: bool, reminisce: bool, r: AppResult<DateSpecifier>)
    requires
        args_choice(retro, reminisce, None, r),
    ensures
        reminisce ==> r matches Ok(DateSpecifier::Reminisce),
        !reminisce && retro ==> r matches Ok(DateSpecifier::Retro),
        !reminisce && !retro ==> r matches Ok(DateSpecifier::Today),
        r is Ok,
{
}

impl DateSpecifier {
    /// The specifier for the `edit` arguments, given how the date string (if
    /// any) was read.
    pub fn from_args_parts(
        retro: bool,
        reminisce: bool,
        parsed: Option<Result<Date, DateParseError>>,
    ) -> (r: AppResult<DateSpecifier>)
        ensures
            args_choice(retro, reminisce, parsed_view(parsed), r),
            parsed is None && reminisce ==> r matches Ok(DateSpecifier::Reminisce),
            parsed is None && !reminisce && retro ==> r matches Ok(DateSpecifier::Retro),
            parsed is None && !reminisce && !retro ==> r matches Ok(DateSpecifier::Today),
    {
        match parsed {
            Some(Ok(d)) => Ok(DateSpecifier::Specific(d)),
            Some(Err(e)) => {
                let mut out: Vec<char> = Vec::new();
                push_str_chars(&mut out, "Invalid date format: ");
                push_str_chars(&mut out, e.message.as_str());
                Err(AppError::Journal(string_from_chars(&out)))
            },
            None => {
                if reminisce {
                    Ok(DateSpecifier::Reminisce)
                } else if retro {
                    Ok(DateSpecifier::Retro)
                } else {
                    Ok(DateSpecifier::Today)
                }
            },
        }
    }

    /// Creates a specifier from the `edit` arguments: a date string takes
    /// precedence, then the reminisce flag, then the retro flag; with none
    /// of them, today. An unreadable date is a journal error.
    pub fn from_args(retro: bool, reminisce: bool, date_str: Option<&str>) -> (r: AppResult<DateSpecifier>)
        ensures
            args_choice(
                retro,
                reminisce,
                match date_str {
                    Some(s) => Some(parse_date_spec(s@)),
                    None => None,
                },
                r,
            ),
            date_str is None && reminisce ==> r matches Ok(DateSpecifier::Reminisce),
            date_str is None && !reminisce && retro ==> r matches Ok(DateSpecifier::Retro),
            date_str is None && !reminisce && !retro ==> r matches Ok(DateSpecifier::Today),
    {
        let parsed = match date_str {
            Some(s) => Some(DateSpecifier::parse_date_string(s)),
            None => None,
        };
        DateSpecifier::from_args_parts(retro, reminisce, parsed)
    }

    /// The dates of this specifier relative to today's local date.
    pub fn get_dates(&self) -> (r: Vec<Date>)
        ensures
            exists|today: (int, int, int)|
                today.0 >= 1969 && valid_ymd(today) && resolves_to(*self, today, dates_view(r@)),
    {
        let now = local_now();
        proof {
            use_type_invariant(&now.date);
            Date::lemma_inv(now.date);
        }
        self.resolve_dates(now.date)
    }
}

/// Decimal representation of a year with at least four characters, a sign
/// counting as one, as `{:04}` writes an `i32`.
pub open spec fn year_padded(y: int) -> Seq<char> {
    if y < 0 {
        seq!['-'] + zero_padded((-y) as nat, 3)
    } else {
        zero_padded(y as nat, 4)
    }
}

/// The file name of the entry of a date: `YYYYMMDD.md`.
pub open spec fn entry_filename(v: (int, int, int)) -> Seq<char> {
    year_padded(v.0) + zero_padded(v.1 as nat, 2) + zero_padded(v.2 as nat, 2) + JOURNAL_FILE_EXTENSION@
}

/// A path joined with a relative file name, as `Path::join` does on Unix:
/// a separator is added unless the path is empty or already ends with one.
pub open spec fn path_join(dir: Seq<char>, name: Seq<char>) -> Seq<char> {
    if dir.len() == 0 || dir.last() == '/' {
        dir + name
    } else {
        dir + seq!['/'] + name
    }
}

/// The path of the entry of a date in a journal directory.
pub open spec fn entry_path(dir: Seq<char>, v: (int, int, int)) -> Seq<char> {
    path_join(dir, entry_filename(v))
}

/// The file name of the entry of `date`.
pub fn entry_filename_for(date: Date) -> (r: String)
    ensures
        r@ == entry_filename(date@),
{
    let y = date.year();
    let mut out: Vec<char> = Vec::new();
    if y < 0 {
        out.push('-');
        push_zero_padded(&mut out, (-(y as i64)) as u64, 3);
    } else {
        push_zero_padded(&mut out, y as u64, 4);
    }
    push_zero_padded(&mut out, date.month() as u64, 2);
    push_zero_padded(&mut out, date.day() as u64, 2);
    push_str_chars(&mut out, JOURNAL_FILE_EXTENSION);
    string_from_chars(&out)
}

/// Joins a directory path and a relative file name.
pub fn join_path(dir: &str, name: &str) -> (r: String)
    ensures
        r@ == path_join(dir@, name@),
{
    let d = str_chars(dir);
    let mut out: Vec<char> = Vec::new();
    push_chars(&mut out, &d);
    if d.len() > 0 && d[d.len() - 1] != '/' {
        out.push('/');
    }
    push_str_chars(&mut out, name);
    string_from_chars(&out)
}

/// The path of the journal entry for `date` in `journal_dir`.
pub fn get_entry_path_for_date(journal_dir: &str, date: Date) -> (r: String)
    ensures
        r@ == entry_path(journal_dir@, date@),
{
    let name = entry_filename_for(date);
    join_path(journal_dir, name.as_str())
}

/// The time of day as the header writes it, `HH:MM:SS` (a leap second
/// shows as 60).
pub open spec fn time_text(t: LocalDateTime) -> Seq<char> {
    zero_padded(t.hour as nat, 2) + seq![':'] + zero_padded(t.minute as nat, 2) + seq![':']
        + zero_padded((t.second + t.nanosecond / 1_000_000_000) as nat, 2)
}

/// The heading of a new entry: the date as a title and the time as a
/// section.
pub open spec fn date_time_header(t: LocalDateTime) -> Seq<char> {
    "# "@ + chrono_format_date(t.date@, JOURNAL_HEADER_DATE_FORMAT@) + "\n\n## "@ + time_text(t)
        + "\n\n"@
}

/// The time of day of `t` as `HH:MM:SS`.
pub fn format_time(t: &LocalDateTime) -> (r: String)
    requires
        time_fields_valid(*t),
    ensures
        r@ == time_text(*t),
{
    let mut out: Vec<char> = Vec::new();
    push_zero_padded(&mut out, t.hour as u64, 2);
    out.push(':');
    push_zero_padded(&mut out, t.minute as u64, 2);
    out.push(':');
    push_zero_padded(&mut out, (t.second + t.nanosecond / 1_000_000_000) as u64, 2);
    string_from_chars(&out)
}

/// The heading of a new entry written at `t`.
pub fn format_date_time_header(t: &LocalDateTime) -> (r: String)
    requires
        time_fields_valid(*t),
    ensures
        r@ == date_time_header(*t),
{
    let date_text = t.date.format_with(JOURNAL_HEADER_DATE_FORMAT);
    let time = format_time(t);
    let mut out: Vec<char> = Vec::new();
    push_str_chars(&mut out, "# ");
    push_str_chars(&mut out, date_text.as_str());
    push_str_chars(&mut out, "\n\n## ");
    push_str_chars(&mut out, time.as_str());
    push_str_chars(&mut out, "\n\n");
    string_from_chars(&out)
}

/// What is appended to an entry file with content `existing` when it is
/// opened at `t`: the heading if the file is empty, nothing otherwise.
pub fn date_header_if_needed(existing: &str, t: &LocalDateTime) -> (r: Option<String>)
    requires
        time_fields_valid(*t),
    ensures
        existing@.len() == 0 ==> (r matches Some(h) && h@ == date_time_header(*t)),
        existing@.len() != 0 ==> r is None,
{
    let cs = str_chars(existing);
    if cs.len() == 0 {
        Some(format_date_time_header(t))
    } else {
        None
    }
}

} // verus!

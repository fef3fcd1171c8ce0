//! Paths of journal entry files in a journal directory.
use vstd::prelude::*;
use crate::dates::{Date, LocalDateTime};
use crate::constants::JOURNAL_FILE_EXTENSION;
use crate::journal_logic::{entry_path, get_entry_path_for_date, join_path, path_join};
use crate::util::{push_str_chars, push_zero_padded, string_from_chars, zero_padded};

verus! {

/// A year as chrono's `%Y` writes it: four digits with zeros in front for
/// the years 0 to 9999, and a sign before at least four digits otherwise.
pub open spec fn chrono_year_text(y: int) -> Seq<char> {
    if 0 <= y <= 9999 {
        zero_padded(y as nat, 4)
    } else if y > 9999 {
        seq!['+'] + zero_padded(y as nat, 4)
    } else {
        seq!['-'] + zero_padded((-y) as nat, 4)
    }
}

/// The file name chrono writes for a date under `%Y%m%d.md`.
pub open spec fn chrono_entry_filename(v: (int, int, int)) -> Seq<char> {
    chrono_year_text(v.0) + zero_padded(v.1 as nat, 2) + zero_padded(v.2 as nat, 2) + JOURNAL_FILE_EXTENSION@
}

/// The file name of the entry of `date` under `%Y%m%d.md`.
fn chrono_entry_filename_for(date: Date) -> (r: String)
    ensures
        r@ == chrono_entry_filename(date@),
{
    let y = date.year();
    let mut out: Vec<char> = Vec::new();
    if y < 0 {
        out.push('-');
        push_zero_padded(&mut out, (-(y as i64)) as u64, 4);
    } else {
        if y > 9999 {
            out.push('+');
        }
        push_zero_padded(&mut out, y as u64, 4);
    }
    push_zero_padded(&mut out, date.month() as u64, 2);
    push_zero_padded(&mut out, date.day() as u64, 2);
    push_str_chars(&mut out, JOURNAL_FILE_EXTENSION);
    string_from_chars(&out)
}

/// Journal entries stored as files in a directory.
#[derive(Debug, Clone)]
pub struct FileSystemIO {
    /// The journal directory.
    pub journal_dir: String,
}

impl FileSystemIO {
    /// The path of the entry of `date`.
    pub fn generate_path_for_naive_date(&self, date: Date) -> (r: String)
        ensures
            r@ == entry_path(self.journal_dir@, date@),
    {
        get_entry_path_for_date(self.journal_dir.as_str(), date)
    }

    /// The path of the entry of the local date of `t`, its file name
    /// written as chrono's `%Y%m%d` with the `.md` extension.
    pub fn generate_path_for_date(&self, t: &LocalDateTime) -> (r: String)
        ensures
            r@ == path_join(self.journal_dir@, chrono_entry_filename(t.date@)),
    {
        let name = chrono_entry_filename_for(t.date);
        join_path(self.journal_dir.as_str(), name.as_str())
    }
}

} // verus!

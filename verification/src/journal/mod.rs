//! Journal entries addressed through a journal directory.
pub mod io;

use vstd::prelude::*;
use crate::dates::{time_fields_valid, valid_ymd, Date, LocalDateTime};
use crate::errors::AppResult;
use crate::journal_core::{dates_view, resolves_to};
use crate::journal_io::strs;
use crate::journal_io::timestamp_text;
use crate::journal_logic::{date_time_header, format_date_time_header, format_time, time_text};
use crate::util::{concat3, str_chars};

pub use crate::journal_core::DateSpecifier;

verus! {

/// What is appended to an entry file with content `existing` when it is
/// opened at `t`: the full heading for an empty file, otherwise a new time
/// section separated by a blank line.
pub open spec fn date_time_text(existing: Seq<char>, t: LocalDateTime) -> Seq<char> {
    if existing.len() == 0 {
        date_time_header(t)
    } else {
        "\n\n## "@ + time_text(t) + "\n\n"@
    }
}

/// The text to append to an entry with content `existing` opened at `t`.
pub fn append_date_time_text(existing: &str, t: &LocalDateTime) -> (r: String)
    requires
        time_fields_valid(*t),
    ensures
        r@ == date_time_text(existing@, *t),
{
    let cs = str_chars(existing);
    if cs.len() == 0 {
        format_date_time_header(t)
    } else {
        let time = format_time(t);
        concat3("\n\n## ", time.as_str(), "\n\n")
    }
}

/// Where opening the entries of a date specifier stands.
#[derive(Debug, Clone, Copy, PartialEq, Eq, Structural)]
pub enum OpenStage {
    /// Waiting for the path of the current entry.
    AwaitPath,
    /// Waiting to learn whether the current entry file exists.
    AwaitExists,
    /// Waiting for the date and time heading to be appended.
    AwaitAppend,
    /// Waiting for the editor.
    AwaitEditor,
    /// Finished.
    Done,
}

/// The next thing to do when opening entries.
#[derive(Debug)]
pub enum OpenAction {
    /// Find the path of today's entry (at the current time).
    TodayPath,
    /// Find the path of the entry of `date`.
    DatePath { date: Date },
    /// Find out whether the file at `path` exists.
    CheckExists { path: String },
    /// Create the entry at `path` if needed and append the date and time
    /// heading to it.
    AppendDateTime { path: String },
    /// Create the entry at `path` if needed and give it the date and time
    /// heading if it is empty.
    AddHeadingIfEmpty { path: String },
    /// Open these files in the editor.
    OpenFiles { paths: Vec<String> },
    /// Opening is over, with this result.
    Finish(AppResult<()>),
}

/// Opening the journal entries of a date specifier: today's entry gets a
/// date and time heading and is opened; of the past week or the reminisce
/// dates, the entries that exist are opened, in date order, and nothing is
/// opened when none exists; the entry of a specific date is created with a
/// heading if it does not exist, then opened. In the heading-if-empty
/// style, today's entry and a specific date's entry are instead created if
/// needed and given the heading only when empty, then opened. The
/// application finds paths, checks files, appends and runs the editor, and
/// reports back; the first failure ends the opening.
#[derive(Debug)]
pub struct EntryOpening {
    spec: DateSpecifier,
    heading_if_empty: bool,
    dates: Vec<Date>,
    next: usize,
    current: String,
    found: Vec<String>,
    stage: OpenStage,
}

/// An entry opening as plain values.
pub struct EntryOpeningView {
    /// What is being opened.
    pub spec: DateSpecifier,
    /// Whether single entries only get a heading when they are empty.
    pub heading_if_empty: bool,
    /// The dates looked at, for the past week or the reminisce dates.
    pub dates: Seq<Date>,
    /// How many of `dates` have been looked at.
    pub next: nat,
    /// The path of the entry being looked at.
    pub current: Seq<char>,
    /// The existing entries found so far, in date order.
    pub found: Seq<Seq<char>>,
    /// What the opening waits for.
    pub stage: OpenStage,
}

impl View for EntryOpening {
    type V = EntryOpeningView;

    closed spec fn view(&self) -> EntryOpeningView {
        EntryOpeningView {
            spec: self.spec,
            heading_if_empty: self.heading_if_empty,
            dates: self.dates@,
            next: self.next as nat,
            current: self.current@,
            found: strs(self.found@),
            stage: self.stage,
        }
    }
}

/// Whether a specifier opens the entries that exist among several dates.
pub open spec fn opens_existing(spec: DateSpecifier) -> bool {
    spec is Retro || spec is Reminisce
}

impl EntryOpening {
    /// The state is consistent: dates are looked at one by one, only for
    /// the past week or the reminisce dates, and no more entries are found
    /// than dates looked at.
    #[verifier::type_invariant]
    spec fn consistent(&self) -> bool {
        &&& self.next <= self.dates.len()
        &&& self.found.len() <= self.next
        &&& (!opens_existing(self.spec) ==> self.dates.len() == 0 && self.found.len() == 0)
        &&& (opens_existing(self.spec) && (self.stage == OpenStage::AwaitPath || self.stage
            == OpenStage::AwaitExists) ==> self.next < self.dates.len())
        &&& (opens_existing(self.spec) ==> self.stage != OpenStage::AwaitAppend)
        &&& (self.spec is Today ==> self.stage != OpenStage::AwaitExists)
        &&& (self.heading_if_empty && self.spec is Specific ==> self.stage != OpenStage::AwaitExists)
    }

    /// What the opening waits for.
    pub fn stage(&self) -> (r: OpenStage)
        ensures
            r == self@.stage,
    {
        self.stage
    }

    /// Whether single entries only get a heading when they are empty.
    pub fn heading_if_empty(&self) -> (r: bool)
        ensures
            r == self@.heading_if_empty,
    {
        self.heading_if_empty
    }

    /// The dates looked at, for the past week or the reminisce dates.
    pub fn dates(&self) -> (r: &Vec<Date>)
        ensures
            r@ == self@.dates,
    {
        &self.dates
    }

    /// The existing entries found so far, in date order.
    pub fn found(&self) -> (r: &Vec<String>)
        ensures
            strs(r@) == self@.found,
    {
        &self.found
    }

    /// Starts opening the entries of `spec`, single entries getting a
    /// heading as `EntryOpening::start_with` describes.
    pub fn start(spec: DateSpecifier) -> (r: (EntryOpening, OpenAction))
        ensures
            r.0@.spec == spec,
            !r.0@.heading_if_empty,
            r.0@.next == 0,
            r.0@.found.len() == 0,
            r.0@.stage == OpenStage::AwaitPath,
            spec is Today ==> r.1 is TodayPath && r.0@.dates.len() == 0,
            spec matches DateSpecifier::Specific(d) ==> r.1 == (OpenAction::DatePath { date: d }) && r.0@.dates.len() == 0,
            opens_existing(spec) ==> r.0@.dates.len() > 0 && r.1 == (OpenAction::DatePath { date: r.0@.dates[0] })
                && exists|today: (int, int, int)|
                today.0 >= 1969 && valid_ymd(today) && resolves_to(spec, today, dates_view(r.0@.dates)),
    {
        EntryOpening::start_with(spec, false)
    }

    /// Starts opening the entries of `spec`: asks for today's path, for the
    /// path of the specific date, or for the path of the first of the dates
    /// of the past week or the reminisce dates (as of today's local date).
    pub fn start_with(spec: DateSpecifier, heading_if_empty: bool) -> (r: (EntryOpening, OpenAction))
        ensures
            r.0@.spec == spec,
            r.0@.heading_if_empty == heading_if_empty,
            r.0@.next == 0,
            r.0@.found.len() == 0,
            r.0@.stage == OpenStage::AwaitPath,
            spec is Today ==> r.1 is TodayPath && r.0@.dates.len() == 0,
            spec matches DateSpecifier::Specific(d) ==> r.1 == (OpenAction::DatePath { date: d }) && r.0@.dates.len() == 0,
            opens_existing(spec) ==> r.0@.dates.len() > 0 && r.1 == (OpenAction::DatePath { date: r.0@.dates[0] })
                && exists|today: (int, int, int)|
                today.0 >= 1969 && valid_ymd(today) && resolves_to(spec, today, dates_view(r.0@.dates)),
    {
        match spec {
            DateSpecifier::Today => {
                let s = EntryOpening { spec, heading_if_empty, dates: Vec::new(), next: 0, current: String::new(), found: Vec::new(), stage: OpenStage::AwaitPath };
                (s, OpenAction::TodayPath)
            },
            DateSpecifier::Specific(d) => {
                let s = EntryOpening { spec, heading_if_empty, dates: Vec::new(), next: 0, current: String::new(), found: Vec::new(), stage: OpenStage::AwaitPath };
                (s, OpenAction::DatePath { date: d })
            },
            _ => {
                let dates = spec.get_dates();
                proof {
                    let today = choose|today: (int, int, int)|
                        today.0 >= 1969 && valid_ymd(today) && resolves_to(spec, today, dates_view(dates@));
                    crate::journal_core::lemma_resolved_nonempty(spec, today, dates_view(dates@));
                }
                let first = dates[0];
                let s = EntryOpening { spec, heading_if_empty, dates, next: 0, current: String::new(), found: Vec::new(), stage: OpenStage::AwaitPath };
                (s, OpenAction::DatePath { date: first })
            },
        }
    }

    /// Takes the state out of `self`, leaving a finished opening of today's
    /// entry in its place.
    fn take(&mut self) -> (r: EntryOpening)
        ensures
            r@ == old(self)@,
            final(self)@.stage == OpenStage::Done,
    {
        let mut r = EntryOpening { spec: DateSpecifier::Today, heading_if_empty: false, dates: Vec::new(), next: 0, current: String::new(), found: Vec::new(), stage: OpenStage::Done };
        std::mem::swap(self, &mut r);
        r
    }

    /// The path of the current entry was found (or could not be): today's
    /// entry gets its heading next; for the other specifiers its existence
    /// is checked.
    pub fn on_path(&mut self, result: AppResult<String>) -> (a: OpenAction)
        requires
            old(self)@.stage == OpenStage::AwaitPath,
        ensures
            final(self)@.spec == old(self)@.spec,
            final(self)@.dates == old(self)@.dates,
            final(self)@.next == old(self)@.next,
            final(self)@.found == old(self)@.found,
            final(self)@.heading_if_empty == old(self)@.heading_if_empty,
            match result {
                Ok(p) => final(self)@.current == p@ && if old(self)@.heading_if_empty && !opens_existing(old(self)@.spec) {
                    final(self)@.stage == OpenStage::AwaitAppend && a == (OpenAction::AddHeadingIfEmpty { path: p })
                } else if old(self)@.spec is Today {
                    final(self)@.stage == OpenStage::AwaitAppend && a == (OpenAction::AppendDateTime { path: p })
                } else {
                    final(self)@.stage == OpenStage::AwaitExists && a == (OpenAction::CheckExists { path: p })
                },
                Err(e) => final(self)@.current == old(self)@.current && final(self)@.stage == OpenStage::Done && a == OpenAction::Finish(Err(e)),
            },
    {
        let s = self.take();
        proof { use_type_invariant(&s); }
        let EntryOpening { spec, heading_if_empty, dates, next, current, found, stage } = s;
        match result {
            Ok(p) => {
                let current = p.clone();
                if heading_if_empty && !matches!(spec, DateSpecifier::Retro | DateSpecifier::Reminisce) {
                    *self = EntryOpening { spec, heading_if_empty, dates, next, current, found, stage: OpenStage::AwaitAppend };
                    return OpenAction::AddHeadingIfEmpty { path: p };
                }
                match spec {
                    DateSpecifier::Today => {
                        *self = EntryOpening { spec, heading_if_empty, dates, next, current, found, stage: OpenStage::AwaitAppend };
                        OpenAction::AppendDateTime { path: p }
                    },
                    _ => {
                        *self = EntryOpening { spec, heading_if_empty, dates, next, current, found, stage: OpenStage::AwaitExists };
                        OpenAction::CheckExists { path: p }
                    },
                }
            },
            Err(e) => {
                *self = EntryOpening { spec, heading_if_empty, dates, next, current, found, stage: OpenStage::Done };
                OpenAction::Finish(Err(e))
            },
        }
    }

    /// Whether the current entry exists was found out. Of the past week or
    /// the reminisce dates an existing entry is kept, and the next date's
    /// path is asked for; after the last one the kept entries are opened,
    /// or the opening ends when there are none. A specific date's entry is
    /// opened if it exists, else its heading is appended first.
    pub fn on_exists(&mut self, exists: bool) -> (a: OpenAction)
        requires
            old(self)@.stage == OpenStage::AwaitExists,
        ensures
            final(self)@.heading_if_empty == old(self)@.heading_if_empty,
            final(self)@.spec == old(self)@.spec,
            final(self)@.dates == old(self)@.dates,
            final(self)@.current == old(self)@.current,
            opens_existing(old(self)@.spec) ==> {
                &&& final(self)@.next == old(self)@.next + 1
                &&& final(self)@.next <= final(self)@.dates.len()
                &&& final(self)@.found == if exists {
                    old(self)@.found.push(old(self)@.current)
                } else {
                    old(self)@.found
                }
                &&& final(self)@.next < final(self)@.dates.len() ==> final(self)@.stage == OpenStage::AwaitPath
                    && a == (OpenAction::DatePath { date: final(self)@.dates[final(self)@.next as int] })
                &&& final(self)@.next == final(self)@.dates.len() && final(self)@.found.len() == 0
                    ==> final(self)@.stage == OpenStage::Done && (a matches OpenAction::Finish(Ok(())))
                &&& final(self)@.next == final(self)@.dates.len() && final(self)@.found.len() > 0
                    ==> final(self)@.stage == OpenStage::AwaitEditor
                    && (a matches OpenAction::OpenFiles { paths } && strs(paths@) == final(self)@.found)
            },
            old(self)@.spec is Specific ==> {
                &&& final(self)@.next == old(self)@.next
                &&& final(self)@.found == old(self)@.found
                &&& exists ==> final(self)@.stage == OpenStage::AwaitEditor
                    && (a matches OpenAction::OpenFiles { paths } && strs(paths@) == seq![old(self)@.current])
                &&& !exists ==> final(self)@.stage == OpenStage::AwaitAppend
                    && (a matches OpenAction::AppendDateTime { path } && path@ == old(self)@.current)
            },
    {
        let s = self.take();
        proof { use_type_invariant(&s); }
        let EntryOpening { spec, heading_if_empty, dates, next, current, mut found, stage } = s;
        match spec {
            DateSpecifier::Specific(_) => {
                if exists {
                    let mut paths: Vec<String> = Vec::new();
                    paths.push(current.clone());
                    proof {
                        assert(strs(paths@) =~= seq![current@]);
                    }
                    *self = EntryOpening { spec, heading_if_empty, dates, next, current, found, stage: OpenStage::AwaitEditor };
                    OpenAction::OpenFiles { paths }
                } else {
                    let path = current.clone();
                    *self = EntryOpening { spec, heading_if_empty, dates, next, current, found, stage: OpenStage::AwaitAppend };
                    OpenAction::AppendDateTime { path }
                }
            },
            _ => {
                let ghost old_found = strs(found@);
                if exists {
                    found.push(current.clone());
                }
                proof {
                    assert(strs(found@) =~= if exists {
                        old_found.push(current@)
                    } else {
                        old_found
                    });
                }
                let next = next + 1;
                if next < dates.len() {
                    let date = dates[next];
                    *self = EntryOpening { spec, heading_if_empty, dates, next, current, found, stage: OpenStage::AwaitPath };
                    OpenAction::DatePath { date }
                } else if found.len() == 0 {
                    *self = EntryOpening { spec, heading_if_empty, dates, next, current, found, stage: OpenStage::Done };
                    OpenAction::Finish(Ok(()))
                } else {
                    let paths = crate::journal_io::clone_strings(&found);
                    *self = EntryOpening { spec, heading_if_empty, dates, next, current, found, stage: OpenStage::AwaitEditor };
                    OpenAction::OpenFiles { paths }
                }
            },
        }
    }

    /// The date and time heading was appended (or could not be): the entry
    /// is opened next.
    pub fn on_appended(&mut self, result: AppResult<()>) -> (a: OpenAction)
        requires
            old(self)@.stage == OpenStage::AwaitAppend,
        ensures
            final(self)@.heading_if_empty == old(self)@.heading_if_empty,
            final(self)@.spec == old(self)@.spec,
            final(self)@.dates == old(self)@.dates,
            final(self)@.next == old(self)@.next,
            final(self)@.found == old(self)@.found,
            final(self)@.current == old(self)@.current,
            result is Ok ==> final(self)@.stage == OpenStage::AwaitEditor
                && (a matches OpenAction::OpenFiles { paths } && strs(paths@) == seq![old(self)@.current]),
            result is Err ==> final(self)@.stage == OpenStage::Done && a == OpenAction::Finish(result),
    {
        let s = self.take();
        proof { use_type_invariant(&s); }
        let EntryOpening { spec, heading_if_empty, dates, next, current, found, stage } = s;
        match result {
            Ok(()) => {
                let mut paths: Vec<String> = Vec::new();
                paths.push(current.clone());
                proof {
                    assert(strs(paths@) =~= seq![current@]);
                }
                *self = EntryOpening { spec, heading_if_empty, dates, next, current, found, stage: OpenStage::AwaitEditor };
                OpenAction::OpenFiles { paths }
            },
            Err(e) => {
                *self = EntryOpening { spec, heading_if_empty, dates, next, current, found, stage: OpenStage::Done };
                OpenAction::Finish(Err(e))
            },
        }
    }

    /// The editor ran (or failed): its result is the result of the opening.
    pub fn on_opened(&mut self, result: AppResult<()>) -> (a: OpenAction)
        requires
            old(self)@.stage == OpenStage::AwaitEditor,
        ensures
            final(self)@.heading_if_empty == old(self)@.heading_if_empty,
            final(self)@.spec == old(self)@.spec,
            final(self)@.dates == old(self)@.dates,
            final(self)@.next == old(self)@.next,
            final(self)@.found == old(self)@.found,
            final(self)@.current == old(self)@.current,
            final(self)@.stage == OpenStage::Done,
            a == OpenAction::Finish(result),
    {
        let s = self.take();
        proof { use_type_invariant(&s); }
        let EntryOpening { spec, heading_if_empty, dates, next, current, found, stage } = s;
        *self = EntryOpening { spec, heading_if_empty, dates, next, current, found, stage: OpenStage::Done };
        OpenAction::Finish(result)
    }
}

} // verus!

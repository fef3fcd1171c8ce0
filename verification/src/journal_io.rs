//! Editing journal entries with file locking.
//!
//! Opening entries alternates filesystem work with decisions: a single
//! entry gets a timestamp heading, only existing entries are opened, every
//! file is locked before the editor starts, and the first failure ends the
//! session. The decisions are the state machine [`EditSession`]: it tells
//! the application what to do next ([`EditAction`]) and is told what came
//! of it. The application performs the actions and holds the file locks.
use vstd::prelude::*;
use crate::dates::{Date, LocalDateTime};
use crate::errors::{AppError, AppResult, EditorError, IoErrorKind, IoFailure, LockError};
use crate::journal_logic::{date_time_header, entry_path, format_date_time_header, format_time, get_entry_path_for_date, time_text};
use crate::dates::time_fields_valid;
use crate::journal_core::dates_view;
use crate::util::{concat2, concat3, push_str_chars, str_chars, string_from_chars};

verus! {

/// The views of a sequence of strings.
pub open spec fn strs(v: Seq<String>) -> Seq<Seq<char>> {
    v.map_values(|s: String| s@)
}

/// Whether a path is absolute (on Unix: it starts with `/`).
pub open spec fn is_absolute(p: Seq<char>) -> bool {
    p.len() > 0 && p[0] == '/'
}

/// Checks that the journal directory path is absolute before it is
/// created; a relative path is a journal error.
pub fn check_journal_dir_absolute(journal_dir: &str) -> (r: AppResult<()>)
    ensures
        is_absolute(journal_dir@) ==> r is Ok,
        !is_absolute(journal_dir@) ==> (r matches Err(AppError::Journal(m))
            && m@ == "Journal directory path must be absolute: "@ + journal_dir@),
{
    let cs = str_chars(journal_dir);
    if cs.len() > 0 && cs[0] == '/' {
        Ok(())
    } else {
        Err(AppError::Journal(concat2("Journal directory path must be absolute: ", journal_dir)))
    }
}

/// An I/O failure with a context phrase put before its message, keeping
/// its kind.
pub fn with_context(context: &str, e: &IoFailure) -> (r: IoFailure)
    ensures
        r.kind == e.kind,
        r.message@ == context@ + ": "@ + e.message@,
{
    IoFailure { kind: e.kind, message: concat3(context, ": ", e.message.as_str()) }
}

/// The heading appended to the primary entry each time it is opened at `t`:
/// date and time for an empty file, the time alone otherwise.
pub open spec fn timestamp_text(existing: Seq<char>, t: LocalDateTime) -> Seq<char> {
    if existing.len() == 0 {
        date_time_header(t)
    } else {
        "## "@ + time_text(t) + "\n\n"@
    }
}

/// The heading to append to an entry file with content `existing` at `t`.
pub fn timestamp_header(existing: &str, t: &LocalDateTime) -> (r: String)
    requires
        time_fields_valid(*t),
    ensures
        r@ == timestamp_text(existing@, *t),
{
    let cs = str_chars(existing);
    if cs.len() == 0 {
        format_date_time_header(t)
    } else {
        let time = format_time(t);
        concat3("## ", time.as_str(), "\n\n")
    }
}

/// How the editor process ended when it could be started.
#[derive(Debug, Clone, Copy)]
pub struct ExitInfo {
    /// Whether it exited successfully.
    pub success: bool,
    /// Its exit code, if it exited normally.
    pub code: Option<i32>,
}

/// The editor error for a failure to start the editor: by the kind of the
/// I/O failure, a missing command, a denied permission, or another failure.
pub open spec fn spawn_error(command: Seq<char>, e: IoFailure, r: EditorError) -> bool {
    match e.kind {
        IoErrorKind::NotFound => r matches EditorError::CommandNotFound { command: c, source: s }
            && c@ == command && s == e,
        IoErrorKind::PermissionDenied => r matches EditorError::PermissionDenied {
            command: c,
            source: s,
        } && c@ == command && s == e,
        _ => r matches EditorError::ExecutionFailed { command: c, source: s } && c@ == command && s
            == e,
    }
}

/// What running the editor `command` amounts to, given how starting and
/// waiting for it went.
pub fn editor_outcome(command: &str, status: Result<ExitInfo, IoFailure>) -> (r: AppResult<()>)
    ensures
        match status {
            Ok(info) => if info.success {
                r is Ok
            } else {
                r matches Err(AppError::Editor(EditorError::NonZeroExit { command: c, status_code }))
                    && c@ == command@ && status_code as int == (match info.code {
                    Some(code) => code as int,
                    None => -1int,
                })
            },
            Err(e) => r matches Err(AppError::Editor(ee)) && spawn_error(command@, e, ee),
        },
{
    match status {
        Ok(info) => {
            if info.success {
                Ok(())
            } else {
                let status_code = match info.code {
                    Some(code) => code,
                    None => -1,
                };
                Err(AppError::Editor(EditorError::NonZeroExit { command: String::from_str(command), status_code }))
            }
        },
        Err(e) => {
            let command = String::from_str(command);
            let err = match e.kind {
                IoErrorKind::NotFound => EditorError::CommandNotFound { command, source: e },
                IoErrorKind::PermissionDenied => EditorError::PermissionDenied { command, source: e },
                _ => EditorError::ExecutionFailed { command, source: e },
            };
            Err(AppError::Editor(err))
        },
    }
}

/// Why a journal file could not be locked: it could not be opened for
/// writing, or the lock itself was refused.
#[derive(Debug, Clone)]
pub enum LockFailure {
    /// Opening the file failed.
    Open(IoFailure),
    /// Taking the exclusive lock failed.
    Lock(IoFailure),
}

/// The lock error for a failure to lock `path`: a refused lock that would
/// block means another process is editing the file.
pub open spec fn lock_error_spec(path: Seq<char>, f: LockFailure, r: LockError) -> bool {
    match f {
        LockFailure::Lock(e) => if e.kind == IoErrorKind::WouldBlock {
            r matches LockError::FileBusy { path: p } && p@ == path
        } else {
            r matches LockError::AcquisitionFailed { path: p, source: s } && p@ == path && s == e
        },
        LockFailure::Open(e) => r matches LockError::AcquisitionFailed { path: p, source: s } && p@
            == path && s == e,
    }
}

/// The lock error for a failure to lock `path`.
pub fn lock_error_for(path: &str, f: LockFailure) -> (r: LockError)
    ensures
        lock_error_spec(path@, f, r),
{
    let path = String::from_str(path);
    match f {
        LockFailure::Lock(e) => {
            if e.kind == IoErrorKind::WouldBlock {
                LockError::FileBusy { path }
            } else {
                LockError::AcquisitionFailed { path, source: e }
            }
        },
        LockFailure::Open(e) => LockError::AcquisitionFailed { path, source: e },
    }
}

/// What an editing session waits for.
#[derive(Debug, Clone, Copy, PartialEq, Eq, Structural)]
pub enum EditStage {
    /// The timestamp heading of the primary entry to be appended.
    AwaitAppend,
    /// Whether the entry being examined exists.
    AwaitExists,
    /// The lock on the next entry to open.
    AwaitLock,
    /// The editor to exit.
    AwaitEditor,
    /// Nothing: the session is over.
    Done,
}

/// What the application is to do next.
#[derive(Debug)]
pub enum EditAction {
    /// Create the entry file if needed and append the timestamp heading
    /// ([`timestamp_header`]) to it.
    AppendTimestamp { path: String },
    /// Find out whether the entry file exists.
    CheckExists { path: String },
    /// Open the entry file for writing and take an exclusive lock on it,
    /// keeping the lock until the session ends.
    Lock { path: String },
    /// Run the editor on the entry files and wait for it to exit.
    LaunchEditor { command: String, paths: Vec<String> },
    /// Release the locks and end with this result.
    Finish(AppResult<()>),
}

/// The state of an editing session over the entries of some dates.
#[derive(Debug)]
pub struct EditSession {
    editor: String,
    paths: Vec<String>,
    next: usize,
    open: Vec<String>,
    locked: usize,
    stage: EditStage,
}

/// An editing session as plain values.
pub struct EditSessionView {
    /// The editor command.
    pub editor: Seq<char>,
    /// The entry paths of the dates, in the order of the dates.
    pub paths: Seq<Seq<char>>,
    /// How many entries have been examined.
    pub next: nat,
    /// The existing entries found so far, in the order of the dates.
    pub open: Seq<Seq<char>>,
    /// How many of them have been locked.
    pub locked: nat,
    /// What the session waits for.
    pub stage: EditStage,
}

impl View for EditSession {
    type V = EditSessionView;

    closed spec fn view(&self) -> EditSessionView {
        EditSessionView {
            editor: self.editor@,
            paths: strs(self.paths@),
            next: self.next as nat,
            open: strs(self.open@),
            locked: self.locked as nat,
            stage: self.stage,
        }
    }
}

impl EditSession {
    /// The session is consistent: it examines the entries in order, only
    /// entries that exist are to be opened, the editor is awaited only
    /// once every entry to open is locked.
    #[verifier::type_invariant]
    spec fn consistent(&self) -> bool {
        &&& self.next <= self.paths.len()
        &&& self.locked <= self.open.len()
        &&& self.open.len() <= self.next
        &&& forall|k: int| 0 <= k < self.open.len() ==> strs(self.paths@).subrange(0, self.next as int).contains(#[trigger] self.open@[k]@)
        &&& (self.stage == EditStage::AwaitAppend ==> self.next == 0 && self.locked == 0 && self.paths.len() == 1)
        &&& (self.stage == EditStage::AwaitExists ==> self.next < self.paths.len() && self.locked == 0)
        &&& (self.stage == EditStage::AwaitLock ==> self.next == self.paths.len() && self.locked < self.open.len())
        &&& (self.stage == EditStage::AwaitEditor ==> self.next == self.paths.len() && self.locked == self.open.len() && self.open.len() > 0)
    }

    /// What the session waits for.
    pub fn stage(&self) -> (r: EditStage)
        ensures
            r == self@.stage,
    {
        self.stage
    }

    /// Starts a session over the entries of `dates` in `journal_dir`: with
    /// no dates it is over at once; a single entry gets its timestamp heading
    /// first (which creates it); of several dates only the entries that
    /// already exist are opened, so they are examined from the first.
    pub fn start(journal_dir: &str, editor: &str, dates: &[Date]) -> (r: (EditSession, EditAction))
        ensures
            r.0@.editor == editor@,
            r.0@.paths == dates_view(dates@).map_values(|v: (int, int, int)| entry_path(journal_dir@, v)),
            r.0@.next == 0,
            r.0@.open.len() == 0,
            r.0@.locked == 0,
            dates.len() == 0 ==> r.0@.stage == EditStage::Done && (r.1 matches EditAction::Finish(Ok(()))),
            dates.len() == 1 ==> r.0@.stage == EditStage::AwaitAppend && (r.1 matches EditAction::AppendTimestamp { path } && path@ == entry_path(journal_dir@, dates@[0]@)),
            dates.len() > 1 ==> r.0@.stage == EditStage::AwaitExists && (r.1 matches EditAction::CheckExists { path } && path@ == entry_path(journal_dir@, dates@[0]@)),
    {
        let mut paths: Vec<String> = Vec::new();
        let mut i: usize = 0;
        while i < dates.len()
            invariant
                0 <= i <= dates.len(),
                paths.len() == i,
                forall|k: int| 0 <= k < i ==> (#[trigger] paths@[k])@ == entry_path(journal_dir@, dates@[k]@),
            decreases dates.len() - i,
        {
            paths.push(get_entry_path_for_date(journal_dir, dates[i]));
            i = i + 1;
        }
        assert(strs(paths@) =~= dates_view(dates@).map_values(|v: (int, int, int)| entry_path(journal_dir@, v)));
        let editor = String::from_str(editor);
        if dates.len() == 0 {
            let s = EditSession { editor, paths, next: 0, open: Vec::new(), locked: 0, stage: EditStage::Done };
            (s, EditAction::Finish(Ok(())))
        } else if dates.len() == 1 {
            let first = paths[0].clone();
            let s = EditSession { editor, paths, next: 0, open: Vec::new(), locked: 0, stage: EditStage::AwaitAppend };
            (s, EditAction::AppendTimestamp { path: first })
        } else {
            let first = paths[0].clone();
            let s = EditSession { editor, paths, next: 0, open: Vec::new(), locked: 0, stage: EditStage::AwaitExists };
            (s, EditAction::CheckExists { path: first })
        }
    }

    /// Takes the state out of `self`, leaving a finished session with no
    /// entries in its place.
    fn take(&mut self) -> (r: EditSession)
        ensures
            r@ == old(self)@,
            final(self)@.stage == EditStage::Done,
    {
        let mut r = EditSession { editor: String::new(), paths: Vec::new(), next: 0, open: Vec::new(), locked: 0, stage: EditStage::Done };
        std::mem::swap(self, &mut r);
        r
    }

    /// The timestamp heading was appended (or failed): a failure ends the
    /// session with it; otherwise the entries are examined from the first.
    pub fn on_appended(&mut self, result: AppResult<()>) -> (a: EditAction)
        requires
            old(self)@.stage == EditStage::AwaitAppend,
        ensures
            final(self)@.editor == old(self)@.editor,
            final(self)@.paths == old(self)@.paths,
            final(self)@.open == old(self)@.open,
            final(self)@.next == old(self)@.next,
            final(self)@.locked == old(self)@.locked,
            result is Ok ==> final(self)@.stage == EditStage::AwaitExists && (a matches EditAction::CheckExists { path } && path@ == old(self)@.paths[0]),
            result is Err ==> final(self)@.stage == EditStage::Done && a == EditAction::Finish(result),
    {
        let s = self.take();
        proof { use_type_invariant(&s); }
        let EditSession { editor, paths, next, open, locked, stage } = s;
        match result {
            Ok(()) => {
                let path = paths[0].clone();
                *self = EditSession { editor, paths, next, open, locked, stage: EditStage::AwaitExists };
                EditAction::CheckExists { path }
            },
            Err(e) => {
                *self = EditSession { editor, paths, next, open, locked, stage: EditStage::Done };
                EditAction::Finish(Err(e))
            },
        }
    }

    /// Whether the entry being examined exists: an existing entry is to be
    /// opened. After the last entry, the session ends if none exists and
    /// otherwise locks them one by one.
    pub fn on_existence(&mut self, found: bool) -> (a: EditAction)
        requires
            old(self)@.stage == EditStage::AwaitExists,
        ensures
            final(self)@.editor == old(self)@.editor,
            final(self)@.paths == old(self)@.paths,
            final(self)@.locked == old(self)@.locked,
            final(self)@.next == old(self)@.next + 1,
            final(self)@.next <= final(self)@.paths.len(),
            final(self)@.open == if found {
                old(self)@.open.push(old(self)@.paths[old(self)@.next as int])
            } else {
                old(self)@.open
            },
            final(self)@.next < final(self)@.paths.len() ==> final(self)@.stage == EditStage::AwaitExists && (a matches EditAction::CheckExists { path } && path@ == final(self)@.paths[final(self)@.next as int]),
            final(self)@.next == final(self)@.paths.len() && final(self)@.open.len() == 0 ==> final(self)@.stage == EditStage::Done && (a matches EditAction::Finish(Ok(()))),
            final(self)@.next == final(self)@.paths.len() && final(self)@.open.len() > 0 ==> final(self)@.stage == EditStage::AwaitLock && (a matches EditAction::Lock { path } && path@ == final(self)@.open[0]),
    {
        let s = self.take();
        proof { use_type_invariant(&s); }
        let EditSession { editor, paths, next, mut open, locked, stage } = s;
        let ghost old_open = strs(open@);
        let ghost prefix = strs(paths@).subrange(0, next as int);
        if found {
            let p = paths[next].clone();
            open.push(p);
        }
        let next = next + 1;
        proof {
            let new_prefix = strs(paths@).subrange(0, next as int);
            assert(new_prefix == prefix.push(paths@[next - 1]@));
            assert forall|k: int| 0 <= k < open.len() implies new_prefix.contains(#[trigger] open@[k]@) by {
                if k < old_open.len() {
                    let w = choose|w: int| 0 <= w < prefix.len() && prefix[w] == old_open[k];
                    assert(new_prefix[w] == old_open[k]);
                } else {
                    assert(new_prefix[next - 1] == open@[k]@);
                }
            }
            assert(strs(open@) =~= if found {
                old_open.push(paths@[next - 1]@)
            } else {
                old_open
            });
        }
        if next < paths.len() {
            let path = paths[next].clone();
            *self = EditSession { editor, paths, next, open, locked, stage: EditStage::AwaitExists };
            EditAction::CheckExists { path }
        } else if open.len() == 0 {
            *self = EditSession { editor, paths, next, open, locked, stage: EditStage::Done };
            EditAction::Finish(Ok(()))
        } else {
            let path = open[0].clone();
            *self = EditSession { editor, paths, next, open, locked, stage: EditStage::AwaitLock };
            EditAction::Lock { path }
        }
    }

    /// The next entry was locked (or not): a failure ends the session with
    /// a lock error; once every entry is locked, the editor is run on all
    /// of them.
    pub fn on_locked(&mut self, result: Result<(), LockFailure>) -> (a: EditAction)
        requires
            old(self)@.stage == EditStage::AwaitLock,
        ensures
            final(self)@.editor == old(self)@.editor,
            final(self)@.paths == old(self)@.paths,
            final(self)@.open == old(self)@.open,
            final(self)@.next == old(self)@.next,
            final(self)@.locked <= final(self)@.open.len(),
            match result {
                Ok(()) => {
                    &&& final(self)@.locked == old(self)@.locked + 1
                    &&& final(self)@.locked < final(self)@.open.len() ==> final(self)@.stage == EditStage::AwaitLock && (a matches EditAction::Lock { path } && path@ == final(self)@.open[final(self)@.locked as int])
                    &&& final(self)@.locked == final(self)@.open.len() ==> final(self)@.stage == EditStage::AwaitEditor && (a matches EditAction::LaunchEditor { command, paths } && command@ == final(self)@.editor && strs(paths@) == final(self)@.open)
                },
                Err(f) => {
                    &&& final(self)@.locked == old(self)@.locked
                    &&& final(self)@.stage == EditStage::Done
                    &&& old(self)@.locked < old(self)@.open.len()
                    &&& (a matches EditAction::Finish(Err(AppError::Lock(le))) && lock_error_spec(old(self)@.open[old(self)@.locked as int], f, le))
                },
            },
    {
        let s = self.take();
        proof { use_type_invariant(&s); }
        let EditSession { editor, paths, next, open, locked, stage } = s;
        match result {
            Ok(()) => {
                let locked = locked + 1;
                if locked < open.len() {
                    let path = open[locked].clone();
                    *self = EditSession { editor, paths, next, open, locked, stage: EditStage::AwaitLock };
                    EditAction::Lock { path }
                } else {
                    let to_edit = clone_strings(&open);
                    let command = editor.clone();
                    *self = EditSession { editor, paths, next, open, locked, stage: EditStage::AwaitEditor };
                    EditAction::LaunchEditor { command, paths: to_edit }
                }
            },
            Err(f) => {
                let le = lock_error_for(open[locked].as_str(), f);
                *self = EditSession { editor, paths, next, open, locked, stage: EditStage::Done };
                EditAction::Finish(Err(AppError::Lock(le)))
            },
        }
    }

    /// The editor exited: the session ends with its outcome.
    pub fn on_editor_exited(&mut self, result: AppResult<()>) -> (a: EditAction)
        requires
            old(self)@.stage == EditStage::AwaitEditor,
        ensures
            final(self)@.editor == old(self)@.editor,
            final(self)@.paths == old(self)@.paths,
            final(self)@.open == old(self)@.open,
            final(self)@.next == old(self)@.next,
            final(self)@.locked == old(self)@.locked,
            final(self)@.stage == EditStage::Done,
            a == EditAction::Finish(result),
    {
        let s = self.take();
        proof { use_type_invariant(&s); }
        let EditSession { editor, paths, next, open, locked, stage } = s;
        *self = EditSession { editor, paths, next, open, locked, stage: EditStage::Done };
        EditAction::Finish(result)
    }
}

/// A copy of a vector of strings.
pub(crate) fn clone_strings(v: &Vec<String>) -> (r: Vec<String>)
    ensures
        strs(r@) == strs(v@),
{
    let mut r: Vec<String> = Vec::new();
    let mut i: usize = 0;
    while i < v.len()
        invariant
            0 <= i <= v.len(),
            r.len() == i,
            forall|k: int| 0 <= k < i ==> (#[trigger] r@[k])@ == v@[k]@,
        decreases v.len() - i,
    {
        r.push(v[i].clone());
        i = i + 1;
    }
    assert(strs(r@) =~= strs(v@));
    r
}

} // verus!

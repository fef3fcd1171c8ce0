//! The arguments of the `ponder` command.
//!
//! Global flags: `-v`/`--verbose`, `--log-format <text|json>` (default
//! `text`). Subcommands:
//! - `edit [-r|--retro] [-m|--reminisce] [-d|--date <DATE>]` (at most one),
//! - `ask <QUESTION> [--from <FROM>] [--to <TO>]`,
//! - `reflect [-d|--date <DATE>]`,
//! - `search <QUERY> [-l|--limit <LIMIT>] [--from <FROM>] [--to <TO>]`
//!   (limit defaults to 5),
//! - `lock`.
//!
//! The command line is read by the application with the argument parser;
//! the library holds what was read.
use vstd::prelude::*;
use crate::constants::REDACTED_PLACEHOLDER;
use crate::util::{push_str_chars, string_from_chars};

verus! {

/// Arguments of the `edit` subcommand.
#[derive(Debug, Clone)]
pub struct EditArgs {
    /// Open the entries of the past week.
    pub retro: bool,
    /// Open the entries of significant past intervals.
    pub reminisce: bool,
    /// Open the entry of this date (`YYYY-MM-DD` or `YYYYMMDD`).
    pub date: Option<String>,
}

/// Arguments of the `ask` subcommand.
#[derive(Debug, Clone)]
pub struct AskArgs {
    /// The question about the journal.
    pub question: String,
    /// Start of the date range (`YYYY-MM-DD`).
    pub from: Option<String>,
    /// End of the date range (`YYYY-MM-DD`).
    pub to: Option<String>,
}

/// Arguments of the `reflect` subcommand.
#[derive(Debug, Clone)]
pub struct ReflectArgs {
    /// The date of the entry to reflect on (default today).
    pub date: Option<String>,
}

/// Arguments of the `search` subcommand.
#[derive(Debug, Clone)]
pub struct SearchArgs {
    /// The search query.
    pub query: String,
    /// Maximum number of results.
    pub limit: usize,
    /// Start of the date range (`YYYY-MM-DD`).
    pub from: Option<String>,
    /// End of the date range (`YYYY-MM-DD`).
    pub to: Option<String>,
}

/// The subcommands.
#[derive(Debug, Clone)]
pub enum PonderCommand {
    /// Edit journal entries.
    Edit(EditArgs),
    /// Ask a question about the journal.
    Ask(AskArgs),
    /// Reflect on an entry.
    Reflect(ReflectArgs),
    /// Search the journal.
    Search(SearchArgs),
    /// Lock the session.
    Lock,
}

/// The arguments of the `ponder` command.
#[derive(Clone)]
pub struct CliArgs {
    /// The subcommand, if any (none means editing today's entry).
    pub command: Option<PonderCommand>,
    /// Verbose output.
    pub verbose: bool,
    /// Log format, `text` or `json`.
    pub log_format: String,
}

/// The view of an optional string.
pub open spec fn opt_view(o: Option<String>) -> Option<Seq<char>> {
    match o {
        Some(s) => Some(s@),
        None => None,
    }
}

/// The arguments as plain values.
pub struct CliArgsView {
    pub command: Option<CommandView>,
    pub verbose: bool,
    pub log_format: Seq<char>,
}

/// A subcommand and its arguments as plain values.
pub enum CommandView {
    Edit { retro: bool, reminisce: bool, date: Option<Seq<char>> },
    Ask { question: Seq<char>, from: Option<Seq<char>>, to: Option<Seq<char>> },
    Reflect { date: Option<Seq<char>> },
    Search { query: Seq<char>, limit: int, from: Option<Seq<char>>, to: Option<Seq<char>> },
    Lock,
}

impl View for CliArgs {
    type V = CliArgsView;

    open spec fn view(&self) -> CliArgsView {
        CliArgsView {
            command: match self.command {
                None => None,
                Some(PonderCommand::Edit(a)) => Some(
                    CommandView::Edit { retro: a.retro, reminisce: a.reminisce, date: opt_view(a.date) },
                ),
                Some(PonderCommand::Ask(a)) => Some(
                    CommandView::Ask { question: a.question@, from: opt_view(a.from), to: opt_view(a.to) },
                ),
                Some(PonderCommand::Reflect(a)) => Some(CommandView::Reflect { date: opt_view(a.date) }),
                Some(PonderCommand::Search(a)) => Some(
                    CommandView::Search {
                        query: a.query@,
                        limit: a.limit as int,
                        from: opt_view(a.from),
                        to: opt_view(a.to),
                    },
                ),
                Some(PonderCommand::Lock) => Some(CommandView::Lock),
            },
            verbose: self.verbose,
            log_format: self.log_format@,
        }
    }
}

impl CliArgs {
    /// The debug representation of the arguments, with the subcommand
    /// redacted (it may hold a private question or query); the log format is
    /// written as `{:?}` writes a string.
    pub fn debug_string(&self) -> (r: String)
        ensures
            r@ == "CliArgs { command: \""@ + REDACTED_PLACEHOLDER@ + "\", verbose: "@ + (if self.verbose {
                "true"@
            } else {
                "false"@
            }) + ", log_format: "@ + str_debug_text(self.log_format@) + " }"@,
    {
        let mut out: Vec<char> = Vec::new();
        push_str_chars(&mut out, "CliArgs { command: \"");
        push_str_chars(&mut out, REDACTED_PLACEHOLDER);
        push_str_chars(&mut out, "\", verbose: ");
        if self.verbose {
            push_str_chars(&mut out, "true");
        } else {
            push_str_chars(&mut out, "false");
        }
        push_str_chars(&mut out, ", log_format: ");
        let quoted = debug_quoted(self.log_format.as_str());
        push_str_chars(&mut out, quoted.as_str());
        push_str_chars(&mut out, " }");
        string_from_chars(&out)
    }
}

/// What `{:?}` writes for a string: the string between double quotes, with
/// quotes, backslashes, control and non-printable characters escaped.
pub uninterp spec fn str_debug_text(s: Seq<char>) -> Seq<char>;

/// Whether a string is printable ASCII with no double quote or backslash.
pub open spec fn plain_ascii(s: Seq<char>) -> bool {
    forall|i: int| 0 <= i < s.len() ==> ' ' <= #[trigger] s[i] <= '~' && s[i] != '"' && s[i] != '\\'
}

/// `<str as Debug>::fmt`, written out. Printable ASCII without double
/// quotes or backslashes needs no escape and comes out as it is, between
/// quotes.
#[verifier::external_body]
fn debug_quoted(s: &str) -> (r: String)
    ensures
        r@ == str_debug_text(s@),
        plain_ascii(s@) ==> r@ == seq!['"'] + s@ + seq!['"'],
{
    format!("{:?}", s)
}

} // verus!

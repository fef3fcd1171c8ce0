//! Configuration: editor, journal directory, database, session timeout,
//! Ollama URL and AI models.
//!
//! The values come from environment variables, read by the application into
//! an [`EnvValues`]; [`Config::load_from`] applies the defaults, expands the
//! paths and validates the editor command.
use vstd::prelude::*;
use crate::constants::{
    editor_forbidden_chars, editor_forbidden_char_list, DEFAULT_CHAT_MODEL, DEFAULT_DB_FILENAME,
    DEFAULT_EDITOR_COMMAND, DEFAULT_EMBED_MODEL, DEFAULT_JOURNAL_SUBDIR, DEFAULT_OLLAMA_URL,
    DEFAULT_REASONING_MODEL, DEFAULT_SESSION_TIMEOUT_MINUTES, DEFAULT_SUMMARY_MODEL,
    REDACTED_PLACEHOLDER,
};
use crate::errors::{AppError, AppResult};
use crate::journal_io::is_absolute;
use crate::journal_logic::{join_path, path_join};
use crate::util::{chars_contain, concat2, concat3, push_str_chars, str_chars, string_from_chars};

verus! {

/// The AI models used for each task.
#[derive(Debug, Clone, PartialEq)]
pub struct AIModels {
    /// Model for embeddings.
    pub embed_model: String,
    /// Model for chat and reflections.
    pub chat_model: String,
    /// Model for multi-step reasoning.
    pub reasoning_model: String,
    /// Model for summaries.
    pub summary_model: String,
}

impl Default for AIModels {
    fn default() -> (r: AIModels)
        ensures
            r.embed_model@ == DEFAULT_EMBED_MODEL@,
            r.chat_model@ == DEFAULT_CHAT_MODEL@,
            r.reasoning_model@ == DEFAULT_REASONING_MODEL@,
            r.summary_model@ == DEFAULT_SUMMARY_MODEL@,
    {
        AIModels {
            embed_model: String::from_str(DEFAULT_EMBED_MODEL),
            chat_model: String::from_str(DEFAULT_CHAT_MODEL),
            reasoning_model: String::from_str(DEFAULT_REASONING_MODEL),
            summary_model: String::from_str(DEFAULT_SUMMARY_MODEL),
        }
    }
}

/// Configuration of the application.
pub struct Config {
    /// The editor command.
    pub editor: String,
    /// The journal directory.
    pub journal_dir: String,
    /// The encrypted database file.
    pub db_path: String,
    /// Minutes of inactivity after which the session locks.
    pub session_timeout_minutes: u64,
    /// Base URL of the Ollama API.
    pub ollama_url: String,
    /// The AI models.
    pub ai_models: AIModels,
}

/// The defaults: the default editor, empty paths, the default timeout,
/// URL and models.
pub open spec fn is_default_config(c: Config) -> bool {
    &&& c.editor@ == DEFAULT_EDITOR_COMMAND@
    &&& c.journal_dir@.len() == 0
    &&& c.db_path@.len() == 0
    &&& c.session_timeout_minutes == DEFAULT_SESSION_TIMEOUT_MINUTES
    &&& c.ollama_url@ == DEFAULT_OLLAMA_URL@
    &&& c.ai_models.embed_model@ == DEFAULT_EMBED_MODEL@
    &&& c.ai_models.chat_model@ == DEFAULT_CHAT_MODEL@
    &&& c.ai_models.reasoning_model@ == DEFAULT_REASONING_MODEL@
    &&& c.ai_models.summary_model@ == DEFAULT_SUMMARY_MODEL@
}

impl Default for Config {
    fn default() -> (r: Config)
        ensures
            is_default_config(r),
    {
        Config {
            editor: String::from_str(DEFAULT_EDITOR_COMMAND),
            journal_dir: String::new(),
            db_path: String::new(),
            session_timeout_minutes: DEFAULT_SESSION_TIMEOUT_MINUTES,
            ollama_url: String::from_str(DEFAULT_OLLAMA_URL),
            ai_models: AIModels::default(),
        }
    }
}

/// The first character of `list` from index `i` on that occurs in `cmd`.
pub open spec fn first_forbidden_from(cmd: Seq<char>, list: Seq<char>, i: int) -> Option<char>
    decreases list.len() - i,
{
    if i < 0 || i >= list.len() {
        None
    } else if cmd.contains(list[i]) {
        Some(list[i])
    } else {
        first_forbidden_from(cmd, list, i + 1)
    }
}

/// Why an editor command is refused, if it is: it is empty, it contains a
/// space, or it contains a shell metacharacter (the first of the forbidden
/// list that occurs is named).
pub open spec fn editor_command_problem(cmd: Seq<char>) -> Option<Seq<char>> {
    if cmd.len() == 0 {
        Some("Editor command cannot be empty"@)
    } else if cmd.contains(' ') {
        Some("Editor command cannot contain spaces. Use a wrapper script or shell alias for editors requiring arguments"@)
    } else {
        match first_forbidden_from(cmd, editor_forbidden_chars(), 0) {
            Some(c) => Some("Editor command cannot contain shell metacharacters: '"@ + seq![c]
                + "'. Use a wrapper script or shell alias instead"@),
            None => None,
        }
    }
}

/// What the environment holds for the configuration; `None` where a
/// variable is not set (or not valid Unicode).
#[derive(Debug, Clone)]
pub struct EnvValues {
    pub ponder_editor: Option<String>,
    pub editor: Option<String>,
    pub ponder_dir: Option<String>,
    pub home: Option<String>,
    pub ponder_db: Option<String>,
    pub session_timeout: Option<String>,
    pub ollama_url: Option<String>,
    pub embed_model: Option<String>,
    pub chat_model: Option<String>,
    pub reasoning_model: Option<String>,
    pub summary_model: Option<String>,
}

/// An optional string's view, or a default.
pub open spec fn or_default(v: Option<String>, d: Seq<char>) -> Seq<char> {
    match v {
        Some(s) => s@,
        None => d,
    }
}

/// The editor command chosen from the environment: `PONDER_EDITOR`, else
/// `EDITOR`, else the default.
pub open spec fn chosen_editor(env: EnvValues) -> Seq<char> {
    match env.ponder_editor {
        Some(s) => s@,
        None => or_default(env.editor, DEFAULT_EDITOR_COMMAND@),
    }
}

/// The journal directory before expansion: `PONDER_DIR`, else
/// `$HOME/Documents/rubberducks` (with an empty home if `HOME` is unset).
pub open spec fn raw_journal_dir(env: EnvValues) -> Seq<char> {
    match env.ponder_dir {
        Some(s) => s@,
        None => or_default(env.home, Seq::empty()) + seq!['/'] + DEFAULT_JOURNAL_SUBDIR@,
    }
}

/// The characters of an unsigned decimal number's digits, as a value.
pub open spec fn digits_value(s: Seq<char>) -> int
    decreases s.len(),
{
    if s.len() == 0 {
        0
    } else {
        digits_value(s.drop_last()) * 10 + (s.last() as int - '0' as int)
    }
}

/// What `str::parse::<u64>` gives: an optional `+` followed by one or more
/// ASCII digits, whose value fits in 64 bits.
pub open spec fn parsed_u64(s: Seq<char>) -> Option<int> {
    let body = without_plus(s);
    if body.len() > 0 && all_digits(body) && digits_value(body) <= u64::MAX {
        Some(digits_value(body))
    } else {
        None
    }
}

/// `r` is what [`parsed_u64`] says of `s`.
pub open spec fn parse_u64_matches(s: Seq<char>, r: Option<u64>) -> bool {
    match r {
        Some(x) => parsed_u64(s) == Some(x as int),
        None => parsed_u64(s) is None,
    }
}

/// A string without its leading `+`, if it has one.
pub open spec fn without_plus(s: Seq<char>) -> Seq<char> {
    if s.len() > 0 && s[0] == '+' { s.subrange(1, s.len() as int) } else { s }
}

/// Whether every character of `s` is a decimal digit.
pub open spec fn all_digits(s: Seq<char>) -> bool {
    forall|i: int| 0 <= i < s.len() ==> '0' <= #[trigger] s[i] <= '9'
}

/// Appending digits to a string of digits does not make its value smaller.
proof fn lemma_digits_value_grows(s: Seq<char>, k: int)
    requires
        0 <= k <= s.len(),
        all_digits(s),
    ensures
        digits_value(s) >= digits_value(s.subrange(0, k)) >= 0,
    decreases s.len(),
{
    if s.len() == 0 {
        assert(s.subrange(0, k) =~= s);
    } else if k == s.len() {
        assert(s.subrange(0, k) =~= s);
        lemma_digits_value_grows(s.drop_last(), k - 1);
    } else {
        lemma_digits_value_grows(s.drop_last(), k);
        assert(s.drop_last().subrange(0, k) =~= s.subrange(0, k));
        assert(all_digits(s.drop_last()));
        lemma_digits_value_grows(s.drop_last(), s.drop_last().len() as int);
        assert(s.drop_last().subrange(0, s.drop_last().len() as int) =~= s.drop_last());
    }
}

/// Reads a number of minutes as `str::parse::<u64>` does: an optional `+`
/// followed by digits only, with a value that fits.
pub(crate) fn parse_u64(s: &str) -> (r: Option<u64>)
    ensures
        parse_u64_matches(s@, r),
{
    let cs = str_chars(s);
    let start: usize = if cs.len() > 0 && cs[0] == '+' { 1 } else { 0 };
    let ghost body = without_plus(s@);
    assert(body =~= cs@.subrange(start as int, cs@.len() as int));
    if start >= cs.len() {
        return None;
    }
    let mut v: u64 = 0;
    let mut i: usize = start;
    assert(body.subrange(0, 0) =~= Seq::<char>::empty());
    while i < cs.len()
        invariant
            start <= i <= cs.len(),
            cs@ == s@,
            body == cs@.subrange(start as int, cs@.len() as int),
            body == without_plus(s@),
            all_digits(body.subrange(0, i - start)),
            v == digits_value(body.subrange(0, i - start)),
        decreases cs.len() - i,
    {
        let c = cs[i];
        if c < '0' || c > '9' {
            assert(body[i - start] == c);
            assert(!all_digits(body));
            return None;
        }
        let d: u64 = (c as u32 - '0' as u32) as u64;
        let ghost prefix = body.subrange(0, i - start + 1);
        assert(prefix.drop_last() =~= body.subrange(0, i - start));
        assert(prefix.last() == c);
        assert(all_digits(prefix));
        assert(digits_value(prefix) == v * 10 + d);
        if v > 1844674407370955161 || (v == 1844674407370955161 && d > 5) {
            proof {
                if all_digits(body) {
                    lemma_digits_value_grows(body, i - start + 1);
                    assert(digits_value(body) > u64::MAX);
                }
            }
            return None;
        }
        v = v * 10 + d;
        i = i + 1;
    }
    assert(body.subrange(0, i - start) =~= body);
    Some(v)
}

/// Whether a path mentions an environment variable (`$`).
pub open spec fn has_variable_reference(s: Seq<char>) -> bool {
    s.contains('$')
}

/// What holds of every expansion of `s`: without `$` it cannot fail, and
/// without `$` and a leading `~` it leaves the path unchanged.
pub open spec fn expansion_ok(s: Seq<char>, r: Result<String, String>) -> bool {
    &&& !has_variable_reference(s) ==> r is Ok
    &&& !has_variable_reference(s) && !starts_with_tilde(s) ==> (r matches Ok(x) && x@ == s)
}

/// Whether a path starts with `~`.
pub open spec fn starts_with_tilde(s: Seq<char>) -> bool {
    s.len() > 0 && s[0] == '~'
}

/// `shellexpand::full`: expands a leading `~` to the home directory and
/// `$VAR` / `${VAR}` references to environment variables; the error is the
/// message of a failed lookup. The result depends on the environment; as
/// the crate's source shows, an input without `$` cannot fail, and an input
/// without `$` that does not start with `~` comes back unchanged.
#[verifier::external_body]
pub(crate) fn expand_path(s: &str) -> (r: Result<String, String>)
    ensures
        expansion_ok(s@, r),
{
    match shellexpand::full(s) {
        Ok(x) => Ok(x.into_owned()),
        Err(e) => Err(e.to_string()),
    }
}

impl Config {
    /// A configuration with the defaults.
    pub fn new() -> (r: Config)
        ensures
            is_default_config(r),
    {
        Config::default()
    }

    /// Checks that an editor command is a single word without shell
    /// metacharacters, so that it can be run without a shell.
    pub fn validate_editor_command(editor_cmd: &str) -> (r: AppResult<&str>)
        ensures
            match editor_command_problem(editor_cmd@) {
                None => r matches Ok(s) && s@ == editor_cmd@,
                Some(m) => r matches Err(AppError::Config(msg)) && msg@ == m,
            },
    {
        let cs = str_chars(editor_cmd);
        if cs.len() == 0 {
            return Err(AppError::Config(String::from_str("Editor command cannot be empty")));
        }
        if chars_contain(&cs, ' ') {
            return Err(
                AppError::Config(
                    String::from_str(
                        "Editor command cannot contain spaces. Use a wrapper script or shell alias for editors requiring arguments",
                    ),
                ),
            );
        }
        let forbidden = editor_forbidden_char_list();
        let mut i: usize = 0;
        while i < forbidden.len()
            invariant
                0 <= i <= forbidden.len(),
                forbidden@ == editor_forbidden_chars(),
                cs@ == editor_cmd@,
                cs.len() > 0,
                !cs@.contains(' '),
                first_forbidden_from(cs@, forbidden@, 0) == first_forbidden_from(cs@, forbidden@, i as int),
            decreases forbidden.len() - i,
        {
            let ch = forbidden[i];
            if chars_contain(&cs, ch) {
                let mut out: Vec<char> = Vec::new();
                push_str_chars(&mut out, "Editor command cannot contain shell metacharacters: '");
                out.push(ch);
                push_str_chars(&mut out, "'. Use a wrapper script or shell alias instead");
                return Err(AppError::Config(string_from_chars(&out)));
            }
            i = i + 1;
        }
        Ok(editor_cmd)
    }

    /// Checks the configuration: the journal directory must be given and
    /// absolute, the editor command must not be empty.
    pub fn validate(&self) -> (r: AppResult<()>)
        ensures
            self.journal_dir@.len() == 0 ==> (r matches Err(AppError::Config(m)) && m@ == "Journal directory path is empty"@),
            self.journal_dir@.len() != 0 && self.editor@.len() == 0 ==> (r matches Err(AppError::Config(m)) && m@ == "Editor command is empty"@),
            self.journal_dir@.len() != 0 && self.editor@.len() != 0 && !is_absolute(self.journal_dir@) ==> (r matches Err(AppError::Config(m)) && m@ == "Journal directory must be an absolute path"@),
            self.journal_dir@.len() != 0 && self.editor@.len() != 0 && is_absolute(self.journal_dir@) ==> r is Ok,
    {
        let dir = str_chars(self.journal_dir.as_str());
        if dir.len() == 0 {
            return Err(AppError::Config(String::from_str("Journal directory path is empty")));
        }
        let ed = str_chars(self.editor.as_str());
        if ed.len() == 0 {
            return Err(AppError::Config(String::from_str("Editor command is empty")));
        }
        if dir[0] != '/' {
            return Err(AppError::Config(String::from_str("Journal directory must be an absolute path")));
        }
        Ok(())
    }

    /// The debug representation of a configuration, with the editor and the
    /// journal directory redacted.
    pub fn debug_string(&self) -> (r: String)
        ensures
            r@ == "Config { editor: \""@ + REDACTED_PLACEHOLDER@ + "\", journal_dir: \""@
                + REDACTED_PLACEHOLDER@ + "\" }"@,
    {
        let mut out: Vec<char> = Vec::new();
        push_str_chars(&mut out, "Config { editor: \"");
        push_str_chars(&mut out, REDACTED_PLACEHOLDER);
        push_str_chars(&mut out, "\", journal_dir: \"");
        push_str_chars(&mut out, REDACTED_PLACEHOLDER);
        push_str_chars(&mut out, "\" }");
        string_from_chars(&out)
    }
}

/// The session timeout chosen from the environment: `PONDER_SESSION_TIMEOUT`
/// when it is set (a valid number of minutes), the default otherwise.
pub open spec fn chosen_timeout(env: EnvValues) -> int {
    match env.session_timeout {
        Some(s) => match parsed_u64(s@) {
            Some(v) => v,
            None => DEFAULT_SESSION_TIMEOUT_MINUTES as int,
        },
        None => DEFAULT_SESSION_TIMEOUT_MINUTES as int,
    }
}

/// Whether `PONDER_SESSION_TIMEOUT` is set but is not a number of minutes.
pub open spec fn timeout_unparsable(env: EnvValues) -> bool {
    env.session_timeout matches Some(s) && parsed_u64(s@) is None
}

/// The result of loading once the paths are known to be `dir` and `db`: an
/// unparsable session timeout is refused, otherwise the configuration.
pub open spec fn config_or_timeout_error(env: EnvValues, dir: Seq<char>, db: Seq<char>, r: AppResult<Config>) -> bool {
    if timeout_unparsable(env) {
        r matches Err(AppError::Config(msg)) && msg@ == "Session timeout cannot be parsed as a number: "@
            + env.session_timeout->0@
    } else {
        r matches Ok(c) && config_from_env(c, env, dir, db)
    }
}

/// `c` holds the values chosen from the environment, with the given
/// journal directory and database path.
pub open spec fn config_from_env(c: Config, env: EnvValues, dir: Seq<char>, db: Seq<char>) -> bool {
    &&& c.editor@ == chosen_editor(env)
    &&& c.journal_dir@ == dir
    &&& c.db_path@ == db
    &&& c.session_timeout_minutes == chosen_timeout(env)
    &&& c.ollama_url@ == or_default(env.ollama_url, DEFAULT_OLLAMA_URL@)
    &&& c.ai_models.embed_model@ == or_default(env.embed_model, DEFAULT_EMBED_MODEL@)
    &&& c.ai_models.chat_model@ == or_default(env.chat_model, DEFAULT_CHAT_MODEL@)
    &&& c.ai_models.reasoning_model@ == or_default(env.reasoning_model, DEFAULT_REASONING_MODEL@)
    &&& c.ai_models.summary_model@ == or_default(env.summary_model, DEFAULT_SUMMARY_MODEL@)
}

/// What loading the configuration gives when the journal directory was
/// expanded to `dir` and the database path (if `PONDER_DB` is set) to `db`:
/// an invalid editor command is refused first, then a failed expansion or
/// an empty journal directory, then an unparsable session timeout; the
/// database defaults to `ponder.db` in the journal directory.
pub open spec fn load_outcome(
    env: EnvValues,
    dir: Result<String, String>,
    db: Option<Result<String, String>>,
    r: AppResult<Config>,
) -> bool {
    match editor_command_problem(chosen_editor(env)) {
        Some(m) => r matches Err(AppError::Config(msg)) && msg@ == m,
        None => match dir {
            Err(e) => r matches Err(AppError::Config(msg)) && msg@ == "Failed to expand path: "@ + e@,
            Ok(d) => if d@.len() == 0 {
                r matches Err(AppError::Config(msg)) && msg@ == "Journal directory path is empty"@
            } else {
                match db {
                    Some(Err(e)) => r matches Err(AppError::Config(msg)) && msg@
                        == "Failed to expand database path: "@ + e@,
                    Some(Ok(b)) => config_or_timeout_error(env, d@, b@, r),
                    None => config_or_timeout_error(env, d@, path_join(d@, DEFAULT_DB_FILENAME@), r),
                }
            },
        },
    }
}

/// Law: a configuration that loads takes the Ollama URL and each AI model
/// from its environment variable when that is set, and the Ollama URL
/// falls back to the local default only when it is not.
pub proof fn law_loaded_config_keeps_env_settings(
    env: EnvValues,
    dir: Result<String, String>,
    db: Option<Result<String, String>>,
    r: AppResult<Config>,
)
    requires
        load_outcome(env, dir, db, r),
    ensures
        r matches Ok(c) ==> (env.ollama_url matches Some(u) ==> c.ollama_url@ == u@),
        r matches Ok(c) ==> (env.ollama_url is None ==> c.ollama_url@ == DEFAULT_OLLAMA_URL@),
        r matches Ok(c) ==> (env.embed_model matches Some(m) ==> c.ai_models.embed_model@ == m@),
        r matches Ok(c) ==> (env.chat_model matches Some(m) ==> c.ai_models.chat_model@ == m@),
        r matches Ok(c) ==> (env.reasoning_model matches Some(m) ==> c.ai_models.reasoning_model@ == m@),
        r matches Ok(c) ==> (env.summary_model matches Some(m) ==> c.ai_models.summary_model@ == m@),
{
}

/// A copy of an optional string.
fn clone_opt(v: &Option<String>) -> (r: Option<String>)
    ensures
        match v {
            Some(s) => r matches Some(t) && t@ == s@,
            None => r is None,
        },
{
    match v {
        Some(s) => Some(s.clone()),
        None => None,
    }
}

/// An optional string, or a default.
fn string_or(v: &Option<String>, d: &str) -> (r: String)
    ensures
        r@ == or_default(*v, d@),
{
    match v {
        Some(s) => s.clone(),
        None => String::from_str(d),
    }
}

impl Config {
    /// The configuration for the environment `env`, given how the journal
    /// directory and the database path (present exactly when `PONDER_DB` is
    /// set) were expanded.
    pub fn from_expanded(
        env: &EnvValues,
        dir: Result<String, String>,
        db: Option<Result<String, String>>,
    ) -> (r: AppResult<Config>)
        requires
            env.ponder_db is Some <==> db is Some,
        ensures
            load_outcome(*env, dir, db, r),
            r matches Ok(c) ==> (env.ollama_url matches Some(u) ==> c.ollama_url@ == u@),
            r matches Ok(c) ==> (env.ollama_url is None ==> c.ollama_url@ == DEFAULT_OLLAMA_URL@),
            r matches Ok(c) ==> (env.embed_model matches Some(m) ==> c.ai_models.embed_model@ == m@),
            r matches Ok(c) ==> (env.chat_model matches Some(m) ==> c.ai_models.chat_model@ == m@),
            r matches Ok(c) ==> (env.reasoning_model matches Some(m) ==> c.ai_models.reasoning_model@ == m@),
            r matches Ok(c) ==> (env.summary_model matches Some(m) ==> c.ai_models.summary_model@ == m@),
    {
        let editor_raw = match &env.ponder_editor {
            Some(s) => s.clone(),
            None => string_or(&env.editor, DEFAULT_EDITOR_COMMAND),
        };
        let editor = match Config::validate_editor_command(editor_raw.as_str()) {
            Ok(e) => String::from_str(e),
            Err(e) => return Err(e),
        };
        let journal_dir = match dir {
            Ok(d) => d,
            Err(e) => return Err(AppError::Config(concat2("Failed to expand path: ", e.as_str()))),
        };
        if str_chars(journal_dir.as_str()).len() == 0 {
            return Err(AppError::Config(String::from_str("Journal directory path is empty")));
        }
        let db_path = match db {
            Some(Ok(b)) => b,
            Some(Err(e)) => return Err(AppError::Config(concat2("Failed to expand database path: ", e.as_str()))),
            None => join_path(journal_dir.as_str(), DEFAULT_DB_FILENAME),
        };
        let session_timeout_minutes = match &env.session_timeout {
            Some(s) => match parse_u64(s.as_str()) {
                Some(v) => v,
                None => return Err(
                    AppError::Config(concat2("Session timeout cannot be parsed as a number: ", s.as_str())),
                ),
            },
            None => DEFAULT_SESSION_TIMEOUT_MINUTES,
        };
        let ai_models = AIModels {
            embed_model: string_or(&env.embed_model, DEFAULT_EMBED_MODEL),
            chat_model: string_or(&env.chat_model, DEFAULT_CHAT_MODEL),
            reasoning_model: string_or(&env.reasoning_model, DEFAULT_REASONING_MODEL),
            summary_model: string_or(&env.summary_model, DEFAULT_SUMMARY_MODEL),
        };
        Ok(Config {
            editor,
            journal_dir,
            db_path,
            session_timeout_minutes,
            ollama_url: string_or(&env.ollama_url, DEFAULT_OLLAMA_URL),
            ai_models,
        })
    }

    /// Loads the configuration for the environment `env`: the editor from
    /// `PONDER_EDITOR` or `EDITOR` (default `vim`), validated; the journal
    /// directory from `PONDER_DIR` (default `~/Documents/rubberducks`) and
    /// the database from `PONDER_DB` (default `ponder.db` in it), both
    /// expanded; the timeout, URL and models with their defaults. Expansion
    /// depends on the environment; whatever it gave, the result is what
    /// [`Config::from_expanded`] makes of it.
    pub fn load_from(env: &EnvValues) -> (r: AppResult<Config>)
        ensures
            exists|d: Result<String, String>, b: Option<Result<String, String>>|
                expansion_ok(raw_journal_dir(*env), d)
                && (match env.ponder_db {
                    Some(p) => b matches Some(bb) && expansion_ok(p@, bb),
                    None => b is None,
                })
                && load_outcome(*env, d, b, r),
            r matches Ok(c) ==> (env.ollama_url matches Some(u) ==> c.ollama_url@ == u@),
            r matches Ok(c) ==> (env.ollama_url is None ==> c.ollama_url@ == DEFAULT_OLLAMA_URL@),
            r matches Ok(c) ==> (env.embed_model matches Some(m) ==> c.ai_models.embed_model@ == m@),
            r matches Ok(c) ==> (env.chat_model matches Some(m) ==> c.ai_models.chat_model@ == m@),
            r matches Ok(c) ==> (env.reasoning_model matches Some(m) ==> c.ai_models.reasoning_model@ == m@),
            r matches Ok(c) ==> (env.summary_model matches Some(m) ==> c.ai_models.summary_model@ == m@),
    {
        proof {
            reveal_strlit("");
            reveal_strlit("/");
        }
        let raw_dir = match &env.ponder_dir {
            Some(s) => s.clone(),
            None => concat3(string_or(&env.home, "").as_str(), "/", DEFAULT_JOURNAL_SUBDIR),
        };
        assert(raw_dir@ =~= raw_journal_dir(*env));
        let dir = expand_path(raw_dir.as_str());
        let db = match &env.ponder_db {
            Some(p) => Some(expand_path(p.as_str())),
            None => None,
        };
        let ghost dv = dir;
        let ghost bv = db;
        let r = Config::from_expanded(env, dir, db);
        assert(expansion_ok(raw_journal_dir(*env), dv));
        r
    }
}

/// No character of `list` from index `i` on occurs in `cmd` when the search
/// from `i` finds none.
proof fn lemma_no_forbidden_from(cmd: Seq<char>, list: Seq<char>, i: int)
    requires
        0 <= i,
        first_forbidden_from(cmd, list, i) is None,
    ensures
        forall|j: int| i <= j < list.len() ==> !cmd.contains(#[trigger] list[j]),
    decreases list.len() - i,
{
    if i < list.len() {
        lemma_no_forbidden_from(cmd, list, i + 1);
    }
}

/// Law: an accepted editor command is a non-empty single word that
/// contains none of the shell metacharacters.
pub proof fn law_accepted_editor_is_plain_word(cmd: Seq<char>)
    requires
        editor_command_problem(cmd) is None,
    ensures
        cmd.len() > 0,
        !cmd.contains(' '),
        forall|j: int| 0 <= j < editor_forbidden_chars().len() ==> !cmd.contains(#[trigger] editor_forbidden_chars()[j]),
{
    lemma_no_forbidden_from(cmd, editor_forbidden_chars(), 0);
}

/// Law: a loaded configuration always has an editor command that passes
/// validation and a non-empty journal directory.
pub proof fn law_loaded_config_is_valid(
    env: EnvValues,
    dir: Result<String, String>,
    db: Option<Result<String, String>>,
    c: Config,
)
    requires
        load_outcome(env, dir, db, Ok(c)),
    ensures
        editor_command_problem(c.editor@) is None,
        c.journal_dir@.len() > 0,
{
}

} // verus!

//! Chat messages and the request-independent decisions of the Ollama
//! client: which error an unsuccessful response becomes, whether a failed
//! embedding request is retried, and how streamed responses are assembled.
//!
//! The HTTP exchanges themselves are performed by the application around
//! this library; they hand the status codes and bodies they receive to the
//! functions here.
use vstd::prelude::*;
use crate::constants::{DEFAULT_CHAT_MODEL, DEFAULT_EMBED_MODEL};
use crate::errors::{AIError, AppError, AppResult};
use crate::util::{
    concat2, decimal, push_chars, push_decimal, push_str_chars, seq_contains_run, str_chars,
    str_contains, string_from_chars, trim, trimmed,
};

verus! {

/// A message in a chat conversation.
#[derive(Debug, Clone)]
pub struct Message {
    /// The role of the message sender (system, user, assistant)
    pub role: String,
    /// The content of the message
    pub content: String,
}

impl Message {
    /// Creates a new system message.
    pub fn system(content: &str) -> (m: Message)
        ensures
            m.role@ == "system"@,
            m.content@ == content@,
    {
        Message { role: String::from_str("system"), content: String::from_str(content) }
    }

    /// Creates a new user message.
    pub fn user(content: &str) -> (m: Message)
        ensures
            m.role@ == "user"@,
            m.content@ == content@,
    {
        Message { role: String::from_str("user"), content: String::from_str(content) }
    }

    /// Creates a new assistant message.
    pub fn assistant(content: &str) -> (m: Message)
        ensures
            m.role@ == "assistant"@,
            m.content@ == content@,
    {
        Message { role: String::from_str("assistant"), content: String::from_str(content) }
    }
}

/// Type-safe wrapper for an embedding model name, so that a model name and a
/// prompt text cannot be swapped by accident.
#[derive(Debug, Clone)]
pub struct EmbedModel(String);

impl View for EmbedModel {
    type V = Seq<char>;

    closed spec fn view(&self) -> Seq<char> {
        self.0@
    }
}

impl EmbedModel {
    /// Creates a new embedding model identifier.
    pub fn new(model: &str) -> (r: EmbedModel)
        ensures
            r@ == model@,
    {
        EmbedModel(String::from_str(model))
    }

    /// Gets the model name as a string slice.
    pub fn as_str(&self) -> (r: &str)
        ensures
            r@ == self@,
    {
        self.0.as_str()
    }
}

impl From<&str> for EmbedModel {
    /// The embedding model of that name.
    fn from(s: &str) -> (r: EmbedModel)
        ensures
            r@ == s@,
    {
        EmbedModel::new(s)
    }
}

impl vstd::std_specs::convert::FromSpecImpl<&str> for EmbedModel {
    /// Two models of the same name need not be the same value, so the
    /// result is stated by its name (see `from`), not by equality.
    open spec fn obeys_from_spec() -> bool {
        false
    }

    open spec fn from_spec(s: &str) -> EmbedModel {
        choose|m: EmbedModel| m@ == s@
    }
}

/// Type-safe wrapper for prompt text.
#[derive(Debug, Clone)]
pub struct PromptText(String);

impl View for PromptText {
    type V = Seq<char>;

    closed spec fn view(&self) -> Seq<char> {
        self.0@
    }
}

impl PromptText {
    /// Creates a new prompt text.
    pub fn new(text: &str) -> (r: PromptText)
        ensures
            r@ == text@,
    {
        PromptText(String::from_str(text))
    }

    /// Gets the prompt text as a string slice.
    pub fn as_str(&self) -> (r: &str)
        ensures
            r@ == self@,
    {
        self.0.as_str()
    }
}

impl From<&str> for PromptText {
    /// The prompt of that text.
    fn from(s: &str) -> (r: PromptText)
        ensures
            r@ == s@,
    {
        PromptText::new(s)
    }
}

impl vstd::std_specs::convert::FromSpecImpl<&str> for PromptText {
    /// Two prompts of the same text need not be the same value, so the
    /// result is stated by its text (see `from`), not by equality.
    open spec fn obeys_from_spec() -> bool {
        false
    }

    open spec fn from_spec(s: &str) -> PromptText {
        choose|p: PromptText| p@ == s@
    }
}

impl From<String> for PromptText {
    /// The prompt of that text, taking the string.
    fn from(s: String) -> (r: PromptText)
        ensures
            r@ == s@,
    {
        PromptText(s)
    }
}

impl vstd::std_specs::convert::FromSpecImpl<String> for PromptText {
    open spec fn obeys_from_spec() -> bool {
        true
    }

    closed spec fn from_spec(s: String) -> PromptText {
        PromptText(s)
    }
}

/// The Ollama server a client talks to.
#[derive(Debug, Clone)]
pub struct OllamaClient {
    base_url: String,
}

impl View for OllamaClient {
    type V = Seq<char>;

    closed spec fn view(&self) -> Seq<char> {
        self.base_url@
    }
}

impl OllamaClient {
    /// A client for the server at `base_url`.
    pub fn new(base_url: &str) -> (r: OllamaClient)
        ensures
            r@ == base_url@,
    {
        OllamaClient { base_url: String::from_str(base_url) }
    }

    /// The server's base URL.
    pub fn base_url(&self) -> (r: &str)
        ensures
            r@ == self@,
    {
        self.base_url.as_str()
    }

    /// The URL of the embeddings endpoint.
    pub fn embeddings_url(&self) -> (r: String)
        ensures
            r@ == self@ + "/api/embeddings"@,
    {
        concat2(self.base_url.as_str(), "/api/embeddings")
    }

    /// The URL of the chat endpoint.
    pub fn chat_url(&self) -> (r: String)
        ensures
            r@ == self@ + "/api/chat"@,
    {
        concat2(self.base_url.as_str(), "/api/chat")
    }
}

/// The chat model to use: the one given, or the default chat model.
pub fn model_or_default(model: Option<&str>) -> (r: String)
    ensures
        r@ == match model {
            Some(m) => m@,
            None => DEFAULT_CHAT_MODEL@,
        },
{
    match model {
        Some(m) => String::from_str(m),
        None => String::from_str(DEFAULT_CHAT_MODEL),
    }
}

/// The reason phrase an HTTP status code displays (`Not Found` for 404);
/// `<unknown status code>` for codes without one.
pub uninterp spec fn http_status_reason(code: int) -> Seq<char>;

/// `Display` for `reqwest::StatusCode`: the code and its reason phrase.
#[verifier::external_body]
fn status_text(code: u16) -> (r: String)
    requires
        100 <= code <= 999,
    ensures
        r@ == decimal(code as nat) + seq![' '] + http_status_reason(code as int),
{
    match reqwest::StatusCode::from_u16(code) {
        Ok(s) => s.to_string(),
        Err(_) => String::new(),
    }
}

/// Whether an HTTP status code means success (2xx).
pub open spec fn is_success_status(code: int) -> bool {
    200 <= code < 300
}

/// The requests made to Ollama.
#[derive(Debug, Clone, Copy, PartialEq, Eq, Structural)]
pub enum OllamaOperation {
    /// Generating an embedding.
    Embeddings,
    /// A chat completion.
    Chat,
}

/// Whether an error body says that the model cannot make embeddings.
pub open spec fn says_embeddings_unsupported(body: Seq<char>) -> bool {
    ||| seq_contains_run(body, "does not support embedding"@)
    ||| seq_contains_run(body, "doesn't support embedding"@)
    ||| seq_contains_run(body, "not support embeddings"@)
}

/// The error for an unsuccessful response with `status` and `body` to a
/// request for `model`: a missing model for 404, an unsupported model for
/// embeddings when the body says so, otherwise the status and the body.
pub open spec fn failure_is(model: Seq<char>, op: OllamaOperation, status: int, body: Seq<char>, e: AIError) -> bool {
    if status == 404 {
        e matches AIError::ModelNotFound(m) && m@ == model
    } else if op == OllamaOperation::Embeddings && says_embeddings_unsupported(body) {
        e matches AIError::ModelNotSupported { model: m, operation: o, suggestion: s } && m@ == model
            && o@ == "embeddings"@ && s@ == DEFAULT_EMBED_MODEL@
    } else {
        e matches AIError::InvalidResponse(m) && m@ == "HTTP "@ + decimal(status as nat) + seq![' ']
            + http_status_reason(status) + ": "@ + body
    }
}

/// The error for an unsuccessful response to a request for `model`.
pub fn failure_error(model: &str, operation: OllamaOperation, status: u16, body: &str) -> (r: AIError)
    requires
        100 <= status <= 999,
    ensures
        failure_is(model@, operation, status as int, body@, r),
{
    if status == 404 {
        return AIError::ModelNotFound(String::from_str(model));
    }
    if operation == OllamaOperation::Embeddings && (str_contains(body, "does not support embedding")
        || str_contains(body, "doesn't support embedding") || str_contains(body, "not support embeddings")) {
        return AIError::ModelNotSupported {
            model: String::from_str(model),
            operation: String::from_str("embeddings"),
            suggestion: String::from_str(DEFAULT_EMBED_MODEL),
        };
    }
    let st = status_text(status);
    let mut out: Vec<char> = Vec::new();
    push_str_chars(&mut out, "HTTP ");
    push_str_chars(&mut out, st.as_str());
    push_str_chars(&mut out, ": ");
    push_str_chars(&mut out, body);
    assert(out@ =~= "HTTP "@ + decimal(status as nat) + seq![' '] + http_status_reason(status as int) + ": "@ + body@);
    AIError::InvalidResponse(string_from_chars(&out))
}

/// Checks the status of a response to a request for `model`: success, or
/// the error it stands for.
pub fn check_response(model: &str, operation: OllamaOperation, status: u16, body: &str) -> (r: AppResult<()>)
    requires
        100 <= status <= 999,
    ensures
        is_success_status(status as int) ==> r is Ok,
        !is_success_status(status as int) ==> (r matches Err(AppError::AI(e)) && failure_is(model@, operation, status as int, body@, e)),
{
    if 200 <= status && status < 300 {
        Ok(())
    } else {
        Err(AppError::AI(failure_error(model, operation, status, body)))
    }
}

/// The content read from a successful response, or the error for a body
/// that could not be read (`what` names the response: chat, embedding).
pub fn parsed_response(what: &str, parsed: Result<String, String>) -> (r: AppResult<String>)
    ensures
        match parsed {
            Ok(c) => r matches Ok(x) && x@ == c@,
            Err(m) => r matches Err(AppError::AI(AIError::InvalidResponse(msg)))
                && msg@ == "Failed to parse "@ + what@ + " response: "@ + m@,
        },
{
    match parsed {
        Ok(c) => Ok(c),
        Err(m) => {
            let mut out: Vec<char> = Vec::new();
            push_str_chars(&mut out, "Failed to parse ");
            push_str_chars(&mut out, what);
            push_str_chars(&mut out, " response: ");
            push_str_chars(&mut out, m.as_str());
            Err(AppError::AI(AIError::InvalidResponse(string_from_chars(&out))))
        },
    }
}

/// `2^n`.
pub open spec fn two_pow(n: nat) -> nat
    decreases n,
{
    if n == 0 { 1 } else { 2 * two_pow((n - 1) as nat) }
}

/// How long to wait before retrying a failed embedding request, if it is
/// retried: only server errors (`HTTP 500`) are, while attempts remain; the
/// wait doubles with each attempt, from 200 ms.
pub open spec fn retry_delay(message: Seq<char>, attempt: int, max_retries: int) -> Option<int> {
    if seq_contains_run(message, "HTTP 500"@) && attempt < max_retries {
        Some((100 * two_pow((attempt + 1) as nat)) as int)
    } else {
        None
    }
}

/// The wait before the next attempt after attempt number `attempt` (from
/// zero) failed with an error displaying `error_message`, or `None` to give
/// up with that error.
pub fn retry_delay_ms(error_message: &str, attempt: u32, max_retries: u32) -> (r: Option<u64>)
    requires
        attempt < max_retries ==> attempt <= 56,
    ensures
        r == match retry_delay(error_message@, attempt as int, max_retries as int) {
            Some(ms) => Some(ms as u64),
            None => None::<u64>,
        },
        r matches Some(ms) ==> ms == 100 * two_pow((attempt + 1) as nat),
{
    if !str_contains(error_message, "HTTP 500") || attempt >= max_retries {
        return None;
    }
    let mut p: u64 = 1;
    let mut i: u32 = 0;
    proof {
        lemma_two_pow_57();
    }
    while i < attempt + 1
        invariant
            attempt <= 56,
            0 <= i <= attempt + 1,
            p == two_pow(i as nat),
            two_pow(57) == 144115188075855872,
        decreases attempt + 1 - i,
    {
        proof {
            lemma_two_pow_monotone((i + 1) as nat, 57);
        }
        p = p * 2;
        i = i + 1;
    }
    proof {
        lemma_two_pow_monotone((attempt + 1) as nat, 57);
    }
    Some(100 * p)
}

/// The value of `2^57`.
/// Whether an outcome of an embedding request (`None` for success,
/// `Some(message)` for a failure) is a server error, which is retried.
pub open spec fn server_error(outcome: Option<Seq<char>>) -> bool {
    outcome matches Some(m) && seq_contains_run(m, "HTTP 500"@)
}

/// Whether request `a` (counting from 0) of a run whose requests end as
/// `outcomes` is followed by another: it failed with a message for which
/// [`retry_delay`] gives a delay.
pub open spec fn is_retried(outcomes: Seq<Option<Seq<char>>>, a: int, max_retries: int) -> bool {
    &&& 0 <= a < outcomes.len()
    &&& outcomes[a] matches Some(m) && retry_delay(m, a, max_retries) is Some
}

/// The number of requests made from request `a` on, when each failed one
/// is retried as [`retry_delay`] decides.
pub open spec fn embed_requests_from(outcomes: Seq<Option<Seq<char>>>, a: nat, max_retries: int) -> nat
    decreases outcomes.len() - a,
{
    if is_retried(outcomes, a as int, max_retries) {
        1 + embed_requests_from(outcomes, a + 1, max_retries)
    } else {
        1
    }
}

/// The smaller of two integers.
pub open spec fn min_of(a: int, b: int) -> int {
    if a <= b { a } else { b }
}

/// Law: retrying an embedding request stops at the first outcome that is
/// not a server error (`j`) or once `max_retries` retries were made,
/// whichever comes first: `min(j, max_retries) + 1` requests are made, and
/// the retry after failed request `b` (from 0) waits `100 * 2^(b + 1)`
/// milliseconds.
pub proof fn law_embed_retries(outcomes: Seq<Option<Seq<char>>>, max_retries: int, j: int)
    requires
        0 <= max_retries,
        0 <= j <= outcomes.len(),
        forall|i: int| 0 <= i < j ==> server_error(#[trigger] outcomes[i]),
        j < outcomes.len() ==> !server_error(outcomes[j]),
        j == outcomes.len() ==> max_retries < j,
    ensures
        embed_requests_from(outcomes, 0, max_retries) == min_of(j, max_retries) + 1,
        forall|b: int| 0 <= b < min_of(j, max_retries) ==> retry_delay(
            #[trigger] outcomes[b]->0,
            b,
            max_retries,
        ) == Some((100 * two_pow((b + 1) as nat)) as int),
{
    let k = min_of(j, max_retries);
    lemma_requests_from(outcomes, max_retries, j, 0);
    assert forall|b: int| 0 <= b < k implies retry_delay(
        #[trigger] outcomes[b]->0,
        b,
        max_retries,
    ) == Some((100 * two_pow((b + 1) as nat)) as int) by {
        assert(server_error(outcomes[b]));
    }
}

/// The requests made from request `a` on, up to the stopping one.
proof fn lemma_requests_from(outcomes: Seq<Option<Seq<char>>>, max_retries: int, j: int, a: nat)
    requires
        0 <= max_retries,
        0 <= j <= outcomes.len(),
        forall|i: int| 0 <= i < j ==> server_error(#[trigger] outcomes[i]),
        j < outcomes.len() ==> !server_error(outcomes[j]),
        j == outcomes.len() ==> max_retries < j,
        a <= min_of(j, max_retries),
    ensures
        embed_requests_from(outcomes, a, max_retries) == min_of(j, max_retries) - a + 1,
    decreases min_of(j, max_retries) - a,
{
    let k = min_of(j, max_retries);
    if a < k {
        assert(server_error(outcomes[a as int]));
        assert(is_retried(outcomes, a as int, max_retries));
        lemma_requests_from(outcomes, max_retries, j, a + 1);
    } else {
        if a < outcomes.len() && outcomes[a as int] is Some {
            assert(!is_retried(outcomes, a as int, max_retries));
        }
    }
}

proof fn lemma_two_pow_57()
    ensures
        two_pow(57) == 144115188075855872,
{
    reveal_with_fuel(two_pow, 58);
}

/// Powers of two grow with the exponent.
proof fn lemma_two_pow_monotone(a: nat, b: nat)
    requires
        a <= b,
    ensures
        two_pow(a) <= two_pow(b),
    decreases b,
{
    if a < b {
        lemma_two_pow_monotone(a, (b - 1) as nat);
    }
}

/// What serde_json reads from a text as a JSON array of strings: the
/// strings, or the error message.
pub uninterp spec fn serde_json_string_list(text: Seq<char>) -> Result<Seq<Seq<char>>, Seq<char>>;

/// The views of a sequence of strings.
pub open spec fn string_views(v: Seq<String>) -> Seq<Seq<char>> {
    v.map_values(|s: String| s@)
}

/// `serde_json::from_str::<Vec<String>>`, with the error as its message.
#[verifier::external_body]
fn parse_string_list(text: &str) -> (r: Result<Vec<String>, String>)
    ensures
        serde_json_string_list(text@) == (match r {
            Ok(v) => Ok::<Seq<Seq<char>>, Seq<char>>(string_views(v@)),
            Err(e) => Err::<Seq<Seq<char>>, Seq<char>>(e@),
        }),
{
    match serde_json::from_str::<Vec<String>>(text) {
        Ok(v) => Ok(v),
        Err(e) => Err(e.to_string()),
    }
}

/// The topics in a model's answer, which should be a JSON array of strings
/// (surrounding whitespace is ignored).
pub fn parse_topics(response: &str) -> (r: AppResult<Vec<String>>)
    ensures
        match serde_json_string_list(trimmed(response@)) {
            Ok(list) => r matches Ok(v) && string_views(v@) == list,
            Err(m) => r matches Err(AppError::AI(AIError::InvalidResponse(msg)))
                && msg@ == "Failed to parse topics JSON '"@ + trimmed(response@) + "': "@ + m,
        },
{
    let t = trim(response);
    match parse_string_list(t.as_str()) {
        Ok(v) => Ok(v),
        Err(e) => {
            let mut out: Vec<char> = Vec::new();
            push_str_chars(&mut out, "Failed to parse topics JSON '");
            push_str_chars(&mut out, t.as_str());
            push_str_chars(&mut out, "': ");
            push_str_chars(&mut out, e.as_str());
            Err(AppError::AI(AIError::InvalidResponse(string_from_chars(&out))))
        },
    }
}

/// The JSON schema that a reflection decision must follow.
pub const REFLECTION_DECISION_SCHEMA: &'static str = "{\"type\":\"object\",\"properties\":{\"action\":{\"type\":\"string\",\"enum\":[\"search\",\"respond\"]},\"temporal_constraint\":{\"type\":\"object\",\"properties\":{\"type\":{\"type\":\"string\",\"enum\":[\"none\",\"relative\",\"absolute\"]},\"days_ago\":{\"type\":\"number\"},\"start_date\":{\"type\":\"string\"},\"end_date\":{\"type\":\"string\"}},\"required\":[\"type\"]},\"reasoning\":{\"type\":\"string\"}},\"required\":[\"action\",\"reasoning\"]}";

/// The JSON schema that a query analysis must follow.
pub const QUERY_ANALYSIS_SCHEMA: &'static str = "{\"type\":\"object\",\"properties\":{\"topic\":{\"type\":\"string\"},\"temporal_constraint\":{\"type\":\"object\",\"properties\":{\"type\":{\"type\":\"string\",\"enum\":[\"none\",\"relative\",\"absolute\"]},\"days_ago\":{\"type\":\"number\"},\"start_date\":{\"type\":\"string\"},\"end_date\":{\"type\":\"string\"}},\"required\":[\"type\"]},\"confidence\":{\"type\":\"number\"}},\"required\":[\"topic\",\"temporal_constraint\",\"confidence\"]}";

/// The index of the first line break in `s` from `i` on, if any.
pub open spec fn newline_from(s: Seq<char>, i: int) -> Option<int>
    decreases s.len() - i,
{
    if i < 0 || i >= s.len() {
        None
    } else if s[i] == '\n' {
        Some(i)
    } else {
        newline_from(s, i + 1)
    }
}

/// Reading lines of `s` from `start` on: the first complete line (ended by
/// a line break) that is not blank, trimmed, and where reading stops; blank
/// lines are passed over. Without such a line, nothing, and the position
/// after the blank lines passed over.
pub open spec fn scan_line(s: Seq<char>, start: int) -> (Option<Seq<char>>, int)
    decreases s.len() - start,
{
    match newline_from(s, start) {
        Some(p) => if start <= p < s.len() {
            let line = trimmed(s.subrange(start, p));
            if line.len() == 0 {
                scan_line(s, p + 1)
            } else {
                (Some(line), p + 1)
            }
        } else {
            (None, start)
        },
        None => (None, start),
    }
}

proof fn lemma_newline_from_bounds(s: Seq<char>, i: int)
    ensures
        newline_from(s, i) matches Some(p) ==> i <= p < s.len() && s[p] == '\n',
    decreases s.len() - i,
{
    if 0 <= i < s.len() && s[i] != '\n' {
        lemma_newline_from_bounds(s, i + 1);
    }
}

proof fn lemma_scan_line_bounds(s: Seq<char>, start: int)
    requires
        0 <= start <= s.len(),
    ensures
        start <= scan_line(s, start).1 <= s.len(),
    decreases s.len() - start,
{
    lemma_newline_from_bounds(s, start);
    if let Some(p) = newline_from(s, start) {
        if start <= p < s.len() && trimmed(s.subrange(start, p)).len() == 0 {
            lemma_scan_line_bounds(s, p + 1);
        }
    }
}

/// A line was read from `start` on: it ends after `start`.
proof fn lemma_scan_line_progress(s: Seq<char>, start: int)
    requires
        0 <= start <= s.len(),
    ensures
        scan_line(s, start).0 is Some ==> start < scan_line(s, start).1 <= s.len(),
        scan_line(s, start).0 is None ==> newline_from(s, scan_line(s, start).1) is None,
    decreases s.len() - start,
{
    lemma_newline_from_bounds(s, start);
    lemma_scan_line_bounds(s, start);
    if let Some(p) = newline_from(s, start) {
        if start <= p < s.len() && trimmed(s.subrange(start, p)).len() == 0 {
            lemma_scan_line_progress(s, p + 1);
        }
    }
}

/// Searching for a line break in a text from which the first `k` characters
/// were removed finds the same one, `k` positions earlier.
proof fn lemma_newline_from_shift(s: Seq<char>, k: int, i: int)
    requires
        0 <= k <= i <= s.len(),
    ensures
        match newline_from(s, i) {
            Some(p) => newline_from(s.subrange(k, s.len() as int), i - k) == Some(p - k),
            None => newline_from(s.subrange(k, s.len() as int), i - k) is None,
        },
    decreases s.len() - i,
{
    let t = s.subrange(k, s.len() as int);
    if i < s.len() && s[i] != '\n' {
        assert(t[i - k] == s[i]);
        lemma_newline_from_shift(s, k, i + 1);
    } else if i < s.len() {
        assert(t[i - k] == s[i]);
    }
}

/// Reading lines from `start` in a text from which the first `k` characters
/// were removed gives the same line, stopping `k` positions earlier.
proof fn lemma_scan_line_shift(s: Seq<char>, k: int, start: int)
    requires
        0 <= k <= start <= s.len(),
    ensures
        scan_line(s.subrange(k, s.len() as int), start - k).0 == scan_line(s, start).0,
        scan_line(s.subrange(k, s.len() as int), start - k).1 == scan_line(s, start).1 - k,
    decreases s.len() - start,
{
    let t = s.subrange(k, s.len() as int);
    lemma_newline_from_shift(s, k, start);
    lemma_newline_from_bounds(s, start);
    if let Some(p) = newline_from(s, start) {
        if start <= p < s.len() {
            assert(t.subrange(start - k, p - k) =~= s.subrange(start, p));
            if trimmed(s.subrange(start, p)).len() == 0 {
                lemma_scan_line_shift(s, k, p + 1);
            }
        }
    }
}

/// Searching for a line break in a text to which more was appended finds
/// the same one when the text had one; otherwise the search goes on in what
/// was appended.
proof fn lemma_newline_from_append(a: Seq<char>, b: Seq<char>, i: int)
    requires
        0 <= i <= a.len(),
    ensures
        newline_from(a, i) is Some ==> newline_from(a + b, i) == newline_from(a, i),
        newline_from(a, i) is None ==> newline_from(a + b, i) == newline_from(a + b, a.len() as int),
    decreases a.len() - i,
{
    if i < a.len() {
        assert((a + b)[i] == a[i]);
        if a[i] != '\n' {
            lemma_newline_from_append(a, b, i + 1);
        }
    }
}

/// Reading lines from `start` in a text to which more was appended gives
/// the same line when the text had a complete non-blank one; otherwise it
/// reads on from where the text's complete lines ended.
proof fn lemma_scan_line_append(a: Seq<char>, b: Seq<char>, start: int)
    requires
        0 <= start <= a.len(),
    ensures
        scan_line(a, start).0 is Some ==> scan_line(a + b, start) == scan_line(a, start),
        scan_line(a, start).0 is None ==> scan_line(a + b, start) == scan_line(a + b, scan_line(a, start).1),
    decreases a.len() - start,
{
    lemma_newline_from_append(a, b, start);
    lemma_newline_from_bounds(a, start);
    if let Some(p) = newline_from(a, start) {
        if start <= p < a.len() {
            assert((a + b).subrange(start, p) =~= a.subrange(start, p));
            if trimmed(a.subrange(start, p)).len() == 0 {
                lemma_scan_line_append(a, b, p + 1);
            }
        }
    }
}

/// The complete non-blank lines of a streamed text, trimmed, in order: what
/// repeated calls of [`StreamCollector::next_line`] hand out.
pub open spec fn stream_lines(s: Seq<char>) -> Seq<Seq<char>>
    decreases s.len(),
{
    let r = scan_line(s, 0);
    if r.0 is Some && 0 < r.1 <= s.len() {
        seq![r.0->0] + stream_lines(s.subrange(r.1, s.len() as int))
    } else {
        Seq::empty()
    }
}

/// What stays pending of a streamed text once its complete lines were read:
/// the part after the last line break, blank lines before it passed over.
pub open spec fn stream_rest(s: Seq<char>) -> Seq<char>
    decreases s.len(),
{
    let r = scan_line(s, 0);
    if r.0 is Some && 0 < r.1 <= s.len() {
        stream_rest(s.subrange(r.1, s.len() as int))
    } else if 0 <= r.1 <= s.len() {
        s.subrange(r.1, s.len() as int)
    } else {
        s
    }
}

/// Law: [`StreamCollector::next_line`] reads [`stream_lines`] one by one:
/// on pending text `s`, a line read is the first of `stream_lines(s)` and
/// the rest follow from what stays pending; when no line is read, there is
/// none, and what stays pending is [`stream_rest`] of `s`.
pub proof fn law_next_line_reads_stream_lines(s: Seq<char>)
    ensures
        scan_line(s, 0).0 matches Some(x) ==> {
            &&& stream_lines(s) == seq![x] + stream_lines(s.subrange(scan_line(s, 0).1, s.len() as int))
            &&& stream_rest(s) == stream_rest(s.subrange(scan_line(s, 0).1, s.len() as int))
        },
        scan_line(s, 0).0 is None ==> {
            &&& stream_lines(s) == Seq::<Seq<char>>::empty()
            &&& stream_rest(s) == s.subrange(scan_line(s, 0).1, s.len() as int)
        },
{
    lemma_scan_line_progress(s, 0);
    lemma_scan_line_bounds(s, 0);
}

/// Law: how a streamed text is cut into received pieces does not change the
/// lines read: the lines of `a + b` are those of `a` followed by those of
/// what stayed pending of `a` followed by `b`, and the same stays pending.
pub proof fn law_stream_lines_split(a: Seq<char>, b: Seq<char>)
    ensures
        stream_lines(a + b) == stream_lines(a) + stream_lines(stream_rest(a) + b),
        stream_rest(a + b) == stream_rest(stream_rest(a) + b),
    decreases a.len(),
{
    let r = scan_line(a, 0);
    lemma_scan_line_progress(a, 0);
    lemma_scan_line_bounds(a, 0);
    lemma_scan_line_append(a, b, 0);
    if r.0 is Some {
        let a2 = a.subrange(r.1, a.len() as int);
        assert((a + b).subrange(r.1, (a + b).len() as int) =~= a2 + b);
        law_stream_lines_split(a2, b);
        assert(stream_lines(a) == seq![r.0->0] + stream_lines(a2));
        assert(stream_lines(a + b) == seq![r.0->0] + stream_lines(a2 + b));
        assert(stream_lines(a + b) =~= stream_lines(a) + stream_lines(stream_rest(a) + b));
    } else {
        let e = r.1;
        let c = a.subrange(e, a.len() as int) + b;
        assert((a + b).subrange(e, (a + b).len() as int) =~= c);
        lemma_scan_line_shift(a + b, e, e);
        lemma_scan_line_progress(a + b, e);
        lemma_scan_line_bounds(a + b, e);
        lemma_scan_line_shift(a + b, 0, 0);
        assert((a + b).subrange(0, (a + b).len() as int) =~= a + b);
        let rc = scan_line(c, 0);
        assert(scan_line(a + b, 0) == scan_line(a + b, e));
        assert(rc.0 == scan_line(a + b, e).0);
        assert(rc.1 == scan_line(a + b, e).1 - e);
        lemma_scan_line_progress(c, 0);
        lemma_scan_line_bounds(c, 0);
        if rc.0 is Some {
            assert((a + b).subrange(scan_line(a + b, 0).1, (a + b).len() as int) =~= c.subrange(
                rc.1,
                c.len() as int,
            ));
        } else {
            assert((a + b).subrange(scan_line(a + b, 0).1, (a + b).len() as int) =~= c.subrange(
                rc.1,
                c.len() as int,
            ));
        }
        assert(stream_lines(a) =~= Seq::<Seq<char>>::empty());
        assert(stream_rest(a) == a.subrange(e, a.len() as int));
        assert(stream_lines(a + b) =~= stream_lines(a) + stream_lines(stream_rest(a) + b));
    }
}

/// The pieces of a streamed response joined into one text.
pub open spec fn joined(pieces: Seq<Seq<char>>) -> Seq<char>
    decreases pieces.len(),
{
    if pieces.len() == 0 {
        Seq::empty()
    } else {
        joined(pieces.drop_last()) + pieces.last()
    }
}

/// The lines read, and the text left pending, when each piece is added to
/// the pending text with [`StreamCollector::push_text`] and the lines are
/// then read with [`StreamCollector::next_line`] until none is left.
pub open spec fn lines_read(pieces: Seq<Seq<char>>) -> (Seq<Seq<char>>, Seq<char>)
    decreases pieces.len(),
{
    if pieces.len() == 0 {
        (Seq::empty(), Seq::empty())
    } else {
        let before = lines_read(pieces.drop_last());
        let pending = before.1 + pieces.last();
        (before.0 + stream_lines(pending), stream_rest(pending))
    }
}

/// Law: reading a streamed response piece by piece gives the complete
/// non-blank lines of the whole response, in order, however it was cut
/// into pieces, and leaves pending what follows its last line break.
pub proof fn law_stream_pieces(pieces: Seq<Seq<char>>)
    ensures
        lines_read(pieces).0 == stream_lines(joined(pieces)),
        lines_read(pieces).1 == stream_rest(joined(pieces)),
    decreases pieces.len(),
{
    if pieces.len() == 0 {
        assert(stream_lines(Seq::<char>::empty()) =~= Seq::<Seq<char>>::empty()) by {
            lemma_scan_line_bounds(Seq::<char>::empty(), 0);
            lemma_scan_line_progress(Seq::<char>::empty(), 0);
        }
        assert(stream_rest(Seq::<char>::empty()) =~= Seq::<char>::empty()) by {
            lemma_scan_line_bounds(Seq::<char>::empty(), 0);
            lemma_scan_line_progress(Seq::<char>::empty(), 0);
        }
    } else {
        let front = pieces.drop_last();
        law_stream_pieces(front);
        law_stream_lines_split(joined(front), pieces.last());
        assert(lines_read(pieces).0 =~= stream_lines(joined(pieces)));
    }
}

/// Whether a chunk's content is kept: it is not empty.
pub open spec fn has_content(c: Seq<char>) -> bool {
    c.len() > 0
}

/// Law: contents accepted one by one with [`StreamCollector::accept`] are
/// kept when not empty, in the order they came: after the contents `cs`
/// were kept as their non-empty ones, accepting `c` keeps the non-empty
/// ones of `cs` followed by `c`.
pub proof fn law_accept_keeps_nonempty_contents(kept: Seq<Seq<char>>, cs: Seq<Seq<char>>, c: Seq<char>)
    ensures
        kept + cs.push(c).filter(|x: Seq<char>| has_content(x)) == (if c.len() > 0 {
            (kept + cs.filter(|x: Seq<char>| has_content(x))).push(c)
        } else {
            kept + cs.filter(|x: Seq<char>| has_content(x))
        }),
{
    reveal(Seq::filter);
    assert(cs.push(c).drop_last() =~= cs);
    assert(cs.push(c).last() == c);
    if c.len() > 0 {
        assert(kept + cs.filter(|x: Seq<char>| has_content(x)).push(c) =~= (kept + cs.filter(
            |x: Seq<char>| has_content(x),
        )).push(c));
    }
}

/// Collects the content of a streamed chat response: the text received is
/// split into lines, each non-blank line is one JSON chunk, and the
/// non-empty contents of the chunks are kept until a chunk says the
/// response is done.
pub struct StreamCollector {
    buffer: Vec<char>,
    chunks: Vec<String>,
    finished: bool,
}

impl StreamCollector {
    /// The text received and not yet read as lines.
    pub closed spec fn pending(&self) -> Seq<char> {
        self.buffer@
    }

    /// The contents kept so far.
    pub closed spec fn kept(&self) -> Seq<Seq<char>> {
        string_views(self.chunks@)
    }

    /// Whether a chunk said that the response is done.
    pub closed spec fn is_finished(&self) -> bool {
        self.finished
    }

    /// A collector that has received nothing.
    pub fn new() -> (r: StreamCollector)
        ensures
            r.pending().len() == 0,
            r.kept().len() == 0,
            !r.is_finished(),
    {
        let r = StreamCollector { buffer: Vec::new(), chunks: Vec::new(), finished: false };
        assert(r.kept() =~= Seq::empty());
        r
    }

    /// Adds received text.
    pub fn push_text(&mut self, text: &str)
        ensures
            final(self).pending() == old(self).pending() + text@,
            final(self).kept() == old(self).kept(),
            final(self).is_finished() == old(self).is_finished(),
    {
        push_str_chars(&mut self.buffer, text);
    }

    /// Reads the next complete non-blank line, trimmed, passing over blank
    /// lines; the text read is removed.
    pub fn next_line(&mut self) -> (r: Option<String>)
        ensures
            match r {
                Some(l) => scan_line(old(self).pending(), 0).0 == Some(l@),
                None => scan_line(old(self).pending(), 0).0 is None,
            },
            final(self).pending() == old(self).pending().subrange(
                scan_line(old(self).pending(), 0).1,
                old(self).pending().len() as int,
            ),
            final(self).kept() == old(self).kept(),
            final(self).is_finished() == old(self).is_finished(),
    {
        let ghost s = self.buffer@;
        let len = self.buffer.len();
        let mut start: usize = 0;
        proof {
            lemma_scan_line_bounds(s, 0);
        }
        loop
            invariant
                self.buffer@ == s,
                len == s.len(),
                0 <= start <= len,
                scan_line(s, 0) == scan_line(s, start as int),
                self.kept() == old(self).kept(),
                self.is_finished() == old(self).is_finished(),
                s == old(self).pending(),
            decreases len - start,
        {
            let mut p: usize = start;
            while p < len && self.buffer[p] != '\n'
                invariant
                    self.buffer@ == s,
                    len == s.len(),
                    start <= p <= len,
                    newline_from(s, start as int) == newline_from(s, p as int),
                decreases len - p,
            {
                p = p + 1;
            }
            if p == len {
                let rest = take_from(&self.buffer, start);
                self.buffer = rest;
                return None;
            }
            proof {
                lemma_newline_from_bounds(s, start as int);
            }
            let raw = take_range(&self.buffer, start, p);
            let line = trim(raw.as_str());
            if str_chars(line.as_str()).len() == 0 {
                start = p + 1;
            } else {
                let rest = take_from(&self.buffer, p + 1);
                self.buffer = rest;
                return Some(line);
            }
        }
    }

    /// Takes in a chunk read from a line: its content is kept if not empty,
    /// and `done` ends the response.
    pub fn accept(&mut self, content: &str, done: bool)
        ensures
            final(self).pending() == old(self).pending(),
            final(self).kept() == if content@.len() > 0 {
                old(self).kept().push(content@)
            } else {
                old(self).kept()
            },
            final(self).is_finished() == (old(self).is_finished() || done),
    {
        if str_chars(content).len() > 0 {
            self.chunks.push(String::from_str(content));
            assert(self.kept() =~= old(self).kept().push(content@));
        }
        if done {
            self.finished = true;
        }
    }

    /// Whether a chunk said that the response is done.
    pub fn finished(&self) -> (r: bool)
        ensures
            r == self.is_finished(),
    {
        self.finished
    }

    /// The contents kept.
    pub fn into_chunks(self) -> (r: Vec<String>)
        ensures
            string_views(r@) == self.kept(),
    {
        self.chunks
    }
}

/// The characters of `v` from index `i` on.
fn take_from(v: &Vec<char>, i: usize) -> (r: Vec<char>)
    requires
        i <= v.len(),
    ensures
        r@ == v@.subrange(i as int, v.len() as int),
{
    take_range_vec(v, i, v.len())
}

/// The characters of `v` from index `i` to `j`, as a vector.
fn take_range_vec(v: &Vec<char>, i: usize, j: usize) -> (r: Vec<char>)
    requires
        i <= j <= v.len(),
    ensures
        r@ == v@.subrange(i as int, j as int),
{
    let mut out: Vec<char> = Vec::new();
    let mut k: usize = i;
    while k < j
        invariant
            i <= k <= j,
            j <= v.len(),
            out@ == v@.subrange(i as int, k as int),
        decreases j - k,
    {
        out.push(v[k]);
        k = k + 1;
        assert(out@ =~= v@.subrange(i as int, k as int));
    }
    out
}

/// The characters of `v` from index `i` to `j`, as a string.
fn take_range(v: &Vec<char>, i: usize, j: usize) -> (r: String)
    requires
        i <= j <= v.len(),
    ensures
        r@ == v@.subrange(i as int, j as int),
{
    let out = take_range_vec(v, i, j);
    string_from_chars(&out)
}

/// The error for a streamed line that is not a valid chunk.
pub fn chunk_error(line: &str, error: &str) -> (r: AIError)
    ensures
        r matches AIError::InvalidResponse(m) && m@ == "Failed to parse stream chunk '"@ + line@ + "': "@ + error@,
{
    let mut out: Vec<char> = Vec::new();
    push_str_chars(&mut out, "Failed to parse stream chunk '");
    push_str_chars(&mut out, line);
    push_str_chars(&mut out, "': ");
    push_str_chars(&mut out, error);
    AIError::InvalidResponse(string_from_chars(&out))
}

/// The error for a failure to read the stream.
pub fn stream_read_error(error: &str) -> (r: AIError)
    ensures
        r matches AIError::InvalidResponse(m) && m@ == "Failed to read stream: "@ + error@,
{
    AIError::InvalidResponse(concat2("Failed to read stream: ", error))
}

/// The error for received bytes that are not UTF-8.
pub fn stream_encoding_error(error: &str) -> (r: AIError)
    ensures
        r matches AIError::InvalidResponse(m) && m@ == "Invalid UTF-8 in stream: "@ + error@,
{
    AIError::InvalidResponse(concat2("Invalid UTF-8 in stream: ", error))
}

} // verus!

//! System prompts and message builders for AI interactions.
use vstd::prelude::*;
use crate::ai::ollama::Message;
use crate::util::{decimal, push_decimal, push_str_chars, push_chars, seq_contains_run, string_from_chars};

verus! {

/// System prompt for journal-related AI interactions.
pub const SYSTEM_PROMPT: &'static str = "You are a thoughtful and insightful journal assistant. Your role is to help users:

1. Reflect on their journal entries with depth and nuance
2. Find connections and patterns across different entries
3. Retrieve relevant information from their personal knowledge base
4. Provide gentle guidance and thought-provoking questions

Guidelines:
- Be warm, empathetic, and non-judgmental
- Respect the personal and private nature of journal entries
- Focus on helping users understand themselves better
- Cite specific entries when referencing past content
- Ask clarifying questions when needed
- Avoid generic advice - tailor responses to the user's actual experiences

Remember: You're working with someone's personal thoughts and experiences.
Treat them with care and respect.";

/// Text of the reflection request that precedes the entry.
pub const REFLECT_INTRO: &'static str = "Please reflect on this journal entry. Provide thoughtful insights,
identify key themes, and suggest questions for deeper exploration.

Entry:
---
";

/// Text of the reflection request that follows the entry.
pub const REFLECT_OUTRO: &'static str = "
---

Focus on:
1. Main themes and emotions expressed
2. Patterns or connections to broader life contexts
3. Questions for deeper reflection
4. Positive developments or growth areas

Keep your reflection concise (2-3 paragraphs) and actionable.";

/// Text of a question request that precedes the question.
pub const ASK_INTRO: &'static str = "Based on the following journal entries, please answer this question:

Question: ";

/// Text of a question request between the question and the context.
pub const ASK_MIDDLE: &'static str = "

Relevant journal entries:
---
";

/// Text of a question request that follows the context.
pub const ASK_OUTRO: &'static str = "
---

Instructions:
1. Answer based primarily on the provided context
2. Cite specific entries when making references
3. If the context doesn't contain enough information, say so
4. Be specific and concrete in your response
5. If you see patterns across entries, point them out

Provide a clear, helpful answer.";

/// Context used when no journal excerpt was found.
pub const NO_CONTEXT: &'static str = "No relevant journal entries found.";

/// The user message of a reflection request on `entry`.
pub open spec fn reflect_user_text(entry: Seq<char>) -> Seq<char> {
    REFLECT_INTRO@ + entry + REFLECT_OUTRO@
}

/// One numbered excerpt: `[Context n]`, the excerpt, and a line break.
pub open spec fn context_block(number: nat, chunk: Seq<char>) -> Seq<char> {
    "[Context "@ + decimal(number) + "]\n"@ + chunk + "\n"@
}

/// The numbered excerpts `chunks[0..k]`, separated by blank lines.
pub open spec fn context_blocks(chunks: Seq<Seq<char>>, k: nat) -> Seq<char>
    decreases k,
{
    if k == 0 {
        seq![]
    } else if k == 1 {
        context_block(1, chunks[0])
    } else {
        context_blocks(chunks, (k - 1) as nat) + "\n"@ + context_block(k, chunks[k - 1])
    }
}

/// The context section of a question request.
pub open spec fn ask_context(chunks: Seq<Seq<char>>) -> Seq<char> {
    if chunks.len() == 0 {
        NO_CONTEXT@
    } else {
        context_blocks(chunks, chunks.len())
    }
}

/// The user message of a question request.
pub open spec fn ask_user_text(question: Seq<char>, chunks: Seq<Seq<char>>) -> Seq<char> {
    ASK_INTRO@ + question + ASK_MIDDLE@ + ask_context(chunks) + ASK_OUTRO@
}

/// Builds messages for reflecting on a journal entry: the system prompt,
/// then a user message that quotes the entry.
pub fn reflect_prompt(entry_content: &str) -> (r: Vec<Message>)
    ensures
        r@.len() == 2,
        r@[0].role@ == "system"@,
        r@[0].content@ == SYSTEM_PROMPT@,
        r@[1].role@ == "user"@,
        r@[1].content@ == reflect_user_text(entry_content@),
        seq_contains_run(r@[1].content@, "---\n"@ + entry_content@ + "\n---"@),
        seq_contains_run(r@[1].content@, "reflect"@),
        seq_contains_run(r@[1].content@, "themes"@),
{
    proof {
        law_reflect_prompt_quotes_entry(entry_content@);
    }
    let mut text: Vec<char> = Vec::new();
    push_str_chars(&mut text, REFLECT_INTRO);
    push_str_chars(&mut text, entry_content);
    push_str_chars(&mut text, REFLECT_OUTRO);
    let user_text = string_from_chars(&text);
    let mut messages: Vec<Message> = Vec::new();
    messages.push(Message::system(SYSTEM_PROMPT));
    messages.push(Message::user(user_text.as_str()));
    messages
}

/// Builds messages for answering a question from retrieved journal excerpts:
/// the system prompt, then a user message with the question and the
/// numbered excerpts (or a note that none was found).
pub fn ask_prompt(question: &str, context_chunks: &[String]) -> (r: Vec<Message>)
    ensures
        r@.len() == 2,
        r@[0].role@ == "system"@,
        r@[0].content@ == SYSTEM_PROMPT@,
        r@[1].role@ == "user"@,
        r@[1].content@ == ask_user_text(question@, context_chunks@.map_values(|c: String| c@)),
        seq_contains_run(r@[1].content@, question@),
        seq_contains_run(r@[1].content@, "---\n"@ + ask_context(context_chunks@.map_values(|c: String| c@)) + "\n---"@),
        forall|i: int| 0 <= i < context_chunks.len() ==> seq_contains_run(
            r@[1].content@,
            "[Context "@ + decimal((i + 1) as nat) + "]\n"@ + (#[trigger] context_chunks@[i])@ + "\n"@,
        ),
{
    proof {
        law_ask_prompt_quotes_question_and_context(question@, context_chunks@.map_values(|c: String| c@));
        assert forall|i: int| 0 <= i < context_chunks.len() implies seq_contains_run(
            ask_user_text(question@, context_chunks@.map_values(|c: String| c@)),
            "[Context "@ + decimal((i + 1) as nat) + "]\n"@ + (#[trigger] context_chunks@[i])@ + "\n"@,
        ) by {
            law_ask_prompt_numbers_every_excerpt(question@, context_chunks@.map_values(|c: String| c@), i);
        }
    }
    let ghost cv = context_chunks@.map_values(|c: String| c@);
    let mut context: Vec<char> = Vec::new();
    if context_chunks.len() == 0 {
        push_str_chars(&mut context, NO_CONTEXT);
    } else {
        let mut i: usize = 0;
        while i < context_chunks.len()
            invariant
                0 <= i <= context_chunks@.len(),
                cv == context_chunks@.map_values(|c: String| c@),
                context@ == context_blocks(cv, i as nat),
            decreases context_chunks@.len() - i,
        {
            let ghost before = context@;
            if i > 0 {
                push_str_chars(&mut context, "\n");
            }
            push_str_chars(&mut context, "[Context ");
            push_decimal(&mut context, (i as u64) + 1);
            push_str_chars(&mut context, "]\n");
            push_str_chars(&mut context, context_chunks[i].as_str());
            push_str_chars(&mut context, "\n");
            proof {
                let blk = context_block((i + 1) as nat, cv[i as int]);
                if i == 0 {
                    assert(context@ == blk);
                } else {
                    assert(context@ == before + "\n"@ + blk);
                }
            }
            i = i + 1;
        }
    }
    let mut text: Vec<char> = Vec::new();
    push_str_chars(&mut text, ASK_INTRO);
    push_str_chars(&mut text, question);
    push_str_chars(&mut text, ASK_MIDDLE);
    push_chars(&mut text, &context);
    push_str_chars(&mut text, ASK_OUTRO);
    let user_text = string_from_chars(&text);
    let mut messages: Vec<Message> = Vec::new();
    messages.push(Message::system(SYSTEM_PROMPT));
    messages.push(Message::user(user_text.as_str()));
    messages
}

/// Law: the reflection request quotes the entry between `---` lines and
/// asks to reflect on it and to name its themes.
pub proof fn law_reflect_prompt_quotes_entry(entry: Seq<char>)
    ensures
        seq_contains_run(reflect_user_text(entry), "---\n"@ + entry + "\n---"@),
        seq_contains_run(reflect_user_text(entry), "reflect"@),
        seq_contains_run(reflect_user_text(entry), "themes"@),
{
    reveal_strlit("Please reflect on this journal entry. Provide thoughtful insights,
identify key themes, and suggest questions for deeper exploration.

Entry:
---
");
    reveal_strlit("
---

Focus on:
1. Main themes and emotions expressed
2. Patterns or connections to broader life contexts
3. Questions for deeper reflection
4. Positive developments or growth areas

Keep your reflection concise (2-3 paragraphs) and actionable.");
    reveal_strlit("---\n");
    reveal_strlit("\n---");
    reveal_strlit("reflect");
    reveal_strlit("themes");
    let t = reflect_user_text(entry);
    let quoted = "---\n"@ + entry + "\n---"@;
    let i: int = 142;
    assert(t.subrange(i, i + quoted.len()) =~= quoted);
    assert(t.subrange(7int, 7int + "reflect"@.len()) =~= "reflect"@);
    assert(t.subrange(80int, 80int + "themes"@.len()) =~= "themes"@);
}

/// Law: the question request holds the question and quotes the context
/// (the numbered excerpts, or the note that there are none) between `---`
/// lines.
pub proof fn law_ask_prompt_quotes_question_and_context(question: Seq<char>, chunks: Seq<Seq<char>>)
    ensures
        seq_contains_run(ask_user_text(question, chunks), question),
        seq_contains_run(ask_user_text(question, chunks), "---\n"@ + ask_context(chunks) + "\n---"@),
{
    reveal_strlit("Based on the following journal entries, please answer this question:

Question: ");
    reveal_strlit("

Relevant journal entries:
---
");
    reveal_strlit("
---

Instructions:
1. Answer based primarily on the provided context
2. Cite specific entries when making references
3. If the context doesn't contain enough information, say so
4. Be specific and concrete in your response
5. If you see patterns across entries, point them out

Provide a clear, helpful answer.");
    reveal_strlit("---\n");
    reveal_strlit("\n---");
    let t = ask_user_text(question, chunks);
    let c = ask_context(chunks);
    let quoted = "---\n"@ + c + "\n---"@;
    let q: int = 80;
    assert(t.subrange(q, q + question.len()) =~= question);
    let i: int = 80 + question.len() as int + 28;
    assert(t.subrange(i, i + quoted.len()) =~= quoted);
}

/// A run inside the left part of a concatenation is a run of the whole.
proof fn lemma_run_in_left(a: Seq<char>, b: Seq<char>, n: Seq<char>)
    requires
        seq_contains_run(a, n),
    ensures
        seq_contains_run(a + b, n),
{
    let i = choose|i: int| 0 <= i && i + n.len() <= a.len() && #[trigger] a.subrange(i, i + n.len()) == n;
    assert((a + b).subrange(i, i + n.len()) =~= a.subrange(i, i + n.len()));
}

/// A run inside the right part of a concatenation is a run of the whole.
proof fn lemma_run_in_right(a: Seq<char>, b: Seq<char>, n: Seq<char>)
    requires
        seq_contains_run(b, n),
    ensures
        seq_contains_run(a + b, n),
{
    let i = choose|i: int| 0 <= i && i + n.len() <= b.len() && #[trigger] b.subrange(i, i + n.len()) == n;
    let j = a.len() + i;
    assert((a + b).subrange(j, j + n.len()) =~= b.subrange(i, i + n.len()));
}

/// The first `k` numbered excerpts hold each of them, numbered from 1.
proof fn lemma_context_blocks_hold_each(chunks: Seq<Seq<char>>, k: nat, j: int)
    requires
        0 <= j < k <= chunks.len(),
    ensures
        seq_contains_run(context_blocks(chunks, k), "[Context "@ + decimal((j + 1) as nat) + "]\n"@ + chunks[j] + "\n"@),
    decreases k,
{
    let n = "[Context "@ + decimal((j + 1) as nat) + "]\n"@ + chunks[j] + "\n"@;
    let cb = context_blocks(chunks, k);
    if k == 1 {
        assert(cb.subrange(0, 0 + n.len() as int) =~= n);
    } else if j == k - 1 {
        let left = context_blocks(chunks, (k - 1) as nat) + "\n"@;
        assert(cb == left + n);
        assert(cb.subrange(left.len() as int, (left.len() + n.len()) as int) =~= n);
    } else {
        lemma_context_blocks_hold_each(chunks, (k - 1) as nat, j);
        let prev = context_blocks(chunks, (k - 1) as nat);
        lemma_run_in_left(prev, "\n"@ + context_block(k, chunks[k - 1]), n);
        assert(cb =~= prev + ("\n"@ + context_block(k, chunks[k - 1])));
    }
}

/// Law: the question request quotes every excerpt, in its place: excerpt
/// `i` appears as `[Context i+1]`, a line break, the excerpt and a line
/// break.
pub proof fn law_ask_prompt_numbers_every_excerpt(question: Seq<char>, chunks: Seq<Seq<char>>, i: int)
    requires
        0 <= i < chunks.len(),
    ensures
        seq_contains_run(ask_context(chunks), "[Context "@ + decimal((i + 1) as nat) + "]\n"@ + chunks[i] + "\n"@),
        seq_contains_run(ask_user_text(question, chunks), "[Context "@ + decimal((i + 1) as nat) + "]\n"@ + chunks[i] + "\n"@),
{
    let n = "[Context "@ + decimal((i + 1) as nat) + "]\n"@ + chunks[i] + "\n"@;
    lemma_context_blocks_hold_each(chunks, chunks.len(), i);
    let c = ask_context(chunks);
    let head = ASK_INTRO@ + question + ASK_MIDDLE@;
    lemma_run_in_right(head, c, n);
    lemma_run_in_left(head + c, ASK_OUTRO@, n);
}

} // verus!

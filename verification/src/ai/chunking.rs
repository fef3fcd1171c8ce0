//! Text chunking for embedding generation.
//!
//! Text is split into words (maximal runs of non-whitespace characters) and
//! cut into overlapping windows of words; each window is joined back with
//! single spaces.
use vstd::prelude::*;
use crate::util::{spec_is_whitespace, char_is_whitespace, str_chars, string_from_chars, push_chars};

verus! {

/// Scans `s` left to right: the words completed so far, and the word being
/// read at the end of `s` (empty when `s` ends in whitespace).
pub open spec fn split_state(s: Seq<char>) -> (Seq<Seq<char>>, Seq<char>)
    decreases s.len(),
{
    if s.len() == 0 {
        (seq![], seq![])
    } else {
        let prev = split_state(s.drop_last());
        let c = s.last();
        if spec_is_whitespace(c) {
            if prev.1.len() > 0 {
                (prev.0.push(prev.1), seq![])
            } else {
                (prev.0, seq![])
            }
        } else {
            (prev.0, prev.1.push(c))
        }
    }
}

/// The words of `s`, as `str::split_whitespace` yields them.
pub open spec fn words(s: Seq<char>) -> Seq<Seq<char>> {
    let st = split_state(s);
    if st.1.len() > 0 {
        st.0.push(st.1)
    } else {
        st.0
    }
}

/// Words joined with single spaces.
pub open spec fn join_words(ws: Seq<Seq<char>>) -> Seq<char>
    decreases ws.len(),
{
    if ws.len() == 0 {
        seq![]
    } else if ws.len() == 1 {
        ws[0]
    } else {
        join_words(ws.drop_last()) + seq![' '] + ws.last()
    }
}

pub open spec fn min_int(a: int, b: int) -> int {
    if a <= b { a } else { b }
}

/// Windows of `size` words starting at `start`, `start + step`, ..., each
/// joined with single spaces; the last window is the first that reaches the
/// final word.
pub open spec fn windows_from(ws: Seq<Seq<char>>, size: nat, step: nat, start: nat) -> Seq<Seq<char>>
    decreases ws.len() - start,
{
    if start >= ws.len() || step == 0 {
        seq![]
    } else {
        let end = min_int((start + size) as int, ws.len() as int);
        let w = join_words(ws.subrange(start as int, end));
        if end >= ws.len() || start + step >= ws.len() {
            seq![w]
        } else {
            seq![w] + windows_from(ws, size, step, start + step)
        }
    }
}

/// The overlap actually used: an overlap of at least `chunk_size` words is
/// clamped to `chunk_size - 1` (0 when `chunk_size` is 0).
pub open spec fn effective_overlap(chunk_size: nat, overlap: nat) -> nat {
    if overlap >= chunk_size {
        if chunk_size == 0 { 0 } else { (chunk_size - 1) as nat }
    } else {
        overlap
    }
}

/// What `chunk_text` returns.
pub open spec fn spec_chunk_text(text: Seq<char>, chunk_size: nat, overlap: nat) -> Seq<Seq<char>> {
    if text.len() == 0 {
        seq![]
    } else {
        let ws = words(text);
        if ws.len() <= chunk_size {
            seq![text]
        } else {
            windows_from(ws, chunk_size, (chunk_size - effective_overlap(chunk_size, overlap)) as nat, 0)
        }
    }
}

/// The inputs on which chunking terminates: a zero chunk size makes no
/// progress once there is a word to cover.
pub open spec fn chunking_terminates(text: Seq<char>, chunk_size: nat) -> bool {
    chunk_size > 0 || words(text).len() == 0
}

/// The words of `chars`, computed by a left-to-right scan.
fn split_words(chars: &Vec<char>) -> (r: Vec<Vec<char>>)
    ensures
        r@.len() == words(chars@).len(),
        forall|i: int| 0 <= i < r@.len() ==> #[trigger] r@[i]@ == words(chars@)[i],
{
    let mut done: Vec<Vec<char>> = Vec::new();
    let mut cur: Vec<char> = Vec::new();
    let mut i: usize = 0;
    while i < chars.len()
        invariant
            0 <= i <= chars.len(),
            split_state(chars@.subrange(0, i as int)).0.len() == done@.len(),
            forall|k: int| 0 <= k < done@.len() ==> #[trigger] done@[k]@ == split_state(chars@.subrange(0, i as int)).0[k],
            cur@ == split_state(chars@.subrange(0, i as int)).1,
        decreases chars.len() - i,
    {
        let c = chars[i];
        assert(chars@.subrange(0, i + 1).drop_last() == chars@.subrange(0, i as int));
        assert(chars@.subrange(0, i + 1).last() == c);
        if char_is_whitespace(c) {
            if cur.len() > 0 {
                let w = cur;
                done.push(w);
                cur = Vec::new();
            } else {
                cur = Vec::new();
            }
        } else {
            cur.push(c);
        }
        i = i + 1;
    }
    assert(chars@.subrange(0, chars.len() as int) == chars@);
    if cur.len() > 0 {
        done.push(cur);
    }
    done
}

proof fn lemma_join_step(ws: Seq<Seq<char>>, start: int, k: int)
    requires
        0 <= start < k < ws.len(),
    ensures
        join_words(ws.subrange(start, k + 1)) == join_words(ws.subrange(start, k)) + seq![' '] + ws[k],
{
    let s = ws.subrange(start, k + 1);
    assert(s.drop_last() == ws.subrange(start, k));
    assert(s.last() == ws[k]);
}

/// Joins the words `ws[start..end]` with single spaces.
fn join_range(ws: &Vec<Vec<char>>, start: usize, end: usize) -> (r: String)
    requires
        start < end <= ws@.len(),
    ensures
        r@ == join_words(ws@.map_values(|w: Vec<char>| w@).subrange(start as int, end as int)),
{
    let ghost wv = ws@.map_values(|w: Vec<char>| w@);
    let mut out: Vec<char> = Vec::new();
    push_chars(&mut out, &ws[start]);
    assert(wv.subrange(start as int, start + 1) == seq![wv[start as int]]);
    let mut k: usize = start + 1;
    while k < end
        invariant
            start < k <= end <= ws@.len(),
            wv == ws@.map_values(|w: Vec<char>| w@),
            out@ == join_words(wv.subrange(start as int, k as int)),
        decreases end - k,
    {
        out.push(' ');
        push_chars(&mut out, &ws[k]);
        proof {
            lemma_join_step(wv, start as int, k as int);
        }
        k = k + 1;
    }
    string_from_chars(&out)
}

proof fn lemma_windows_unfold(ws: Seq<Seq<char>>, size: nat, step: nat, start: nat)
    requires
        start < ws.len(),
        step > 0,
        min_int((start + size) as int, ws.len() as int) < ws.len(),
    ensures
        windows_from(ws, size, step, start) == seq![join_words(ws.subrange(start as int, min_int((start + size) as int, ws.len() as int)))]
            + windows_from(ws, size, step, start + step),
{
}

fn chunk_text_internal(text: &str, chunk_size: usize, overlap: usize) -> (r: Vec<String>)
    requires
        overlap < chunk_size,
        text@.len() > 0,
    ensures
        r@.len() == spec_chunk_text(text@, chunk_size as nat, overlap as nat).len(),
        forall|i: int| 0 <= i < r@.len() ==> #[trigger] r@[i]@ == spec_chunk_text(text@, chunk_size as nat, overlap as nat)[i],
{
    let chars = str_chars(text);
    let words_v = split_words(&chars);
    let ghost ws = words(text@);
    let ghost wv = words_v@.map_values(|w: Vec<char>| w@);
    assert(wv == ws);
    if words_v.len() <= chunk_size {
        let mut single: Vec<String> = Vec::new();
        single.push(string_from_chars(&chars));
        return single;
    }
    let mut chunks: Vec<String> = Vec::new();
    let step = chunk_size - overlap;
    let n = words_v.len();
    let mut start: usize = 0;
    let ghost total = windows_from(ws, chunk_size as nat, step as nat, 0);
    let ghost mut done: Seq<Seq<char>> = seq![];
    assert(total == spec_chunk_text(text@, chunk_size as nat, overlap as nat));
    assert(total == done + windows_from(ws, chunk_size as nat, step as nat, 0));
    loop
        invariant_except_break
            start < n,
            total == done + windows_from(ws, chunk_size as nat, step as nat, start as nat),
        invariant
            n == words_v@.len(),
            n == ws.len(),
            wv == words_v@.map_values(|w: Vec<char>| w@),
            wv == ws,
            step == chunk_size - overlap,
            0 < step <= chunk_size,
            total == windows_from(ws, chunk_size as nat, step as nat, 0),
            chunks@.len() == done.len(),
            forall|i: int| 0 <= i < chunks@.len() ==> #[trigger] chunks@[i]@ == done[i],
        ensures
            total == done,
        decreases n - start,
    {
        let end = if chunk_size > n - start { n } else { start + chunk_size };
        assert(end as int == min_int((start + chunk_size) as int, ws.len() as int));
        let piece = join_range(&words_v, start, end);
        let ghost w = join_words(ws.subrange(start as int, end as int));
        chunks.push(piece);
        if end >= n {
            proof {
                assert(windows_from(ws, chunk_size as nat, step as nat, start as nat) == seq![w]);
                done = done.push(w);
            }
            break;
        }
        proof {
            lemma_windows_unfold(ws, chunk_size as nat, step as nat, start as nat);
            assert(done + windows_from(ws, chunk_size as nat, step as nat, start as nat)
                == done.push(w) + windows_from(ws, chunk_size as nat, step as nat, (start + step) as nat));
            done = done.push(w);
        }
        start = start + step;
    }
    chunks
}

/// Start of window `i` when windows begin at `start` and advance by `step`.
pub open spec fn win_start(start: int, i: int, step: int) -> int {
    start + i * step
}

proof fn lemma_windows_shape(ws: Seq<Seq<char>>, size: nat, step: nat, start: nat)
    requires
        0 < step <= size,
        start < ws.len(),
    ensures
        windows_from(ws, size, step, start).len() >= 1,
        forall|i: int| 0 <= i < windows_from(ws, size, step, start).len() ==>
            #[trigger] windows_from(ws, size, step, start)[i]
                == join_words(ws.subrange(win_start(start as int, i, step as int), min_int(win_start(start as int, i, step as int) + size, ws.len() as int))),
        start + (windows_from(ws, size, step, start).len() - 1) * step + size >= ws.len(),
        forall|i: int| 0 <= i < windows_from(ws, size, step, start).len() - 1 ==> #[trigger] win_start(start as int, i, step as int) + size < ws.len(),
    decreases ws.len() - start,
{
    let n = ws.len() as int;
    let end = min_int((start + size) as int, n);
    let w = windows_from(ws, size, step, start);
    if end >= n || start + step >= n {
        assert(w.len() == 1);
        assert(w[0] == join_words(ws.subrange(start as int, end)));
        assert(start + 0 * step == start);
    } else {
        lemma_windows_shape(ws, size, step, start + step);
        let rest = windows_from(ws, size, step, start + step);
        assert(w == seq![join_words(ws.subrange(start as int, end))] + rest);
        assert forall|i: int| 0 <= i < w.len() implies #[trigger] w[i]
            == join_words(ws.subrange(win_start(start as int, i, step as int), min_int(win_start(start as int, i, step as int) + size, n))) by {
            if i == 0 {
                assert(start + 0 * step == start);
            } else {
                assert(w[i] == rest[i - 1]);
                assert((start + step) + (i - 1) * step == start + i * step) by (nonlinear_arith);
            }
        }
        assert((start + step) + (rest.len() - 1) * step == start + (w.len() - 1) * step) by (nonlinear_arith)
            requires w.len() == rest.len() + 1;
        assert forall|i: int| 0 <= i < w.len() - 1 implies win_start(start as int, i, step as int) + size < n by {
            if i == 0 {
                assert(start + 0 * step == start);
            } else {
                assert(win_start((start + step) as int, i - 1, step as int) + size < n);
                assert((start + step) + (i - 1) * step == start + i * step) by (nonlinear_arith);
            }
        }
    }
}

/// The number of windows of `size` words advancing by `step` that cover
/// `n > size` words: one more than the steps needed past the first window.
proof fn lemma_window_count(n: int, size: int, step: int, k: int)
    requires
        0 < step,
        size < n,
        k * step + size >= n,
        (k - 1) * step + size < n,
    ensures
        k == (n - size + step - 1) / step,
{
    let a = n - size;
    let q = (a + step - 1) / step;
    let r = (a + step - 1) % step;
    vstd::arithmetic::div_mod::lemma_fundamental_div_mod(a + step - 1, step);
    assert(k == q) by (nonlinear_arith)
        requires
            a + step - 1 == step * q + r,
            0 <= r < step,
            k * step >= a,
            (k - 1) * step < a,
            step > 0,
    ;
}

/// Law of the sliding window: when the text has `n` words, more than
/// `chunk_size >= 1`, and `o` is the overlap used (the overlap, or
/// `chunk_size - 1` when it is not smaller), chunk `i` is made of the words
/// `i * step .. min(i * step + chunk_size, n)` with `step = chunk_size - o`,
/// so neighbouring chunks share exactly `o` words; every chunk but the last
/// stops before the final word and the last chunk reaches it; and there are
/// `(n - chunk_size + step - 1) / step + 1` chunks.
pub proof fn law_chunks_are_overlapping_windows(text: Seq<char>, chunk_size: nat, overlap: nat)
    requires
        chunk_size >= 1,
        words(text).len() > chunk_size,
    ensures
        ({
            let ws = words(text);
            let n = ws.len() as int;
            let step = chunk_size - effective_overlap(chunk_size, overlap);
            let chunks = spec_chunk_text(text, chunk_size, overlap);
            &&& chunks.len() == (n - chunk_size + step - 1) / step + 1
            &&& forall|i: int| 0 <= i < chunks.len() ==> #[trigger] chunks[i]
                == join_words(ws.subrange(win_start(0, i, step), min_int(win_start(0, i, step) + chunk_size, n)))
            &&& forall|i: int| 0 <= i < chunks.len() - 1 ==> #[trigger] win_start(0, i, step) + chunk_size < n
            &&& (chunks.len() - 1) * step + chunk_size >= n
        }),
{
    let ws = words(text);
    let n = ws.len() as int;
    assert(text.len() > 0) by {
        if text.len() == 0 {
            assert(split_state(text) == (Seq::<Seq<char>>::empty(), Seq::<char>::empty()));
        }
    }
    let step = (chunk_size - effective_overlap(chunk_size, overlap)) as nat;
    lemma_windows_shape(ws, chunk_size, step, 0);
    let chunks = spec_chunk_text(text, chunk_size, overlap);
    let k = chunks.len() - 1;
    assert(k >= 1) by {
        if k == 0 {
            assert(0 * step == 0);
        }
    }
    assert((k - 1) * step + chunk_size < n) by {
        assert(win_start(0, k - 1, step as int) + chunk_size < n);
    }
    lemma_window_count(n, chunk_size as int, step as int, k);
}

/// Chunks text into overlapping segments of about `chunk_size` words, with
/// `overlap` words shared by consecutive chunks.
///
/// Empty text gives no chunk; text of at most `chunk_size` words is returned
/// whole, as one chunk. An overlap of at least `chunk_size` is clamped to
/// `chunk_size - 1`.
pub fn chunk_text(text: &str, chunk_size: usize, overlap: usize) -> (r: Vec<String>)
    requires
        chunking_terminates(text@, chunk_size as nat),
    ensures
        r@.len() == spec_chunk_text(text@, chunk_size as nat, overlap as nat).len(),
        forall|i: int| 0 <= i < r@.len() ==> #[trigger] r@[i]@ == spec_chunk_text(text@, chunk_size as nat, overlap as nat)[i],
{
    let chars = str_chars(text);
    if chars.len() == 0 {
        return Vec::new();
    }
    if chunk_size == 0 {
        // no word to cover: the text is returned whole
        let mut single: Vec<String> = Vec::new();
        single.push(string_from_chars(&chars));
        return single;
    }
    if overlap >= chunk_size {
        let clamped = chunk_size - 1;
        let r = chunk_text_internal(text, chunk_size, clamped);
        assert(spec_chunk_text(text@, chunk_size as nat, clamped as nat)
            == spec_chunk_text(text@, chunk_size as nat, overlap as nat));
        return r;
    }
    chunk_text_internal(text, chunk_size, overlap)
}

} // verus!

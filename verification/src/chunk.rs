//! Splitting a document into overlapping chunks.
//!
//! A document of `n` characters is split under a size/overlap policy:
//! windows of at most `size` characters, each window starting
//! `size - overlap` characters after the previous one, so that consecutive
//! chunks share exactly `overlap` characters.

use vstd::prelude::*;

verus! {

/// How many chunks splitting a text of length `n` produces under
/// chunk size `s` and overlap `o`.
pub open spec fn chunk_count(n: int, s: int, o: int) -> int
    decreases n,
{
    if s <= 0 || s <= o || o < 0 {
        0
    } else if n <= 0 {
        0
    } else if n <= s {
        1
    } else {
        1 + chunk_count(n - (s - o), s, o)
    }
}

/// The contents of chunk `i` of a text `t` under size `s` and overlap `o`:
/// the window of `t` starting at `i * (s - o)`, at most `s` characters long.
pub open spec fn chunk_seq(t: Seq<char>, s: int, o: int, i: int) -> Seq<char> {
    let start = i * (s - o);
    let end = if start + s <= t.len() {
        start + s
    } else {
        t.len() as int
    };
    t.subrange(start, end)
}

/// Split `text` into overlapping chunks of at most `size` characters,
/// each chunk starting `size - overlap` characters after the previous one.
pub fn chunk_text(text: &str, size: usize, overlap: usize) -> (chunks: Vec<String>)
    requires
        0 < size,
        overlap < size,
        text@.len() + size <= usize::MAX,
    ensures
        chunks@.len() == chunk_count(text@.len() as int, size as int, overlap as int),
        forall|i: int|
            0 <= i < chunks@.len() ==> chunks@[i]@ == chunk_seq(
                text@,
                size as int,
                overlap as int,
                i,
            ),
        forall|i: int| 0 <= i < chunks@.len() ==> chunks@[i]@.len() <= size,
{
    let n = text.unicode_len();
    let mut chunks: Vec<String> = Vec::new();
    if n == 0 {
        return chunks;
    }
    let step = size - overlap;
    let mut start: usize = 0;
    proof {
        assert(0 as int == 0 * (step as int)) by (nonlinear_arith);
    }
    while n - start > size
        invariant
            0 < size,
            overlap < size,
            step == size - overlap,
            n == text@.len(),
            n + size <= usize::MAX,
            start < n,
            start as int == chunks@.len() * (step as int),
            chunk_count((n - start) as int, size as int, overlap as int) == chunk_count(
                n as int,
                size as int,
                overlap as int,
            ) - chunks@.len(),
            forall|i: int|
                0 <= i < chunks@.len() ==> chunks@[i]@ == chunk_seq(
                    text@,
                    size as int,
                    overlap as int,
                    i,
                ),
            forall|i: int| 0 <= i < chunks@.len() ==> chunks@[i]@.len() <= size,
        decreases n - start,
    {
        let piece = text.substring_char(start, start + size);
        assert(piece@.len() <= size);
        chunks.push(piece.to_owned());
        proof {
            assert((chunks@.len() - 1) * (step as int) + step == chunks@.len() * (step as int))
                by (nonlinear_arith);
        }
        start = start + step;
    }
    let piece = text.substring_char(start, n);
    chunks.push(piece.to_owned());
    chunks
}

/// Every chunk except possibly the last covers a full window of `s`
/// characters: its window ends strictly inside the text.
pub proof fn lemma_chunk_full(n: int, s: int, o: int, i: int)
    requires
        0 <= o < s,
        0 <= i,
        i + 1 < chunk_count(n, s, o),
    ensures
        i * (s - o) + s < n,
    decreases i,
{
    if i == 0 {
    } else {
        lemma_chunk_full(n - (s - o), s, o, i - 1);
        assert((i - 1) * (s - o) + (s - o) == i * (s - o)) by (nonlinear_arith);
    }
}

/// Consecutive chunks overlap by exactly `o` characters: the last `o`
/// characters of chunk `i` are the first `o` characters of chunk `i + 1`.
pub proof fn lemma_chunks_overlap(t: Seq<char>, s: int, o: int, i: int)
    requires
        0 <= o < s,
        0 <= i,
        i + 1 < chunk_count(t.len() as int, s, o),
    ensures
        chunk_seq(t, s, o, i).len() == s,
        chunk_seq(t, s, o, i).subrange(s - o, s) =~= chunk_seq(t, s, o, i + 1).subrange(0, o),
{
    lemma_chunk_full(t.len() as int, s, o, i);
    assert((i + 1) * (s - o) == i * (s - o) + (s - o)) by (nonlinear_arith);
    assert(i * (s - o) >= 0) by (nonlinear_arith)
        requires
            0 <= i,
            0 < s - o,
    ;
}

/// The closed form for the number of chunks: splitting a text of length
/// `n > o` produces `ceil((n - o) / (s - o))` chunks.
pub proof fn lemma_chunk_count_closed_form(n: int, s: int, o: int)
    requires
        0 <= o < s,
        o < n,
    ensures
        chunk_count(n, s, o) == (n - o + (s - o) - 1) / (s - o),
    decreases n,
{
    let d = s - o;
    if n <= s {
        assert((n - o + d - 1) / d == 1) by (nonlinear_arith)
            requires
                0 < d,
                o < n <= s,
                d == s - o,
        ;
    } else {
        lemma_chunk_count_closed_form(n - d, s, o);
        assert((n - d - o + d - 1) / d + 1 == (n - o + d - 1) / d) by (nonlinear_arith)
            requires
                0 < d,
                s < n,
                d == s - o,
        ;
    }
}

} // verus!

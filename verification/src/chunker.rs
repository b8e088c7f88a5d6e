//! Sliding-window chunking of a text into overlapping, fixed-size pieces.
//!
//! Positions and sizes count characters. A window of `chunk_size` characters
//! moves over the text in steps of `chunk_size - overlap`; every window that
//! starts inside the text is emitted, cut off at the text's end.

use crate::text::{decimal, push_decimal};
use vstd::prelude::*;
use vstd::string::*;

verus! {

/// The rejected chunking configuration: `chunk_size` is zero, or `overlap`
/// is not smaller than `chunk_size`.
#[derive(Debug, Clone, Copy, PartialEq, Eq, Structural)]
pub struct ConfigError {
    pub chunk_size: usize,
    pub overlap: usize,
}

/// What the rejection of `chunk_size` and `overlap` says in words: both
/// numbers, in decimal, and what is asked of them.
pub open spec fn config_error_text(chunk_size: nat, overlap: nat) -> Seq<char> {
    "the overlap ("@ + decimal(overlap) + ") must be less than the chunk size ("@ + decimal(
        chunk_size,
    ) + ")"@
}

impl ConfigError {
    /// The error in words, for a message shown to a user.
    pub fn message(&self) -> (text: String)
        ensures
            text@ == config_error_text(self.chunk_size as nat, self.overlap as nat),
    {
        let mut text = "the overlap (".to_owned();
        push_decimal(&mut text, self.overlap);
        text.append(") must be less than the chunk size (");
        push_decimal(&mut text, self.chunk_size);
        text.append(")");
        text
    }
}

/// A configuration under which the window advances.
pub open spec fn valid_config(chunk_size: int, overlap: int) -> bool {
    0 <= overlap < chunk_size
}

/// The distance between the starts of two adjacent chunks.
pub open spec fn stride(chunk_size: int, overlap: int) -> int {
    chunk_size - overlap
}

/// The number of chunks of a text of `len` characters: the number of
/// multiples of the stride that lie inside the text.
pub open spec fn chunk_count(len: int, chunk_size: int, overlap: int) -> int {
    if len <= 0 {
        0
    } else {
        (len - 1) / stride(chunk_size, overlap) + 1
    }
}

/// Where chunk `i` starts.
pub open spec fn chunk_start(i: int, chunk_size: int, overlap: int) -> int {
    i * stride(chunk_size, overlap)
}

/// Where chunk `i` ends (exclusive): a full window, cut off at the text's end.
pub open spec fn chunk_end(len: int, i: int, chunk_size: int, overlap: int) -> int {
    if chunk_start(i, chunk_size, overlap) + chunk_size <= len {
        chunk_start(i, chunk_size, overlap) + chunk_size
    } else {
        len
    }
}

/// Chunk `i` of `text`.
pub open spec fn chunk_at(text: Seq<char>, i: int, chunk_size: int, overlap: int) -> Seq<char> {
    text.subrange(
        chunk_start(i, chunk_size, overlap),
        chunk_end(text.len() as int, i, chunk_size, overlap),
    )
}

/// All chunks of `text`, in order of position.
pub open spec fn chunks_of(text: Seq<char>, chunk_size: int, overlap: int) -> Seq<Seq<char>> {
    Seq::new(
        chunk_count(text.len() as int, chunk_size, overlap) as nat,
        |i: int| chunk_at(text, i, chunk_size, overlap),
    )
}

/// The contents of a list of strings.
pub open spec fn texts(strings: Seq<String>) -> Seq<Seq<char>> {
    Seq::new(strings.len(), |i: int| strings[i]@)
}

/// The part of a chunk that its predecessor does not already hold.
pub open spec fn fresh_part(chunk: Seq<char>, overlap: int) -> Seq<char> {
    if chunk.len() <= overlap {
        Seq::empty()
    } else {
        chunk.skip(overlap)
    }
}

/// The chunks joined again, each but the first without its overlap.
pub open spec fn reassemble(chunks: Seq<Seq<char>>, overlap: int) -> Seq<char>
    decreases chunks.len(),
{
    if chunks.len() == 0 {
        Seq::empty()
    } else if chunks.len() == 1 {
        chunks[0]
    } else {
        reassemble(chunks.drop_last(), overlap) + fresh_part(chunks.last(), overlap)
    }
}

/// A chunk index is in range exactly when its start lies inside the text.
pub proof fn lemma_chunk_index(len: int, i: int, chunk_size: int, overlap: int)
    requires
        valid_config(chunk_size, overlap),
        len > 0,
        i >= 0,
    ensures
        i < chunk_count(len, chunk_size, overlap) <==> chunk_start(i, chunk_size, overlap) < len,
{
    let s = stride(chunk_size, overlap);
    let q = (len - 1) / s;
    assert(i <= q <==> i * s < len) by (nonlinear_arith)
        requires
            s > 0,
            len > 0,
            i >= 0,
            q == (len - 1) / s,
    ;
}

/// Adjacent chunks start one stride apart.
proof fn lemma_next_start(i: int, chunk_size: int, overlap: int)
    ensures
        chunk_start(i + 1, chunk_size, overlap) == chunk_start(i, chunk_size, overlap) + stride(
            chunk_size,
            overlap,
        ),
{
    let s = stride(chunk_size, overlap);
    assert((i + 1) * s == i * s + s) by (nonlinear_arith);
}

/// The last chunk reaches the end of the text.
proof fn lemma_last_chunk_end(len: int, chunk_size: int, overlap: int)
    requires
        valid_config(chunk_size, overlap),
        len > 0,
    ensures
        chunk_count(len, chunk_size, overlap) >= 1,
        chunk_end(len, chunk_count(len, chunk_size, overlap) - 1, chunk_size, overlap) == len,
{
    let count = chunk_count(len, chunk_size, overlap);
    lemma_chunk_index(len, 0, chunk_size, overlap);
    assert(0 * stride(chunk_size, overlap) == 0) by (nonlinear_arith);
    lemma_chunk_index(len, count, chunk_size, overlap);
    lemma_next_start(count - 1, chunk_size, overlap);
}

/// The first `k` chunks, joined without their overlaps, are the text up to
/// the end of chunk `k - 1`.
proof fn lemma_reassemble_prefix(text: Seq<char>, chunk_size: int, overlap: int, k: int)
    requires
        valid_config(chunk_size, overlap),
        1 <= k <= chunk_count(text.len() as int, chunk_size, overlap),
    ensures
        reassemble(chunks_of(text, chunk_size, overlap).take(k), overlap) == text.subrange(
            0,
            chunk_end(text.len() as int, k - 1, chunk_size, overlap),
        ),
    decreases k,
{
    let len = text.len() as int;
    let all = chunks_of(text, chunk_size, overlap);
    let head = all.take(k);
    lemma_chunk_index(len, k - 1, chunk_size, overlap);
    if k == 1 {
        assert(0 * stride(chunk_size, overlap) == 0) by (nonlinear_arith);
        assert(head[0] == chunk_at(text, 0, chunk_size, overlap));
    } else {
        lemma_reassemble_prefix(text, chunk_size, overlap, k - 1);
        lemma_next_start(k - 2, chunk_size, overlap);
        lemma_chunk_index(len, k - 2, chunk_size, overlap);
        assert(head.drop_last() =~= all.take(k - 1));
        assert(head.last() == chunk_at(text, k - 1, chunk_size, overlap));
        let joined = text.subrange(0, chunk_end(len, k - 2, chunk_size, overlap));
        let fresh = fresh_part(head.last(), overlap);
        assert(joined + fresh =~= text.subrange(0, chunk_end(len, k - 1, chunk_size, overlap)));
    }
}

/// Coverage: joining the chunks of a text, each but the first without the
/// characters it shares with its predecessor, gives the text back.
pub proof fn lemma_chunks_cover(text: Seq<char>, chunk_size: int, overlap: int)
    requires
        valid_config(chunk_size, overlap),
    ensures
        reassemble(chunks_of(text, chunk_size, overlap), overlap) == text,
{
    let len = text.len() as int;
    let all = chunks_of(text, chunk_size, overlap);
    if len == 0 {
        assert(reassemble(all, overlap) =~= text);
    } else {
        lemma_last_chunk_end(len, chunk_size, overlap);
        lemma_reassemble_prefix(text, chunk_size, overlap, all.len() as int);
        assert(all.take(all.len() as int) =~= all);
        assert(text.subrange(0, len) =~= text);
    }
}

/// Stride: each chunk that has a successor starts exactly one stride before
/// it, and what it holds beyond that stride is the beginning of the
/// successor: `overlap` characters where the chunk is a full window.
pub proof fn lemma_chunk_stride(text: Seq<char>, chunk_size: int, overlap: int, i: int)
    requires
        valid_config(chunk_size, overlap),
        0 <= i,
        i + 1 < chunk_count(text.len() as int, chunk_size, overlap),
    ensures
        chunk_start(i + 1, chunk_size, overlap) - chunk_start(i, chunk_size, overlap) == stride(
            chunk_size,
            overlap,
        ),
        chunk_at(text, i, chunk_size, overlap).len() >= stride(chunk_size, overlap),
        chunk_at(text, i, chunk_size, overlap).skip(stride(chunk_size, overlap)) == chunk_at(
            text,
            i + 1,
            chunk_size,
            overlap,
        ).take(chunk_at(text, i, chunk_size, overlap).len() - stride(chunk_size, overlap)),
        chunk_at(text, i, chunk_size, overlap).len() == chunk_size ==> chunk_at(
            text,
            i,
            chunk_size,
            overlap,
        ).len() - stride(chunk_size, overlap) == overlap,
{
    let len = text.len() as int;
    lemma_next_start(i, chunk_size, overlap);
    lemma_chunk_index(len, i + 1, chunk_size, overlap);
    lemma_chunk_index(len, i, chunk_size, overlap);
    assert(i * stride(chunk_size, overlap) >= 0) by (nonlinear_arith)
        requires
            i >= 0,
            stride(chunk_size, overlap) > 0,
    ;
    let this = chunk_at(text, i, chunk_size, overlap);
    let next = chunk_at(text, i + 1, chunk_size, overlap);
    assert(this.skip(stride(chunk_size, overlap)) =~= next.take(
        this.len() - stride(chunk_size, overlap),
    ));
}

/// Every chunk holds at least one character and at most `chunk_size`; one
/// that holds fewer than `chunk_size` ends where the text ends.
pub proof fn lemma_chunk_lengths(text: Seq<char>, chunk_size: int, overlap: int, i: int)
    requires
        valid_config(chunk_size, overlap),
        0 <= i < chunk_count(text.len() as int, chunk_size, overlap),
    ensures
        1 <= chunk_at(text, i, chunk_size, overlap).len() <= chunk_size,
        chunk_at(text, i, chunk_size, overlap).len() < chunk_size ==> chunk_end(
            text.len() as int,
            i,
            chunk_size,
            overlap,
        ) == text.len(),
{
    let len = text.len() as int;
    lemma_chunk_index(len, i, chunk_size, overlap);
    assert(i * stride(chunk_size, overlap) >= 0) by (nonlinear_arith)
        requires
            i >= 0,
            stride(chunk_size, overlap) > 0,
    ;
}

/// Splits `text` into overlapping chunks of `chunk_size` characters, each
/// starting `chunk_size - overlap` characters after the one before it.
pub fn chunk_text(text: &str, chunk_size: usize, overlap: usize) -> (result: Result<
    Vec<String>,
    ConfigError,
>)
    ensures
        result is Ok <==> valid_config(chunk_size as int, overlap as int),
        result is Ok ==> texts(result->Ok_0@) == chunks_of(
            text@,
            chunk_size as int,
            overlap as int,
        ),
        result is Err ==> result->Err_0 == (ConfigError { chunk_size, overlap }),
{
    if overlap >= chunk_size {
        return Err(ConfigError { chunk_size, overlap });
    }
    let step: usize = chunk_size - overlap;
    let len: usize = text.unicode_len();
    let mut chunks: Vec<String> = Vec::new();
    let mut cursor: usize = 0;
    let mut more: bool = len > 0;
    let ghost count = chunk_count(len as int, chunk_size as int, overlap as int);
    proof {
        assert(0 * stride(chunk_size as int, overlap as int) == 0) by (nonlinear_arith);
        if len > 0 {
            lemma_chunk_index(len as int, 0, chunk_size as int, overlap as int);
        }
    }
    while more
        invariant
            valid_config(chunk_size as int, overlap as int),
            step == stride(chunk_size as int, overlap as int),
            len == text@.len(),
            count == chunk_count(len as int, chunk_size as int, overlap as int),
            more ==> cursor == chunk_start(chunks.len() as int, chunk_size as int, overlap as int),
            more ==> cursor < len && chunks.len() < count,
            !more ==> chunks.len() == count,
            forall|j: int|
                0 <= j < chunks.len() ==> (#[trigger] chunks[j])@ == chunk_at(
                    text@,
                    j,
                    chunk_size as int,
                    overlap as int,
                ),
        decreases
                (if more {
                    len - cursor
                } else {
                    0
                }),
    {
        let end: usize = if len - cursor <= chunk_size {
            len
        } else {
            cursor + chunk_size
        };
        let piece = text.substring_char(cursor, end);
        let ghost before = chunks@;
        chunks.push(piece.to_owned());
        proof {
            let n = before.len() as int;
            lemma_next_start(n, chunk_size as int, overlap as int);
            lemma_chunk_index(len as int, n + 1, chunk_size as int, overlap as int);
            assert forall|j: int| 0 <= j < chunks.len() implies (#[trigger] chunks[j])@
                == chunk_at(text@, j, chunk_size as int, overlap as int) by {
                if j < n {
                    assert(chunks[j] == before[j]);
                }
            }
        }
        if len - cursor <= step {
            more = false;
        } else {
            cursor = cursor + step;
        }
    }
    assert(texts(chunks@) =~= chunks_of(text@, chunk_size as int, overlap as int));
    Ok(chunks)
}

} // verus!

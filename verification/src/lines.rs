//! The lines of a file.
//!
//! A file is split at its newlines once, into the byte offsets at which its
//! lines begin. A line runs up to the newline that ends it, which is not part
//! of it; the last line runs to the end of the file, or to the newline that is
//! the last byte of the file. A carriage return before a newline stays in the
//! line. A line may be empty.

use vstd::prelude::*;
use vstd::slice::slice_subrange;

use crate::text::{decode_lossy, lossy_decoded, text_views};

verus! {

/// The byte that ends a line.
pub const NEWLINE: u8 = 10;

/// The offsets at which lines begin, as far as the first `n` bytes tell:
/// offset 0, and the offset behind every newline that is not the last byte of
/// the file.
pub open spec fn starts_upto(bytes: Seq<u8>, n: int) -> Seq<int>
    decreases n,
{
    if n <= 0 {
        seq![0int]
    } else if bytes[n - 1] == NEWLINE && n < bytes.len() {
        starts_upto(bytes, n - 1).push(n)
    } else {
        starts_upto(bytes, n - 1)
    }
}

/// The offsets at which the lines of a file begin.
pub open spec fn line_starts(bytes: Seq<u8>) -> Seq<int> {
    starts_upto(bytes, bytes.len() as int)
}

/// How many lines a file has. Even an empty file has one, which is empty.
pub open spec fn line_count(bytes: Seq<u8>) -> int {
    line_starts(bytes).len() as int
}

/// The offset at which the line with index `idx` ends: where the newline
/// stands that ends it, or the end of the file for a last line that no
/// newline ends.
pub open spec fn line_end(bytes: Seq<u8>, idx: int) -> int {
    if idx + 1 < line_count(bytes) {
        line_starts(bytes)[idx + 1] - 1
    } else if bytes.len() > 0 && bytes.last() == NEWLINE {
        bytes.len() - 1
    } else {
        bytes.len() as int
    }
}

/// The bytes of the line with index `idx`.
pub open spec fn line_at(bytes: Seq<u8>, idx: int) -> Seq<u8> {
    let from = line_starts(bytes)[idx];
    let to = line_end(bytes, idx);
    if from < to <= bytes.len() {
        bytes.subrange(from, to)
    } else {
        Seq::empty()
    }
}

/// The text of the lines with an index from `from` up to `to`, in order. An
/// empty line is a line like any other.
pub open spec fn lines_text(bytes: Seq<u8>, from: int, to: int) -> Seq<Seq<char>>
    decreases to - from,
{
    if to <= from {
        Seq::empty()
    } else {
        lines_text(bytes, from, to - 1).push(lossy_decoded(line_at(bytes, to - 1)))
    }
}

/// There is one text for every line, and it is the text of that line.
pub proof fn lemma_lines_text(bytes: Seq<u8>, from: int, to: int)
    requires
        from <= to,
    ensures
        lines_text(bytes, from, to).len() == to - from,
        forall|i: int|
            0 <= i < to - from ==> #[trigger] lines_text(bytes, from, to)[i] == lossy_decoded(
                line_at(bytes, from + i),
            ),
    decreases to - from,
{
    if from < to {
        lemma_lines_text(bytes, from, to - 1);
    }
}

/// The index of the first line of context before the line `idx`.
pub open spec fn context_from(idx: int, context: int) -> int {
    if idx > context {
        idx - context
    } else {
        0
    }
}

/// The index behind the last line of context after the line `idx`.
pub open spec fn context_to(bytes: Seq<u8>, idx: int, context: int) -> int {
    if idx + 1 + context < line_count(bytes) {
        idx + 1 + context
    } else {
        line_count(bytes)
    }
}

/// The offsets of a vector as integers.
pub open spec fn offsets(starts: Seq<usize>) -> Seq<int> {
    Seq::new(starts.len(), |i: int| starts[i] as int)
}

/// Every offset lies within the file, the first is 0, and they rise: no two
/// lines overlap.
pub proof fn lemma_starts_rise(bytes: Seq<u8>, n: int)
    requires
        0 <= n <= bytes.len(),
    ensures
        starts_upto(bytes, n).len() >= 1,
        starts_upto(bytes, n)[0] == 0,
        forall|i: int| 0 <= i < starts_upto(bytes, n).len() ==> 0 <= #[trigger] starts_upto(bytes, n)[i] <= n,
        forall|i: int|
            1 <= i < starts_upto(bytes, n).len() ==> (#[trigger] starts_upto(bytes, n)[i]) < bytes.len() && bytes[starts_upto(bytes, n)[i] - 1] == NEWLINE,
        forall|i: int, j: int|
            0 <= i < j < starts_upto(bytes, n).len() ==> (#[trigger] starts_upto(bytes, n)[i]) < (#[trigger] starts_upto(bytes, n)[j]),
    decreases n,
{
    if n > 0 {
        lemma_starts_rise(bytes, n - 1);
    }
}

/// The offsets at which the lines of `bytes` begin.
pub fn index_lines(bytes: &[u8]) -> (starts: Vec<usize>)
    ensures
        offsets(starts@) == line_starts(bytes@),
{
    let mut starts: Vec<usize> = Vec::new();
    starts.push(0);
    assert(offsets(starts@) =~= starts_upto(bytes@, 0));
    let mut i: usize = 0;
    while i < bytes.len()
        invariant
            i <= bytes.len(),
            offsets(starts@) == starts_upto(bytes@, i as int),
        decreases bytes.len() - i,
    {
        if bytes[i] == NEWLINE && i + 1 < bytes.len() {
            let ghost before = offsets(starts@);
            starts.push(i + 1);
            assert(offsets(starts@) =~= before.push(i + 1));
        }
        i += 1;
    }
    starts
}

/// The bytes of the line with index `idx`, given the offsets of the file.
pub(crate) fn line_slice<'a>(bytes: &'a [u8], starts: &Vec<usize>, idx: usize) -> (line: &'a [u8])
    requires
        offsets(starts@) == line_starts(bytes@),
        idx < starts.len(),
    ensures
        line@ == line_at(bytes@, idx as int),
{
    let from = starts[idx];
    assert(offsets(starts@)[idx as int] == from);
    let to = if idx + 1 < starts.len() {
        assert(offsets(starts@)[idx + 1] == starts[idx + 1]);
        let next = starts[idx + 1];
        if next == 0 {
            0
        } else {
            next - 1
        }
    } else if bytes.len() > 0 && bytes[bytes.len() - 1] == NEWLINE {
        bytes.len() - 1
    } else {
        bytes.len()
    };
    proof {
        lemma_starts_rise(bytes@, bytes@.len() as int);
    }
    if from < to && to <= bytes.len() {
        slice_subrange(bytes, from, to)
    } else {
        let empty = slice_subrange(bytes, 0, 0);
        assert(empty@ =~= Seq::<u8>::empty());
        empty
    }
}

/// The text of the lines from `from` up to `to`.
pub(crate) fn collect_lines(bytes: &[u8], starts: &Vec<usize>, from: usize, to: usize) -> (texts: Vec<
    String,
>)
    requires
        offsets(starts@) == line_starts(bytes@),
        from <= to <= starts.len(),
    ensures
        text_views(texts@) == lines_text(bytes@, from as int, to as int),
{
    let mut texts: Vec<String> = Vec::new();
    let mut at: usize = from;
    assert(text_views(texts@) =~= lines_text(bytes@, from as int, from as int));
    while at < to
        invariant
            from <= at <= to <= starts.len(),
            offsets(starts@) == line_starts(bytes@),
            text_views(texts@) == lines_text(bytes@, from as int, at as int),
        decreases to - at,
    {
        let line = line_slice(bytes, starts, at);
        let ghost before = text_views(texts@);
        let text = decode_lossy(line);
        let ghost added = text@;
        texts.push(text);
        assert(text_views(texts@) =~= before.push(added));
        at += 1;
    }
    texts
}

} // verus!

//! Lexical paths.
//!
//! A path is a string of bytes in which `/` separates names. Everything here
//! is computed from the text alone; nothing looks at a file system. Two
//! readings of a path are used side by side: its text, which is what is handed
//! to the operating system, and its components, by which containment and
//! ancestry are decided.

use vstd::prelude::*;
use vstd::string::StrSliceExecFns;
use vstd::utf8::encode_utf8;

use crate::text::{decode_lossy, lossy_decoded};

verus! {

/// The separator between the names of a path.
pub const SEP: u8 = 47;

/// The byte of which the names `.` and `..` are made.
pub const DOT: u8 = 46;

/// A path as it was written: any bytes, with `/` between the names.
#[derive(Debug, Clone, PartialEq, Eq)]
pub struct FsPath {
    pub bytes: Vec<u8>,
}

impl View for FsPath {
    type V = Seq<u8>;

    open spec fn view(&self) -> Seq<u8> {
        self.bytes@
    }
}

/// A path is absolute when its text begins with the separator.
pub open spec fn is_absolute(p: Seq<u8>) -> bool {
    p.len() > 0 && p[0] == SEP
}

/// The text of `rel` taken below `base`: an absolute `rel` stands for itself,
/// and a separator is put between the two unless `base` is empty or already
/// ends in one.
pub open spec fn joined(base: Seq<u8>, rel: Seq<u8>) -> Seq<u8> {
    if is_absolute(rel) {
        rel
    } else if base.len() > 0 && base.last() != SEP {
        base + seq![SEP] + rel
    } else {
        base + rel
    }
}

/// The component that stands for the root directory.
pub open spec fn root_part() -> Seq<u8> {
    seq![SEP]
}

/// The component `.`.
pub open spec fn cur_part() -> Seq<u8> {
    seq![DOT]
}

/// The component `..`.
pub open spec fn parent_part() -> Seq<u8> {
    seq![DOT, DOT]
}

/// A stretch between two separators counts as a name unless it is empty or `.`.
pub open spec fn is_name(seg: Seq<u8>) -> bool {
    seg.len() > 0 && seg != cur_part()
}

/// The stretch `seg` as a list of zero or one names.
pub open spec fn kept(seg: Seq<u8>) -> Seq<Seq<u8>> {
    if is_name(seg) {
        seq![seg]
    } else {
        Seq::empty()
    }
}

/// The names of `p` from the stretch that begins at `start` on, when the
/// bytes before `at` have been looked at and none of those from `start` on
/// was a separator.
pub open spec fn names_scan(p: Seq<u8>, start: int, at: int) -> Seq<Seq<u8>>
    decreases p.len() - at,
{
    if at >= p.len() {
        kept(p.subrange(start, p.len() as int))
    } else if p[at] == SEP {
        kept(p.subrange(start, at)) + names_scan(p, at + 1, at + 1)
    } else {
        names_scan(p, start, at + 1)
    }
}

/// What stands before the names: the root for an absolute path, `.` for a
/// path that begins with that name, and nothing otherwise.
pub open spec fn head_parts(p: Seq<u8>) -> Seq<Seq<u8>> {
    if is_absolute(p) {
        seq![root_part()]
    } else if p.len() > 0 && p[0] == DOT && (p.len() == 1 || p[1] == SEP) {
        seq![cur_part()]
    } else {
        Seq::empty()
    }
}

/// The components of a path: the head, then every name in order. Repeated
/// separators, a trailing separator and the name `.` inside the path leave no
/// trace; `..` is a name like any other.
pub open spec fn components(p: Seq<u8>) -> Seq<Seq<u8>> {
    head_parts(p) + names_scan(p, 0, 0)
}

/// `base` is an ancestor of `p`, or `p` itself, component by component.
pub open spec fn starts_with(p: Seq<u8>, base: Seq<u8>) -> bool {
    components(base).is_prefix_of(components(p))
}

/// Two texts that name the same components.
pub open spec fn same_path(a: Seq<u8>, b: Seq<u8>) -> bool {
    components(a) == components(b)
}

/// The text that a list of components stands for.
pub open spec fn rendered(parts: Seq<Seq<u8>>) -> Seq<u8>
    decreases parts.len(),
{
    if parts.len() == 0 {
        Seq::empty()
    } else {
        joined(rendered(parts.drop_last()), parts.last())
    }
}

/// Where a stretch of a path lies: from its first byte up to the byte behind
/// its last.
pub type Span = (int, int);

/// The stretch from `lo` to `hi` as a list of zero or one spans of names.
pub open spec fn kept_span(p: Seq<u8>, lo: int, hi: int) -> Seq<Span> {
    if is_name(p.subrange(lo, hi)) {
        seq![(lo, hi)]
    } else {
        Seq::empty()
    }
}

/// Where the names of `p` lie, scanned as `names_scan` scans them.
pub open spec fn spans_scan(p: Seq<u8>, start: int, at: int) -> Seq<Span>
    decreases p.len() - at,
{
    if at >= p.len() {
        kept_span(p, start, p.len() as int)
    } else if p[at] == SEP {
        kept_span(p, start, at) + spans_scan(p, at + 1, at + 1)
    } else {
        spans_scan(p, start, at + 1)
    }
}

/// Where the names of a path lie in its text, in order.
pub open spec fn name_spans(p: Seq<u8>) -> Seq<Span> {
    spans_scan(p, 0, 0)
}

/// How many bytes the head of a path takes: one for the root or for a leading
/// `.`, none otherwise.
pub open spec fn head_len(p: Seq<u8>) -> int {
    if head_parts(p).len() > 0 {
        1
    } else {
        0
    }
}

/// What is left of `p` below `base`, where `base` is an ancestor of `p`: the
/// text of `p` from the first name that `base` does not have up to its last
/// name. What lies between those names stays as it was written.
pub open spec fn stripped(p: Seq<u8>, base: Seq<u8>) -> Option<Seq<u8>> {
    let spans = name_spans(p);
    let taken = components(base).len() - head_parts(p).len();
    if !starts_with(p, base) {
        None
    } else if components(base).len() == 0 {
        Some(
            p.take(
                if spans.len() > 0 {
                    spans.last().1
                } else {
                    head_len(p)
                },
            ),
        )
    } else if taken < spans.len() {
        Some(p.subrange(spans[taken].0, spans.last().1))
    } else {
        Some(Seq::empty())
    }
}

/// The path without its last component: its text up to the end of the name
/// before the last, or its head where it has one name only. The root and the
/// empty path have no parent; that of `.` is the empty path.
pub open spec fn parent_of(p: Seq<u8>) -> Option<Seq<u8>> {
    let spans = name_spans(p);
    if spans.len() == 0 {
        if head_parts(p) == seq![cur_part()] {
            Some(Seq::empty())
        } else {
            None
        }
    } else if spans.len() == 1 {
        Some(p.take(head_len(p)))
    } else {
        Some(p.take(spans[spans.len() - 2].1))
    }
}

/// The last component, where it is the name of an entry.
pub open spec fn file_name_of(p: Seq<u8>) -> Option<Seq<u8>> {
    let parts = components(p);
    if parts.len() == 0 || parts.last() == root_part() || parts.last() == cur_part()
        || parts.last() == parent_part() {
        None
    } else {
        Some(parts.last())
    }
}

/// Scanning goes by position alone: what stands before the stretch that is
/// scanned does not matter.
pub proof fn lemma_scan_shift(before: Seq<u8>, p: Seq<u8>, start: int, at: int)
    requires
        0 <= start <= at <= p.len(),
    ensures
        names_scan(before + p, before.len() + start, before.len() + at) == names_scan(
            p,
            start,
            at,
        ),
    decreases p.len() - at,
{
    let whole = before + p;
    let n = before.len() as int;
    if at >= p.len() {
        assert(whole.subrange(n + start, whole.len() as int) =~= p.subrange(
            start,
            p.len() as int,
        ));
    } else {
        assert(whole[n + at] == p[at]);
        if p[at] == SEP {
            assert(whole.subrange(n + start, n + at) =~= p.subrange(start, at));
            lemma_scan_shift(before, p, at + 1, at + 1);
        } else {
            lemma_scan_shift(before, p, start, at + 1);
        }
    }
}

/// The names of two texts with a separator between them are the names of the
/// first, then those of the second.
pub proof fn lemma_scan_joined(p: Seq<u8>, q: Seq<u8>, start: int, at: int)
    requires
        0 <= start <= at <= p.len(),
    ensures
        names_scan(p + seq![SEP] + q, start, at) == names_scan(p, start, at) + names_scan(q, 0, 0),
    decreases p.len() - at,
{
    let whole = p + seq![SEP] + q;
    if at == p.len() {
        assert(whole[at] == SEP);
        assert(whole.subrange(start, at) =~= p.subrange(start, p.len() as int));
        lemma_scan_shift(p + seq![SEP], q, 0, 0);
    } else {
        assert(whole[at] == p[at]);
        if p[at] == SEP {
            assert(whole.subrange(start, at) =~= p.subrange(start, at));
            lemma_scan_joined(p, q, at + 1, at + 1);
            assert(kept(p.subrange(start, at)) + (names_scan(p, at + 1, at + 1) + names_scan(
                q,
                0,
                0,
            )) =~= (kept(p.subrange(start, at)) + names_scan(p, at + 1, at + 1)) + names_scan(
                q,
                0,
                0,
            ));
        } else {
            lemma_scan_joined(p, q, start, at + 1);
        }
    }
}

/// A separator at the end of a text adds no name to it.
pub proof fn lemma_scan_trailing(p: Seq<u8>)
    ensures
        names_scan(p + seq![SEP], 0, 0) == names_scan(p, 0, 0),
{
    let empty = Seq::<u8>::empty();
    lemma_scan_joined(p, empty, 0, 0);
    assert(p + seq![SEP] + empty =~= p + seq![SEP]);
    assert(names_scan(empty, 0, 0) =~= Seq::<Seq<u8>>::empty()) by {
        assert(empty.subrange(0, 0) =~= empty);
    }
    assert(names_scan(p, 0, 0) + Seq::<Seq<u8>>::empty() =~= names_scan(p, 0, 0));
}

/// A relative path taken below a base has the components of the base, then
/// its own names: whatever a request names by a relative path lies below the
/// base as far as the text tells. Only the names `..` in it, and links on the
/// way, can lead elsewhere, and those show once the path is resolved.
pub proof fn lemma_joined_components(base: Seq<u8>, rel: Seq<u8>)
    requires
        !is_absolute(rel),
        base.len() > 0,
    ensures
        components(joined(base, rel)) == components(base) + names_scan(rel, 0, 0),
        starts_with(joined(base, rel), base),
{
    let whole = joined(base, rel);
    if base.last() != SEP {
        lemma_scan_joined(base, rel, 0, 0);
        assert(whole =~= base + seq![SEP] + rel);
        assert(head_parts(whole) == head_parts(base)) by {
            assert(whole[0] == base[0]);
            if base.len() == 1 {
                assert(whole[1] == SEP);
            } else {
                assert(whole[1] == base[1]);
            }
        }
    } else {
        let stem = base.drop_last();
        assert(base =~= stem + seq![SEP]);
        lemma_scan_trailing(stem);
        lemma_scan_joined(stem, rel, 0, 0);
        assert(whole =~= stem + seq![SEP] + rel);
        assert(head_parts(whole) == head_parts(base)) by {
            assert(whole[0] == base[0]);
            if base.len() > 1 {
                assert(whole[1] == base[1]);
            }
        }
    }
    let parts = components(whole);
    let first = components(base);
    assert(parts =~= first + names_scan(rel, 0, 0)) by {
        assert(head_parts(base) + (names_scan(base, 0, 0) + names_scan(rel, 0, 0)) =~= (head_parts(
            base,
        ) + names_scan(base, 0, 0)) + names_scan(rel, 0, 0));
    }
    assert(first =~= parts.subrange(0, first.len() as int));
}

/// Every path is its own ancestor in the wide sense, and an ancestor of an
/// ancestor is an ancestor.
pub proof fn lemma_starts_with_orders(a: Seq<u8>, b: Seq<u8>, c: Seq<u8>)
    ensures
        starts_with(a, a),
        starts_with(a, b) && starts_with(b, c) ==> starts_with(a, c),
        starts_with(a, b) && starts_with(b, a) ==> same_path(a, b),
{
    let pa = components(a);
    let pb = components(b);
    let pc = components(c);
    assert(pa =~= pa.subrange(0, pa.len() as int));
    if starts_with(a, b) && starts_with(b, c) {
        assert(pc =~= pa.subrange(0, pc.len() as int)) by {
            assert(pb =~= pa.subrange(0, pb.len() as int));
            assert(pc =~= pb.subrange(0, pc.len() as int));
        }
    }
    if starts_with(a, b) && starts_with(b, a) {
        assert(pb =~= pa.subrange(0, pb.len() as int));
        assert(pa =~= pb);
    }
}

/// The spans are where the names are: each span holds one name, in order.
pub proof fn lemma_spans_hold_names(p: Seq<u8>, start: int, at: int)
    requires
        0 <= start <= at <= p.len(),
    ensures
        spans_scan(p, start, at).len() == names_scan(p, start, at).len(),
        forall|i: int|
            0 <= i < spans_scan(p, start, at).len() ==> #[trigger] names_scan(p, start, at)[i]
                == p.subrange(spans_scan(p, start, at)[i].0, spans_scan(p, start, at)[i].1),
    decreases p.len() - at,
{
    if at < p.len() {
        if p[at] == SEP {
            lemma_spans_hold_names(p, at + 1, at + 1);
        } else {
            lemma_spans_hold_names(p, start, at + 1);
        }
    }
}

/// Every span lies within the text and holds at least one byte, and the spans
/// follow one another without touching.
pub proof fn lemma_spans_rise(p: Seq<u8>, start: int, at: int)
    requires
        0 <= start <= at <= p.len(),
    ensures
        forall|i: int|
            0 <= i < spans_scan(p, start, at).len() ==> start <= (#[trigger] spans_scan(
                p,
                start,
                at,
            )[i]).0 < spans_scan(p, start, at)[i].1 <= p.len(),
        forall|i: int, j: int|
            0 <= i < j < spans_scan(p, start, at).len() ==> (#[trigger] spans_scan(
                p,
                start,
                at,
            )[i]).1 < (#[trigger] spans_scan(p, start, at)[j]).0,
        spans_scan(p, start, at).len() > 0 ==> spans_scan(p, start, at)[0].1 >= at,
    decreases p.len() - at,
{
    if at < p.len() {
        if p[at] == SEP {
            lemma_spans_rise(p, at + 1, at + 1);
        } else {
            lemma_spans_rise(p, start, at + 1);
        }
    }
}

/// The spans held by a vector of pairs of offsets.
pub open spec fn span_views(spans: Seq<(usize, usize)>) -> Seq<Span> {
    Seq::new(spans.len(), |i: int| (spans[i].0 as int, spans[i].1 as int))
}

/// The components held by a vector of byte vectors.
pub open spec fn parts_view(parts: Seq<Vec<u8>>) -> Seq<Seq<u8>> {
    Seq::new(parts.len(), |i: int| parts[i]@)
}

/// The bytes of `src` from `start` up to `end`.
pub(crate) fn copy_range(src: &Vec<u8>, start: usize, end: usize) -> (out: Vec<u8>)
    requires
        start <= end <= src.len(),
    ensures
        out@ == src@.subrange(start as int, end as int),
{
    let mut out: Vec<u8> = Vec::new();
    let mut i: usize = start;
    while i < end
        invariant
            start <= i <= end <= src.len(),
            out@ == src@.subrange(start as int, i as int),
        decreases end - i,
    {
        out.push(src[i]);
        i += 1;
        assert(out@ =~= src@.subrange(start as int, i as int));
    }
    out
}

/// Whether two byte vectors hold the same bytes.
pub fn bytes_eq(a: &Vec<u8>, b: &Vec<u8>) -> (same: bool)
    ensures
        same == (a@ == b@),
{
    if a.len() != b.len() {
        return false;
    }
    let mut i: usize = 0;
    while i < a.len()
        invariant
            i <= a.len(),
            a.len() == b.len(),
            forall|k: int| 0 <= k < i ==> a@[k] == b@[k],
        decreases a.len() - i,
    {
        if a[i] != b[i] {
            return false;
        }
        i += 1;
    }
    assert(a@ =~= b@);
    true
}

/// Appends `rel` to `base` by the rule of `joined`.
pub fn join_bytes(base: &Vec<u8>, rel: &Vec<u8>) -> (out: Vec<u8>)
    ensures
        out@ == joined(base@, rel@),
{
    if rel.len() > 0 && rel[0] == SEP {
        let out = copy_range(rel, 0, rel.len());
        assert(out@ =~= rel@);
        return out;
    }
    let mut out = copy_range(base, 0, base.len());
    assert(out@ =~= base@);
    if base.len() > 0 && base[base.len() - 1] != SEP {
        out.push(SEP);
    }
    let ghost before = out@;
    let mut i: usize = 0;
    while i < rel.len()
        invariant
            i <= rel.len(),
            out@ == before + rel@.subrange(0, i as int),
        decreases rel.len() - i,
    {
        out.push(rel[i]);
        i += 1;
        assert(out@ =~= before + rel@.subrange(0, i as int));
    }
    assert(rel@.subrange(0, rel.len() as int) =~= rel@);
    assert(out@ =~= joined(base@, rel@));
    out
}

/// Puts the stretch of `src` from `start` to `end` behind `parts` if it is a
/// name.
fn push_name(parts: &mut Vec<Vec<u8>>, src: &Vec<u8>, start: usize, end: usize)
    requires
        start <= end <= src.len(),
    ensures
        parts_view(final(parts)@) == parts_view(old(parts)@) + kept(
            src@.subrange(start as int, end as int),
        ),
{
    let ghost seg = src@.subrange(start as int, end as int);
    let is_dot = end - start == 1 && src[start] == DOT;
    assert(is_dot == (seg == cur_part())) by {
        if seg == cur_part() {
            assert(seg.len() == 1);
            assert(seg[0] == DOT);
        }
        if is_dot {
            assert(seg =~= cur_part());
        }
    }
    if end > start && !is_dot {
        let name = copy_range(src, start, end);
        parts.push(name);
        assert(parts_view(parts@) =~= parts_view(old(parts)@) + kept(seg));
    } else {
        assert(parts_view(parts@) =~= parts_view(old(parts)@) + kept(seg));
    }
}

/// Puts the span from `start` to `end` behind `spans` if it holds a name.
fn push_span(spans: &mut Vec<(usize, usize)>, src: &Vec<u8>, start: usize, end: usize)
    requires
        start <= end <= src.len(),
    ensures
        span_views(final(spans)@) == span_views(old(spans)@) + kept_span(
            src@,
            start as int,
            end as int,
        ),
{
    let ghost seg = src@.subrange(start as int, end as int);
    let is_dot = end - start == 1 && src[start] == DOT;
    assert(is_dot == (seg == cur_part())) by {
        if seg == cur_part() {
            assert(seg.len() == 1);
            assert(seg[0] == DOT);
        }
        if is_dot {
            assert(seg =~= cur_part());
        }
    }
    if end > start && !is_dot {
        spans.push((start, end));
    }
    assert(span_views(spans@) =~= span_views(old(spans)@) + kept_span(
        src@,
        start as int,
        end as int,
    ));
}

/// Renders the first `upto` components of `parts`.
pub(crate) fn render_prefix(parts: &Vec<Vec<u8>>, upto: usize) -> (out: Vec<u8>)
    requires
        upto <= parts.len(),
    ensures
        out@ == rendered(parts_view(parts@).take(upto as int)),
{
    let ghost all = parts_view(parts@);
    let mut out: Vec<u8> = Vec::new();
    let mut i: usize = 0;
    assert(all.take(0) =~= Seq::<Seq<u8>>::empty());
    while i < upto
        invariant
            i <= upto <= parts.len(),
            all == parts_view(parts@),
            out@ == rendered(all.take(i as int)),
        decreases upto - i,
    {
        let next = join_bytes(&out, &parts[i]);
        proof {
            let grown = all.take(i + 1);
            assert(grown.drop_last() =~= all.take(i as int));
            assert(grown.last() == parts@[i as int]@);
        }
        out = next;
        i += 1;
    }
    out
}

impl FsPath {
    /// The path with the text `bytes`.
    pub fn new(bytes: Vec<u8>) -> (p: FsPath)
        ensures
            p@ == bytes@,
    {
        FsPath { bytes }
    }

    /// The path whose text is the encoding of `s`.
    pub fn from_str(s: &str) -> (p: FsPath)
        ensures
            p@ == encode_utf8(s@),
    {
        FsPath { bytes: s.as_bytes_vec() }
    }

    /// A second path with the same text.
    pub fn copy(&self) -> (p: FsPath)
        ensures
            p@ == self@,
    {
        let bytes = copy_range(&self.bytes, 0, self.bytes.len());
        assert(bytes@ =~= self@);
        FsPath { bytes }
    }

    /// Whether the text is that of `other`, byte for byte.
    pub fn same_text(&self, other: &FsPath) -> (same: bool)
        ensures
            same == (self@ == other@),
    {
        bytes_eq(&self.bytes, &other.bytes)
    }

    /// The path as text for a reply: its bytes decoded, with U+FFFD in place
    /// of what is not UTF-8.
    pub fn display(&self) -> (text: String)
        ensures
            text@ == lossy_decoded(self@),
    {
        decode_lossy(self.bytes.as_slice())
    }

    pub fn is_absolute(&self) -> (abs: bool)
        ensures
            abs == is_absolute(self@),
    {
        self.bytes.len() > 0 && self.bytes[0] == SEP
    }

    /// `rel` below this path.
    pub fn join(&self, rel: &FsPath) -> (p: FsPath)
        ensures
            p@ == joined(self@, rel@),
    {
        FsPath { bytes: join_bytes(&self.bytes, &rel.bytes) }
    }

    /// The components of the path, in order.
    pub fn components(&self) -> (parts: Vec<Vec<u8>>)
        ensures
            parts_view(parts@) == components(self@),
    {
        let n = self.bytes.len();
        let mut parts: Vec<Vec<u8>> = Vec::new();
        if n > 0 && self.bytes[0] == SEP {
            let root: Vec<u8> = vec![SEP];
            assert(root@ =~= root_part());
            parts.push(root);
            assert(parts_view(parts@) =~= head_parts(self@));
        } else if n > 0 && self.bytes[0] == DOT && (n == 1 || self.bytes[1] == SEP) {
            let cur: Vec<u8> = vec![DOT];
            assert(cur@ =~= cur_part());
            parts.push(cur);
            assert(parts_view(parts@) =~= head_parts(self@));
        } else {
            assert(parts_view(parts@) =~= head_parts(self@));
        }
        let mut start: usize = 0;
        let mut at: usize = 0;
        while at < n
            invariant
                n == self.bytes.len(),
                start <= at <= n,
                parts_view(parts@) + names_scan(self@, start as int, at as int) == components(
                    self@,
                ),
            decreases n - at,
        {
            if self.bytes[at] == SEP {
                let ghost before = parts_view(parts@);
                push_name(&mut parts, &self.bytes, start, at);
                assert(parts_view(parts@) + names_scan(self@, at + 1, at + 1) =~= before
                    + names_scan(self@, start as int, at as int));
                start = at + 1;
            }
            at += 1;
        }
        let ghost before = parts_view(parts@);
        push_name(&mut parts, &self.bytes, start, n);
        assert(parts_view(parts@) =~= before + names_scan(self@, start as int, at as int));
        parts
    }

    /// Whether `base` is this path or one of its ancestors.
    pub fn starts_with(&self, base: &FsPath) -> (under: bool)
        ensures
            under == starts_with(self@, base@),
    {
        let mine = self.components();
        let theirs = base.components();
        parts_prefix(&theirs, &mine)
    }

    /// Whether both paths have the same components.
    pub fn same_path(&self, other: &FsPath) -> (same: bool)
        ensures
            same == same_path(self@, other@),
    {
        let mine = self.components();
        let theirs = other.components();
        let same = mine.len() == theirs.len() && parts_prefix(&theirs, &mine);
        proof {
            let a = components(self@);
            let b = components(other@);
            if same {
                assert(a =~= b);
            }
            if a == b {
                assert(b =~= a.subrange(0, b.len() as int));
            }
        }
        same
    }

    /// Where the names of the path lie in its text.
    pub fn name_spans(&self) -> (spans: Vec<(usize, usize)>)
        ensures
            span_views(spans@) == name_spans(self@),
            forall|i: int|
                0 <= i < spans@.len() ==> (#[trigger] spans@[i]).0 < spans@[i].1 <= self@.len(),
            forall|i: int, j: int|
                0 <= i < j < spans@.len() ==> (#[trigger] spans@[i]).1 < (#[trigger] spans@[j]).0,
    {
        let n = self.bytes.len();
        let mut spans: Vec<(usize, usize)> = Vec::new();
        let mut start: usize = 0;
        let mut at: usize = 0;
        assert(span_views(spans@) + spans_scan(self@, 0, 0) =~= name_spans(self@));
        while at < n
            invariant
                n == self.bytes.len(),
                start <= at <= n,
                span_views(spans@) + spans_scan(self@, start as int, at as int) == name_spans(
                    self@,
                ),
            decreases n - at,
        {
            if self.bytes[at] == SEP {
                let ghost before = span_views(spans@);
                push_span(&mut spans, &self.bytes, start, at);
                assert(span_views(spans@) + spans_scan(self@, at + 1, at + 1) =~= before
                    + spans_scan(self@, start as int, at as int));
                start = at + 1;
            }
            at += 1;
        }
        let ghost before = span_views(spans@);
        push_span(&mut spans, &self.bytes, start, n);
        assert(span_views(spans@) =~= before + spans_scan(self@, start as int, at as int));
        proof {
            lemma_spans_rise(self@, 0, 0);
            let views = span_views(spans@);
            assert forall|i: int| 0 <= i < spans@.len() implies (#[trigger] spans@[i]).0
                < spans@[i].1 <= self@.len() by {
                assert(views[i] == (spans@[i].0 as int, spans@[i].1 as int));
            }
            assert forall|i: int, j: int| 0 <= i < j < spans@.len() implies (#[trigger] spans@[i]).1
                < (#[trigger] spans@[j]).0 by {
                assert(views[i] == (spans@[i].0 as int, spans@[i].1 as int));
                assert(views[j] == (spans@[j].0 as int, spans@[j].1 as int));
            }
        }
        spans
    }

    /// How many bytes the head of the path takes.
    fn head_len(&self) -> (len: usize)
        ensures
            len == head_len(self@),
            len <= self@.len(),
    {
        let n = self.bytes.len();
        if n > 0 && (self.bytes[0] == SEP || (self.bytes[0] == DOT && (n == 1 || self.bytes[1]
            == SEP))) {
            1
        } else {
            0
        }
    }

    /// What is left of this path below `base`; `None` where `base` is no
    /// ancestor of it.
    pub fn strip_prefix(&self, base: &FsPath) -> (rest: Option<FsPath>)
        ensures
            rest is Some <==> starts_with(self@, base@),
            rest matches Some(r) ==> stripped(self@, base@) == Some(r@),
    {
        let mine = self.components();
        let theirs = base.components();
        if !parts_prefix(&theirs, &mine) {
            return None;
        }
        let spans = self.name_spans();
        let head = self.head_len();
        let n = spans.len();
        proof {
            lemma_spans_hold_names(self@, 0, 0);
            assert(span_views(spans@).len() == n);
            assert(parts_view(mine@).len() == mine.len());
            assert(parts_view(theirs@).len() == theirs.len());
            assert(mine.len() == head + n);
            if n > 0 {
                assert(span_views(spans@)[n - 1] == (spans@[n - 1].0 as int, spans@[n - 1].1 as int));
            }
        }
        let bytes = if theirs.len() == 0 {
            let end = if n > 0 {
                spans[n - 1].1
            } else {
                head
            };
            let out = copy_range(&self.bytes, 0, end);
            assert(out@ =~= self@.take(end as int));
            out
        } else if theirs.len() - head < n {
            let from = theirs.len() - head;
            proof {
                assert(span_views(spans@)[from as int] == (
                    spans@[from as int].0 as int,
                    spans@[from as int].1 as int,
                ));
            }
            copy_range(&self.bytes, spans[from].0, spans[n - 1].1)
        } else {
            let out: Vec<u8> = Vec::new();
            assert(out@ =~= Seq::<u8>::empty());
            out
        };
        Some(FsPath { bytes })
    }

    /// The path without its last component.
    pub fn parent(&self) -> (up: Option<FsPath>)
        ensures
            up is Some <==> parent_of(self@) is Some,
            up matches Some(d) ==> parent_of(self@) == Some(d@),
    {
        let spans = self.name_spans();
        let head = self.head_len();
        let n = spans.len();
        assert(span_views(spans@).len() == n);
        if n == 0 {
            let is_cur = head == 1 && self.bytes[0] == DOT;
            proof {
                let parts = head_parts(self@);
                if parts == seq![cur_part()] {
                    assert(parts.len() == 1);
                    assert(parts[0] == cur_part());
                    assert(root_part()[0] == SEP && cur_part()[0] == DOT);
                }
                if is_cur {
                    assert(parts =~= seq![cur_part()]);
                }
            }
            if is_cur {
                let out: Vec<u8> = Vec::new();
                assert(out@ =~= Seq::<u8>::empty());
                return Some(FsPath { bytes: out });
            }
            return None;
        }
        let end = if n == 1 {
            head
        } else {
            assert(span_views(spans@)[n - 2] == (spans@[n - 2].0 as int, spans@[n - 2].1 as int));
            spans[n - 2].1
        };
        let bytes = copy_range(&self.bytes, 0, end);
        assert(bytes@ =~= self@.take(end as int));
        Some(FsPath { bytes })
    }

    /// The name of the entry that the path ends in, if it ends in one.
    pub fn file_name(&self) -> (name: Option<Vec<u8>>)
        ensures
            name is Some <==> file_name_of(self@) is Some,
            name matches Some(n) ==> file_name_of(self@) == Some(n@),
    {
        let parts = self.components();
        let n = parts.len();
        if n == 0 {
            return None;
        }
        let last = &parts[n - 1];
        let len = last.len();
        let special = (len == 1 && (last[0] == SEP || last[0] == DOT)) || (len == 2 && last[0]
            == DOT && last[1] == DOT);
        proof {
            let l = parts_view(parts@).last();
            assert(l == last@);
            if l == root_part() || l == cur_part() {
                assert(l.len() == 1);
                assert(l[0] == SEP || l[0] == DOT);
            }
            if l == parent_part() {
                assert(l.len() == 2 && l[0] == DOT && l[1] == DOT);
            }
            if special {
                assert(l =~= root_part() || l =~= cur_part() || l =~= parent_part());
            }
        }
        if special {
            None
        } else {
            let out = copy_range(last, 0, len);
            assert(out@ =~= last@);
            Some(out)
        }
    }
}

/// Whether the components of `short` are the first components of `long`.
pub fn parts_prefix(short: &Vec<Vec<u8>>, long: &Vec<Vec<u8>>) -> (is_prefix: bool)
    ensures
        is_prefix == parts_view(short@).is_prefix_of(parts_view(long@)),
{
    let ghost s = parts_view(short@);
    let ghost l = parts_view(long@);
    if short.len() > long.len() {
        return false;
    }
    let mut i: usize = 0;
    while i < short.len()
        invariant
            i <= short.len() <= long.len(),
            s == parts_view(short@),
            l == parts_view(long@),
            forall|k: int| 0 <= k < i ==> s[k] == l[k],
        decreases short.len() - i,
    {
        if !bytes_eq(&short[i], &long[i]) {
            assert(s[i as int] != l[i as int]);
            assert(!s.is_prefix_of(l)) by {
                if s.is_prefix_of(l) {
                    assert(s[i as int] == l.subrange(0, s.len() as int)[i as int]);
                }
            }
            return false;
        }
        i += 1;
    }
    assert(s =~= l.subrange(0, s.len() as int));
    true
}

} // verus!

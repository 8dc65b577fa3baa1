//! Clustering a styled line into spans.
//!
//! The renderer paints each screen line as a short list of styled text
//! spans: one span per maximal run of adjacent cells that share the same
//! attributes. The host resolves its real attribute set (colors, italic,
//! underline) into a small style key before calling in, and maps the key
//! back to its attribute set when it paints the spans. A span is a
//! half-open index range into the line; the conditions in the contract
//! (the ranges partition the line, every cell in a range carries the
//! range's key, neighbouring ranges have different keys) determine the
//! clustering uniquely, so nothing about it is left open.

use vstd::prelude::*;

verus! {

/// One cell of a styled line: a character and the key of the attribute set
/// it is painted with.
#[derive(Clone, Copy, PartialEq, Eq, Structural, Debug)]
pub struct StyledCell {
    pub ch: char,
    pub style: u32,
}

/// A maximal run of adjacent cells sharing one attribute key: the cells
/// from `start` up to but not including `end`.
#[derive(Clone, Copy, PartialEq, Eq, Structural, Debug)]
pub struct Span {
    pub start: usize,
    pub end: usize,
    pub style: u32,
}

/// The spans partition the `n` cells: each is non-empty, the first starts
/// at zero, each begins where the one before it ended, and the last ends at
/// `n`.
pub open spec fn spans_partition(spans: Seq<Span>, n: int) -> bool {
    &&& (forall|i: int| 0 <= i < spans.len() ==> #[trigger] spans[i].start < spans[i].end)
    &&& (spans.len() == 0 <==> n == 0)
    &&& (spans.len() > 0 ==> spans[0].start == 0 && spans.last().end == n)
    &&& (forall|i: int| 0 <= i && i + 1 < spans.len() ==> #[trigger] spans[i].end == spans[i
        + 1].start)
}

/// Every cell inside a span carries the span's attribute key.
pub open spec fn spans_styled(spans: Seq<Span>, cells: Seq<StyledCell>) -> bool {
    forall|i: int, j: int|
        0 <= i < spans.len() && spans[i].start <= j < spans[i].end && 0 <= j < cells.len()
            ==> #[trigger] cells[j].style == #[trigger] spans[i].style
}

/// Neighbouring spans carry different keys, so each span is maximal.
pub open spec fn spans_maximal(spans: Seq<Span>) -> bool {
    forall|i: int| 0 <= i && i + 1 < spans.len() ==> #[trigger] spans[i].style != spans[i + 1].style
}

/// Group a styled line into its clusters: index ranges that partition the
/// line, each covering cells of one attribute key, with neighbouring ranges
/// differing in key. These conditions determine the result uniquely.
pub fn cluster_cells(cells: &Vec<StyledCell>) -> (r: Vec<Span>)
    ensures
        spans_partition(r@, cells@.len() as int),
        spans_styled(r@, cells@),
        spans_maximal(r@),
{
    let mut r: Vec<Span> = Vec::new();
    let n = cells.len();
    if n == 0 {
        return r;
    }
    let mut start: usize = 0;
    let mut style: u32 = cell_at(cells, 0).style;
    let mut i: usize = 1;
    while i < n
        invariant
            1 <= i <= n,
            n == cells@.len(),
            start < i,
            style == cells@[start as int].style,
            forall|j: int| start <= j < i ==> #[trigger] cells@[j].style == style,
            spans_partition(r@, start as int),
            spans_styled(r@, cells@),
            spans_maximal(r@),
            r@.len() > 0 ==> r@.last().style != style,
        decreases n - i,
    {
        let c = cell_at(cells, i);
        if c.style != style {
            let ghost r0 = r@;
            let s = Span { start, end: i, style };
            r.push(s);
            proof {
                lemma_span_push(r0, s, r@, cells@);
            }
            start = i;
            style = c.style;
        }
        i = i + 1;
    }
    let ghost r0 = r@;
    let s = Span { start, end: n, style };
    r.push(s);
    proof {
        lemma_span_push(r0, s, r@, cells@);
    }
    r
}

/// The cell at position `i`.
fn cell_at(cells: &Vec<StyledCell>, i: usize) -> (c: StyledCell)
    requires
        i < cells@.len(),
    ensures
        c == cells@[i as int],
{
    cells[i]
}

/// Closing the open run keeps the partition, the styling and the
/// maximality.
proof fn lemma_span_push(r0: Seq<Span>, s: Span, r1: Seq<Span>, cells: Seq<StyledCell>)
    requires
        r1 == r0.push(s),
        s.start < s.end,
        spans_partition(r0, s.start as int),
        spans_styled(r0, cells),
        spans_maximal(r0),
        r0.len() > 0 ==> r0.last().style != s.style,
        forall|j: int| s.start <= j < s.end && 0 <= j < cells.len() ==> #[trigger] cells[j].style
            == s.style,
    ensures
        spans_partition(r1, s.end as int),
        spans_styled(r1, cells),
        spans_maximal(r1),
{
    lemma_push_index(r0, s);
    assert(r0.push(s).len() == r0.len() + 1);
    assert(r1.len() == r0.len() + 1);
    assert(r1.last() == s);
    assert forall|i: int| 0 <= i < r1.len() implies #[trigger] r1[i].start < r1[i].end by {
        if i < r0.len() {
            assert(r0.push(s)[i] == r0[i]);
        }
    }
    assert forall|i: int| 0 <= i && i + 1 < r1.len() implies #[trigger] r1[i].end == r1[i
        + 1].start by {
        assert(0 <= i < r0.len());
        assert(r0.push(s)[i] == r0[i]);
        if i + 1 < r0.len() {
            assert(r0.push(s)[i + 1] == r0[i + 1]);
        } else {
            assert(r0.push(s)[i + 1] == s);
            assert(r0[i] == r0.last());
        }
    }
    assert(r1[0] == (if r0.len() > 0 {
        r0[0]
    } else {
        s
    }));
    assert forall|i: int, j: int|
        0 <= i < r1.len() && r1[i].start <= j < r1[i].end && 0 <= j
            < cells.len() implies #[trigger] cells[j].style == #[trigger] r1[i].style by {
        if i < r0.len() {
            assert(r0.push(s)[i] == r0[i]);
        } else {
            assert(r0.push(s)[i] == s);
        }
    }
    assert forall|i: int| 0 <= i && i + 1 < r1.len() implies #[trigger] r1[i].style != r1[i
        + 1].style by {
        assert(r0.push(s)[i] == r0[i]);
        if i + 1 < r0.len() {
            assert(r0.push(s)[i + 1] == r0[i + 1]);
        } else {
            assert(r0.push(s)[i + 1] == s);
            assert(r0[i] == r0.last());
        }
    }
}

/// What pushing one element does, element by element.
proof fn lemma_push_index<A>(r0: Seq<A>, s: A)
    ensures
        r0.push(s).len() == r0.len() + 1,
        forall|k: int| 0 <= k < r0.len() ==> #[trigger] r0.push(s)[k] == r0[k],
        r0.push(s)[r0.len() as int] == s,
        r0.push(s).last() == s,
{
}

} // verus!

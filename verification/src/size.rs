//! Terminal size negotiation.
//!
//! Each frame the host reports a pixel viewport and the measured monospace
//! cell metrics. The negotiator computes the grid size that fits, compares it
//! against the last size it applied, and asks for an operating-system level
//! resize only when the size actually changed: resizing the pseudo-terminal
//! is expensive and redundant resizes must not be issued every frame.

use vstd::prelude::*;

verus! {

/// A terminal grid size in whole cells. Both dimensions are at least one:
/// a terminal with zero rows or zero columns cannot hold a cursor.
#[derive(Clone, Copy, PartialEq, Eq, Structural, Debug)]
pub struct TermSize {
    pub rows: usize,
    pub cols: usize,
}

impl TermSize {
    /// Whether this is a size the session may actually take.
    pub open spec fn valid(self) -> bool {
        self.rows >= 1 && self.cols >= 1
    }

    pub fn new(rows: usize, cols: usize) -> (r: TermSize)
        requires
            rows >= 1,
            cols >= 1,
        ensures
            r == (TermSize { rows, cols }),
            r.valid(),
    {
        TermSize { rows, cols }
    }
}

/// Number of whole cells of extent `cell` that fit in `pixels`, clamped to
/// at least one so the grid never degenerates.
pub open spec fn cells_that_fit(pixels: int, cell: int) -> int
    recommends
        cell >= 1,
{
    if pixels / cell >= 1 {
        pixels / cell
    } else {
        1
    }
}

/// The grid size a viewport of `view_w` by `view_h` pixels holds at cell
/// metrics `cell_w` by `cell_h`.
pub open spec fn negotiated(view_w: int, view_h: int, cell_w: int, cell_h: int) -> TermSize {
    TermSize {
        rows: cells_that_fit(view_h, cell_h) as usize,
        cols: cells_that_fit(view_w, cell_w) as usize,
    }
}

/// Compute the grid size that fits the given pixel viewport, by floor
/// division of each viewport extent by the matching cell extent, clamped
/// to at least one row and one column.
pub fn fit_viewport(view_w: u32, view_h: u32, cell_w: u32, cell_h: u32) -> (r: TermSize)
    requires
        cell_w >= 1,
        cell_h >= 1,
    ensures
        r == negotiated(view_w as int, view_h as int, cell_w as int, cell_h as int),
        r.valid(),
{
    let cols: u32 = view_w / cell_w;
    let rows: u32 = view_h / cell_h;
    let cols: usize = if cols >= 1 { cols as usize } else { 1 };
    let rows: usize = if rows >= 1 { rows as usize } else { 1 };
    TermSize { rows, cols }
}

/// What one negotiation step does: it computes the fitting size, records it,
/// and reports `Some(new size)` exactly when the size it last applied
/// differs, counting one issued resize in that case.
pub open spec fn negotiate_post(
    pre: SizeNegotiator,
    post: SizeNegotiator,
    view_w: int,
    view_h: int,
    cell_w: int,
    cell_h: int,
    r: Option<TermSize>,
) -> bool {
    let fit = negotiated(view_w, view_h, cell_w, cell_h);
    &&& post.last == fit
    &&& (r is Some <==> fit != pre.last)
    &&& (r is Some ==> r == Some(fit) && post.issued == pre.issued + 1)
    &&& (r is None ==> post == pre)
}

/// Tracks the last applied terminal size and decides when a real resize of
/// the pseudo-terminal and the state engine must be issued.
pub struct SizeNegotiator {
    /// The size most recently applied to the session.
    pub last: TermSize,
    /// How many real resizes have been issued since construction.
    pub issued: u64,
}

impl SizeNegotiator {
    pub open spec fn valid(self) -> bool {
        self.last.valid()
    }

    pub fn new(initial: TermSize) -> (r: SizeNegotiator)
        requires
            initial.valid(),
        ensures
            r == (SizeNegotiator { last: initial, issued: 0u64 }),
            r.valid(),
    {
        SizeNegotiator { last: initial, issued: 0 }
    }

    /// Reconcile the reported viewport with the last applied size. Returns
    /// `Some(size)` exactly when the caller must now resize the
    /// pseudo-terminal and the state engine to `size`; returns `None`, and
    /// changes nothing, when the fitting size is the one already applied.
    pub fn negotiate(&mut self, view_w: u32, view_h: u32, cell_w: u32, cell_h: u32) -> (r: Option<
        TermSize,
    >)
        requires
            cell_w >= 1,
            cell_h >= 1,
            old(self).issued < u64::MAX,
        ensures
            negotiate_post(
                *old(self),
                *final(self),
                view_w as int,
                view_h as int,
                cell_w as int,
                cell_h as int,
                r,
            ),
            final(self).valid(),
    {
        let fit = fit_viewport(view_w, view_h, cell_w, cell_h);
        if fit == self.last {
            None
        } else {
            self.last = fit;
            self.issued = self.issued + 1;
            Some(fit)
        }
    }
}

/// Resize negotiation is idempotent: of two consecutive negotiations with the
/// same viewport and cell metrics, the second reports no resize and leaves
/// the negotiator exactly as the first left it, so at most one real resize
/// is issued for the pair.
pub proof fn lemma_resize_idempotent(
    n0: SizeNegotiator,
    n1: SizeNegotiator,
    n2: SizeNegotiator,
    view_w: int,
    view_h: int,
    cell_w: int,
    cell_h: int,
    r1: Option<TermSize>,
    r2: Option<TermSize>,
)
    requires
        cell_w >= 1,
        cell_h >= 1,
        negotiate_post(n0, n1, view_w, view_h, cell_w, cell_h, r1),
        negotiate_post(n1, n2, view_w, view_h, cell_w, cell_h, r2),
    ensures
        r2 is None,
        n2 == n1,
        n1.issued <= n0.issued + 1,
{
}

} // verus!

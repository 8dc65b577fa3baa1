//! The screen state the renderer reads.
//!
//! A character grid of a negotiated size, a cursor, and a window title,
//! advanced by the decoded action stream. The grid model is deliberately
//! small: printable characters fill cells left to right, wrapping at the
//! right edge; line feeds move down; the grid scrolls one line when the
//! cursor would leave the bottom; absolute cursor addressing is clamped
//! into the grid; the common erase sequences blank the display or the rest
//! of the line; actions outside this model change nothing. The whole state
//! is always exactly the replay of the actions applied to it.

use crate::action::TermAction;
use crate::size::TermSize;
use vstd::prelude::*;

verus! {

/// The mathematical state of a screen: the grid contents line by line, the
/// cursor cell, the title, and the grid dimensions.
pub struct ScreenView {
    pub lines: Seq<Seq<char>>,
    pub row: int,
    pub col: int,
    pub title: Seq<char>,
    pub rows: int,
    pub cols: int,
}

/// A blank line of `cols` spaces.
pub open spec fn blank_line(cols: int) -> Seq<char> {
    Seq::new(cols as nat, |i: int| ' ')
}

/// A blank grid of `rows` blank lines.
pub open spec fn blank_lines(rows: int, cols: int) -> Seq<Seq<char>> {
    Seq::new(rows as nat, |i: int| blank_line(cols))
}

/// A line fitted to `cols` columns: cut off on the right where it is too
/// long, padded with blanks where it is too short.
pub open spec fn fitted_line(l: Seq<char>, cols: int) -> Seq<char> {
    if l.len() >= cols {
        l.take(cols)
    } else {
        l + blank_line(cols - l.len())
    }
}

/// The line at position `i` of a grid refitted to `rows` by `cols`: kept
/// content fitted to the new width, blank lines below the kept content.
pub open spec fn fitted_at(old_lines: Seq<Seq<char>>, cols: int, i: int) -> Seq<char> {
    if i < old_lines.len() {
        fitted_line(old_lines[i], cols)
    } else {
        blank_line(cols)
    }
}

/// A grid refitted to `rows` by `cols`, keeping what fits of its content.
pub open spec fn fitted_lines(old_lines: Seq<Seq<char>>, rows: int, cols: int) -> Seq<Seq<char>> {
    Seq::new(rows as nat, |i: int| fitted_at(old_lines, cols, i))
}

/// A screen refitted to `rows` by `cols`: content kept where it fits, the
/// cursor clamped into the new grid, the title kept.
pub open spec fn resized(v: ScreenView, rows: int, cols: int) -> ScreenView {
    ScreenView {
        lines: fitted_lines(v.lines, rows, cols),
        row: if v.row < rows {
            v.row
        } else {
            rows - 1
        },
        col: if v.col < cols {
            v.col
        } else {
            cols - 1
        },
        title: v.title,
        rows,
        cols,
    }
}

/// The grid scrolled up one line: the top line leaves, a blank line enters
/// at the bottom.
pub open spec fn scrolled(lines: Seq<Seq<char>>, cols: int) -> Seq<Seq<char>> {
    lines.remove(0).push(blank_line(cols))
}

/// The next tab stop right of `col`, at every eighth column, clamped to the
/// last column.
pub open spec fn tab_stop(col: int, cols: int) -> int {
    let t = (col / 8 + 1) * 8;
    if t < cols {
        t
    } else {
        cols - 1
    }
}

impl ScreenView {
    /// Well-formed: at least one row and column, every line exactly as wide
    /// as the grid, the cursor inside the grid.
    pub open spec fn wf(self) -> bool {
        &&& 1 <= self.rows <= 0xffff_ffff
        &&& 1 <= self.cols <= 0xffff_ffff
        &&& self.lines.len() == self.rows
        &&& (forall|i: int| 0 <= i < self.rows ==> #[trigger] self.lines[i].len() == self.cols)
        &&& 0 <= self.row < self.rows
        &&& 0 <= self.col < self.cols
    }

    /// This grid with the character `c` written at the cursor cell.
    pub open spec fn cell_set(self, c: char) -> Seq<Seq<char>> {
        self.lines.update(self.row, self.lines[self.row].update(self.col, c))
    }
}

/// What one action does to the screen state.
pub open spec fn apply_one(v: ScreenView, a: TermAction) -> ScreenView {
    match a {
        TermAction::Print(c) => {
            let nl = v.cell_set(c);
            if v.col + 1 < v.cols {
                ScreenView { lines: nl, col: v.col + 1, ..v }
            } else if v.row + 1 < v.rows {
                ScreenView { lines: nl, row: v.row + 1, col: 0, ..v }
            } else {
                ScreenView { lines: scrolled(nl, v.cols), col: 0, ..v }
            }
        },
        TermAction::LineFeed => {
            if v.row + 1 < v.rows {
                ScreenView { row: v.row + 1, ..v }
            } else {
                ScreenView { lines: scrolled(v.lines, v.cols), ..v }
            }
        },
        TermAction::CarriageReturn => ScreenView { col: 0, ..v },
        TermAction::Backspace => ScreenView {
            col: if v.col > 0 {
                v.col - 1
            } else {
                0
            },
            ..v
        },
        TermAction::Tab => ScreenView { col: tab_stop(v.col, v.cols), ..v },
        TermAction::CursorTo { row, col } => ScreenView {
            row: if row < v.rows {
                row as int
            } else {
                v.rows - 1
            },
            col: if col < v.cols {
                col as int
            } else {
                v.cols - 1
            },
            ..v
        },
        TermAction::ClearScreen => ScreenView { lines: blank_lines(v.rows, v.cols), ..v },
        TermAction::ClearToEndOfLine => ScreenView {
            lines: v.lines.update(v.row, v.lines[v.row].take(v.col) + blank_line(v.cols - v.col)),
            ..v
        },
        TermAction::SetTitle(s) => ScreenView { title: s@, ..v },
        TermAction::Ignored => v,
    }
}

/// The screen state after replaying a whole action sequence, in order.
pub open spec fn replay(v: ScreenView, s: Seq<TermAction>) -> ScreenView
    decreases s.len(),
{
    if s.len() == 0 {
        v
    } else {
        apply_one(replay(v, s.drop_last()), s.last())
    }
}

/// One action keeps the screen state well formed.
pub proof fn lemma_apply_one_wf(v: ScreenView, a: TermAction)
    requires
        v.wf(),
    ensures
        apply_one(v, a).wf(),
{
    let r = apply_one(v, a);
    match a {
        TermAction::Print(c) => {
            let nl = v.cell_set(c);
            assert(nl.len() == v.rows);
            assert(forall|i: int| 0 <= i < v.rows ==> #[trigger] nl[i].len() == v.cols);
            if !(v.col + 1 < v.cols) && !(v.row + 1 < v.rows) {
                lemma_scrolled_wf(nl, v.rows, v.cols);
            }
        },
        TermAction::LineFeed => {
            if !(v.row + 1 < v.rows) {
                lemma_scrolled_wf(v.lines, v.rows, v.cols);
            }
        },
        TermAction::ClearScreen => {
            assert(forall|i: int|
                0 <= i < v.rows ==> #[trigger] blank_lines(v.rows, v.cols)[i].len() == v.cols);
        },
        TermAction::ClearToEndOfLine => {
            let nl = v.lines.update(
                v.row,
                v.lines[v.row].take(v.col) + blank_line(v.cols - v.col),
            );
            assert(forall|i: int| 0 <= i < v.rows ==> #[trigger] nl[i].len() == v.cols);
        },
        _ => {},
    }
}

/// Scrolling keeps the line count and the width of every line.
proof fn lemma_scrolled_wf(lines: Seq<Seq<char>>, rows: int, cols: int)
    requires
        lines.len() == rows,
        rows >= 1,
        cols >= 1,
        forall|i: int| 0 <= i < rows ==> #[trigger] lines[i].len() == cols,
    ensures
        scrolled(lines, cols).len() == rows,
        forall|i: int| 0 <= i < rows ==> #[trigger] scrolled(lines, cols)[i].len() == cols,
{
    lines.remove_ensures(0);
    assert forall|i: int| 0 <= i < rows implies #[trigger] scrolled(lines, cols)[i].len()
        == cols by {
        if i < rows - 1 {
            assert(scrolled(lines, cols)[i] == lines.remove(0)[i]);
            assert(lines.remove(0)[i] == lines[i + 1]);
        } else {
            assert(scrolled(lines, cols)[i] == blank_line(cols));
        }
    }
}

/// Replaying a concatenation is replaying the parts in order.
pub proof fn lemma_replay_concat(v: ScreenView, s: Seq<TermAction>, t: Seq<TermAction>)
    ensures
        replay(v, s + t) == replay(replay(v, s), t),
    decreases t.len(),
{
    if t.len() == 0 {
        assert(s + t =~= s);
    } else {
        lemma_replay_concat(v, s, t.drop_last());
        assert((s + t).drop_last() =~= s + t.drop_last());
        assert((s + t).last() == t.last());
    }
}

/// Replay never changes the grid dimensions.
pub proof fn lemma_replay_dims(v: ScreenView, s: Seq<TermAction>)
    ensures
        replay(v, s).rows == v.rows,
        replay(v, s).cols == v.cols,
    decreases s.len(),
{
    if s.len() > 0 {
        lemma_replay_dims(v, s.drop_last());
    }
}

/// Replay keeps the screen state well formed.
pub proof fn lemma_replay_wf(v: ScreenView, s: Seq<TermAction>)
    requires
        v.wf(),
    ensures
        replay(v, s).wf(),
    decreases s.len(),
{
    if s.len() > 0 {
        lemma_replay_wf(v, s.drop_last());
        lemma_apply_one_wf(replay(v, s.drop_last()), s.last());
    }
}

/// The line at position `i` of a grid of rows.
pub open spec fn row_view(g: Seq<Vec<char>>, i: int) -> Seq<char> {
    g[i]@
}

/// The grid of rows seen as a sequence of lines.
pub open spec fn lines_view(g: Seq<Vec<char>>) -> Seq<Seq<char>> {
    Seq::new(g.len(), |i: int| row_view(g, i))
}

/// Removing a row and inserting another at the same place is an update.
proof fn lemma_remove_insert_is_update<A>(s: Seq<A>, i: int, x: A)
    requires
        0 <= i < s.len(),
    ensures
        s.remove(i).insert(i, x) == s.update(i, x),
{
    s.remove_ensures(i);
    s.remove(i).insert_ensures(i, x);
    assert forall|j: int| 0 <= j < s.len() implies s.remove(i).insert(i, x)[j] == s.update(
        i,
        x,
    )[j] by {
        if j < i {
        } else if j == i {
        } else {
            assert(s.remove(i).insert(i, x)[(j - 1) + 1] == s.remove(i)[j - 1]);
            assert(s.remove(i)[j - 1] == s[j]);
        }
    }
    assert(s.remove(i).insert(i, x) =~= s.update(i, x));
}

/// The terminal screen: grid, cursor, title, dimensions.
pub struct Screen {
    grid: Vec<Vec<char>>,
    row: usize,
    col: usize,
    title: String,
    rows: usize,
    cols: usize,
}

/// A line fitted to `cols` columns: cut where too long, padded with blanks
/// where too short.
fn fit_line(l: Vec<char>, cols: usize) -> (r: Vec<char>)
    ensures
        r@ == fitted_line(l@, cols as int),
{
    let mut l = l;
    let ghost orig = l@;
    if l.len() >= cols {
        l.truncate(cols);
        proof {
            assert(l@ =~= fitted_line(orig, cols as int));
        }
    } else {
        proof {
            assert(l@ =~= orig + blank_line(0));
        }
        while l.len() < cols
            invariant
                l@.len() <= cols,
                orig.len() <= cols,
                l@ == orig + blank_line(l@.len() - orig.len()),
            decreases cols - l@.len(),
        {
            let ghost k = l@.len() - orig.len();
            l.push(' ');
            proof {
                assert(blank_line(k).push(' ') =~= blank_line(k + 1));
                assert((orig + blank_line(k)).push(' ') =~= orig + blank_line(k).push(' '));
            }
        }
        proof {
            assert(l@ =~= fitted_line(orig, cols as int));
        }
    }
    l
}

/// A blank row of `cols` spaces.
fn blank_row(cols: usize) -> (r: Vec<char>)
    ensures
        r@ == blank_line(cols as int),
{
    let mut r: Vec<char> = Vec::new();
    let mut i: usize = 0;
    while i < cols
        invariant
            i <= cols,
            r@ == blank_line(i as int),
        decreases cols - i,
    {
        r.push(' ');
        proof {
            assert(r@ =~= blank_line(i as int + 1));
        }
        i = i + 1;
    }
    r
}

/// A blank grid of the given size.
fn blank_grid(rows: usize, cols: usize) -> (r: Vec<Vec<char>>)
    ensures
        lines_view(r@).len() == rows as int,
        forall|i: int| 0 <= i < rows as int ==> #[trigger] lines_view(r@)[i] == blank_line(
            cols as int,
        ),
{
    let mut r: Vec<Vec<char>> = Vec::new();
    let mut i: usize = 0;
    while i < rows
        invariant
            i <= rows,
            r@.len() == i as int,
            forall|j: int| 0 <= j < i as int ==> #[trigger] r@[j]@ == blank_line(cols as int),
        decreases rows - i,
    {
        r.push(blank_row(cols));
        i = i + 1;
    }
    r
}

impl Screen {
    /// The mathematical state of this screen.
    pub closed spec fn view(self) -> ScreenView {
        ScreenView {
            lines: lines_view(self.grid@),
            row: self.row as int,
            col: self.col as int,
            title: self.title@,
            rows: self.rows as int,
            cols: self.cols as int,
        }
    }

    /// A blank screen of the given size, with the cursor at the top left
    /// corner and an empty title.
    pub fn new(size: TermSize) -> (r: Screen)
        requires
            size.valid(),
            size.rows <= 0xffff_ffff,
            size.cols <= 0xffff_ffff,
        ensures
            r@.wf(),
            r@.rows == size.rows,
            r@.cols == size.cols,
            r@.row == 0 && r@.col == 0,
            r@.title == Seq::<char>::empty(),
            forall|i: int| 0 <= i < size.rows ==> #[trigger] r@.lines[i] == blank_line(
                size.cols as int,
            ),
    {
        Screen {
            grid: blank_grid(size.rows, size.cols),
            row: 0,
            col: 0,
            title: String::new(),
            rows: size.rows,
            cols: size.cols,
        }
    }

    /// The negotiated size.
    pub fn size(&self) -> (r: TermSize)
        requires
            self@.wf(),
        ensures
            r.rows as int == self@.rows,
            r.cols as int == self@.cols,
            r.valid(),
    {
        TermSize { rows: self.rows, cols: self.cols }
    }

    /// The cursor cell, row then column.
    pub fn cursor(&self) -> (r: (usize, usize))
        ensures
            r.0 as int == self@.row,
            r.1 as int == self@.col,
    {
        (self.row, self.col)
    }

    /// The current title.
    pub fn title_str(&self) -> (r: &String)
        ensures
            r@ == self@.title,
    {
        &self.title
    }

    /// The line at the given row.
    pub fn line(&self, i: usize) -> (r: &Vec<char>)
        requires
            self@.wf(),
            (i as int) < self@.rows,
        ensures
            r@ == self@.lines[i as int],
    {
        &self.grid[i]
    }

    /// Scroll the grid up one line.
    fn scroll_up(&mut self)
        requires
            old(self)@.wf(),
        ensures
            final(self)@ == (ScreenView {
                lines: scrolled(old(self)@.lines, old(self)@.cols),
                ..old(self)@
            }),
    {
        let b = blank_row(self.cols);
        self.grid.remove(0);
        self.grid.push(b);
        proof {
            let g0 = old(self).grid@;
            g0.remove_ensures(0);
            assert forall|i: int| 0 <= i < self.grid@.len() implies lines_view(self.grid@)[i]
                == scrolled(lines_view(g0), old(self)@.cols)[i] by {
                lines_view(g0).remove_ensures(0);
                if i < g0.len() - 1 {
                    assert(self.grid@[i] == g0.remove(0)[i]);
                    assert(g0.remove(0)[i] == g0[i + 1]);
                    assert(scrolled(lines_view(g0), old(self)@.cols)[i] == lines_view(g0).remove(
                        0,
                    )[i]);
                    assert(lines_view(g0).remove(0)[i] == lines_view(g0)[i + 1]);
                }
            }
            assert(lines_view(self.grid@) =~= scrolled(lines_view(g0), old(self)@.cols));
        }
    }

    /// Apply one action, advancing the state by exactly the action's
    /// transition.
    pub fn apply(&mut self, a: &TermAction)
        requires
            old(self)@.wf(),
        ensures
            final(self)@ == apply_one(old(self)@, *a),
            final(self)@.wf(),
    {
        proof {
            lemma_apply_one_wf(old(self)@, *a);
        }
        match a {
            TermAction::Print(c) => {
                let mut rowv = self.grid.remove(self.row);
                rowv.set(self.col, *c);
                self.grid.insert(self.row, rowv);
                proof {
                    let g0 = old(self).grid@;
                    let r0 = self.row as int;
                    lemma_remove_insert_is_update(g0, r0, self.grid@[r0]);
                    assert(self.grid@ == g0.update(r0, self.grid@[r0]));
                    assert(self.grid@[r0]@ == g0[r0]@.update(self.col as int, *c));
                    assert forall|i: int| 0 <= i < g0.len() implies lines_view(self.grid@)[i]
                        == old(self)@.cell_set(*c)[i] by {
                        if i != r0 {
                            assert(self.grid@[i] == g0[i]);
                        }
                    }
                    assert(lines_view(self.grid@) =~= old(self)@.cell_set(*c));
                }
                if self.col + 1 < self.cols {
                    self.col = self.col + 1;
                } else if self.row + 1 < self.rows {
                    self.row = self.row + 1;
                    self.col = 0;
                } else {
                    self.col = 0;
                    self.scroll_up();
                }
            },
            TermAction::LineFeed => {
                if self.row + 1 < self.rows {
                    self.row = self.row + 1;
                } else {
                    self.scroll_up();
                }
            },
            TermAction::CarriageReturn => {
                self.col = 0;
            },
            TermAction::Backspace => {
                if self.col > 0 {
                    self.col = self.col - 1;
                }
            },
            TermAction::Tab => {
                proof {
                    assert((self.col as int) < 0x1_0000_0000);
                }
                let t: u64 = (self.col as u64 / 8 + 1) * 8;
                self.col = if t < self.cols as u64 {
                    t as usize
                } else {
                    self.cols - 1
                };
            },
            TermAction::CursorTo { row, col } => {
                let r32 = *row;
                let c32 = *col;
                self.row = if (r32 as usize) < self.rows {
                    r32 as usize
                } else {
                    self.rows - 1
                };
                self.col = if (c32 as usize) < self.cols {
                    c32 as usize
                } else {
                    self.cols - 1
                };
            },
            TermAction::ClearScreen => {
                self.grid = blank_grid(self.rows, self.cols);
                proof {
                    assert forall|i: int| 0 <= i < old(self)@.rows implies lines_view(
                        self.grid@,
                    )[i] == blank_lines(old(self)@.rows, old(self)@.cols)[i] by {}
                    assert(lines_view(self.grid@) =~= blank_lines(
                        old(self)@.rows,
                        old(self)@.cols,
                    ));
                }
            },
            TermAction::ClearToEndOfLine => {
                let cols = self.cols;
                let col0 = self.col;
                let mut rowv = self.grid.remove(self.row);
                let ghost orig = rowv@;
                rowv.truncate(col0);
                proof {
                    assert(rowv@ =~= orig.take(col0 as int) + blank_line(0));
                }
                while rowv.len() < cols
                    invariant
                        col0 <= rowv@.len() <= cols,
                        rowv@ == orig.take(col0 as int) + blank_line(rowv@.len() - col0),
                    decreases cols - rowv@.len(),
                {
                    let ghost k = rowv@.len() - col0;
                    rowv.push(' ');
                    proof {
                        assert(blank_line(k).push(' ') =~= blank_line(k + 1));
                        assert((orig.take(col0 as int) + blank_line(k)).push(' ') =~= orig.take(
                            col0 as int,
                        ) + blank_line(k).push(' '));
                    }
                }
                self.grid.insert(self.row, rowv);
                proof {
                    let g0 = old(self).grid@;
                    let r0 = self.row as int;
                    lemma_remove_insert_is_update(g0, r0, self.grid@[r0]);
                    assert(self.grid@ == g0.update(r0, self.grid@[r0]));
                    assert(orig == old(self)@.lines[r0]);
                    assert(self.grid@[r0]@ == old(self)@.lines[r0].take(old(self)@.col)
                        + blank_line(old(self)@.cols - old(self)@.col));
                    assert forall|i: int| 0 <= i < g0.len() implies lines_view(self.grid@)[i]
                        == apply_one(old(self)@, *a).lines[i] by {
                        if i != r0 {
                            assert(self.grid@[i] == g0[i]);
                        }
                    }
                    assert(lines_view(self.grid@) =~= apply_one(old(self)@, *a).lines);
                }
            },
            TermAction::SetTitle(s) => {
                self.title = s.clone();
            },
            TermAction::Ignored => {},
        }
    }

    /// Apply a whole batch in order: the state afterwards is the replay of
    /// the batch on the state before.
    pub fn apply_all(&mut self, batch: &Vec<TermAction>)
        requires
            old(self)@.wf(),
        ensures
            final(self)@ == replay(old(self)@, batch@),
            final(self)@.wf(),
    {
        let mut i: usize = 0;
        while i < batch.len()
            invariant
                i <= batch@.len(),
                self@ == replay(old(self)@, batch@.take(i as int)),
                self@.wf(),
            decreases batch@.len() - i,
        {
            let a = action_at(batch, i);
            self.apply(a);
            proof {
                let t1 = batch@.take(i as int + 1);
                assert(t1.drop_last() =~= batch@.take(i as int));
                assert(t1.last() == batch@[i as int]);
            }
            i = i + 1;
        }
        proof {
            assert(batch@.take(batch@.len() as int) =~= batch@);
        }
    }

    /// Resize the grid, keeping what fits of its content: each kept line is
    /// cut or padded to the new width, lines below the kept content are
    /// blank, the cursor is clamped into the new grid, and the title is
    /// kept.
    pub fn resize(&mut self, size: TermSize)
        requires
            old(self)@.wf(),
            size.valid(),
            size.rows <= 0xffff_ffff,
            size.cols <= 0xffff_ffff,
        ensures
            final(self)@.wf(),
            final(self)@ == resized(old(self)@, size.rows as int, size.cols as int),
    {
        let mut grid: Vec<Vec<char>> = Vec::new();
        let mut i: usize = 0;
        while i < size.rows
            invariant
                i <= size.rows,
                size.cols >= 1,
                self.row == old(self).row,
                self.col == old(self).col,
                self.rows == old(self).rows,
                self.cols == old(self).cols,
                self.title == old(self).title,
                grid@.len() == i as int,
                self.grid@.len() == (if old(self).grid@.len() >= i as int {
                    old(self).grid@.len() - i as int
                } else {
                    0int
                }),
                forall|j: int|
                    0 <= j < self.grid@.len() ==> #[trigger] self.grid@[j] == old(self).grid@[j + i],
                forall|j: int|
                    0 <= j < i as int ==> #[trigger] grid@[j]@ == fitted_at(
                        lines_view(old(self).grid@),
                        size.cols as int,
                        j,
                    ),
            decreases size.rows - i,
        {
            let rowv = if self.grid.len() > 0 {
                self.grid.remove(0)
            } else {
                blank_row(size.cols)
            };
            let fitted = fit_line(rowv, size.cols);
            grid.push(fitted);
            proof {
                assert(grid@[i as int]@ == fitted_at(
                    lines_view(old(self).grid@),
                    size.cols as int,
                    i as int,
                ));
            }
            i = i + 1;
        }
        self.grid = grid;
        self.row = if self.row < size.rows {
            self.row
        } else {
            size.rows - 1
        };
        self.col = if self.col < size.cols {
            self.col
        } else {
            size.cols - 1
        };
        self.rows = size.rows;
        self.cols = size.cols;
        proof {
            assert(lines_view(self.grid@) =~= fitted_lines(
                lines_view(old(self).grid@),
                size.rows as int,
                size.cols as int,
            ));
        }
    }
}

/// The action at position `i`.
fn action_at<'a>(batch: &'a Vec<TermAction>, i: usize) -> (a: &'a TermAction)
    requires
        i < batch@.len(),
    ensures
        *a == batch@[i as int],
{
    &batch[i]
}

} // verus!

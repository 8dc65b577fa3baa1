//! Translation of host input events into terminal input.
//!
//! The host hands over pointer positions in pixels relative to the widget
//! origin, wheel deltas already rounded to whole lines, keys in the
//! library's own key alphabet, and modifier states. This module maps them
//! into terminal coordinate space and terminal key events: column and row by
//! floor division with the current cell metrics (column clamped at zero, row
//! allowed to pass through negative when the pointer is above the visible
//! area), keys to the control characters and escape sequences the child
//! expects, and modifiers to the standard additive encoding of the terminal
//! protocol (shift adds one, alt two, control four, on a base of one).

use vstd::arithmetic::div_mod::{
    lemma_div_is_ordered, lemma_div_nonincreasing, lemma_div_pos_is_pos,
    lemma_fundamental_div_mod, lemma_fundamental_div_mod_converse_div,
    lemma_mod_division_less_than_divisor,
};
use vstd::prelude::*;

verus! {

/// The pixel extent of one monospace glyph cell, as measured by the host
/// font system for the current frame. Both extents are whole pixels and at
/// least one, so coordinate division is defined.
#[derive(Clone, Copy, PartialEq, Eq, Structural, Debug)]
pub struct CellMetrics {
    pub width: u32,
    pub height: u32,
}

impl CellMetrics {
    pub open spec fn valid(self) -> bool {
        self.width >= 1 && self.height >= 1
    }

    pub fn new(width: u32, height: u32) -> (r: CellMetrics)
        requires
            width >= 1,
            height >= 1,
        ensures
            r == (CellMetrics { width, height }),
            r.valid(),
    {
        CellMetrics { width, height }
    }
}

/// Modifier keys held during an input event.
#[derive(Clone, Copy, PartialEq, Eq, Structural, Debug)]
pub struct Mods {
    pub shift: bool,
    pub alt: bool,
    pub ctrl: bool,
    pub sup: bool,
}

impl Mods {
    /// No modifier held.
    pub fn none() -> (r: Mods)
        ensures
            r == (Mods { shift: false, alt: false, ctrl: false, sup: false }),
    {
        Mods { shift: false, alt: false, ctrl: false, sup: false }
    }
}

/// The additive modifier parameter of the terminal protocol: one plus one
/// for shift, two for alt, four for control. The super key has no place in
/// this encoding and does not contribute.
pub open spec fn mod_code(m: Mods) -> int {
    1 + (if m.shift {
        1int
    } else {
        0int
    }) + (if m.alt {
        2int
    } else {
        0int
    }) + (if m.ctrl {
        4int
    } else {
        0int
    })
}

/// Encode the held modifiers as the terminal protocol's additive parameter.
pub fn modifier_code(m: Mods) -> (r: u8)
    ensures
        r as int == mod_code(m),
        1 <= r <= 8,
{
    let mut code: u8 = 1;
    if m.shift {
        code = code + 1;
    }
    if m.alt {
        code = code + 2;
    }
    if m.ctrl {
        code = code + 4;
    }
    code
}

/// Terminal column for a pointer at relative pixel `x`: floor division by
/// the cell width, clamped at zero for pointers left of the widget.
pub open spec fn pointer_col(x: int, cell_w: int) -> int
    recommends
        cell_w >= 1,
{
    if x < 0 {
        0
    } else {
        x / cell_w
    }
}

/// Terminal row for a pointer at relative pixel `y`: floor division by the
/// cell height. A pointer above the widget yields a negative row, passed
/// through for the consumer to ignore or use.
pub open spec fn pointer_row(y: int, cell_h: int) -> int
    recommends
        cell_h >= 1,
{
    y / cell_h
}

/// Floor of `-yabs` divided by `h`, computed on the magnitude: the floor of
/// a negative quotient is minus the ceiling of the positive one.
proof fn lemma_neg_div_floor(yabs: int, h: int)
    requires
        yabs >= 0,
        h >= 1,
    ensures
        (-yabs) / h == -((yabs + h - 1) / h),
{
    let q = (-yabs) / h;
    let r = (-yabs) % h;
    lemma_fundamental_div_mod(-yabs, h);
    lemma_mod_division_less_than_divisor(-yabs, h);
    assert(-yabs == h * q + r);
    assert(0 <= r < h);
    assert(yabs + h - 1 == (-q) * h + (h - 1 - r)) by (nonlinear_arith)
        requires
            -yabs == h * q + r,
    ;
    lemma_fundamental_div_mod_converse_div(yabs + h - 1, h, -q, h - 1 - r);
}

/// Map a pointer position, in pixels relative to the widget origin, to the
/// terminal cell it falls in. The column is clamped at zero; the row is the
/// floor of the pixel row over the cell height and may be negative.
pub fn translate_pointer(x: i32, y: i32, cell: &CellMetrics) -> (r: (usize, i64))
    requires
        cell.valid(),
    ensures
        r.0 as int == pointer_col(x as int, cell.width as int),
        r.1 as int == pointer_row(y as int, cell.height as int),
{
    let col: usize = if x < 0 {
        0
    } else {
        proof {
            lemma_div_pos_is_pos(x as int, cell.width as int);
            lemma_div_nonincreasing(x as int, cell.width as int);
        }
        (x as u64 / cell.width as u64) as usize
    };
    let row: i64 = if y >= 0 {
        proof {
            lemma_div_pos_is_pos(y as int, cell.height as int);
            lemma_div_nonincreasing(y as int, cell.height as int);
        }
        (y as u64 / cell.height as u64) as i64
    } else {
        let yabs: u64 = (-(y as i64)) as u64;
        let h: u64 = cell.height as u64;
        let q: u64 = (yabs + (h - 1)) / h;
        proof {
            lemma_div_pos_is_pos(yabs as int + h - 1, h as int);
            lemma_div_nonincreasing(yabs as int + h - 1, h as int);
            lemma_neg_div_floor(yabs as int, h as int);
        }
        -(q as i64)
    };
    (col, row)
}

/// Pointer translation is monotonic: moving the pointer right or down never
/// decreases the computed column or row.
pub proof fn lemma_pointer_monotonic(x1: int, y1: int, x2: int, y2: int, cell_w: int, cell_h: int)
    requires
        cell_w >= 1,
        cell_h >= 1,
        x1 <= x2,
        y1 <= y2,
    ensures
        pointer_col(x1, cell_w) <= pointer_col(x2, cell_w),
        pointer_row(y1, cell_h) <= pointer_row(y2, cell_h),
{
    if 0 <= x2 {
        lemma_div_pos_is_pos(x2, cell_w);
        if 0 <= x1 {
            lemma_div_is_ordered(x1, x2, cell_w);
        }
    }
    lemma_div_is_ordered(y1, y2, cell_h);
}

/// What happened with the pointer.
#[derive(Clone, Copy, PartialEq, Eq, Structural, Debug)]
pub enum MouseKind {
    Move,
    Press,
    Release,
}

/// Which button the event is about. Wheel buttons carry the whole number of
/// lines to scroll as a repeat count.
#[derive(Clone, Copy, PartialEq, Eq, Structural, Debug)]
pub enum MouseButton {
    NoButton,
    Left,
    Middle,
    Right,
    WheelUp(u64),
    WheelDown(u64),
}

/// A pointer event in terminal coordinate space.
#[derive(Clone, Copy, PartialEq, Eq, Structural, Debug)]
pub struct TermMouseEvent {
    pub kind: MouseKind,
    pub col: usize,
    pub row: i64,
    pub button: MouseButton,
    pub mods: Mods,
}

/// Translate a pointer move to a terminal mouse event at the cell under the
/// pointer, carrying no button.
pub fn pointer_moved(x: i32, y: i32, cell: &CellMetrics, mods: Mods) -> (r: TermMouseEvent)
    requires
        cell.valid(),
    ensures
        r.kind == MouseKind::Move,
        r.col as int == pointer_col(x as int, cell.width as int),
        r.row as int == pointer_row(y as int, cell.height as int),
        r.button == MouseButton::NoButton,
        r.mods == mods,
{
    let (col, row) = translate_pointer(x, y, cell);
    TermMouseEvent { kind: MouseKind::Move, col, row, button: MouseButton::NoButton, mods }
}

/// Translate a button press or release at a pointer position.
pub fn pointer_button(
    x: i32,
    y: i32,
    cell: &CellMetrics,
    button: MouseButton,
    pressed: bool,
    mods: Mods,
) -> (r: TermMouseEvent)
    requires
        cell.valid(),
    ensures
        r.kind == (if pressed {
            MouseKind::Press
        } else {
            MouseKind::Release
        }),
        r.col as int == pointer_col(x as int, cell.width as int),
        r.row as int == pointer_row(y as int, cell.height as int),
        r.button == button,
        r.mods == mods,
{
    let (col, row) = translate_pointer(x, y, cell);
    TermMouseEvent {
        kind: if pressed {
            MouseKind::Press
        } else {
            MouseKind::Release
        },
        col,
        row,
        button,
        mods,
    }
}

/// Translate a wheel event at a pointer position. The sign of the delta, in
/// whole lines, selects the scroll direction: a non-negative delta scrolls
/// up, a negative one down; the magnitude rides along as the repeat count.
pub fn scroll_event(
    x: i32,
    y: i32,
    cell: &CellMetrics,
    delta_lines: i32,
    mods: Mods,
) -> (r: TermMouseEvent)
    requires
        cell.valid(),
    ensures
        r.kind == MouseKind::Press,
        r.col as int == pointer_col(x as int, cell.width as int),
        r.row as int == pointer_row(y as int, cell.height as int),
        delta_lines >= 0 ==> r.button == MouseButton::WheelUp(delta_lines as u64),
        delta_lines < 0 ==> r.button == MouseButton::WheelDown((-(delta_lines as i64)) as u64),
        r.mods == mods,
{
    let (col, row) = translate_pointer(x, y, cell);
    let button = if delta_lines >= 0 {
        MouseButton::WheelUp(delta_lines as u64)
    } else {
        MouseButton::WheelDown((-(delta_lines as i64)) as u64)
    };
    TermMouseEvent { kind: MouseKind::Press, col, row, button, mods }
}




} // verus!

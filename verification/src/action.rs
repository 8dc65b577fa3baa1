//! The library's view of decoded terminal actions.
//!
//! The external tokenizer owns the escape-sequence grammar; what reaches the
//! rest of the library is this plain alphabet. Printed text is always carried
//! one character per action, so the stream of actions for a byte sequence
//! does not depend on where the byte sequence was split into reads.

use vstd::prelude::*;

verus! {

/// One decoded terminal action, in normalized form: printable output comes
/// one character at a time. Actions the screen model does not interpret
/// (colors, cursor addressing, device queries) arrive as `Ignored` so that
/// counting and ordering still hold for them.
#[derive(Clone, PartialEq, Eq, Debug)]
pub enum TermAction {
    Print(char),
    LineFeed,
    CarriageReturn,
    Backspace,
    Tab,
    CursorTo { row: u32, col: u32 },
    ClearScreen,
    ClearToEndOfLine,
    SetTitle(String),
    Ignored,
}

} // verus!

//! Decoding the child's byte stream into terminal actions.
//!
//! The escape-sequence grammar itself is owned by termwiz's streaming
//! parser, an external collaborator. The decoder here wraps one parser and
//! guarantees the property the whole bridge rests on: bytes may arrive
//! split at arbitrary read boundaries, and the concatenation of the action
//! batches that come out equals the action stream of the concatenated bytes.

use crate::action::TermAction;
use termwiz::escape::csi::{Cursor, Edit, EraseInDisplay, EraseInLine, CSI};
use termwiz::escape::{Action, ControlCode, OperatingSystemCommand};
use vstd::prelude::*;

verus! {

/// termwiz's streaming escape parser, declared opaque.
#[verifier::external_type_specification]
#[verifier::external_body]
pub struct ExParser(termwiz::escape::parser::Parser);

/// termwiz's decoded action, declared opaque; the library reads it only
/// through its own alphabet.
#[verifier::external_type_specification]
#[verifier::external_body]
pub struct ExAction(termwiz::escape::Action);

/// The bytes a parser has consumed since it was created. This is the
/// parser's abstract state: a streaming parser is a function of everything
/// it has been fed.
pub uninterp spec fn parser_fed(p: termwiz::escape::parser::Parser) -> Seq<u8>;

/// The normalized action stream a freshly created parser emits after
/// consuming exactly `bytes`, one byte per call: under that canonical
/// feeding, tokenization is deterministic, so the stream is a function of
/// the bytes alone. Actions still held back inside an unfinished escape
/// sequence at the end of `bytes` are not part of it.
pub uninterp spec fn tokens_of(bytes: Seq<u8>) -> Seq<TermAction>;

/// Relies on termwiz's `Parser::new`: a new parser has consumed nothing.
#[verifier::external_body]
fn parser_new() -> (p: termwiz::escape::parser::Parser)
    ensures
        parser_fed(p) == Seq::<u8>::empty(),
{
    termwiz::escape::parser::Parser::new()
}

/// Relies on termwiz's `Parser::parse_as_vec`, handed exactly one byte.
/// The parser decides once per call whether it is in its device-control
/// passthrough mode, so emissions depend on how calls split the input; the
/// library therefore feeds it one byte per call, one canonical split, and
/// the emission stream becomes a function of the byte history alone. The
/// call then emits exactly the actions that history determines beyond those
/// already emitted, in order, converted one for one into the library's
/// alphabet.
#[verifier::external_body]
fn parse_byte(p: &mut termwiz::escape::parser::Parser, b: u8) -> (r: Vec<TermAction>)
    ensures
        parser_fed(*final(p)) == parser_fed(*old(p)).push(b),
        tokens_of(parser_fed(*old(p))) + r@ == tokens_of(parser_fed(*final(p))),
{
    let mut out: Vec<TermAction> = Vec::new();
    for a in p.parse_as_vec(&[b]) {
        view_action(a, &mut out);
    }
    out
}

/// termwiz's operating-system command, declared opaque.
#[verifier::external_type_specification]
#[verifier::external_body]
pub struct ExOsc(termwiz::escape::OperatingSystemCommand);

/// Converts one termwiz action into the library's alphabet, splitting
/// printed runs into single characters. Two deliberate choices: the
/// device-control passthrough channel is dropped outright, since it carries
/// no display content for this bridge; every other action the screen model
/// does not interpret (control-sequence, escape, image and query actions)
/// stays in the stream as an `Ignored` placeholder, so that the count and
/// the order of emitted actions are preserved.
#[verifier::external_body]
fn view_action(a: Action, out: &mut Vec<TermAction>) {
    match a {
        Action::Print(c) => out.push(TermAction::Print(c)),
        Action::PrintString(s) => out.extend(s.chars().map(TermAction::Print)),
        Action::DeviceControl(_) => {},
        Action::Control(ControlCode::LineFeed) => out.push(TermAction::LineFeed),
        Action::Control(ControlCode::CarriageReturn) => out.push(TermAction::CarriageReturn),
        Action::Control(ControlCode::Backspace) => out.push(TermAction::Backspace),
        Action::Control(ControlCode::HorizontalTab) => out.push(TermAction::Tab),
        Action::OperatingSystemCommand(osc) => out.push(view_osc(*osc)),
        Action::CSI(csi) => out.push(view_csi(csi)),
        _ => out.push(TermAction::Ignored),
    }
}

/// termwiz's parsed control sequence, declared opaque.
#[verifier::external_type_specification]
#[verifier::external_body]
pub struct ExCsi(termwiz::escape::csi::CSI);

/// Converts absolute cursor addressing and the common erase sequences into
/// the library's alphabet; any other control sequence becomes a
/// placeholder.
#[verifier::external_body]
fn view_csi(csi: CSI) -> (r: TermAction) {
    match csi {
        CSI::Cursor(Cursor::Position { line, col }) => TermAction::CursorTo {
            row: line.as_zero_based(),
            col: col.as_zero_based(),
        },
        CSI::Edit(Edit::EraseInDisplay(EraseInDisplay::EraseDisplay)) => TermAction::ClearScreen,
        CSI::Edit(Edit::EraseInLine(EraseInLine::EraseToEndOfLine)) => TermAction::ClearToEndOfLine,
        _ => TermAction::Ignored,
    }
}

/// Converts a window-title command into the library's alphabet; any other
/// operating-system command becomes a placeholder.
#[verifier::external_body]
fn view_osc(osc: OperatingSystemCommand) -> (r: TermAction) {
    match osc {
        OperatingSystemCommand::SetWindowTitle(t) => TermAction::SetTitle(t),
        OperatingSystemCommand::SetIconNameAndWindowTitle(t) => TermAction::SetTitle(t),
        _ => TermAction::Ignored,
    }
}

/// A streaming decoder: one stateful tokenizer, fed every byte the child
/// produces, in order. Its abstract state is the byte sequence fed so far.
pub struct Decoder {
    parser: termwiz::escape::parser::Parser,
}

impl Decoder {
    /// The bytes fed so far.
    pub closed spec fn view(self) -> Seq<u8> {
        parser_fed(self.parser)
    }

    pub fn new() -> (r: Decoder)
        ensures
            r@ == Seq::<u8>::empty(),
    {
        Decoder { parser: parser_new() }
    }

    /// Feed one read's worth of bytes; the actions that come back are
    /// exactly the extension of the token stream by these bytes, wherever
    /// the read boundaries fall.
    pub fn feed(&mut self, bytes: &[u8]) -> (r: Vec<TermAction>)
        ensures
            final(self)@ == old(self)@ + bytes@,
            tokens_of(old(self)@) + r@ == tokens_of(final(self)@),
    {
        let mut r: Vec<TermAction> = Vec::new();
        let mut i: usize = 0;
        proof {
            assert(old(self)@ + bytes@.take(0) =~= old(self)@);
        }
        while i < bytes.len()
            invariant
                i <= bytes@.len(),
                self@ == old(self)@ + bytes@.take(i as int),
                tokens_of(old(self)@) + r@ == tokens_of(self@),
            decreases bytes@.len() - i,
        {
            let b = byte_at(bytes, i);
            let ghost fed_before = self@;
            let ghost r_before = r@;
            let mut batch = parse_byte(&mut self.parser, b);
            let ghost batch_view = batch@;
            r.append(&mut batch);
            proof {
                assert(self@ == fed_before.push(b));
                assert(fed_before.push(b) =~= old(self)@ + bytes@.take(i as int + 1));
                assert(r@ == r_before + batch_view);
                assert(tokens_of(old(self)@) + (r_before + batch_view) =~= (tokens_of(old(self)@)
                    + r_before) + batch_view);
            }
            i = i + 1;
        }
        proof {
            assert(old(self)@ + bytes@.take(bytes@.len() as int) =~= old(self)@ + bytes@);
        }
        r
    }
}

/// The byte at position `i`.
fn byte_at(bytes: &[u8], i: usize) -> (b: u8)
    requires
        i < bytes@.len(),
    ensures
        b == bytes@[i as int],
{
    *vstd::slice::slice_index_get(bytes, i)
}

/// Chunk-boundary invariance: splitting a byte stream across two feeds
/// emits, in concatenation, exactly what one feed of the concatenated bytes
/// emits. The hypotheses are the contracts `feed` gives for the two split
/// feeds and for the single whole feed, all starting from the same already
/// fed prefix `s`.
pub proof fn lemma_chunk_boundary_invariance(
    s: Seq<u8>,
    a: Seq<u8>,
    b: Seq<u8>,
    r1: Seq<TermAction>,
    r2: Seq<TermAction>,
    r: Seq<TermAction>,
)
    requires
        tokens_of(s) + r1 == tokens_of(s + a),
        tokens_of(s + a) + r2 == tokens_of(s + a + b),
        tokens_of(s) + r == tokens_of(s + (a + b)),
    ensures
        r == r1 + r2,
{
    let x = tokens_of(s);
    assert(s + a + b =~= s + (a + b));
    assert(x + (r1 + r2) =~= (x + r1) + r2);
    assert(x + (r1 + r2) == x + r);
    assert forall|i: int| 0 <= i < r.len() implies r[i] == (r1 + r2)[i] by {
        assert((x + r)[x.len() + i] == r[i]);
        assert((x + (r1 + r2))[x.len() + i] == (r1 + r2)[i]);
    }
    assert(r.len() == (r1 + r2).len());
    assert(r =~= r1 + r2);
}

} // verus!

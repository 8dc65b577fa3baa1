use std::sync::mpsc::channel;

use egui_terminal::action::TermAction;
use egui_terminal::decoder::Decoder;
use egui_terminal::screen::Screen;
use egui_terminal::session::{DrainEnd, Session};
use egui_terminal::size::TermSize;

fn line_string(s: &Screen, i: usize) -> String {
    s.line(i).iter().collect()
}

#[test]
fn decoder_prints_plain_text_one_char_each() {
    let mut d = Decoder::new();
    let acts = d.feed(b"hi");
    assert_eq!(
        acts,
        vec![TermAction::Print('h'), TermAction::Print('i')]
    );
}

#[test]
fn decoder_reports_controls() {
    let mut d = Decoder::new();
    let acts = d.feed(b"a\r\nb\tc\x08");
    assert_eq!(
        acts,
        vec![
            TermAction::Print('a'),
            TermAction::CarriageReturn,
            TermAction::LineFeed,
            TermAction::Print('b'),
            TermAction::Tab,
            TermAction::Print('c'),
            TermAction::Backspace,
        ]
    );
}

#[test]
fn decoder_is_chunk_boundary_invariant() {
    // Feeding the same bytes in one read or split anywhere, even inside an
    // escape sequence, yields the same action stream.
    let bytes = b"ab\x1b[1mC\x1b]0;title\x07d";
    let mut whole = Decoder::new();
    let expected = whole.feed(bytes);
    for cut in 0..=bytes.len() {
        let mut split = Decoder::new();
        let mut got = split.feed(&bytes[..cut]);
        got.extend(split.feed(&bytes[cut..]));
        assert_eq!(got, expected, "split at {cut}");
    }
}

#[test]
fn decoder_reports_title_changes() {
    let mut d = Decoder::new();
    let acts = d.feed(b"\x1b]0;hello there\x07");
    assert_eq!(acts, vec![TermAction::SetTitle("hello there".to_string())]);
}

#[test]
fn screen_prints_a_line() {
    let mut s = Screen::new(TermSize::new(4, 10));
    let mut d = Decoder::new();
    let acts = d.feed(b"hello\r\n");
    s.apply_all(&acts);
    assert_eq!(line_string(&s, 0), "hello     ");
    assert_eq!(s.cursor(), (1, 0));
}

#[test]
fn screen_wraps_at_the_right_edge() {
    let mut s = Screen::new(TermSize::new(2, 3));
    for c in ['a', 'b', 'c', 'd'] {
        s.apply(&TermAction::Print(c));
    }
    assert_eq!(line_string(&s, 0), "abc");
    assert_eq!(line_string(&s, 1), "d  ");
    assert_eq!(s.cursor(), (1, 1));
}

#[test]
fn screen_scrolls_when_the_bottom_fills() {
    let mut s = Screen::new(TermSize::new(2, 4));
    let mut d = Decoder::new();
    let acts = d.feed(b"one\r\ntwo\r\nsix");
    s.apply_all(&acts);
    assert_eq!(line_string(&s, 0), "two ");
    assert_eq!(line_string(&s, 1), "six ");
}

#[test]
fn screen_carriage_return_and_backspace_move_the_cursor() {
    let mut s = Screen::new(TermSize::new(2, 8));
    s.apply(&TermAction::Print('x'));
    s.apply(&TermAction::Print('y'));
    s.apply(&TermAction::Backspace);
    assert_eq!(s.cursor(), (0, 1));
    s.apply(&TermAction::CarriageReturn);
    assert_eq!(s.cursor(), (0, 0));
}

#[test]
fn screen_tab_stops_every_eight_columns() {
    let mut s = Screen::new(TermSize::new(2, 20));
    s.apply(&TermAction::Print('a'));
    s.apply(&TermAction::Tab);
    assert_eq!(s.cursor(), (0, 8));
    s.apply(&TermAction::Tab);
    assert_eq!(s.cursor(), (0, 16));
    s.apply(&TermAction::Tab);
    assert_eq!(s.cursor(), (0, 19));
}

#[test]
fn screen_title_follows_the_stream() {
    let mut s = Screen::new(TermSize::new(2, 8));
    let mut d = Decoder::new();
    let acts = d.feed(b"\x1b]0;shell\x07");
    s.apply_all(&acts);
    assert_eq!(s.title_str().as_str(), "shell");
}

#[test]
fn session_drains_batches_in_order() {
    let (tx, rx) = channel::<Vec<TermAction>>();
    let mut session = Session::new(TermSize::new(4, 10), rx);
    tx.send(vec![TermAction::Print('h'), TermAction::Print('i')]).unwrap();
    tx.send(vec![TermAction::Print('!')]).unwrap();
    let (end, _) = session.drain_and_apply(1024);
    assert_eq!(end, DrainEnd::Empty);
    assert_eq!(line_string(session.screen(), 0), "hi!       ");
}

#[test]
fn session_drain_is_exhaustive_per_frame() {
    // After one drain, an immediate second drain finds nothing: the screen
    // does not change when no new data arrived in between.
    let (tx, rx) = channel::<Vec<TermAction>>();
    let mut session = Session::new(TermSize::new(4, 10), rx);
    tx.send(vec![TermAction::Print('a')]).unwrap();
    let (first_end, _) = session.drain_and_apply(1024);
    assert_eq!(first_end, DrainEnd::Empty);
    let before = line_string(session.screen(), 0);
    let cursor_before = session.screen().cursor();
    let (second_end, _) = session.drain_and_apply(1024);
    assert_eq!(second_end, DrainEnd::Empty);
    assert_eq!(line_string(session.screen(), 0), before);
    assert_eq!(session.screen().cursor(), cursor_before);
}

#[test]
fn session_sees_the_stream_end() {
    let (tx, rx) = channel::<Vec<TermAction>>();
    let mut session = Session::new(TermSize::new(4, 10), rx);
    tx.send(vec![TermAction::Print('z')]).unwrap();
    drop(tx);
    let (end, _) = session.drain_and_apply(1024);
    assert_eq!(end, DrainEnd::Closed);
    assert!(session.closed());
    assert_eq!(line_string(session.screen(), 0), "z         ");
}

#[test]
fn session_frame_resizes_once_per_change() {
    let (_tx, rx) = channel::<Vec<TermAction>>();
    let mut session = Session::new(TermSize::new(24, 80), rx);
    let (resize, end, _) = session.frame(800, 400, 8, 16, 1024);
    assert_eq!(resize, Some(TermSize { rows: 25, cols: 100 }));
    assert_eq!(end, DrainEnd::Empty);
    assert_eq!(session.screen().size(), TermSize { rows: 25, cols: 100 });
    let (again, _, _) = session.frame(800, 400, 8, 16, 1024);
    assert_eq!(again, None);
}

#[test]
fn session_drain_reports_an_exhausted_budget() {
    let (tx, rx) = channel::<Vec<TermAction>>();
    let mut session = Session::new(TermSize::new(4, 10), rx);
    tx.send(vec![TermAction::Print('a')]).unwrap();
    tx.send(vec![TermAction::Print('b')]).unwrap();
    tx.send(vec![TermAction::Print('c')]).unwrap();
    let (end, _) = session.drain_and_apply(2);
    assert_eq!(end, DrainEnd::Budget);
    assert_eq!(line_string(session.screen(), 0), "ab        ");
    let (rest, _) = session.drain_and_apply(2);
    assert_eq!(rest, DrainEnd::Empty);
    assert_eq!(line_string(session.screen(), 0), "abc       ");
}

#[test]
fn decoder_reports_cursor_addressing_and_erase() {
    let mut d = Decoder::new();
    let acts = d.feed(b"\x1b[2;3H\x1b[2J\x1b[K");
    assert_eq!(
        acts,
        vec![
            TermAction::CursorTo { row: 1, col: 2 },
            TermAction::ClearScreen,
            TermAction::ClearToEndOfLine,
        ]
    );
}

#[test]
fn screen_cursor_addressing_is_clamped() {
    let mut s = Screen::new(TermSize::new(4, 10));
    s.apply(&TermAction::CursorTo { row: 2, col: 3 });
    assert_eq!(s.cursor(), (2, 3));
    s.apply(&TermAction::CursorTo { row: 99, col: 99 });
    assert_eq!(s.cursor(), (3, 9));
}

#[test]
fn screen_clear_scenario() {
    // The clear sequence homes the cursor and blanks the display.
    let mut s = Screen::new(TermSize::new(2, 4));
    let mut d = Decoder::new();
    let acts = d.feed(b"abcd\x1b[H\x1b[2J");
    s.apply_all(&acts);
    assert_eq!(line_string(&s, 0), "    ");
    assert_eq!(line_string(&s, 1), "    ");
    assert_eq!(s.cursor(), (0, 0));
}

#[test]
fn screen_erases_to_the_end_of_the_line() {
    let mut s = Screen::new(TermSize::new(2, 6));
    let mut d = Decoder::new();
    let acts = d.feed(b"hello\r\x1b[2C\x1b[K");
    s.apply_all(&acts);
    // Cursor-forward is not modeled, so the erase acts from column zero.
    assert_eq!(line_string(&s, 0), "      ");
    let acts2 = d.feed(b"ab\x1b[1;2H\x1b[K");
    s.apply_all(&acts2);
    assert_eq!(line_string(&s, 0), "a     ");
}

#[test]
fn session_resize_keeps_what_fits() {
    let (tx, rx) = channel::<Vec<TermAction>>();
    let mut session = Session::new(TermSize::new(4, 10), rx);
    tx.send(vec![
        TermAction::Print('w'),
        TermAction::Print('i'),
        TermAction::Print('d'),
        TermAction::Print('e'),
    ])
    .unwrap();
    let (resize, end, _) = session.frame(24, 32, 8, 16, 1024);
    assert_eq!(end, DrainEnd::Empty);
    assert_eq!(resize, Some(TermSize { rows: 2, cols: 3 }));
    // The kept lines are cut to the new width; the cursor is clamped in.
    assert_eq!(line_string(session.screen(), 0), "wid");
    assert_eq!(session.screen().cursor(), (0, 2));
}

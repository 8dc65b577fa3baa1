use egui_terminal::cluster::{cluster_cells, Span, StyledCell};
use egui_terminal::input::{
    modifier_code, pointer_button, pointer_moved, scroll_event, translate_pointer, CellMetrics,
    Mods, MouseButton, MouseKind,
};
use egui_terminal::keys::{encode_key_down, text_events, Key};
use egui_terminal::size::{fit_viewport, SizeNegotiator, TermSize};
use egui_terminal::style::{span_format, CellAttrs, StyleConfig, StyleTracker};

fn mods(shift: bool, alt: bool, ctrl: bool) -> Mods {
    Mods { shift, alt, ctrl, sup: false }
}

#[test]
fn negotiate_scenario_viewport() {
    // Viewport 800x400 px at 8x16 px cells gives 100 columns and 25 rows;
    // shrinking to 400x200 px gives 50 and 12, with exactly one real resize
    // per transition.
    let mut n = SizeNegotiator::new(TermSize::new(24, 80));
    let first = n.negotiate(800, 400, 8, 16);
    assert_eq!(first, Some(TermSize { rows: 25, cols: 100 }));
    assert_eq!(n.issued, 1);
    let second = n.negotiate(400, 200, 8, 16);
    assert_eq!(second, Some(TermSize { rows: 12, cols: 50 }));
    assert_eq!(n.issued, 2);
}

#[test]
fn negotiate_is_idempotent() {
    // Negotiating the same viewport twice issues only one resize: the
    // second call reports nothing and changes nothing.
    let mut n = SizeNegotiator::new(TermSize::new(10, 10));
    let first = n.negotiate(640, 384, 8, 16);
    assert_eq!(first, Some(TermSize { rows: 24, cols: 80 }));
    let issued_after_first = n.issued;
    let second = n.negotiate(640, 384, 8, 16);
    assert_eq!(second, None);
    assert_eq!(n.issued, issued_after_first);
    assert_eq!(n.last, TermSize { rows: 24, cols: 80 });
}

#[test]
fn negotiate_clamps_to_one_cell() {
    let s = fit_viewport(3, 2, 8, 16);
    assert_eq!(s, TermSize { rows: 1, cols: 1 });
}

#[test]
fn pointer_click_scenario() {
    // A click at pixel (42, 18) with cell size 8x9 lands in column 5, row 2.
    let cell = CellMetrics::new(8, 9);
    let (col, row) = translate_pointer(42, 18, &cell);
    assert_eq!(col, 5);
    assert_eq!(row, 2);
}

#[test]
fn pointer_above_widget_keeps_negative_row() {
    let cell = CellMetrics::new(8, 16);
    let (col, row) = translate_pointer(-3, -1, &cell);
    assert_eq!(col, 0);
    assert_eq!(row, -1);
    let (_, row2) = translate_pointer(0, -17, &cell);
    assert_eq!(row2, -2);
}

#[test]
fn pointer_translation_is_monotonic_on_samples() {
    let cell = CellMetrics::new(7, 13);
    let mut prev_col = 0usize;
    let mut prev_row = i64::MIN;
    let mut x = -40;
    while x <= 40 {
        let (col, row) = translate_pointer(x, x, &cell);
        assert!(col >= prev_col);
        assert!(row >= prev_row);
        prev_col = col;
        prev_row = row;
        x += 1;
    }
}

#[test]
fn pointer_events_carry_kind_and_button() {
    let cell = CellMetrics::new(8, 16);
    let m = mods(false, false, false);
    let mv = pointer_moved(16, 32, &cell, m);
    assert_eq!(mv.kind, MouseKind::Move);
    assert_eq!((mv.col, mv.row), (2, 2));
    assert_eq!(mv.button, MouseButton::NoButton);
    let press = pointer_button(0, 0, &cell, MouseButton::Left, true, m);
    assert_eq!(press.kind, MouseKind::Press);
    let release = pointer_button(0, 0, &cell, MouseButton::Left, false, m);
    assert_eq!(release.kind, MouseKind::Release);
}

#[test]
fn scroll_sign_selects_direction() {
    let cell = CellMetrics::new(8, 16);
    let m = mods(false, false, false);
    let up = scroll_event(0, 0, &cell, 3, m);
    assert_eq!(up.button, MouseButton::WheelUp(3));
    assert_eq!(up.kind, MouseKind::Press);
    let down = scroll_event(0, 0, &cell, -2, m);
    assert_eq!(down.button, MouseButton::WheelDown(2));
    let zero = scroll_event(0, 0, &cell, 0, m);
    assert_eq!(zero.button, MouseButton::WheelUp(0));
}

#[test]
fn modifier_code_is_exact_for_every_combination() {
    for s in [false, true] {
        for a in [false, true] {
            for c in [false, true] {
                for sup in [false, true] {
                    let m = Mods { shift: s, alt: a, ctrl: c, sup };
                    let expected =
                        1 + (s as u8) + 2 * (a as u8) + 4 * (c as u8);
                    assert_eq!(modifier_code(m), expected);
                }
            }
        }
    }
}

#[test]
fn text_input_scenario() {
    // Text "ab" with no modifiers becomes exactly four key events in order:
    // down 'a', up 'a', down 'b', up 'b'.
    let m = mods(false, false, false);
    let evs = text_events(&vec!['a', 'b'], m);
    assert_eq!(evs.len(), 4);
    assert_eq!(evs[0].key, Key::Char('a'));
    assert!(evs[0].down);
    assert_eq!(evs[1].key, Key::Char('a'));
    assert!(!evs[1].down);
    assert_eq!(evs[2].key, Key::Char('b'));
    assert!(evs[2].down);
    assert_eq!(evs[3].key, Key::Char('b'));
    assert!(!evs[3].down);
    for e in &evs {
        assert_eq!(e.mods, m);
    }
}

#[test]
fn key_encoding_table() {
    let none = mods(false, false, false);
    assert_eq!(encode_key_down(Key::Enter, none), vec!['\r']);
    assert_eq!(encode_key_down(Key::Tab, none), vec!['\t']);
    assert_eq!(encode_key_down(Key::Backspace, none), vec!['\u{7f}']);
    assert_eq!(encode_key_down(Key::Escape, none), vec!['\u{1b}']);
    assert_eq!(encode_key_down(Key::Char('a'), none), vec!['a']);
    assert_eq!(
        encode_key_down(Key::Char('c'), mods(false, false, true)),
        vec!['\u{3}']
    );
    assert_eq!(
        encode_key_down(Key::Char('x'), mods(false, true, false)),
        vec!['\u{1b}', 'x']
    );
    assert_eq!(encode_key_down(Key::Up, none), vec!['\u{1b}', '[', 'A']);
    assert_eq!(encode_key_down(Key::Left, none), vec!['\u{1b}', '[', 'D']);
    assert_eq!(
        encode_key_down(Key::Up, mods(false, false, true)),
        vec!['\u{1b}', '[', '1', ';', '5', 'A']
    );
    assert_eq!(
        encode_key_down(Key::Delete, none),
        vec!['\u{1b}', '[', '3', '~']
    );
    assert_eq!(
        encode_key_down(Key::Delete, mods(true, false, false)),
        vec!['\u{1b}', '[', '3', ';', '2', '~']
    );
}

#[test]
fn clustering_splits_on_attribute_changes() {
    let cells = vec![
        StyledCell { ch: 'h', style: 1 },
        StyledCell { ch: 'i', style: 1 },
        StyledCell { ch: '!', style: 2 },
        StyledCell { ch: '?', style: 1 },
    ];
    let spans = cluster_cells(&cells);
    assert_eq!(
        spans,
        vec![
            Span { start: 0, end: 2, style: 1 },
            Span { start: 2, end: 3, style: 2 },
            Span { start: 3, end: 4, style: 1 },
        ]
    );
}

#[test]
fn clustering_of_uniform_line_is_one_span() {
    let cells = vec![StyledCell { ch: 'x', style: 7 }; 5];
    let spans = cluster_cells(&cells);
    assert_eq!(spans, vec![Span { start: 0, end: 5, style: 7 }]);
}

#[test]
fn clustering_of_empty_line_is_empty() {
    let spans = cluster_cells(&Vec::new());
    assert!(spans.is_empty());
}

#[test]
fn style_reconciliation_is_idempotent() {
    let start = StyleConfig { font_px: 12, palette: 0 };
    let wanted = StyleConfig { font_px: 14, palette: 1 };
    let mut t = StyleTracker::new(start);
    assert_eq!(t.reconcile(wanted), Some(wanted));
    assert_eq!(t.reconcile(wanted), None);
    assert_eq!(t.last, wanted);
    assert_eq!(t.reconcile(start), Some(start));
}

#[test]
fn span_format_follows_the_attributes() {
    let plain = CellAttrs {
        fg: 0x00ff_ffff,
        bg: 0x0000_0000,
        underline_color: 0x0000_00ff,
        italic: false,
        underline: false,
        strikethrough: false,
    };
    let f = span_format(plain);
    assert_eq!(f.color, 0x00ff_ffff);
    assert_eq!(f.background, 0x0000_0000);
    assert!(!f.italics);
    assert_eq!(f.underline, None);
    assert_eq!(f.strikethrough, None);

    let fancy = CellAttrs { italic: true, underline: true, strikethrough: true, ..plain };
    let g = span_format(fancy);
    assert!(g.italics);
    assert_eq!(g.underline, Some(0x0000_00ff));
    assert_eq!(g.strikethrough, Some(0x00ff_ffff));
}

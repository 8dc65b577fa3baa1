//! Keyboard translation: the library's key alphabet, the key events typed
//! text expands to, and the byte encoding a key-down sends to the child.

use crate::input::{mod_code, modifier_code, Mods};
use vstd::prelude::*;

verus! {

/// A key in the library's own alphabet. The host maps its key type into
/// this one and drops keys with no terminal equivalent before calling in.
#[derive(Clone, Copy, PartialEq, Eq, Structural, Debug)]
pub enum Key {
    Char(char),
    Enter,
    Tab,
    Backspace,
    Escape,
    Up,
    Down,
    Right,
    Left,
    Delete,
}

/// One terminal key event: a key going down or up with the modifiers held.
#[derive(Clone, Copy, PartialEq, Eq, Structural, Debug)]
pub struct KeyEvent {
    pub key: Key,
    pub mods: Mods,
    pub down: bool,
}

/// The event at position `i` of a typed-text batch: the key-down of the
/// character at `i / 2` on even positions, its key-up right after.
pub open spec fn text_event_at(s: Seq<char>, m: Mods, i: int) -> KeyEvent {
    KeyEvent { key: Key::Char(s[i / 2]), mods: m, down: i % 2 == 0 }
}

/// The key events for typed text: each character becomes a key-down
/// immediately followed by a key-up, in character order.
pub open spec fn text_event_seq(s: Seq<char>, m: Mods) -> Seq<KeyEvent> {
    Seq::new(2 * s.len(), |i: int| text_event_at(s, m, i))
}

/// The character at position `i`.
fn char_at(chars: &Vec<char>, i: usize) -> (c: char)
    requires
        i < chars@.len(),
    ensures
        c == chars@[i as int],
{
    chars[i]
}

/// Translate typed text into terminal key events: one key-down and one
/// key-up per character, in character order, all with the same modifiers.
/// Character translation is total here, so the whole batch is always
/// delivered; a host key with no terminal equivalent never reaches this
/// function.
pub fn text_events(chars: &Vec<char>, mods: Mods) -> (r: Vec<KeyEvent>)
    ensures
        r@ == text_event_seq(chars@, mods),
        r@.len() == 2 * chars@.len(),
{
    let mut r: Vec<KeyEvent> = Vec::new();
    let mut i: usize = 0;
    while i < chars.len()
        invariant
            i <= chars@.len(),
            r@ == text_event_seq(chars@.take(i as int), mods),
            r@.len() == 2 * i,
        decreases chars@.len() - i,
    {
        let c = char_at(chars, i);
        let ev_d = KeyEvent { key: Key::Char(c), mods, down: true };
        let ev_u = KeyEvent { key: Key::Char(c), mods, down: false };
        let ghost prev = r@;
        r.push(ev_d);
        r.push(ev_u);
        proof {
            let t0 = chars@.take(i as int);
            let t1 = chars@.take(i as int + 1);
            assert(r@ == prev.push(ev_d).push(ev_u));
            assert(prev.len() == 2 * (i as int));
            assert(prev.push(ev_d).len() == 2 * (i as int) + 1);
            assert(prev.push(ev_d).push(ev_u).len() == 2 * (i as int) + 2);
            assert forall|j: int| 0 <= j < 2 * (i as int) + 2 implies r@[j] == text_event_seq(
                t1,
                mods,
            )[j] by {
                assert(text_event_seq(t1, mods)[j] == text_event_at(t1, mods, j));
                if j < 2 * (i as int) {
                    assert(prev.push(ev_d).push(ev_u)[j] == prev[j]);
                    assert(text_event_seq(t0, mods)[j] == text_event_at(t0, mods, j));
                    assert(t0[j / 2] == t1[j / 2]);
                } else if j == 2 * (i as int) {
                    assert(prev.push(ev_d).push(ev_u)[j] == ev_d);
                    assert(j / 2 == i as int && j % 2 == 0);
                    assert(t1[i as int] == c);
                } else {
                    assert(prev.push(ev_d).push(ev_u)[j] == ev_u);
                    assert(j / 2 == i as int && j % 2 == 1);
                    assert(t1[i as int] == c);
                }
            }
            assert(r@ =~= text_event_seq(t1, mods));
        }
        i = i + 1;
    }
    proof {
        assert(chars@.take(chars@.len() as int) =~= chars@);
    }
    r
}

/// The shape of a typed-text batch: the event at each even position is the
/// key-down of the character at half that position, immediately followed by
/// its key-up.
pub proof fn lemma_text_event_shape(s: Seq<char>, m: Mods)
    ensures
        text_event_seq(s, m).len() == 2 * s.len(),
        forall|i: int|
            0 <= i < s.len() ==> #[trigger] text_event_seq(s, m)[2 * i] == (KeyEvent {
                key: Key::Char(s[i]),
                mods: m,
                down: true,
            }),
        forall|i: int|
            0 <= i < s.len() ==> #[trigger] text_event_seq(s, m)[2 * i + 1] == (KeyEvent {
                key: Key::Char(s[i]),
                mods: m,
                down: false,
            }),
{
    assert forall|i: int| 0 <= i < s.len() implies #[trigger] text_event_seq(s, m)[2 * i]
        == (KeyEvent { key: Key::Char(s[i]), mods: m, down: true }) by {
        assert((2 * i) / 2 == i && (2 * i) % 2 == 0);
    }
    assert forall|i: int| 0 <= i < s.len() implies #[trigger] text_event_seq(s, m)[2 * i + 1]
        == (KeyEvent { key: Key::Char(s[i]), mods: m, down: false }) by {
        assert((2 * i + 1) / 2 == i && (2 * i + 1) % 2 == 1);
    }
}

/// The bytes-as-characters a key-down sends to the child, per the common
/// terminal protocol: carriage return for enter, tab, delete for backspace,
/// escape; cursor keys as escape-bracket sequences, with the additive
/// modifier parameter spliced in when a modifier is held; printable
/// characters as themselves, folded onto the control plane when control is
/// held with a lowercase letter, and prefixed with escape when alt is held.
pub fn encode_key_down(key: Key, m: Mods) -> (r: Vec<char>)
    ensures
        (match key {
            Key::Enter => r@ =~= seq!['\r'],
            Key::Tab => r@ =~= seq!['\t'],
            Key::Backspace => r@ =~= seq!['\u{7f}'],
            Key::Escape => r@ =~= seq!['\u{1b}'],
            Key::Char(c) => {
                let base: int = if m.ctrl && 'a' <= c && c <= 'z' {
                    c as int % 32
                } else {
                    c as int
                };
                if m.alt {
                    r@.len() == 2 && r@[0] == '\u{1b}' && r@[1] as int == base
                } else {
                    r@.len() == 1 && r@[0] as int == base
                }
            },
            Key::Up | Key::Down | Key::Right | Key::Left => {
                let letter: char = match key {
                    Key::Up => 'A',
                    Key::Down => 'B',
                    Key::Right => 'C',
                    Key::Left => 'D',
                    _ => ' ',
                };
                if mod_code(m) == 1 {
                    r@ =~= seq!['\u{1b}', '[', letter]
                } else {
                    r@.len() == 6 && r@[0] == '\u{1b}' && r@[1] == '[' && r@[2] == '1' && r@[3]
                        == ';' && r@[4] as int == '0' as int + mod_code(m) && r@[5] == letter
                }
            },
            Key::Delete => {
                if mod_code(m) == 1 {
                    r@ =~= seq!['\u{1b}', '[', '3', '~']
                } else {
                    r@.len() == 6 && r@[0] == '\u{1b}' && r@[1] == '[' && r@[2] == '3' && r@[3]
                        == ';' && r@[4] as int == '0' as int + mod_code(m) && r@[5] == '~'
                }
            },
        }),
{
    let mut r: Vec<char> = Vec::new();
    match key {
        Key::Enter => r.push('\r'),
        Key::Tab => r.push('\t'),
        Key::Backspace => r.push('\u{7f}'),
        Key::Escape => r.push('\u{1b}'),
        Key::Char(c) => {
            let base: char = if m.ctrl && 'a' <= c && c <= 'z' {
                (((c as u32) % 32) as u8) as char
            } else {
                c
            };
            if m.alt {
                r.push('\u{1b}');
            }
            r.push(base);
        },
        Key::Up | Key::Down | Key::Right | Key::Left => {
            let letter: char = match key {
                Key::Up => 'A',
                Key::Down => 'B',
                Key::Right => 'C',
                Key::Left => 'D',
                _ => ' ',
            };
            let code = modifier_code(m);
            r.push('\u{1b}');
            r.push('[');
            if code > 1 {
                r.push('1');
                r.push(';');
                r.push((('0' as u8) + code) as char);
            }
            r.push(letter);
        },
        Key::Delete => {
            let code = modifier_code(m);
            r.push('\u{1b}');
            r.push('[');
            r.push('3');
            if code > 1 {
                r.push(';');
                r.push((('0' as u8) + code) as char);
            }
            r.push('~');
        },
    }
    r
}

} // verus!

//! The US layout of the 104-key PC keyboard.

use super::{DecodedKey, HandleCtrl, KeyCode, KeyboardLayout, Modifiers};
use vstd::prelude::*;

verus! {

pub struct Us104Key;

/// The place of a letter key in the alphabet, from 0 for `A` to 25 for
/// `Z`; `None` for every other key.
pub open spec fn letter_index(code: KeyCode) -> Option<u8> {
    match code {
        KeyCode::A => Some(0u8),
        KeyCode::B => Some(1u8),
        KeyCode::C => Some(2u8),
        KeyCode::D => Some(3u8),
        KeyCode::E => Some(4u8),
        KeyCode::F => Some(5u8),
        KeyCode::G => Some(6u8),
        KeyCode::H => Some(7u8),
        KeyCode::I => Some(8u8),
        KeyCode::J => Some(9u8),
        KeyCode::K => Some(10u8),
        KeyCode::L => Some(11u8),
        KeyCode::M => Some(12u8),
        KeyCode::N => Some(13u8),
        KeyCode::O => Some(14u8),
        KeyCode::P => Some(15u8),
        KeyCode::Q => Some(16u8),
        KeyCode::R => Some(17u8),
        KeyCode::S => Some(18u8),
        KeyCode::T => Some(19u8),
        KeyCode::U => Some(20u8),
        KeyCode::V => Some(21u8),
        KeyCode::W => Some(22u8),
        KeyCode::X => Some(23u8),
        KeyCode::Y => Some(24u8),
        KeyCode::Z => Some(25u8),
        _ => None,
    }
}

/// The two symbols of a printable key that is no letter: the one it gives
/// alone and the one it gives with Shift.
pub open spec fn symbols(code: KeyCode) -> Option<(char, char)> {
    match code {
        KeyCode::BackTick => Some(('`', '~')),
        KeyCode::Key1 => Some(('1', '!')),
        KeyCode::Key2 => Some(('2', '@')),
        KeyCode::Key3 => Some(('3', '#')),
        KeyCode::Key4 => Some(('4', '$')),
        KeyCode::Key5 => Some(('5', '%')),
        KeyCode::Key6 => Some(('6', '^')),
        KeyCode::Key7 => Some(('7', '&')),
        KeyCode::Key8 => Some(('8', '*')),
        KeyCode::Key9 => Some(('9', '(')),
        KeyCode::Key0 => Some(('0', ')')),
        KeyCode::Minus => Some(('-', '_')),
        KeyCode::Equals => Some(('=', '+')),
        KeyCode::BracketSquareLeft => Some(('[', '{')),
        KeyCode::BracketSquareRight => Some((']', '}')),
        KeyCode::BackSlash => Some(('\\', '|')),
        KeyCode::SemiColon => Some((';', ':')),
        KeyCode::Quote => Some(('\'', '"')),
        KeyCode::Comma => Some((',', '<')),
        KeyCode::Fullstop => Some(('.', '>')),
        KeyCode::Slash => Some(('/', '?')),
        _ => None,
    }
}

/// The character of a key that gives the same one whatever the
/// modifiers are.
pub open spec fn fixed_char(code: KeyCode) -> Option<char> {
    match code {
        KeyCode::Escape => Some('\u{1b}'),
        KeyCode::Backspace => Some('\u{08}'),
        KeyCode::Tab => Some('\t'),
        KeyCode::Enter => Some('\n'),
        KeyCode::Spacebar => Some(' '),
        KeyCode::Delete => Some('\u{7f}'),
        KeyCode::NumpadSlash => Some('/'),
        KeyCode::NumpadStar => Some('*'),
        KeyCode::NumpadMinus => Some('-'),
        KeyCode::NumpadPlus => Some('+'),
        KeyCode::Numpad5 => Some('5'),
        KeyCode::NumpadEnter => Some('\n'),
        _ => None,
    }
}

/// The two readings of a keypad key that Num Lock switches: its
/// character with the lock on, and what it stands for with the lock off.
pub open spec fn keypad(code: KeyCode) -> Option<(char, DecodedKey)> {
    match code {
        KeyCode::Numpad7 => Some(('7', DecodedKey::RawKey(KeyCode::Home))),
        KeyCode::Numpad8 => Some(('8', DecodedKey::RawKey(KeyCode::ArrowUp))),
        KeyCode::Numpad9 => Some(('9', DecodedKey::RawKey(KeyCode::PageUp))),
        KeyCode::Numpad4 => Some(('4', DecodedKey::RawKey(KeyCode::ArrowLeft))),
        KeyCode::Numpad6 => Some(('6', DecodedKey::RawKey(KeyCode::ArrowRight))),
        KeyCode::Numpad1 => Some(('1', DecodedKey::RawKey(KeyCode::End))),
        KeyCode::Numpad2 => Some(('2', DecodedKey::RawKey(KeyCode::ArrowDown))),
        KeyCode::Numpad3 => Some(('3', DecodedKey::RawKey(KeyCode::PageDown))),
        KeyCode::Numpad0 => Some(('0', DecodedKey::RawKey(KeyCode::Insert))),
        KeyCode::NumpadPeriod => Some(('.', DecodedKey::Unicode('\u{7f}'))),
        _ => None,
    }
}

/// Letter `index` of the alphabet in lower case.
pub open spec fn lower(index: u8) -> char {
    (0x61 + index) as char
}

/// Letter `index` of the alphabet in upper case.
pub open spec fn upper(index: u8) -> char {
    (0x41 + index) as char
}

/// The control character of letter `index`: U+0001 for `A` to U+001A
/// for `Z`.
pub open spec fn control(index: u8) -> char {
    (1 + index) as char
}

impl KeyboardLayout for Us104Key {
    /// A letter resolves by case, upper exactly when one of Shift and
    /// Caps Lock is in effect, unless Ctrl is held and asked to make it a
    /// control character. A symbol key resolves by Shift, a keypad key
    /// by Num Lock. Every other key stays the raw key it is.
    open spec fn keycode(keycode: KeyCode, modifiers: Modifiers, handle_ctrl: HandleCtrl) -> DecodedKey {
        if let Some(index) = letter_index(keycode) {
            if handle_ctrl == HandleCtrl::MapLetterToUnicode && modifiers.ctrl() {
                DecodedKey::Unicode(control(index))
            } else if modifiers.caps() {
                DecodedKey::Unicode(upper(index))
            } else {
                DecodedKey::Unicode(lower(index))
            }
        } else if let Some((plain, with_shift)) = symbols(keycode) {
            DecodedKey::Unicode(
                if modifiers.shifted() {
                    with_shift
                } else {
                    plain
                },
            )
        } else if let Some(c) = fixed_char(keycode) {
            DecodedKey::Unicode(c)
        } else if let Some((digit, other)) = keypad(keycode) {
            if modifiers.numlock {
                DecodedKey::Unicode(digit)
            } else {
                other
            }
        } else {
            DecodedKey::RawKey(keycode)
        }
    }

    fn map_keycode(keycode: KeyCode, modifiers: &Modifiers, handle_ctrl: HandleCtrl) -> (r:
        DecodedKey) {
        let map_to_unicode = handle_ctrl == HandleCtrl::MapLetterToUnicode;
        match keycode {
            KeyCode::BackTick => shifted(modifiers, '`', '~'),
            KeyCode::Escape => DecodedKey::Unicode('\u{1b}'),
            KeyCode::Key1 => shifted(modifiers, '1', '!'),
            KeyCode::Key2 => shifted(modifiers, '2', '@'),
            KeyCode::Key3 => shifted(modifiers, '3', '#'),
            KeyCode::Key4 => shifted(modifiers, '4', '$'),
            KeyCode::Key5 => shifted(modifiers, '5', '%'),
            KeyCode::Key6 => shifted(modifiers, '6', '^'),
            KeyCode::Key7 => shifted(modifiers, '7', '&'),
            KeyCode::Key8 => shifted(modifiers, '8', '*'),
            KeyCode::Key9 => shifted(modifiers, '9', '('),
            KeyCode::Key0 => shifted(modifiers, '0', ')'),
            KeyCode::Minus => shifted(modifiers, '-', '_'),
            KeyCode::Equals => shifted(modifiers, '=', '+'),
            KeyCode::Backspace => DecodedKey::Unicode('\u{08}'),
            KeyCode::Tab => DecodedKey::Unicode('\u{09}'),
            KeyCode::Q => letter(modifiers, map_to_unicode, '\u{11}', 'q', 'Q'),
            KeyCode::W => letter(modifiers, map_to_unicode, '\u{17}', 'w', 'W'),
            KeyCode::E => letter(modifiers, map_to_unicode, '\u{05}', 'e', 'E'),
            KeyCode::R => letter(modifiers, map_to_unicode, '\u{12}', 'r', 'R'),
            KeyCode::T => letter(modifiers, map_to_unicode, '\u{14}', 't', 'T'),
            KeyCode::Y => letter(modifiers, map_to_unicode, '\u{19}', 'y', 'Y'),
            KeyCode::U => letter(modifiers, map_to_unicode, '\u{15}', 'u', 'U'),
            KeyCode::I => letter(modifiers, map_to_unicode, '\u{09}', 'i', 'I'),
            KeyCode::O => letter(modifiers, map_to_unicode, '\u{0f}', 'o', 'O'),
            KeyCode::P => letter(modifiers, map_to_unicode, '\u{10}', 'p', 'P'),
            KeyCode::BracketSquareLeft => shifted(modifiers, '[', '{'),
            KeyCode::BracketSquareRight => shifted(modifiers, ']', '}'),
            KeyCode::BackSlash => shifted(modifiers, '\\', '|'),
            KeyCode::A => letter(modifiers, map_to_unicode, '\u{01}', 'a', 'A'),
            KeyCode::S => letter(modifiers, map_to_unicode, '\u{13}', 's', 'S'),
            KeyCode::D => letter(modifiers, map_to_unicode, '\u{04}', 'd', 'D'),
            KeyCode::F => letter(modifiers, map_to_unicode, '\u{06}', 'f', 'F'),
            KeyCode::G => letter(modifiers, map_to_unicode, '\u{07}', 'g', 'G'),
            KeyCode::H => letter(modifiers, map_to_unicode, '\u{08}', 'h', 'H'),
            KeyCode::J => letter(modifiers, map_to_unicode, '\u{0a}', 'j', 'J'),
            KeyCode::K => letter(modifiers, map_to_unicode, '\u{0b}', 'k', 'K'),
            KeyCode::L => letter(modifiers, map_to_unicode, '\u{0c}', 'l', 'L'),
            KeyCode::SemiColon => shifted(modifiers, ';', ':'),
            KeyCode::Quote => shifted(modifiers, '\'', '"'),
            KeyCode::Enter => DecodedKey::Unicode('\u{0a}'),
            KeyCode::Z => letter(modifiers, map_to_unicode, '\u{1a}', 'z', 'Z'),
            KeyCode::X => letter(modifiers, map_to_unicode, '\u{18}', 'x', 'X'),
            KeyCode::C => letter(modifiers, map_to_unicode, '\u{03}', 'c', 'C'),
            KeyCode::V => letter(modifiers, map_to_unicode, '\u{16}', 'v', 'V'),
            KeyCode::B => letter(modifiers, map_to_unicode, '\u{02}', 'b', 'B'),
            KeyCode::N => letter(modifiers, map_to_unicode, '\u{0e}', 'n', 'N'),
            KeyCode::M => letter(modifiers, map_to_unicode, '\u{0d}', 'm', 'M'),
            KeyCode::Comma => shifted(modifiers, ',', '<'),
            KeyCode::Fullstop => shifted(modifiers, '.', '>'),
            KeyCode::Slash => shifted(modifiers, '/', '?'),
            KeyCode::Spacebar => DecodedKey::Unicode(' '),
            KeyCode::Delete => DecodedKey::Unicode('\u{7f}'),
            KeyCode::NumpadSlash => DecodedKey::Unicode('/'),
            KeyCode::NumpadStar => DecodedKey::Unicode('*'),
            KeyCode::NumpadMinus => DecodedKey::Unicode('-'),
            KeyCode::Numpad7 => locked(modifiers, '7', DecodedKey::RawKey(KeyCode::Home)),
            KeyCode::Numpad8 => locked(modifiers, '8', DecodedKey::RawKey(KeyCode::ArrowUp)),
            KeyCode::Numpad9 => locked(modifiers, '9', DecodedKey::RawKey(KeyCode::PageUp)),
            KeyCode::NumpadPlus => DecodedKey::Unicode('+'),
            KeyCode::Numpad4 => locked(modifiers, '4', DecodedKey::RawKey(KeyCode::ArrowLeft)),
            KeyCode::Numpad5 => DecodedKey::Unicode('5'),
            KeyCode::Numpad6 => locked(modifiers, '6', DecodedKey::RawKey(KeyCode::ArrowRight)),
            KeyCode::Numpad1 => locked(modifiers, '1', DecodedKey::RawKey(KeyCode::End)),
            KeyCode::Numpad2 => locked(modifiers, '2', DecodedKey::RawKey(KeyCode::ArrowDown)),
            KeyCode::Numpad3 => locked(modifiers, '3', DecodedKey::RawKey(KeyCode::PageDown)),
            KeyCode::Numpad0 => locked(modifiers, '0', DecodedKey::RawKey(KeyCode::Insert)),
            KeyCode::NumpadPeriod => locked(modifiers, '.', DecodedKey::Unicode('\u{7f}')),
            KeyCode::NumpadEnter => DecodedKey::Unicode('\u{0a}'),
            k => DecodedKey::RawKey(k),
        }
    }
}

/// The reading of a symbol key: `with_shift` while Shift is held.
fn shifted(modifiers: &Modifiers, plain: char, with_shift: char) -> (r: DecodedKey)
    ensures
        r == DecodedKey::Unicode(
            if modifiers.shifted() {
                with_shift
            } else {
                plain
            },
        ),
{
    if modifiers.is_shifted() {
        DecodedKey::Unicode(with_shift)
    } else {
        DecodedKey::Unicode(plain)
    }
}

/// The reading of a letter key.
fn letter(modifiers: &Modifiers, map_to_unicode: bool, ctrl: char, small: char, capital: char) -> (r:
    DecodedKey)
    ensures
        r == DecodedKey::Unicode(
            if map_to_unicode && modifiers.ctrl() {
                ctrl
            } else if modifiers.caps() {
                capital
            } else {
                small
            },
        ),
{
    if map_to_unicode && modifiers.is_ctrl() {
        DecodedKey::Unicode(ctrl)
    } else if modifiers.is_caps() {
        DecodedKey::Unicode(capital)
    } else {
        DecodedKey::Unicode(small)
    }
}

/// The reading of a keypad key that Num Lock switches.
fn locked(modifiers: &Modifiers, digit: char, other: DecodedKey) -> (r: DecodedKey)
    ensures
        r == if modifiers.numlock {
            DecodedKey::Unicode(digit)
        } else {
            other
        },
{
    if modifiers.numlock {
        DecodedKey::Unicode(digit)
    } else {
        other
    }
}

/// Whether a letter comes out in upper case is the exclusive or of Shift
/// and Caps Lock, as long as Ctrl does not turn it into a control
/// character.
pub proof fn lemma_letter_case(keycode: KeyCode, modifiers: Modifiers, handle_ctrl: HandleCtrl)
    requires
        letter_index(keycode) is Some,
        handle_ctrl == HandleCtrl::Ignore || !modifiers.ctrl(),
    ensures
        modifiers.caps() == (modifiers.shifted() ^ modifiers.capslock),
        Us104Key::keycode(keycode, modifiers, handle_ctrl) == DecodedKey::Unicode(
            if modifiers.shifted() ^ modifiers.capslock {
                upper(letter_index(keycode).unwrap())
            } else {
                lower(letter_index(keycode).unwrap())
            },
        ),
{
}

} // verus!

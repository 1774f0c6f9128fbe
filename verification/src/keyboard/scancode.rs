//! Scancode set 1, the PC/AT protocol: one byte per key transition, the
//! break code being the make code plus `0x80`, and `0xE0` as the prefix
//! of the two-byte codes.

use super::{DecodeState, Error, KeyCode, KeyEvent, KeyState, ScancodeSet};
use vstd::prelude::*;

verus! {

/// The prefix byte of a two-byte code.
pub const EXTENDED_KEY_CODE: u8 = 0xE0;

/// The bit that tells a break code from its make code.
pub const BREAK_BIT: u8 = 0x80;

pub struct ScancodeSet1;

/// The one-byte table: the key that make code `code` names, if any.
pub open spec fn base_key(code: u8) -> Option<KeyCode> {
    match code {
        0x01 => Some(KeyCode::Escape),
        0x02 => Some(KeyCode::Key1),
        0x03 => Some(KeyCode::Key2),
        0x04 => Some(KeyCode::Key3),
        0x05 => Some(KeyCode::Key4),
        0x06 => Some(KeyCode::Key5),
        0x07 => Some(KeyCode::Key6),
        0x08 => Some(KeyCode::Key7),
        0x09 => Some(KeyCode::Key8),
        0x0A => Some(KeyCode::Key9),
        0x0B => Some(KeyCode::Key0),
        0x0C => Some(KeyCode::Minus),
        0x0D => Some(KeyCode::Equals),
        0x0E => Some(KeyCode::Backspace),
        0x0F => Some(KeyCode::Tab),
        0x10 => Some(KeyCode::Q),
        0x11 => Some(KeyCode::W),
        0x12 => Some(KeyCode::E),
        0x13 => Some(KeyCode::R),
        0x14 => Some(KeyCode::T),
        0x15 => Some(KeyCode::Y),
        0x16 => Some(KeyCode::U),
        0x17 => Some(KeyCode::I),
        0x18 => Some(KeyCode::O),
        0x19 => Some(KeyCode::P),
        0x1A => Some(KeyCode::BracketSquareLeft),
        0x1B => Some(KeyCode::BracketSquareRight),
        0x1C => Some(KeyCode::Enter),
        0x1D => Some(KeyCode::CtrlLeft),
        0x1E => Some(KeyCode::A),
        0x1F => Some(KeyCode::S),
        0x20 => Some(KeyCode::D),
        0x21 => Some(KeyCode::F),
        0x22 => Some(KeyCode::G),
        0x23 => Some(KeyCode::H),
        0x24 => Some(KeyCode::J),
        0x25 => Some(KeyCode::K),
        0x26 => Some(KeyCode::L),
        0x27 => Some(KeyCode::SemiColon),
        0x28 => Some(KeyCode::Quote),
        0x29 => Some(KeyCode::BackTick),
        0x2A => Some(KeyCode::ShiftLeft),
        0x2B => Some(KeyCode::BackSlash),
        0x2C => Some(KeyCode::Z),
        0x2D => Some(KeyCode::X),
        0x2E => Some(KeyCode::C),
        0x2F => Some(KeyCode::V),
        0x30 => Some(KeyCode::B),
        0x31 => Some(KeyCode::N),
        0x32 => Some(KeyCode::M),
        0x33 => Some(KeyCode::Comma),
        0x34 => Some(KeyCode::Fullstop),
        0x35 => Some(KeyCode::Slash),
        0x36 => Some(KeyCode::ShiftRight),
        0x37 => Some(KeyCode::NumpadStar),
        0x38 => Some(KeyCode::AltLeft),
        0x39 => Some(KeyCode::Spacebar),
        0x3A => Some(KeyCode::CapsLock),
        0x3B => Some(KeyCode::F1),
        0x3C => Some(KeyCode::F2),
        0x3D => Some(KeyCode::F3),
        0x3E => Some(KeyCode::F4),
        0x3F => Some(KeyCode::F5),
        0x40 => Some(KeyCode::F6),
        0x41 => Some(KeyCode::F7),
        0x42 => Some(KeyCode::F8),
        0x43 => Some(KeyCode::F9),
        0x44 => Some(KeyCode::F10),
        0x45 => Some(KeyCode::NumpadLock),
        0x46 => Some(KeyCode::ScrollLock),
        0x47 => Some(KeyCode::Numpad7),
        0x48 => Some(KeyCode::Numpad8),
        0x49 => Some(KeyCode::Numpad9),
        0x4A => Some(KeyCode::NumpadMinus),
        0x4B => Some(KeyCode::Numpad4),
        0x4C => Some(KeyCode::Numpad5),
        0x4D => Some(KeyCode::Numpad6),
        0x4E => Some(KeyCode::NumpadPlus),
        0x4F => Some(KeyCode::Numpad1),
        0x50 => Some(KeyCode::Numpad2),
        0x51 => Some(KeyCode::Numpad3),
        0x52 => Some(KeyCode::Numpad0),
        0x53 => Some(KeyCode::NumpadPeriod),
        0x57 => Some(KeyCode::F11),
        0x58 => Some(KeyCode::F12),
        _ => None,
    }
}

/// The two-byte table: the key that `code` names after the prefix, if any.
pub open spec fn extended_key(code: u8) -> Option<KeyCode> {
    match code {
        0x1C => Some(KeyCode::NumpadEnter),
        0x1D => Some(KeyCode::CtrlRight),
        0x35 => Some(KeyCode::NumpadSlash),
        0x38 => Some(KeyCode::AltRight),
        0x47 => Some(KeyCode::Home),
        0x48 => Some(KeyCode::ArrowUp),
        0x49 => Some(KeyCode::PageUp),
        0x4B => Some(KeyCode::ArrowLeft),
        0x4D => Some(KeyCode::ArrowRight),
        0x4F => Some(KeyCode::End),
        0x50 => Some(KeyCode::ArrowDown),
        0x51 => Some(KeyCode::PageDown),
        0x52 => Some(KeyCode::Insert),
        0x53 => Some(KeyCode::Delete),
        _ => None,
    }
}

/// A table entry as a lookup result: a missing entry is the one error.
pub open spec fn found(entry: Option<KeyCode>) -> Result<KeyCode, Error> {
    match entry {
        Some(key) => Ok(key),
        None => Err(Error::UnknownKeyCode),
    }
}

/// What a byte completes once its key is looked up: the key with the
/// transition that the break bit gives, or the lookup's error.
pub open spec fn completed(key: Result<KeyCode, Error>, code: u8) -> Result<Option<KeyEvent>, Error> {
    match key {
        Ok(k) => Ok(
            Some(
                KeyEvent { code: k, state: if code >= BREAK_BIT {
                    KeyState::Up
                } else {
                    KeyState::Down
                } },
            ),
        ),
        Err(e) => Err(e),
    }
}

/// `code` without its break bit.
pub open spec fn make_code(code: u8) -> u8 {
    if code >= BREAK_BIT {
        (code - BREAK_BIT) as u8
    } else {
        code
    }
}

/// The make codes that the one-byte table knows.
pub open spec fn supported_make_code(code: u8) -> bool {
    0x01 <= code <= 0x58 && base_key(code) is Some
}

impl ScancodeSet for ScancodeSet1 {
    open spec fn decode(state: DecodeState, code: u8) -> (
        DecodeState,
        Result<Option<KeyEvent>, Error>,
    ) {
        match state {
            DecodeState::Start => if code == EXTENDED_KEY_CODE {
                (DecodeState::Extended, Ok(None))
            } else {
                (DecodeState::Start, completed(found(base_key(make_code(code))), code))
            },
            DecodeState::Extended => (
                DecodeState::Start,
                completed(found(extended_key(make_code(code))), code),
            ),
        }
    }

    /// A code from `0x81` to `0xD8` that the table lacks is looked up once
    /// more without its break bit; the second lookup is the last.
    open spec fn scancode(code: u8) -> Result<KeyCode, Error> {
        if 0x81 <= code <= 0xD8 {
            found(base_key((code - BREAK_BIT) as u8))
        } else {
            found(base_key(code))
        }
    }

    /// As `scancode`, for the codes from `0x90` to `0xED`.
    open spec fn extended_scancode(code: u8) -> Result<KeyCode, Error> {
        if 0x90 <= code <= 0xED {
            found(extended_key((code - BREAK_BIT) as u8))
        } else {
            found(extended_key(code))
        }
    }

    fn advance_state(state: &mut DecodeState, code: u8) -> (r: Result<Option<KeyEvent>, Error>) {
        match *state {
            DecodeState::Start => match code {
                EXTENDED_KEY_CODE => {
                    *state = DecodeState::Extended;
                    Ok(None)
                },
                0x80..=0xFF => Ok(Some(KeyEvent::new(Self::map_scancode(code - 0x80)?, KeyState::Up))),
                _ => Ok(Some(KeyEvent::new(Self::map_scancode(code)?, KeyState::Down))),
            },
            DecodeState::Extended => {
                *state = DecodeState::Start;
                match code {
                    0x80..=0xFF => Ok(
                        Some(KeyEvent::new(Self::map_extended_scancode(code - 0x80)?, KeyState::Up)),
                    ),
                    _ => Ok(
                        Some(KeyEvent::new(Self::map_extended_scancode(code)?, KeyState::Down)),
                    ),
                }
            },
        }
    }

    fn map_scancode(code: u8) -> (r: Result<KeyCode, Error>)
        decreases code,
    {
        match code {
            0x01 => Ok(KeyCode::Escape),
            0x02 => Ok(KeyCode::Key1),
            0x03 => Ok(KeyCode::Key2),
            0x04 => Ok(KeyCode::Key3),
            0x05 => Ok(KeyCode::Key4),
            0x06 => Ok(KeyCode::Key5),
            0x07 => Ok(KeyCode::Key6),
            0x08 => Ok(KeyCode::Key7),
            0x09 => Ok(KeyCode::Key8),
            0x0A => Ok(KeyCode::Key9),
            0x0B => Ok(KeyCode::Key0),
            0x0C => Ok(KeyCode::Minus),
            0x0D => Ok(KeyCode::Equals),
            0x0E => Ok(KeyCode::Backspace),
            0x0F => Ok(KeyCode::Tab),
            0x10 => Ok(KeyCode::Q),
            0x11 => Ok(KeyCode::W),
            0x12 => Ok(KeyCode::E),
            0x13 => Ok(KeyCode::R),
            0x14 => Ok(KeyCode::T),
            0x15 => Ok(KeyCode::Y),
            0x16 => Ok(KeyCode::U),
            0x17 => Ok(KeyCode::I),
            0x18 => Ok(KeyCode::O),
            0x19 => Ok(KeyCode::P),
            0x1A => Ok(KeyCode::BracketSquareLeft),
            0x1B => Ok(KeyCode::BracketSquareRight),
            0x1C => Ok(KeyCode::Enter),
            0x1D => Ok(KeyCode::CtrlLeft),
            0x1E => Ok(KeyCode::A),
            0x1F => Ok(KeyCode::S),
            0x20 => Ok(KeyCode::D),
            0x21 => Ok(KeyCode::F),
            0x22 => Ok(KeyCode::G),
            0x23 => Ok(KeyCode::H),
            0x24 => Ok(KeyCode::J),
            0x25 => Ok(KeyCode::K),
            0x26 => Ok(KeyCode::L),
            0x27 => Ok(KeyCode::SemiColon),
            0x28 => Ok(KeyCode::Quote),
            0x29 => Ok(KeyCode::BackTick),
            0x2A => Ok(KeyCode::ShiftLeft),
            0x2B => Ok(KeyCode::BackSlash),
            0x2C => Ok(KeyCode::Z),
            0x2D => Ok(KeyCode::X),
            0x2E => Ok(KeyCode::C),
            0x2F => Ok(KeyCode::V),
            0x30 => Ok(KeyCode::B),
            0x31 => Ok(KeyCode::N),
            0x32 => Ok(KeyCode::M),
            0x33 => Ok(KeyCode::Comma),
            0x34 => Ok(KeyCode::Fullstop),
            0x35 => Ok(KeyCode::Slash),
            0x36 => Ok(KeyCode::ShiftRight),
            0x37 => Ok(KeyCode::NumpadStar),
            0x38 => Ok(KeyCode::AltLeft),
            0x39 => Ok(KeyCode::Spacebar),
            0x3A => Ok(KeyCode::CapsLock),
            0x3B => Ok(KeyCode::F1),
            0x3C => Ok(KeyCode::F2),
            0x3D => Ok(KeyCode::F3),
            0x3E => Ok(KeyCode::F4),
            0x3F => Ok(KeyCode::F5),
            0x40 => Ok(KeyCode::F6),
            0x41 => Ok(KeyCode::F7),
            0x42 => Ok(KeyCode::F8),
            0x43 => Ok(KeyCode::F9),
            0x44 => Ok(KeyCode::F10),
            0x45 => Ok(KeyCode::NumpadLock),
            0x46 => Ok(KeyCode::ScrollLock),
            0x47 => Ok(KeyCode::Numpad7),
            0x48 => Ok(KeyCode::Numpad8),
            0x49 => Ok(KeyCode::Numpad9),
            0x4A => Ok(KeyCode::NumpadMinus),
            0x4B => Ok(KeyCode::Numpad4),
            0x4C => Ok(KeyCode::Numpad5),
            0x4D => Ok(KeyCode::Numpad6),
            0x4E => Ok(KeyCode::NumpadPlus),
            0x4F => Ok(KeyCode::Numpad1),
            0x50 => Ok(KeyCode::Numpad2),
            0x51 => Ok(KeyCode::Numpad3),
            0x52 => Ok(KeyCode::Numpad0),
            0x53 => Ok(KeyCode::NumpadPeriod),
            0x57 => Ok(KeyCode::F11),
            0x58 => Ok(KeyCode::F12),
            0x81..=0xD8 => Self::map_scancode(code - 0x80),
            _ => Err(Error::UnknownKeyCode),
        }
    }

    fn map_extended_scancode(code: u8) -> (r: Result<KeyCode, Error>)
        decreases code,
    {
        match code {
            0x1C => Ok(KeyCode::NumpadEnter),
            0x1D => Ok(KeyCode::CtrlRight),
            0x35 => Ok(KeyCode::NumpadSlash),
            0x38 => Ok(KeyCode::AltRight),
            0x47 => Ok(KeyCode::Home),
            0x48 => Ok(KeyCode::ArrowUp),
            0x49 => Ok(KeyCode::PageUp),
            0x4B => Ok(KeyCode::ArrowLeft),
            0x4D => Ok(KeyCode::ArrowRight),
            0x4F => Ok(KeyCode::End),
            0x50 => Ok(KeyCode::ArrowDown),
            0x51 => Ok(KeyCode::PageDown),
            0x52 => Ok(KeyCode::Insert),
            0x53 => Ok(KeyCode::Delete),
            0x90..=0xED => Self::map_extended_scancode(code - 0x80),
            _ => Err(Error::UnknownKeyCode),
        }
    }
}

/// Every supported make code decodes, from `Start`, to the key-down event
/// of its key, and the same code with the break bit set decodes to the
/// key-up event of that key; neither moves the decoder out of `Start`.
pub proof fn lemma_make_and_break(code: u8)
    requires
        supported_make_code(code),
    ensures
        ScancodeSet1::scancode(code) == Ok::<KeyCode, Error>(base_key(code).unwrap()),
        ScancodeSet1::decode(DecodeState::Start, code) == (
            DecodeState::Start,
            Ok::<Option<KeyEvent>, Error>(
                Some(KeyEvent { code: base_key(code).unwrap(), state: KeyState::Down }),
            ),
        ),
        ScancodeSet1::decode(DecodeState::Start, (code + BREAK_BIT) as u8) == (
            DecodeState::Start,
            Ok::<Option<KeyEvent>, Error>(
                Some(KeyEvent { code: base_key(code).unwrap(), state: KeyState::Up }),
            ),
        ),
{
}

/// The prefix byte completes nothing and arms the decoder; whatever byte
/// follows is looked up in the two-byte table, never in the one-byte
/// table, and leaves the decoder in `Start` whether the lookup succeeds
/// or not.
pub proof fn lemma_extended_prefix(next: u8)
    ensures
        ScancodeSet1::decode(DecodeState::Start, EXTENDED_KEY_CODE) == (
            DecodeState::Extended,
            Ok::<Option<KeyEvent>, Error>(None),
        ),
        ScancodeSet1::decode(DecodeState::Extended, next).0 == DecodeState::Start,
        ScancodeSet1::decode(DecodeState::Extended, next).1 == completed(
            found(extended_key(make_code(next))),
            next,
        ),
        extended_key(make_code(next)) is None ==> ScancodeSet1::decode(
            DecodeState::Extended,
            next,
        ).1 == Err::<Option<KeyEvent>, Error>(Error::UnknownKeyCode),
{
}

/// No byte leaves the decoder in doubt: from `Start` only the prefix
/// leads to `Extended`, and from `Extended` every byte leads to `Start`.
pub proof fn lemma_decode_state(state: DecodeState, code: u8)
    ensures
        ScancodeSet1::decode(state, code).0 == DecodeState::Extended <==> state
            == DecodeState::Start && code == EXTENDED_KEY_CODE,
{
}

} // verus!

//! Keyboard input: raw scancode bytes become key events, and key events
//! become characters or raw keys under the tracked modifier state.

use core::marker::PhantomData;
use vstd::prelude::*;

pub mod keymodifier;
pub mod layout;
pub mod scancode;

pub use self::layout::Us104Key;
pub use self::scancode::ScancodeSet1;

verus! {

/// The port from which the keyboard's scancodes are read.
pub const DATA_PORT: u16 = 0x60;

/// The port from which the keyboard's status is read.
pub const STATUS_PORT: u16 = 0x64;

/// Whether the keyboard holds a scancode to read: bit 0 of its status.
pub open spec fn data_ready(status: u8) -> bool {
    status & 1 == 1
}

/// Whether a status read from the keyboard says that a scancode waits.
pub fn is_data_ready(status: u8) -> (r: bool)
    ensures
        r == data_ready(status),
{
    status & 1 == 1
}

/// What can go wrong while decoding a scancode byte.
#[derive(Debug, PartialEq, Eq, Copy, Clone, Structural)]
pub enum Error {
    /// The byte names no key of the scancode set.
    UnknownKeyCode,
}

/// Every physical key the decoder can report.
#[derive(Debug, PartialEq, Eq, Copy, Clone, PartialOrd, Ord, Structural)]
pub enum KeyCode {
    AltLeft,
    AltRight,
    ArrowDown,
    ArrowRight,
    ArrowLeft,
    ArrowUp,
    BackSlash,
    Backspace,
    BackTick,
    BracketSquareLeft,
    BracketSquareRight,
    CapsLock,
    Comma,
    CtrlLeft,
    CtrlRight,
    Delete,
    End,
    Enter,
    Equals,
    Escape,
    F1,
    F2,
    F3,
    F4,
    F5,
    F6,
    F7,
    F8,
    F9,
    F10,
    F11,
    F12,
    Fullstop,
    Home,
    Insert,
    Key0,
    Key1,
    Key2,
    Key3,
    Key4,
    Key5,
    Key6,
    Key7,
    Key8,
    Key9,
    Numpad0,
    Numpad1,
    Numpad2,
    Numpad3,
    Numpad4,
    Numpad5,
    Numpad6,
    Numpad7,
    Numpad8,
    Numpad9,
    NumpadEnter,
    NumpadMinus,
    NumpadPeriod,
    NumpadPlus,
    NumpadSlash,
    NumpadStar,
    Minus,
    NumpadLock,
    PageUp,
    PageDown,
    Quote,
    ScrollLock,
    SemiColon,
    ShiftLeft,
    ShiftRight,
    Slash,
    Spacebar,
    Tab,
    A,
    B,
    C,
    D,
    E,
    F,
    G,
    H,
    I,
    J,
    K,
    L,
    M,
    N,
    O,
    P,
    Q,
    R,
    S,
    T,
    U,
    V,
    W,
    X,
    Y,
    Z,
}

/// Whether a key went down or came up.
#[derive(Debug, PartialEq, Eq, Copy, Clone, Structural)]
pub enum KeyState {
    Up,
    Down,
}

/// The modifier keys as the keyboard tracks them. Shift, Ctrl and Alt-Gr
/// are true while held; Caps Lock and Num Lock flip on each press.
#[derive(Debug, PartialEq, Eq, Copy, Clone, Structural)]
pub struct Modifiers {
    pub lshift: bool,
    pub rshift: bool,
    pub lctrl: bool,
    pub rctrl: bool,
    pub numlock: bool,
    pub capslock: bool,
    pub alt_gr: bool,
}

/// One transition of one physical key.
#[derive(Debug, PartialEq, Eq, Copy, Clone, Structural)]
pub struct KeyEvent {
    pub code: KeyCode,
    pub state: KeyState,
}

/// Where the decoder stands between two bytes.
#[derive(Debug, PartialEq, Eq, Copy, Clone, Structural)]
pub enum DecodeState {
    /// No byte is pending.
    Start,
    /// The previous byte was the two-byte prefix `0xE0`.
    Extended,
}

/// What a key event resolves to under the current modifiers.
#[derive(Debug, PartialEq, Eq, Copy, Clone, Structural)]
pub enum DecodedKey {
    RawKey(KeyCode),
    Unicode(char),
}

/// What a layout does with a letter while a Ctrl key is held.
#[derive(Debug, PartialEq, Eq, Copy, Clone, Structural)]
pub enum HandleCtrl {
    /// Ctrl with a letter gives the control character U+0001 to U+001A.
    MapLetterToUnicode,
    /// Letters stay letters whatever Ctrl does.
    Ignore,
}

/// A scancode set: the byte-level protocol of one family of keyboards.
pub trait ScancodeSet {
    /// The decoder's transition: the state after `code` and what the byte
    /// completes, as a function of the state before and the byte alone.
    spec fn decode(state: DecodeState, code: u8) -> (DecodeState, Result<Option<KeyEvent>, Error>);

    /// The key a one-byte code names.
    spec fn scancode(code: u8) -> Result<KeyCode, Error>;

    /// The key a code names after the two-byte prefix.
    spec fn extended_scancode(code: u8) -> Result<KeyCode, Error>;

    /// Feeds one byte to the decoder.
    fn advance_state(state: &mut DecodeState, code: u8) -> (r: Result<Option<KeyEvent>, Error>)
        ensures
            (*final(state), r) == Self::decode(*old(state), code),
    ;

    /// Looks a one-byte code up.
    fn map_scancode(code: u8) -> (r: Result<KeyCode, Error>)
        ensures
            r == Self::scancode(code),
    ;

    /// Looks up a code that follows the two-byte prefix.
    fn map_extended_scancode(code: u8) -> (r: Result<KeyCode, Error>)
        ensures
            r == Self::extended_scancode(code),
    ;
}

impl KeyEvent {
    pub fn new(code: KeyCode, state: KeyState) -> (r: Self)
        ensures
            r == (KeyEvent { code, state }),
    {
        Self { code, state }
    }
}

impl Modifiers {
    /// No key held, no lock engaged.
    pub open spec fn neutral() -> Modifiers {
        Modifiers {
            lshift: false,
            rshift: false,
            lctrl: false,
            rctrl: false,
            numlock: false,
            capslock: false,
            alt_gr: false,
        }
    }

    pub open spec fn ctrl(&self) -> bool {
        self.lctrl || self.rctrl
    }

    pub open spec fn shifted(&self) -> bool {
        self.lshift || self.rshift
    }

    /// A letter comes out in upper case when exactly one of Shift and
    /// Caps Lock is in effect.
    pub open spec fn caps(&self) -> bool {
        self.shifted() != self.capslock
    }

    pub fn is_ctrl(&self) -> (r: bool)
        ensures
            r == self.ctrl(),
    {
        self.lctrl || self.rctrl
    }

    pub fn is_shifted(&self) -> (r: bool)
        ensures
            r == self.shifted(),
    {
        self.lshift || self.rshift
    }

    pub fn is_caps(&self) -> (r: bool)
        ensures
            r == self.caps(),
            r == (self.shifted() ^ self.capslock),
    {
        (self.lshift || self.rshift) ^ self.capslock
    }
}

/// A keyboard layout: what each key means under given modifiers.
pub trait KeyboardLayout {
    /// What `keycode` resolves to.
    spec fn keycode(keycode: KeyCode, modifiers: Modifiers, handle_ctrl: HandleCtrl) -> DecodedKey;

    fn map_keycode(keycode: KeyCode, modifiers: &Modifiers, handle_ctrl: HandleCtrl) -> (r:
        DecodedKey)
        ensures
            r == Self::keycode(keycode, *modifiers, handle_ctrl),
    ;
}

/// The keys whose events only change the modifier state.
pub open spec fn is_modifier_key(code: KeyCode) -> bool {
    ||| code == KeyCode::ShiftLeft
    ||| code == KeyCode::ShiftRight
    ||| code == KeyCode::CtrlLeft
    ||| code == KeyCode::CtrlRight
    ||| code == KeyCode::AltRight
    ||| code == KeyCode::CapsLock
    ||| code == KeyCode::NumpadLock
}

/// The modifier state after `ev`: a level key follows its key, a lock
/// flips when its key goes down, and no other event changes anything.
pub open spec fn modifiers_after(m: Modifiers, ev: KeyEvent) -> Modifiers {
    let down = ev.state == KeyState::Down;
    match ev.code {
        KeyCode::ShiftLeft => Modifiers { lshift: down, ..m },
        KeyCode::ShiftRight => Modifiers { rshift: down, ..m },
        KeyCode::CtrlLeft => Modifiers { lctrl: down, ..m },
        KeyCode::CtrlRight => Modifiers { rctrl: down, ..m },
        KeyCode::AltRight => Modifiers { alt_gr: down, ..m },
        KeyCode::CapsLock => Modifiers { capslock: m.capslock != down, ..m },
        KeyCode::NumpadLock => Modifiers { numlock: m.numlock != down, ..m },
        _ => m,
    }
}

/// A keyboard: a decoder for the scancode set `S`, the modifier state,
/// and the layout `T` that resolves key events under it.
#[derive(Debug)]
pub struct Keyboard<T, S> {
    decode_state: DecodeState,
    handle_ctrl: HandleCtrl,
    modifiers: Modifiers,
    _layout: PhantomData<T>,
    _set: PhantomData<S>,
}

impl<T, S> Keyboard<T, S> where T: KeyboardLayout, S: ScancodeSet {
    pub closed spec fn state(&self) -> DecodeState {
        self.decode_state
    }

    pub closed spec fn ctrl_handling(&self) -> HandleCtrl {
        self.handle_ctrl
    }

    pub closed spec fn modifier_state(&self) -> Modifiers {
        self.modifiers
    }

    /// What a key event yields under the modifiers `m`: the layout's
    /// reading of a key that goes down, unless it is a modifier key.
    pub open spec fn resolved(ev: KeyEvent, m: Modifiers, handle_ctrl: HandleCtrl) -> Option<
        DecodedKey,
    > {
        if ev.state == KeyState::Down && !is_modifier_key(ev.code) {
            Some(T::keycode(ev.code, m, handle_ctrl))
        } else {
            None
        }
    }

    pub fn new(_layout: T, _set: S, handle_ctrl: HandleCtrl) -> (r: Self)
        ensures
            r.state() == DecodeState::Start,
            r.ctrl_handling() == handle_ctrl,
            r.modifier_state() == Modifiers::neutral(),
    {
        Self {
            decode_state: DecodeState::Start,
            handle_ctrl,
            modifiers: Modifiers {
                lshift: false,
                rshift: false,
                lctrl: false,
                rctrl: false,
                numlock: false,
                capslock: false,
                alt_gr: false,
            },
            _layout: PhantomData,
            _set: PhantomData,
        }
    }

    /// Where the decoder stands.
    pub fn decode_state(&self) -> (r: DecodeState)
        ensures
            r == self.state(),
    {
        self.decode_state
    }

    /// The modifier state as tracked so far.
    pub fn modifiers(&self) -> (r: &Modifiers)
        ensures
            *r == self.modifier_state(),
    {
        &self.modifiers
    }

    /// Feeds one scancode byte to the decoder.
    pub fn add_byte(&mut self, code: u8) -> (r: Result<Option<KeyEvent>, Error>)
        ensures
            (final(self).state(), r) == S::decode(old(self).state(), code),
            final(self).modifier_state() == old(self).modifier_state(),
            final(self).ctrl_handling() == old(self).ctrl_handling(),
    {
        let r = S::advance_state(&mut self.decode_state, code);
        r
    }

    /// Takes a key event: a modifier key updates the modifier state and
    /// yields nothing, another key yields its reading when it goes down.
    pub fn process_keyevent(&mut self, ev: KeyEvent) -> (r: Option<DecodedKey>)
        ensures
            final(self).modifier_state() == modifiers_after(old(self).modifier_state(), ev),
            r == Self::resolved(ev, old(self).modifier_state(), old(self).ctrl_handling()),
            final(self).state() == old(self).state(),
            final(self).ctrl_handling() == old(self).ctrl_handling(),
    {
        match ev {
            KeyEvent { code: KeyCode::ShiftLeft, state: KeyState::Down } => {
                self.modifiers.lshift = true;
                None
            },
            KeyEvent { code: KeyCode::ShiftRight, state: KeyState::Down } => {
                self.modifiers.rshift = true;
                None
            },
            KeyEvent { code: KeyCode::ShiftLeft, state: KeyState::Up } => {
                self.modifiers.lshift = false;
                None
            },
            KeyEvent { code: KeyCode::ShiftRight, state: KeyState::Up } => {
                self.modifiers.rshift = false;
                None
            },
            KeyEvent { code: KeyCode::CapsLock, state: KeyState::Down } => {
                self.modifiers.capslock = !self.modifiers.capslock;
                None
            },
            KeyEvent { code: KeyCode::NumpadLock, state: KeyState::Down } => {
                self.modifiers.numlock = !self.modifiers.numlock;
                None
            },
            KeyEvent { code: KeyCode::CtrlLeft, state: KeyState::Down } => {
                self.modifiers.lctrl = true;
                None
            },
            KeyEvent { code: KeyCode::CtrlRight, state: KeyState::Down } => {
                self.modifiers.rctrl = true;
                None
            },
            KeyEvent { code: KeyCode::CtrlLeft, state: KeyState::Up } => {
                self.modifiers.lctrl = false;
                None
            },
            KeyEvent { code: KeyCode::CtrlRight, state: KeyState::Up } => {
                self.modifiers.rctrl = false;
                None
            },
            KeyEvent { code: KeyCode::AltRight, state: KeyState::Down } => {
                self.modifiers.alt_gr = true;
                None
            },
            KeyEvent { code: KeyCode::AltRight, state: KeyState::Up } => {
                self.modifiers.alt_gr = false;
                None
            },
            KeyEvent { code: c, state: KeyState::Down } => Some(
                T::map_keycode(c, &self.modifiers, self.handle_ctrl),
            ),
            _ => None,
        }
    }
}

/// A lock flips exactly on the down-edge of its own key: no key-up event
/// and no other key changes Caps Lock or Num Lock.
pub proof fn lemma_locks_flip_on_down_edge(m: Modifiers, ev: KeyEvent)
    ensures
        modifiers_after(m, ev).capslock != m.capslock <==> ev == (KeyEvent {
            code: KeyCode::CapsLock,
            state: KeyState::Down,
        }),
        modifiers_after(m, ev).numlock != m.numlock <==> ev == (KeyEvent {
            code: KeyCode::NumpadLock,
            state: KeyState::Down,
        }),
{
}

/// Shift, Ctrl and Alt-Gr are true exactly while their key is held: the
/// event of a level key sets its flag to whether the key went down.
pub proof fn lemma_levels_follow_keys(m: Modifiers, ev: KeyEvent)
    ensures
        ev.code == KeyCode::ShiftLeft ==> modifiers_after(m, ev).lshift == (ev.state
            == KeyState::Down),
        ev.code == KeyCode::ShiftRight ==> modifiers_after(m, ev).rshift == (ev.state
            == KeyState::Down),
        ev.code == KeyCode::CtrlLeft ==> modifiers_after(m, ev).lctrl == (ev.state
            == KeyState::Down),
        ev.code == KeyCode::CtrlRight ==> modifiers_after(m, ev).rctrl == (ev.state
            == KeyState::Down),
        ev.code == KeyCode::AltRight ==> modifiers_after(m, ev).alt_gr == (ev.state
            == KeyState::Down),
        !is_modifier_key(ev.code) ==> modifiers_after(m, ev) == m,
{
}

} // verus!

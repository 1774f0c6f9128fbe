//! The shell's part that decides: the line editor, the shortcuts and the
//! command table. Reading the keyboard's ports and printing are done by
//! the kernel around it, which hands each scancode in and carries each
//! answer out.

use crate::keyboard::{
    modifiers_after, DecodedKey, KeyCode, KeyEvent, KeyState, Keyboard, KeyboardLayout,
    ScancodeSet,
};
use crate::kshell::command::{builtin, builtin_of, Builtin};
use vstd::prelude::*;
use vstd::utf8::encode_scalar;

pub mod command;

verus! {

/// The longest line the shell takes, in bytes.
pub const CMD_SIZE: usize = 1024;

/// The number of pieces of a line that are looked at for arguments.
pub const MAX_ARG: usize = 20;

/// The backspace character.
pub const BACKSPACE: char = '\u{08}';

/// The character that ends a line.
pub const ENTER: char = '\u{0a}';

/// The tabulator, which the line editor ignores.
pub const TAB: char = '\u{09}';

/// The byte that parts the pieces of a line.
pub const SEPARATOR: u8 = 0x20;

/// A switch of terminals that a key asks for.
#[derive(Debug, Clone, Copy, PartialEq, Eq, Structural)]
pub enum Shortcut {
    /// Show the next terminal.
    NextScreen,
    /// Show the previous terminal.
    PrevScreen,
}

/// What the reader of a line does after a key.
#[derive(Debug, Clone, Copy, PartialEq, Eq, Structural)]
pub enum ReadAction {
    /// Nothing; go on reading.
    Continue,
    /// Print the character; go on reading.
    Echo(char),
    /// Print the character; the line is complete.
    Submit(char),
    /// Break the line on the screen and switch terminals; the line is
    /// given up.
    Switch(Shortcut),
}

/// The line being typed.
pub struct Command {
    buffer: [u8; CMD_SIZE],
    index: usize,
    modkey: bool,
}

/// The byte that the line keeps of a character: the first of its UTF-8
/// encoding.
pub open spec fn leading_byte(c: char) -> u8 {
    encode_scalar(c as u32)[0]
}

/// The shortcut on a key, if it has one.
pub open spec fn shortcut_of(key: KeyCode) -> Option<Shortcut> {
    match key {
        KeyCode::ArrowRight => Some(Shortcut::NextScreen),
        KeyCode::ArrowLeft => Some(Shortcut::PrevScreen),
        _ => None,
    }
}

/// The line after a key: a backspace takes the last byte away, a
/// character other than Enter and Tab is added while there is room, and
/// nothing else changes the line.
pub open spec fn line_after(line: Seq<u8>, key: DecodedKey) -> Seq<u8> {
    match key {
        DecodedKey::Unicode(c) => if c == BACKSPACE {
            if line.len() > 0 {
                line.drop_last()
            } else {
                line
            }
        } else if c == ENTER || c == TAB {
            line
        } else if line.len() < CMD_SIZE {
            line.push(leading_byte(c))
        } else {
            line
        },
        DecodedKey::RawKey(_) => line,
    }
}

/// What the reader does after a key: whatever changes the line is
/// echoed, Enter is echoed and completes the line, a key with a
/// shortcut switches terminals, and the rest is passed over.
pub open spec fn action_after(line: Seq<u8>, key: DecodedKey) -> ReadAction {
    match key {
        DecodedKey::Unicode(c) => if c == ENTER {
            ReadAction::Submit(c)
        } else if line_after(line, key) != line {
            ReadAction::Echo(c)
        } else {
            ReadAction::Continue
        },
        DecodedKey::RawKey(k) => match shortcut_of(k) {
            Some(s) => ReadAction::Switch(s),
            None => ReadAction::Continue,
        },
    }
}

/// Whether the event belongs to the left Alt key, which the shell keeps
/// for itself.
pub open spec fn is_modkey(ev: KeyEvent) -> bool {
    ev.code == KeyCode::AltLeft
}

/// The first byte of the UTF-8 encoding of `c`.
pub fn first_byte(c: char) -> (r: u8)
    ensures
        r == leading_byte(c),
{
    let v = c as u32;
    proof {
        vstd::utf8::char_is_scalar(c);
    }
    if v < 0x80 {
        assert((v & 0x7F) as u8 == v as u8) by (bit_vector)
            requires
                v < 0x80,
        ;
        v as u8
    } else if v < 0x800 {
        assert(0xC0u8 | ((v >> 6) & 0x1F) as u8 == 0xC0u8 | ((v >> 6) as u8)) by (bit_vector)
            requires
                v < 0x800,
        ;
        assert((v >> 6) < 0x100) by (bit_vector)
            requires
                v < 0x800,
        ;
        0xC0 | ((v >> 6) as u8)
    } else if v < 0x10000 {
        assert(0xE0u8 | ((v >> 12) & 0x0F) as u8 == 0xE0u8 | ((v >> 12) as u8)) by (bit_vector)
            requires
                v < 0x10000,
        ;
        assert((v >> 12) < 0x100) by (bit_vector)
            requires
                v < 0x10000,
        ;
        0xE0 | ((v >> 12) as u8)
    } else {
        assert(0xF0u8 | ((v >> 18) & 0x7) as u8 == 0xF0u8 | ((v >> 18) as u8)) by (bit_vector)
            requires
                v <= 0x10FFFF,
        ;
        assert((v >> 18) < 0x100) by (bit_vector)
            requires
                v <= 0x10FFFF,
        ;
        0xF0 | ((v >> 18) as u8)
    }
}

impl Command {
    /// The bytes typed so far.
    pub closed spec fn line(&self) -> Seq<u8> {
        self.buffer@.take(self.index as int)
    }

    /// Whether the left Alt key is held.
    pub closed spec fn alt(&self) -> bool {
        self.modkey
    }

    /// The line fits its buffer.
    pub closed spec fn wf(&self) -> bool {
        self.index <= CMD_SIZE
    }

    /// An empty line.
    pub fn new() -> (r: Self)
        ensures
            r.wf(),
            r.line() == Seq::<u8>::empty(),
            !r.alt(),
    {
        let r = Self { buffer: [0; CMD_SIZE], index: 0, modkey: false };
        assert(r.line() =~= Seq::<u8>::empty());
        r
    }

    /// The bytes typed so far.
    pub fn get(&self) -> (r: &[u8])
        requires
            self.wf(),
        ensures
            r@ == self.line(),
    {
        let r = &self.buffer[0..self.index];
        assert(r@ =~= self.line());
        r
    }

    /// Whether the left Alt key is held.
    pub fn modkey(&self) -> (r: bool)
        ensures
            r == self.alt(),
    {
        self.modkey
    }

    /// Takes one scancode: the keyboard decodes it, the left Alt key is
    /// kept back for the shell, and any other completed event goes on
    /// to the keyboard, whose answer is handed out.
    pub fn get_key<T: KeyboardLayout, S: ScancodeSet>(
        &mut self,
        keyboard: &mut Keyboard<T, S>,
        scancode: u8,
    ) -> (r: Option<DecodedKey>)
        ensures
            final(self).line() == old(self).line(),
            final(self).wf() == old(self).wf(),
            final(keyboard).state() == S::decode(old(keyboard).state(), scancode).0,
            final(keyboard).ctrl_handling() == old(keyboard).ctrl_handling(),
            match S::decode(old(keyboard).state(), scancode).1 {
                Ok(Some(ev)) => if is_modkey(ev) {
                    &&& r is None
                    &&& final(self).alt() == (ev.state == KeyState::Down)
                    &&& final(keyboard).modifier_state() == old(keyboard).modifier_state()
                } else {
                    &&& r == Keyboard::<T, S>::resolved(
                        ev,
                        old(keyboard).modifier_state(),
                        old(keyboard).ctrl_handling(),
                    )
                    &&& final(self).alt() == old(self).alt()
                    &&& final(keyboard).modifier_state() == modifiers_after(
                        old(keyboard).modifier_state(),
                        ev,
                    )
                },
                _ => {
                    &&& r is None
                    &&& final(self).alt() == old(self).alt()
                    &&& final(keyboard).modifier_state() == old(keyboard).modifier_state()
                },
            },
    {
        if let Ok(Some(key_event)) = keyboard.add_byte(scancode) {
            match key_event {
                KeyEvent { code: KeyCode::AltLeft, state: KeyState::Down } => {
                    self.modkey = true;
                    None
                },
                KeyEvent { code: KeyCode::AltLeft, state: KeyState::Up } => {
                    self.modkey = false;
                    None
                },
                ev => keyboard.process_keyevent(ev),
            }
        } else {
            None
        }
    }

    /// Takes one key into the line and says what the reader is to do.
    pub fn read(&mut self, key: DecodedKey) -> (r: ReadAction)
        requires
            old(self).wf(),
        ensures
            final(self).wf(),
            final(self).line() == line_after(old(self).line(), key),
            final(self).alt() == old(self).alt(),
            r == action_after(old(self).line(), key),
    {
        match key {
            DecodedKey::Unicode(c) => {
                if c == BACKSPACE {
                    if self.index != 0 {
                        self.index -= 1;
                        self.buffer[self.index] = 0;
                        assert(self.line() =~= old(self).line().drop_last());
                        ReadAction::Echo(c)
                    } else {
                        ReadAction::Continue
                    }
                } else if c == ENTER {
                    ReadAction::Submit(c)
                } else if c == TAB {
                    ReadAction::Continue
                } else {
                    if self.index != CMD_SIZE {
                        self.buffer[self.index] = first_byte(c);
                        self.index += 1;
                        assert(self.line() =~= old(self).line().push(leading_byte(c)));
                        ReadAction::Echo(c)
                    } else {
                        ReadAction::Continue
                    }
                }
            },
            DecodedKey::RawKey(r) => {
                match self.shortcut(r) {
                    Some(s) => ReadAction::Switch(s),
                    None => ReadAction::Continue,
                }
            },
        }
    }

    /// The switch of terminals that `key` asks for, if any.
    pub fn shortcut(&self, key: KeyCode) -> (r: Option<Shortcut>)
        ensures
            r == shortcut_of(key),
    {
        match key {
            KeyCode::ArrowRight => Some(Shortcut::NextScreen),
            KeyCode::ArrowLeft => Some(Shortcut::PrevScreen),
            _ => None,
        }
    }
}

/// Where the piece that starts at `start` ends: at the next separator,
/// or at the end of the line.
pub open spec fn piece_end(line: Seq<u8>, start: int) -> int
    decreases line.len() - start,
{
    if start < 0 || start >= line.len() || line[start] == SEPARATOR {
        start
    } else {
        piece_end(line, start + 1)
    }
}

/// The words among the next `pieces` pieces of the line from `start`
/// on, each as the place where it starts and the place where it ends.
/// Separators part the pieces, and a piece that is not empty is a word.
pub open spec fn words(line: Seq<u8>, start: int, pieces: nat) -> Seq<(int, int)>
    decreases pieces,
{
    if pieces == 0 || start > line.len() {
        Seq::empty()
    } else {
        let end = piece_end(line, start);
        let rest = words(line, end + 1, (pieces - 1) as nat);
        if end > start {
            seq![(start, end)] + rest
        } else {
            rest
        }
    }
}

/// The arguments of a line: its words in order, at most `MAX_ARG`.
pub struct Args {
    spans: [(usize, usize); MAX_ARG],
    nb_arg: usize,
}

impl View for Args {
    type V = Seq<(int, int)>;

    closed spec fn view(&self) -> Seq<(int, int)> {
        Seq::new(
            self.nb_arg as nat,
            |i: int| (self.spans@[i].0 as int, self.spans@[i].1 as int),
        )
    }
}

/// A piece ends no earlier than it starts and no later than the line.
proof fn lemma_piece_end(line: Seq<u8>, start: int)
    requires
        0 <= start <= line.len(),
    ensures
        start <= piece_end(line, start) <= line.len(),
        forall|k: int| start <= k < piece_end(line, start) ==> line[k] != SEPARATOR,
        piece_end(line, start) < line.len() ==> line[piece_end(line, start)] == SEPARATOR,
    decreases line.len() - start,
{
    if start < line.len() && line[start] != SEPARATOR {
        lemma_piece_end(line, start + 1);
    }
}

/// Every word lies in the line, is not empty and holds no separator,
/// and there are no more words than pieces.
pub proof fn lemma_words(line: Seq<u8>, start: int, pieces: nat)
    requires
        0 <= start,
    ensures
        words(line, start, pieces).len() <= pieces,
        forall|i: int|
            0 <= i < words(line, start, pieces).len() ==> {
                let w = #[trigger] words(line, start, pieces)[i];
                &&& start <= w.0 < w.1 <= line.len()
                &&& forall|k: int| w.0 <= k < w.1 ==> line[k] != SEPARATOR
            },
    decreases pieces,
{
    if pieces > 0 && start <= line.len() {
        lemma_piece_end(line, start);
        let end = piece_end(line, start);
        lemma_words(line, end + 1, (pieces - 1) as nat);
        let rest = words(line, end + 1, (pieces - 1) as nat);
        assert forall|i: int| 0 <= i < words(line, start, pieces).len() implies {
            let w = #[trigger] words(line, start, pieces)[i];
            &&& start <= w.0 < w.1 <= line.len()
            &&& forall|k: int| w.0 <= k < w.1 ==> line[k] != SEPARATOR
        } by {
            if end > start {
                if i > 0 {
                    assert(words(line, start, pieces)[i] == rest[i - 1]);
                }
            } else {
                assert(words(line, start, pieces)[i] == rest[i]);
            }
        }
    }
}

impl Args {
    /// The number of arguments.
    pub fn len(&self) -> (r: usize)
        ensures
            r == self@.len(),
    {
        self.nb_arg
    }

    /// Argument `i` of `line`.
    pub fn get<'a>(&self, line: &'a [u8], i: usize) -> (r: &'a [u8])
        requires
            i < self@.len(),
            self@ == words(line@, 0, MAX_ARG as nat),
        ensures
            r@ == line@.subrange(self@[i as int].0, self@[i as int].1),
    {
        proof {
            lemma_words(line@, 0, MAX_ARG as nat);
            assert(self@[i as int] == (self.spans@[i as int].0 as int, self.spans@[i as int].1 as int));
        }
        assert(self.nb_arg <= MAX_ARG);
        let (start, end) = self.spans[i];
        let r = &line[start..end];
        r
    }
}

/// Parts a line into its arguments.
pub fn split(line: &[u8]) -> (r: Args)
    requires
        line@.len() < usize::MAX,
    ensures
        r@ == words(line@, 0, MAX_ARG as nat),
{
    let len = line.len();
    let mut args = Args { spans: [(0, 0); MAX_ARG], nb_arg: 0 };
    let mut piece: usize = 0;
    let mut start: usize = 0;
    assert(args@ =~= Seq::<(int, int)>::empty());
    while piece < MAX_ARG && start <= len
        invariant
            len == line@.len(),
            len < usize::MAX,
            piece <= MAX_ARG,
            args.nb_arg <= piece,
            start <= len + 1,
            words(line@, 0, MAX_ARG as nat) == args@ + words(
                line@,
                start as int,
                (MAX_ARG - piece) as nat,
            ),
        decreases MAX_ARG - piece,
    {
        let mut end = start;
        while end < len && line[end] != SEPARATOR
            invariant
                len == line@.len(),
                start <= end <= len,
                piece_end(line@, start as int) == piece_end(line@, end as int),
            decreases len - end,
        {
            end += 1;
        }
        assert(piece_end(line@, end as int) == end);
        let ghost before = args@;
        if end > start {
            args.spans[args.nb_arg] = (start, end);
            args.nb_arg += 1;
            assert(args@ =~= before + seq![(start as int, end as int)]);
        }
        proof {
            let rest = words(line@, end + 1, (MAX_ARG - piece - 1) as nat);
            assert(words(line@, start as int, (MAX_ARG - piece) as nat) == if end > start {
                seq![(start as int, end as int)] + rest
            } else {
                rest
            });
            assert(args@ + rest =~= before + words(
                line@,
                start as int,
                (MAX_ARG - piece) as nat,
            ));
        }
        piece += 1;
        start = end + 1;
    }
    assert(words(line@, start as int, (MAX_ARG - piece) as nat) =~= Seq::<(int, int)>::empty());
    assert(args@ + Seq::<(int, int)>::empty() =~= args@);
    args
}

/// What a line asks for: the command that its first word names, if it
/// names one, and all its words.
pub open spec fn invoked(line: Seq<u8>) -> Option<Builtin> {
    let args = words(line, 0, MAX_ARG as nat);
    if args.len() == 0 {
        None
    } else {
        builtin_of(line.subrange(args[0].0, args[0].1))
    }
}

/// Reads a complete line: its arguments, and the command to run. The
/// arguments of the command are those after the first.
pub fn kshell(line: &[u8]) -> (r: (Option<Builtin>, Args))
    requires
        line@.len() < usize::MAX,
    ensures
        r.1@ == words(line@, 0, MAX_ARG as nat),
        r.0 == invoked(line@),
{
    let args = split(line);
    if args.len() == 0 {
        (None, args)
    } else {
        let name = args.get(line, 0);
        (builtin(name), args)
    }
}

} // verus!

//! The shell's commands: their names, and what the ones that act on the
//! writer do to it.

use crate::kshell::{words, Args, MAX_ARG};
use crate::port::PortAction;
use crate::spinlock::Spinlock;
use crate::vga_buffer::color::{default_color, Color, ColorCode};
use crate::vga_buffer::cursor::update_actions;
use crate::vga_buffer::terminal::{Console, Terminal};
use crate::vga_buffer::writer::{switch_actions, Writer};
use crate::vga_buffer::{_print, lemma_printed_in_pieces, print_bytes, printed};
use crate::VERSION;
use core::ops::DerefMut;
use vstd::prelude::*;
use vstd::string::StringSliceAdditionalSpecFns;

verus! {

/// A command of the shell.
#[derive(Debug, Clone, Copy, PartialEq, Eq, Structural)]
pub enum Builtin {
    Exit,
    Shutdown,
    Reboot,
    Clear,
    Next,
    Prev,
    Help,
    Info,
    ReadSerial,
    Echo,
}

/// The command that `name` names, if any.
pub open spec fn builtin_of(name: Seq<u8>) -> Option<Builtin> {
    if name == "exit".spec_bytes() {
        Some(Builtin::Exit)
    } else if name == "shutdown".spec_bytes() {
        Some(Builtin::Shutdown)
    } else if name == "reboot".spec_bytes() {
        Some(Builtin::Reboot)
    } else if name == "clear".spec_bytes() {
        Some(Builtin::Clear)
    } else if name == "next".spec_bytes() {
        Some(Builtin::Next)
    } else if name == "prev".spec_bytes() {
        Some(Builtin::Prev)
    } else if name == "help".spec_bytes() {
        Some(Builtin::Help)
    } else if name == "info".spec_bytes() {
        Some(Builtin::Info)
    } else if name == "read_serial".spec_bytes() {
        Some(Builtin::ReadSerial)
    } else if name == "echo".spec_bytes() {
        Some(Builtin::Echo)
    } else {
        None
    }
}

/// Whether `name` is `word`, byte for byte.
fn is_word(name: &[u8], word: &str) -> (r: bool)
    ensures
        r == (name@ == word.spec_bytes()),
{
    let bytes = word.as_bytes();
    if name.len() != bytes.len() {
        return false;
    }
    let n = name.len();
    for i in 0..n
        invariant
            n == name@.len(),
            n == bytes@.len(),
            bytes@ == word.spec_bytes(),
            forall|k: int| 0 <= k < i ==> name@[k] == bytes@[k],
    {
        if name[i] != bytes[i] {
            return false;
        }
    }
    assert(name@ =~= bytes@);
    true
}

/// Looks a command up by its name.
pub fn builtin(name: &[u8]) -> (r: Option<Builtin>)
    ensures
        r == builtin_of(name@),
{
    if is_word(name, "exit") {
        Some(Builtin::Exit)
    } else if is_word(name, "shutdown") {
        Some(Builtin::Shutdown)
    } else if is_word(name, "reboot") {
        Some(Builtin::Reboot)
    } else if is_word(name, "clear") {
        Some(Builtin::Clear)
    } else if is_word(name, "next") {
        Some(Builtin::Next)
    } else if is_word(name, "prev") {
        Some(Builtin::Prev)
    } else if is_word(name, "help") {
        Some(Builtin::Help)
    } else if is_word(name, "info") {
        Some(Builtin::Info)
    } else if is_word(name, "read_serial") {
        Some(Builtin::ReadSerial)
    } else if is_word(name, "echo") {
        Some(Builtin::Echo)
    } else {
        None
    }
}

/// Clear the current virtual terminal.
pub fn clear_vt(writer: &mut Spinlock<Writer>) -> (r: [PortAction; 4])
    requires
        !old(writer)@.held,
        old(writer)@.value.wf(),
    ensures
        !final(writer)@.held,
        final(writer)@.value.wf(),
        final(writer)@.value@ == old(writer)@.value@.with_current(
            old(writer)@.value@.current().clear(),
        ),
        r@ == update_actions(0, 0),
{
    let mut writer_lock = writer.lock();
    let r = writer_lock.deref_mut().clear();
    writer_lock.release();
    r
}

/// Go to the next virtual terminal.
pub fn next_vt(writer: &mut Spinlock<Writer>) -> (r: [PortAction; 10])
    requires
        !old(writer)@.held,
        old(writer)@.value.wf(),
    ensures
        !final(writer)@.held,
        final(writer)@.value.wf(),
        final(writer)@.value@ == old(writer)@.value@.change_screen(
            old(writer)@.value@.next_index(),
        ),
        r@ == switch_actions(
            final(writer)@.value@.current().x,
            final(writer)@.value@.current().y,
        ),
{
    let mut writer_lock = writer.lock();
    let r = writer_lock.deref_mut().next_screen();
    writer_lock.release();
    r
}

/// Go to the previous virtual terminal.
pub fn prev_vt(writer: &mut Spinlock<Writer>) -> (r: [PortAction; 10])
    requires
        !old(writer)@.held,
        old(writer)@.value.wf(),
    ensures
        !final(writer)@.held,
        final(writer)@.value.wf(),
        final(writer)@.value@ == old(writer)@.value@.change_screen(
            old(writer)@.value@.prev_index(),
        ),
        r@ == switch_actions(
            final(writer)@.value@.current().x,
            final(writer)@.value@.current().y,
        ),
{
    let mut writer_lock = writer.lock();
    let r = writer_lock.deref_mut().prev_screen();
    writer_lock.release();
    r
}

/// The console in the attribute `color` from now on.
pub open spec fn colored(console: Console, color: ColorCode) -> Console {
    console.with_current(Terminal { color, ..console.current() })
}

/// The console after the shell has said goodbye: the word `exit` in
/// red on white on a line of its own, and the default attribute
/// restored behind it.
pub open spec fn exited(console: Console) -> Console {
    let red_on_white = console.current().color.with_foreground(Color::Red).with_background(
        Color::White,
    );
    colored(printed(colored(console, red_on_white), "exit\n".spec_bytes()), default_color())
}

/// Exit the shell.
pub fn exit(writer: &mut Spinlock<Writer>) -> (r: [PortAction; 10])
    requires
        !old(writer)@.held,
        old(writer)@.value.wf(),
    ensures
        !final(writer)@.held,
        final(writer)@.value.wf(),
        final(writer)@.value@ == exited(old(writer)@.value@),
        r@ == switch_actions(
            final(writer)@.value@.current().x,
            final(writer)@.value@.current().y,
        ),
{
    let mut writer_lock = writer.lock();
    writer_lock.deref_mut().set_foreground(Color::Red);
    writer_lock.release();
    let mut writer_lock = writer.lock();
    writer_lock.deref_mut().set_background(Color::White);
    writer_lock.release();
    assert(writer@.value@ =~~= colored(
        old(writer)@.value@,
        old(writer)@.value@.current().color.with_foreground(Color::Red).with_background(
            Color::White,
        ),
    ));
    let r = _print(writer, "exit\n");
    let mut writer_lock = writer.lock();
    writer_lock.deref_mut().set_color_code(ColorCode::default());
    writer_lock.release();
    r
}

/// What `help` prints.
pub const HELP: &'static str = "exit         - quit the shell\n\
    shutdown     - shutdown qemu\n\
    reboot       - reboot the system\n\
    clear        - clear the screen\n\
    next         - go to the next virtual terminal\n\
    prev         - go to the previous virtual terminal\n\
    info         - print information of the kernel\n\
    read_serial  - print all bytes in serial port\n\
    echo         - print on terminal all arguments\n\
    \n\
    shortcut:\n  \
    <Alt>+<ArrowLeft>  -> previous screen\n  \
    <Alt>+<ArrowRight> -> next screen    \n";

/// Print the list of commands.
pub fn help(writer: &mut Spinlock<Writer>) -> (r: [PortAction; 10])
    requires
        !old(writer)@.held,
        old(writer)@.value.wf(),
    ensures
        !final(writer)@.held,
        final(writer)@.value.wf(),
        final(writer)@.value@ == printed(old(writer)@.value@, HELP.spec_bytes()),
        r@ == switch_actions(
            final(writer)@.value@.current().x,
            final(writer)@.value@.current().y,
        ),
{
    _print(writer, HELP)
}

/// What `info` prints.
pub open spec fn info_text() -> Seq<u8> {
    "version: ".spec_bytes() + VERSION.spec_bytes() + "\n".spec_bytes()
}

/// Print info about the kernel.
pub fn info(writer: &mut Spinlock<Writer>) -> (r: [PortAction; 10])
    requires
        !old(writer)@.held,
        old(writer)@.value.wf(),
    ensures
        !final(writer)@.held,
        final(writer)@.value.wf(),
        final(writer)@.value@ == printed(old(writer)@.value@, info_text()),
        r@ == switch_actions(
            final(writer)@.value@.current().x,
            final(writer)@.value@.current().y,
        ),
{
    let ghost was = writer@.value@;
    _print(writer, "version: ");
    _print(writer, VERSION);
    proof {
        lemma_printed_in_pieces(was, "version: ".spec_bytes(), VERSION.spec_bytes());
        lemma_printed_in_pieces(
            was,
            "version: ".spec_bytes() + VERSION.spec_bytes(),
            "\n".spec_bytes(),
        );
    }
    _print(writer, "\n")
}

/// The digits of `n` in base ten, as characters.
pub open spec fn decimal(n: nat) -> Seq<u8>
    decreases n,
{
    if n < 10 {
        seq![(0x30 + n) as u8]
    } else {
        decimal(n / 10).push((0x30 + n % 10) as u8)
    }
}

/// Prints `n` in base ten.
pub fn print_number(writer: &mut Spinlock<Writer>, n: usize) -> (r: [PortAction; 10])
    requires
        !old(writer)@.held,
        old(writer)@.value.wf(),
    ensures
        !final(writer)@.held,
        final(writer)@.value.wf(),
        final(writer)@.value@ == printed(old(writer)@.value@, decimal(n as nat)),
        r@ == switch_actions(
            final(writer)@.value@.current().x,
            final(writer)@.value@.current().y,
        ),
    decreases n,
{
    let ghost was = writer@.value@;
    if n >= 10 {
        print_number(writer, n / 10);
    }
    let digit = [0x30 + (n % 10) as u8];
    proof {
        if n >= 10 {
            lemma_printed_in_pieces(was, decimal((n / 10) as nat), digit@);
            assert(decimal((n / 10) as nat) + digit@ =~= decimal(n as nat));
        } else {
            assert(digit@ =~= decimal(n as nat));
        }
    }
    print_bytes(writer, digit.as_slice())
}

/// The line that `echo` prints for word `i` of the line: its number
/// among the arguments, counted from nought, and the word in quotes.
pub open spec fn echo_line(line: Seq<u8>, args: Seq<(int, int)>, i: int) -> Seq<u8> {
    decimal((i - 1) as nat) + ": '".spec_bytes() + line.subrange(args[i].0, args[i].1)
        + "'\n".spec_bytes()
}

/// The lines that `echo` prints for the words before word `upto`, the
/// command's name left out.
pub open spec fn echo_lines(line: Seq<u8>, args: Seq<(int, int)>, upto: int) -> Seq<u8>
    decreases upto,
{
    if upto <= 1 {
        Seq::empty()
    } else {
        echo_lines(line, args, upto - 1) + echo_line(line, args, upto - 1)
    }
}

/// What `echo` prints: the number of arguments, then each of them on a
/// line of its own.
pub open spec fn echo_text(line: Seq<u8>, args: Seq<(int, int)>) -> Seq<u8> {
    "nb argument: ".spec_bytes() + decimal((args.len() - 1) as nat) + "\n".spec_bytes()
        + echo_lines(line, args, args.len() as int)
}

/// Print all args: the words of `line` after the first, which is the
/// command's own name.
pub fn echo(writer: &mut Spinlock<Writer>, line: &[u8], args: &Args) -> (r: [PortAction; 10])
    requires
        !old(writer)@.held,
        old(writer)@.value.wf(),
        args@ == words(line@, 0, MAX_ARG as nat),
        args@.len() >= 1,
    ensures
        !final(writer)@.held,
        final(writer)@.value.wf(),
        final(writer)@.value@ == printed(old(writer)@.value@, echo_text(line@, args@)),
        r@ == switch_actions(
            final(writer)@.value@.current().x,
            final(writer)@.value@.current().y,
        ),
{
    let ghost was = writer@.value@;
    let nb_arg = args.len();
    _print(writer, "nb argument: ");
    print_number(writer, nb_arg - 1);
    let mut r = _print(writer, "\n");
    let ghost head = "nb argument: ".spec_bytes() + decimal((nb_arg - 1) as nat) + "\n".spec_bytes();
    proof {
        lemma_printed_in_pieces(was, "nb argument: ".spec_bytes(), decimal((nb_arg - 1) as nat));
        lemma_printed_in_pieces(
            was,
            "nb argument: ".spec_bytes() + decimal((nb_arg - 1) as nat),
            "\n".spec_bytes(),
        );
        assert(head + echo_lines(line@, args@, 1) =~= head);
    }
    for i in 1..nb_arg
        invariant
            nb_arg == args@.len(),
            args@ == words(line@, 0, MAX_ARG as nat),
            was.wf(),
            head == "nb argument: ".spec_bytes() + decimal((nb_arg - 1) as nat) + "\n".spec_bytes(),
            !writer@.held,
            writer@.value.wf(),
            writer@.value@ == printed(was, head + echo_lines(line@, args@, i as int)),
            r@ == switch_actions(writer@.value@.current().x, writer@.value@.current().y),
    {
        let ghost so_far = head + echo_lines(line@, args@, i as int);
        let ghost number = decimal((i - 1) as nat);
        let ghost open = ": '".spec_bytes();
        let ghost word = line@.subrange(args@[i as int].0, args@[i as int].1);
        let ghost close = "'\n".spec_bytes();
        print_number(writer, i - 1);
        _print(writer, ": '");
        print_bytes(writer, args.get(line, i));
        r = _print(writer, "'\n");
        proof {
            lemma_printed_in_pieces(was, so_far, number);
            lemma_printed_in_pieces(was, so_far + number, open);
            lemma_printed_in_pieces(was, so_far + number + open, word);
            lemma_printed_in_pieces(was, so_far + number + open + word, close);
            assert(so_far + number + open + word + close =~= head + echo_lines(
                line@,
                args@,
                i + 1,
            ));
        }
    }
    r
}

} // verus!

//! The text display: a grid of character cells shared by several virtual
//! terminals, one of which is shown at a time.

use crate::port::PortAction;
use crate::spinlock::Spinlock;
use crate::vga_buffer::terminal::{
    lemma_write_bytes_any_cursor, lemma_write_bytes_concat, lemma_write_bytes_wf, Console, Terminal,
};
use crate::vga_buffer::writer::{switch_actions, Writer, VT_NUMBER};
use core::ops::DerefMut;
use vstd::prelude::*;
use vstd::string::StringSliceAdditionalSpecFns;

pub mod color;
pub mod cursor;
pub mod terminal;
pub mod writer;

verus! {

/// Rows of the display.
pub const BUFFER_HEIGHT: usize = 25;

/// Columns of the display.
pub const BUFFER_WIDTH: usize = 80;

/// The byte that breaks the line.
pub const LINE_FEED: u8 = 0x0A;

/// The byte that takes the last character of the line back.
pub const BACKSPACE: u8 = 0x08;

/// The character of an empty cell.
pub const SPACE: u8 = 0x20;

/// The console after `bytes` were printed on it: they are written to
/// the active terminal, whose cursor shows afterwards.
pub open spec fn printed(console: Console, bytes: Seq<u8>) -> Console {
    console.with_current(Terminal { enabled: true, ..console.current().write_bytes(bytes) })
}

/// Printing in pieces is printing the whole.
pub proof fn lemma_printed_in_pieces(console: Console, first: Seq<u8>, second: Seq<u8>)
    requires
        console.wf(),
    ensures
        printed(console, first).wf(),
        printed(printed(console, first), second) == printed(console, first + second),
{
    let t = console.current();
    lemma_write_bytes_wf(t, first);
    lemma_write_bytes_concat(t, first, second);
    lemma_write_bytes_any_cursor(t.write_bytes(first), true, second);
    let once = printed(console, first);
    assert forall|i: int| 0 <= i < VT_NUMBER implies (#[trigger] once.terminals[i]).wf() by {
        assert(console.terminals[i].wf());
    }
    assert forall|i: int| 0 <= i < VT_NUMBER && i != once.active implies !(
    #[trigger] once.terminals[i]).enabled by {
        assert(!console.terminals[i].enabled);
    }
    assert(printed(once, second) =~~= printed(console, first + second));
}

/// Prints `s` on the active terminal, under the writer's lock: the
/// cursor is hidden, the bytes are written, and the cursor is moved
/// behind them and shown again. What is returned tells the display's
/// controller so.
pub fn _print(writer: &mut Spinlock<Writer>, s: &str) -> (r: [PortAction; 10])
    requires
        !old(writer)@.held,
        old(writer)@.value.wf(),
    ensures
        !final(writer)@.held,
        final(writer)@.value.wf(),
        final(writer)@.value@ == printed(old(writer)@.value@, s.spec_bytes()),
        r@ == switch_actions(
            final(writer)@.value@.current().x,
            final(writer)@.value@.current().y,
        ),
{
    print_bytes(writer, s.as_bytes())
}

/// Prints `bytes` as `_print` prints a string.
pub fn print_bytes(writer: &mut Spinlock<Writer>, bytes: &[u8]) -> (r: [PortAction; 10])
    requires
        !old(writer)@.held,
        old(writer)@.value.wf(),
    ensures
        !final(writer)@.held,
        final(writer)@.value.wf(),
        final(writer)@.value@ == printed(old(writer)@.value@, bytes@),
        r@ == switch_actions(
            final(writer)@.value@.current().x,
            final(writer)@.value@.current().y,
        ),
{
    let mut writer_lock = writer.lock();
    let w = writer_lock.deref_mut();
    let d = w.cursor_disable();
    w.write_bytes(bytes);
    let u = w.cursor_update();
    let e = w.cursor_enable();
    proof {
        let was = old(writer)@.value@;
        lemma_write_bytes_any_cursor(was.current(), false, bytes@);
        assert(w@ =~~= printed(was, bytes@));
    }
    writer_lock.release();
    let r = [d[0], d[1], u[0], u[1], u[2], u[3], e[0], e[1], e[2], e[3]];
    assert(r@ =~= switch_actions(
        printed(old(writer)@.value@, bytes@).current().x,
        printed(old(writer)@.value@, bytes@).current().y,
    ));
    r
}

} // verus!

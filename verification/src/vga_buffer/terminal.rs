//! What a terminal and the console are, apart from how they are stored:
//! grids of cells, cursors and the rules by which writing changes them.
//! The writer's contracts are stated over these.

use crate::vga_buffer::color::{default_color, ColorCode};
use crate::vga_buffer::writer::{ScreenChar, VT_NUMBER};
use crate::vga_buffer::{BACKSPACE, BUFFER_HEIGHT, BUFFER_WIDTH, LINE_FEED, SPACE};
use vstd::prelude::*;

verus! {

/// The cells of a display, row by row from the top.
pub type Grid = Seq<Seq<ScreenChar>>;

/// The empty cell in the attribute `color`: a space.
pub open spec fn blank(color: ColorCode) -> ScreenChar {
    ScreenChar { ascii_character: SPACE, color_code: color }
}

/// A row of empty cells.
pub open spec fn blank_row(color: ColorCode) -> Seq<ScreenChar> {
    Seq::new(BUFFER_WIDTH as nat, |x: int| blank(color))
}

/// A display of empty cells.
pub open spec fn blank_grid(color: ColorCode) -> Grid {
    Seq::new(BUFFER_HEIGHT as nat, |y: int| blank_row(color))
}

/// The grid has the display's height and each row its width.
pub open spec fn grid_wf(grid: Grid) -> bool {
    &&& grid.len() == BUFFER_HEIGHT
    &&& forall|y: int| 0 <= y < BUFFER_HEIGHT ==> (#[trigger] grid[y]).len() == BUFFER_WIDTH
}

/// The grid with cell (x, y) replaced.
pub open spec fn put(grid: Grid, x: int, y: int, cell: ScreenChar) -> Grid {
    grid.update(y, grid[y].update(x, cell))
}

/// The grid one row further: the top row is gone, every other row has
/// moved up by one, and the bottom row is empty.
pub open spec fn scrolled(grid: Grid, color: ColorCode) -> Grid {
    grid.subrange(1, BUFFER_HEIGHT as int).push(blank_row(color))
}

/// One virtual terminal: its cells, its cursor and the attribute in
/// which it writes.
#[verifier::ext_equal]
pub struct Terminal {
    pub buffer: Grid,
    /// The cursor's column.
    pub x: int,
    /// The cursor's row.
    pub y: int,
    /// Whether the cursor was last told to show.
    pub enabled: bool,
    /// The attribute of the cells written from now on.
    pub color: ColorCode,
}

impl Terminal {
    /// The cells fill the display and the cursor is on it.
    pub open spec fn wf(self) -> bool {
        &&& grid_wf(self.buffer)
        &&& 0 <= self.x < BUFFER_WIDTH
        &&& 0 <= self.y < BUFFER_HEIGHT
    }

    /// A terminal as it starts: empty, in the default attribute, with
    /// the cursor at home and not shown.
    pub open spec fn fresh() -> Terminal {
        Terminal {
            buffer: blank_grid(default_color()),
            x: 0,
            y: 0,
            enabled: false,
            color: default_color(),
        }
    }

    /// The cell that a written byte becomes.
    pub open spec fn glyph(self, byte: u8) -> ScreenChar {
        ScreenChar { ascii_character: byte, color_code: self.color }
    }

    /// The terminal after a line break: the cursor goes to the start of
    /// the next row, and where there is none the cells scroll instead.
    pub open spec fn new_line(self) -> Terminal {
        if self.y >= BUFFER_HEIGHT - 1 {
            Terminal {
                buffer: scrolled(self.buffer, self.color),
                x: 0,
                y: BUFFER_HEIGHT - 1,
                ..self
            }
        } else {
            Terminal { x: 0, y: self.y + 1, ..self }
        }
    }

    /// The terminal after a backspace: the cell before the cursor is
    /// emptied and the cursor stands on it. In the first column nothing
    /// changes.
    pub open spec fn backspace(self) -> Terminal {
        if self.x == 0 {
            self
        } else {
            Terminal {
                buffer: put(self.buffer, self.x - 1, self.y, blank(self.color)),
                x: self.x - 1,
                ..self
            }
        }
    }

    /// The terminal after a byte was printed under the cursor: the
    /// cursor moves right, and from the last column it breaks the line.
    pub open spec fn print(self, byte: u8) -> Terminal {
        let printed = Terminal {
            buffer: put(self.buffer, self.x, self.y, self.glyph(byte)),
            ..self
        };
        if self.x >= BUFFER_WIDTH - 1 {
            printed.new_line()
        } else {
            Terminal { x: self.x + 1, ..printed }
        }
    }

    /// The terminal after one byte was written to it.
    pub open spec fn write_byte(self, byte: u8) -> Terminal {
        if byte == LINE_FEED {
            self.new_line()
        } else if byte == BACKSPACE {
            self.backspace()
        } else {
            self.print(byte)
        }
    }

    /// The terminal after `bytes` were written to it, first to last.
    pub open spec fn write_bytes(self, bytes: Seq<u8>) -> Terminal
        decreases bytes.len(),
    {
        if bytes.len() == 0 {
            self
        } else {
            self.write_bytes(bytes.drop_last()).write_byte(bytes.last())
        }
    }

    /// Whether writing `byte` scrolls the cells.
    pub open spec fn scrolls(self, byte: u8) -> bool {
        self.y >= BUFFER_HEIGHT - 1 && (byte == LINE_FEED || (byte != BACKSPACE && self.x >= BUFFER_WIDTH
            - 1))
    }

    /// How often the cells scroll while `bytes` are written.
    pub open spec fn scroll_count(self, bytes: Seq<u8>) -> nat
        decreases bytes.len(),
    {
        if bytes.len() == 0 {
            0
        } else {
            let before = self.write_bytes(bytes.drop_last());
            self.scroll_count(bytes.drop_last()) + if before.scrolls(bytes.last()) {
                1nat
            } else {
                0nat
            }
        }
    }

    /// The terminal cleared: every cell empty in the current attribute,
    /// the cursor at home.
    pub open spec fn clear(self) -> Terminal {
        Terminal { buffer: blank_grid(self.color), x: 0, y: 0, ..self }
    }
}

/// The console: the terminals, which of them is shown, and the cells on
/// the physical display.
#[verifier::ext_equal]
pub struct Console {
    pub terminals: Seq<Terminal>,
    /// The index of the terminal that is shown.
    pub active: int,
    /// What the display shows.
    pub display: Grid,
}

impl Console {
    /// Every terminal is well formed, one of them is the active one,
    /// the display shows the active terminal's cells, all of them and
    /// nothing else, and no cursor but the active terminal's is shown.
    pub open spec fn wf(self) -> bool {
        &&& self.terminals.len() == VT_NUMBER
        &&& 0 <= self.active < VT_NUMBER
        &&& forall|i: int| 0 <= i < VT_NUMBER ==> (#[trigger] self.terminals[i]).wf()
        &&& forall|i: int|
            0 <= i < VT_NUMBER && i != self.active ==> !(#[trigger] self.terminals[i]).enabled
        &&& self.display == self.current().buffer
    }

    /// The console as it starts: every terminal fresh, the first one
    /// shown.
    pub open spec fn fresh() -> Console {
        Console {
            terminals: Seq::new(VT_NUMBER as nat, |i: int| Terminal::fresh()),
            active: 0,
            display: blank_grid(default_color()),
        }
    }

    /// The terminal that is shown.
    pub open spec fn current(self) -> Terminal {
        self.terminals[self.active]
    }

    /// The console with `terminal` in the place of terminal `index`. The
    /// display follows if that is the active terminal, and stays as it
    /// is if not.
    pub open spec fn with_terminal(self, index: int, terminal: Terminal) -> Console {
        Console {
            terminals: self.terminals.update(index, terminal),
            display: if index == self.active {
                terminal.buffer
            } else {
                self.display
            },
            ..self
        }
    }

    /// The console with `terminal` in the active terminal's place, and
    /// the display showing it.
    pub open spec fn with_current(self, terminal: Terminal) -> Console {
        self.with_terminal(self.active, terminal)
    }

    /// The console after a byte was written to terminal `index`.
    pub open spec fn write_byte_to(self, index: int, byte: u8) -> Console {
        self.with_terminal(index, self.terminals[index].write_byte(byte))
    }

    /// The console after a byte was written to the active terminal.
    pub open spec fn write_byte(self, byte: u8) -> Console {
        self.write_byte_to(self.active, byte)
    }

    /// The console after `bytes` were written to the active terminal.
    pub open spec fn write_bytes(self, bytes: Seq<u8>) -> Console {
        self.with_current(self.current().write_bytes(bytes))
    }

    /// The console after the switch to terminal `index`: the cursor of
    /// the terminal that was shown is hidden, the display shows the
    /// cells of the new one, and its cursor shows. An index that names
    /// no terminal changes nothing.
    pub open spec fn change_screen(self, index: int) -> Console {
        if 0 <= index < VT_NUMBER {
            let hidden = self.terminals.update(
                self.active,
                Terminal { enabled: false, ..self.current() },
            );
            let target = Terminal { enabled: true, ..hidden[index] };
            Console { terminals: hidden.update(index, target), active: index, display: target.buffer }
        } else {
            self
        }
    }

    /// The index after the active one, the first after the last.
    pub open spec fn next_index(self) -> int {
        if self.active == VT_NUMBER - 1 {
            0
        } else {
            self.active + 1
        }
    }

    /// The index before the active one, the last before the first.
    pub open spec fn prev_index(self) -> int {
        if self.active == 0 {
            VT_NUMBER - 1
        } else {
            self.active - 1
        }
    }
}

/// A byte that is printed as it is: neither the line feed nor the
/// backspace.
pub open spec fn printable(byte: u8) -> bool {
    byte != LINE_FEED && byte != BACKSPACE
}

/// Writing keeps a terminal well formed.
pub proof fn lemma_write_byte_wf(t: Terminal, byte: u8)
    requires
        t.wf(),
    ensures
        t.write_byte(byte).wf(),
        t.write_byte(byte).color == t.color,
        t.write_byte(byte).enabled == t.enabled,
{
}

/// Writing any bytes keeps a terminal well formed.
pub proof fn lemma_write_bytes_wf(t: Terminal, bytes: Seq<u8>)
    requires
        t.wf(),
    ensures
        t.write_bytes(bytes).wf(),
        t.write_bytes(bytes).color == t.color,
        t.write_bytes(bytes).enabled == t.enabled,
    decreases bytes.len(),
{
    if bytes.len() > 0 {
        lemma_write_bytes_wf(t, bytes.drop_last());
        lemma_write_byte_wf(t.write_bytes(bytes.drop_last()), bytes.last());
    }
}

/// Writing bytes and then one more is writing them all.
pub proof fn lemma_console_write_push(c: Console, bytes: Seq<u8>, byte: u8)
    requires
        c.wf(),
    ensures
        c.write_bytes(bytes.push(byte)) == c.write_bytes(bytes).write_byte(byte),
{
    assert(bytes.push(byte).drop_last() =~= bytes);
    assert(c.write_bytes(bytes.push(byte)) =~~= c.write_bytes(bytes).write_byte(byte));
}

/// Writing one run of bytes and then another is writing the two as one.
pub proof fn lemma_write_bytes_concat(t: Terminal, first: Seq<u8>, second: Seq<u8>)
    ensures
        t.write_bytes(first + second) == t.write_bytes(first).write_bytes(second),
    decreases second.len(),
{
    if second.len() == 0 {
        assert(first + second =~= first);
    } else {
        lemma_write_bytes_concat(t, first, second.drop_last());
        assert((first + second).drop_last() =~= first + second.drop_last());
    }
}

/// What is written does not depend on whether the cursor shows.
pub proof fn lemma_write_bytes_any_cursor(t: Terminal, enabled: bool, bytes: Seq<u8>)
    ensures
        (Terminal { enabled, ..t }).write_bytes(bytes) == (Terminal {
            enabled,
            ..t.write_bytes(bytes)
        }),
    decreases bytes.len(),
{
    if bytes.len() > 0 {
        lemma_write_bytes_any_cursor(t, enabled, bytes.drop_last());
    }
}

/// Writing to the console goes to the active terminal alone: the
/// display keeps mirroring it, and no other terminal changes.
pub proof fn lemma_write_touches_active_only(c: Console, bytes: Seq<u8>, other: int)
    requires
        c.wf(),
        0 <= other < VT_NUMBER,
        other != c.active,
    ensures
        c.write_bytes(bytes).wf(),
        c.write_bytes(bytes).active == c.active,
        c.write_bytes(bytes).display == c.write_bytes(bytes).current().buffer,
        c.write_bytes(bytes).terminals[other] == c.terminals[other],
{
    lemma_write_bytes_wf(c.current(), bytes);
    assert forall|i: int| 0 <= i < VT_NUMBER implies (#[trigger] c.write_bytes(
        bytes,
    ).terminals[i]).wf() by {
        assert(c.terminals[i].wf());
    }
}

/// What is written to a terminal that is not shown goes to that
/// terminal's cells alone: the display and every other terminal stay as
/// they are, and the display shows what was written as soon as the
/// terminal is switched to.
pub proof fn lemma_write_to_hidden_terminal(c: Console, index: int, byte: u8, other: int)
    requires
        c.wf(),
        0 <= index < VT_NUMBER,
        index != c.active,
        0 <= other < VT_NUMBER,
        other != index,
    ensures
        c.write_byte_to(index, byte).wf(),
        c.write_byte_to(index, byte).active == c.active,
        c.write_byte_to(index, byte).display == c.display,
        c.write_byte_to(index, byte).terminals[other] == c.terminals[other],
        c.write_byte_to(index, byte).terminals[index] == c.terminals[index].write_byte(byte),
        c.write_byte_to(index, byte).change_screen(index).display == c.terminals[index].write_byte(
            byte,
        ).buffer,
{
    let written = c.write_byte_to(index, byte);
    assert(c.terminals[index].wf());
    lemma_write_byte_wf(c.terminals[index], byte);
    assert forall|i: int| 0 <= i < VT_NUMBER implies (#[trigger] written.terminals[i]).wf() by {
        assert(c.terminals[i].wf());
    }
    assert forall|i: int| 0 <= i < VT_NUMBER && i != written.active implies !(
    #[trigger] written.terminals[i]).enabled by {
        assert(!c.terminals[i].enabled);
    }
}

/// A switch of terminals changes what is shown and nothing that is
/// stored: every terminal keeps its cells, its cursor position and its
/// attribute, and the display mirrors the terminal switched to.
pub proof fn lemma_switch_keeps_terminals(c: Console, index: int, any: int)
    requires
        c.wf(),
        0 <= index < VT_NUMBER,
        0 <= any < VT_NUMBER,
    ensures
        c.change_screen(index).wf(),
        c.change_screen(index).active == index,
        c.change_screen(index).display == c.terminals[index].buffer,
        c.change_screen(index).terminals[any].buffer == c.terminals[any].buffer,
        c.change_screen(index).terminals[any].x == c.terminals[any].x,
        c.change_screen(index).terminals[any].y == c.terminals[any].y,
        c.change_screen(index).terminals[any].color == c.terminals[any].color,
        c.change_screen(index).terminals[any].enabled == (any == index),
{
    let s = c.change_screen(index);
    assert forall|i: int| 0 <= i < VT_NUMBER implies (#[trigger] s.terminals[i]).wf() by {
        assert(c.terminals[i].wf());
    }
}

/// Switching to terminal `i`, then to `j`, then back to `i` brings back
/// exactly the cells and the cursor position that `i` had before the
/// first switch, and the display then shows those cells, cell for cell.
pub proof fn lemma_switch_round_trip(c: Console, i: int, j: int)
    requires
        c.wf(),
        0 <= i < VT_NUMBER,
        0 <= j < VT_NUMBER,
    ensures
        ({
            let back = c.change_screen(i).change_screen(j).change_screen(i);
            &&& back.wf()
            &&& back.active == i
            &&& back.terminals[i].buffer == c.terminals[i].buffer
            &&& back.terminals[i].x == c.terminals[i].x
            &&& back.terminals[i].y == c.terminals[i].y
            &&& back.terminals[i].color == c.terminals[i].color
            &&& back.display == c.terminals[i].buffer
            &&& back == c.change_screen(i).change_screen(j).change_screen(i).change_screen(i)
        }),
{
    let first = c.change_screen(i);
    let second = first.change_screen(j);
    let back = second.change_screen(i);
    lemma_switch_keeps_terminals(c, i, i);
    lemma_switch_keeps_terminals(first, j, i);
    lemma_switch_keeps_terminals(second, i, i);
    lemma_switch_keeps_terminals(back, i, i);
    assert(back.change_screen(i).terminals =~= back.terminals);
}

/// The next terminal after the last is the first, the one before the
/// first is the last, and otherwise the neighbour in the row; going to
/// the next and then to the previous leads back.
pub proof fn lemma_screens_wrap(c: Console)
    requires
        c.wf(),
    ensures
        0 <= c.next_index() < VT_NUMBER,
        0 <= c.prev_index() < VT_NUMBER,
        c.active == VT_NUMBER - 1 ==> c.change_screen(c.next_index()).active == 0,
        c.active == 0 ==> c.change_screen(c.prev_index()).active == VT_NUMBER - 1,
        c.active < VT_NUMBER - 1 ==> c.change_screen(c.next_index()).active == c.active + 1,
        c.active > 0 ==> c.change_screen(c.prev_index()).active == c.active - 1,
        c.change_screen(c.next_index()).prev_index() == c.active,
        c.change_screen(c.prev_index()).next_index() == c.active,
{
}

/// The number of cells of the display.
pub open spec fn cells() -> int {
    BUFFER_WIDTH * BUFFER_HEIGHT
}

/// From home, the first bytes of a run of printable bytes fill the
/// cells in reading order without scrolling, as long as at least one
/// cell stays free.
proof fn lemma_fill(t: Terminal, bytes: Seq<u8>, k: int)
    requires
        t.wf(),
        t.x == 0,
        t.y == 0,
        0 <= k <= bytes.len(),
        k < cells(),
        forall|i: int| 0 <= i < bytes.len() ==> printable(#[trigger] bytes[i]),
    ensures
        ({
            let s = t.write_bytes(bytes.take(k));
            &&& s.wf()
            &&& s.color == t.color
            &&& s.enabled == t.enabled
            &&& s.x == k % (BUFFER_WIDTH as int)
            &&& s.y == k / (BUFFER_WIDTH as int)
            &&& t.scroll_count(bytes.take(k)) == 0
            &&& forall|x: int, y: int|
                0 <= x < BUFFER_WIDTH && 0 <= y < BUFFER_HEIGHT ==> #[trigger] s.buffer[y][x] == if y
                    * BUFFER_WIDTH + x < k {
                    t.glyph(bytes[y * BUFFER_WIDTH + x])
                } else {
                    t.buffer[y][x]
                }
        }),
    decreases k,
{
    if k == 0 {
        assert(bytes.take(0) =~= Seq::<u8>::empty());
    } else {
        lemma_fill(t, bytes, k - 1);
        let upto = bytes.take(k);
        assert(upto.drop_last() =~= bytes.take(k - 1));
        assert(upto.last() == bytes[k - 1]);
        assert(printable(bytes[k - 1]));
        let before = t.write_bytes(bytes.take(k - 1));
        let s = t.write_bytes(upto);
        assert(s == before.print(bytes[k - 1]));
        assert(!before.scrolls(bytes[k - 1]));
        assert forall|x: int, y: int|
            0 <= x < BUFFER_WIDTH && 0 <= y < BUFFER_HEIGHT implies #[trigger] s.buffer[y][x] == if y
                * BUFFER_WIDTH + x < k {
                t.glyph(bytes[y * BUFFER_WIDTH + x])
            } else {
                t.buffer[y][x]
            } by {
            assert(before.buffer[y][x] == if y * BUFFER_WIDTH + x < k - 1 {
                t.glyph(bytes[y * BUFFER_WIDTH + x])
            } else {
                t.buffer[y][x]
            });
        }
    }
}

/// A write that scrolls moves every row up by one and leaves an empty
/// row at the bottom, with the cursor at its start.
pub proof fn lemma_scroll_moves_rows_up(t: Terminal, byte: u8)
    requires
        t.wf(),
        t.scrolls(byte),
    ensures
        ({
            let drawn = if byte == LINE_FEED {
                t.buffer
            } else {
                put(t.buffer, t.x, t.y, t.glyph(byte))
            };
            let after = t.write_byte(byte);
            &&& after.wf()
            &&& after.x == 0
            &&& after.y == BUFFER_HEIGHT - 1
            &&& forall|y: int| 0 <= y < BUFFER_HEIGHT - 1 ==> #[trigger] after.buffer[y] == drawn[y + 1]
            &&& after.buffer[BUFFER_HEIGHT - 1] == blank_row(t.color)
        }),
{
}

/// What a scroll pushes out is gone: two terminals that differ in their
/// top row alone are the same terminal after a write that scrolls.
pub proof fn lemma_scroll_forgets_top_row(t: Terminal, u: Terminal, byte: u8)
    requires
        t.wf(),
        u.wf(),
        t.scrolls(byte),
        t.x == u.x,
        t.y == u.y,
        t.enabled == u.enabled,
        t.color == u.color,
        forall|y: int| 1 <= y < BUFFER_HEIGHT ==> #[trigger] t.buffer[y] == u.buffer[y],
    ensures
        t.write_byte(byte) == u.write_byte(byte),
{
    assert(t.write_byte(byte).buffer =~~= u.write_byte(byte).buffer);
}

/// From home, a run of printable bytes one longer than the display has
/// cells scrolls exactly once: the byte that fills the last cell does,
/// no byte before it does, and the one more does not. Of the bytes of
/// the first row nothing is left afterwards: the rows hold the bytes
/// from the second row on, the last byte stands first in the bottom
/// row, and the cursor stands behind it.
pub proof fn lemma_one_more_than_a_screen(t: Terminal, bytes: Seq<u8>)
    requires
        t.wf(),
        t.x == 0,
        t.y == 0,
        bytes.len() == cells() + 1,
        forall|i: int| 0 <= i < bytes.len() ==> printable(#[trigger] bytes[i]),
    ensures
        forall|k: int| 0 <= k < cells() ==> t.scroll_count(#[trigger] bytes.take(k)) == 0,
        t.write_bytes(bytes.take(cells() - 1)).scrolls(bytes[cells() - 1]),
        t.scroll_count(bytes.take(cells())) == 1,
        !t.write_bytes(bytes.take(cells())).scrolls(bytes[cells()]),
        t.scroll_count(bytes) == 1,
        ({
            let last = t.write_bytes(bytes);
            &&& last.wf()
            &&& last.x == 1
            &&& last.y == BUFFER_HEIGHT - 1
            &&& forall|x: int, y: int|
                0 <= x < BUFFER_WIDTH && 0 <= y < BUFFER_HEIGHT - 1 ==> #[trigger] last.buffer[y][x]
                    == t.glyph(bytes[(y + 1) * BUFFER_WIDTH + x])
            &&& last.buffer[BUFFER_HEIGHT - 1][0] == t.glyph(bytes[cells()])
            &&& forall|x: int|
                1 <= x < BUFFER_WIDTH ==> #[trigger] last.buffer[BUFFER_HEIGHT - 1][x] == blank(
                    t.color,
                )
        }),
{
    let n = cells();
    assert forall|k: int| 0 <= k < n implies t.scroll_count(#[trigger] bytes.take(k)) == 0 by {
        lemma_fill(t, bytes, k);
    }
    // The screen but for its last cell.
    lemma_fill(t, bytes, n - 1);
    let nearly = t.write_bytes(bytes.take(n - 1));
    assert(nearly.x == BUFFER_WIDTH - 1 && nearly.y == BUFFER_HEIGHT - 1);
    // The byte that fills the last cell.
    let filled = bytes.take(n);
    assert(filled.drop_last() =~= bytes.take(n - 1));
    assert(filled.last() == bytes[n - 1]);
    assert(printable(bytes[n - 1]));
    let full = t.write_bytes(filled);
    assert(full == nearly.write_byte(bytes[n - 1]));
    assert(nearly.scrolls(bytes[n - 1]));
    assert(t.scroll_count(filled) == t.scroll_count(bytes.take(n - 1)) + 1);
    lemma_scroll_moves_rows_up(nearly, bytes[n - 1]);
    let drawn = put(nearly.buffer, nearly.x, nearly.y, nearly.glyph(bytes[n - 1]));
    assert forall|x: int, y: int|
        0 <= x < BUFFER_WIDTH && 0 <= y < BUFFER_HEIGHT - 1 implies #[trigger] full.buffer[y][x]
            == t.glyph(bytes[(y + 1) * BUFFER_WIDTH + x]) by {
        assert(full.buffer[y] == drawn[y + 1]);
        assert(nearly.buffer[y + 1][x] == if (y + 1) * BUFFER_WIDTH + x < n - 1 {
            t.glyph(bytes[(y + 1) * BUFFER_WIDTH + x])
        } else {
            t.buffer[y + 1][x]
        });
    }
    // The one more.
    assert(bytes.drop_last() =~= filled);
    assert(bytes.last() == bytes[n]);
    assert(printable(bytes[n]));
    let last = t.write_bytes(bytes);
    assert(last == full.write_byte(bytes[n]));
    assert(!full.scrolls(bytes[n]));
    assert(t.scroll_count(bytes) == t.scroll_count(filled));
    assert forall|x: int, y: int|
        0 <= x < BUFFER_WIDTH && 0 <= y < BUFFER_HEIGHT - 1 implies #[trigger] last.buffer[y][x]
            == t.glyph(bytes[(y + 1) * BUFFER_WIDTH + x]) by {
        assert(full.buffer[y][x] == t.glyph(bytes[(y + 1) * BUFFER_WIDTH + x]));
    }
}

} // verus!

//! The writer: the virtual terminals as they are stored, and the
//! operations that write to the one that is shown.
//!
//! The writer keeps the cells of the physical display beside those of
//! its terminals and holds them equal to the cells of the terminal that
//! is shown. The display's memory itself is the kernel's: it copies the
//! writer's display cells there.

use crate::port::PortAction;
use crate::vga_buffer::color::{default_color, Color, ColorCode};
use crate::vga_buffer::cursor::{disable_actions, enable_actions, update_actions, Cursor};
use crate::vga_buffer::terminal::{
    blank, blank_grid, blank_row, grid_wf, lemma_console_write_push, put, scrolled, Console, Grid,
    Terminal,
};
use crate::vga_buffer::{BACKSPACE, BUFFER_HEIGHT, BUFFER_WIDTH, LINE_FEED, SPACE};
use vstd::prelude::*;
use vstd::string::StringSliceAdditionalSpecFns;

verus! {

/// One cell of the display: a character and its attribute.
#[derive(Debug, Clone, Copy, PartialEq, Eq, Structural)]
pub struct ScreenChar {
    pub ascii_character: u8,
    pub color_code: ColorCode,
}

impl ScreenChar {
    pub fn new(ascii_character: u8, color_code: ColorCode) -> (r: Self)
        ensures
            r == (ScreenChar { ascii_character, color_code }),
    {
        Self { ascii_character, color_code }
    }

    /// A space in the default attribute.
    pub fn blank() -> (r: Self)
        ensures
            r == blank(default_color()),
    {
        Self { ascii_character: SPACE, color_code: ColorCode::default() }
    }
}

/// The cells of one display.
#[derive(Debug, Clone, Copy)]
pub struct Buffer {
    chars: [[ScreenChar; BUFFER_WIDTH]; BUFFER_HEIGHT],
}

impl View for Buffer {
    type V = Grid;

    closed spec fn view(&self) -> Grid {
        Seq::new(BUFFER_HEIGHT as nat, |y: int| self.chars@[y]@)
    }
}

impl Buffer {
    /// A buffer always has the display's size.
    pub proof fn lemma_size(&self)
        ensures
            grid_wf(self@),
    {
    }

    /// A buffer with `ascii_character` in the attribute `color_code` in
    /// every cell.
    pub fn new(ascii_character: u8, color_code: ColorCode) -> (r: Self)
        ensures
            r@ == Seq::new(
                BUFFER_HEIGHT as nat,
                |y: int|
                    Seq::new(
                        BUFFER_WIDTH as nat,
                        |x: int| (ScreenChar { ascii_character, color_code }),
                    ),
            ),
    {
        let screen_char = ScreenChar::new(ascii_character, color_code);
        let r = Self { chars: [[screen_char; BUFFER_WIDTH]; BUFFER_HEIGHT] };
        assert(r@ =~~= Seq::new(
            BUFFER_HEIGHT as nat,
            |y: int|
                Seq::new(BUFFER_WIDTH as nat, |x: int| (ScreenChar { ascii_character, color_code })),
        ));
        r
    }

    /// Replaces the cell at column `x` of row `y`.
    pub fn set(&mut self, x: usize, y: usize, screen_char: ScreenChar)
        requires
            x < BUFFER_WIDTH,
            y < BUFFER_HEIGHT,
        ensures
            final(self)@ == put(old(self)@, x as int, y as int, screen_char),
    {
        self.chars[y][x] = screen_char;
        assert(self@ =~~= put(old(self)@, x as int, y as int, screen_char));
    }

    /// Replaces the character of the cell at column `x` of row `y` and
    /// keeps its attribute.
    pub fn set_char(&mut self, x: usize, y: usize, ascii_character: u8)
        requires
            x < BUFFER_WIDTH,
            y < BUFFER_HEIGHT,
        ensures
            final(self)@ == put(
                old(self)@,
                x as int,
                y as int,
                ScreenChar { ascii_character, ..old(self)@[y as int][x as int] },
            ),
    {
        self.chars[y][x].ascii_character = ascii_character;
        assert(self@ =~~= put(
            old(self)@,
            x as int,
            y as int,
            ScreenChar { ascii_character, ..old(self)@[y as int][x as int] },
        ));
    }

    /// Replaces the attribute of the cell at column `x` of row `y` and
    /// keeps its character.
    pub fn set_color(&mut self, x: usize, y: usize, color_code: ColorCode)
        requires
            x < BUFFER_WIDTH,
            y < BUFFER_HEIGHT,
        ensures
            final(self)@ == put(
                old(self)@,
                x as int,
                y as int,
                ScreenChar { color_code, ..old(self)@[y as int][x as int] },
            ),
    {
        self.chars[y][x].color_code = color_code;
        assert(self@ =~~= put(
            old(self)@,
            x as int,
            y as int,
            ScreenChar { color_code, ..old(self)@[y as int][x as int] },
        ));
    }

    /// The cell at column `x` of row `y`.
    pub fn get(&self, x: usize, y: usize) -> (r: ScreenChar)
        requires
            x < BUFFER_WIDTH,
            y < BUFFER_HEIGHT,
        ensures
            r == self@[y as int][x as int],
    {
        self.chars[y][x]
    }
}

impl Buffer {
    /// Empties every cell: a space in the default attribute.
    pub fn clear(&mut self)
        ensures
            final(self)@ == blank_grid(default_color()),
    {
        for row in 0..BUFFER_HEIGHT
            invariant
                forall|y: int, x: int|
                    0 <= y < row && 0 <= x < BUFFER_WIDTH ==> #[trigger] self@[y][x] == blank(
                        default_color(),
                    ),
        {
            for col in 0..BUFFER_WIDTH
                invariant
                    row < BUFFER_HEIGHT,
                    forall|y: int, x: int|
                        0 <= y < row && 0 <= x < BUFFER_WIDTH ==> #[trigger] self@[y][x] == blank(
                            default_color(),
                        ),
                    forall|x: int|
                        0 <= x < col ==> #[trigger] self@[row as int][x] == blank(default_color()),
            {
                self.set(col, row, ScreenChar::blank());
            }
        }
        assert(self@ =~~= blank_grid(default_color()));
    }
}

impl Default for Buffer {
    /// A buffer of spaces in the default attribute.
    fn default() -> (r: Self)
        ensures
            r@ == blank_grid(default_color()),
    {
        let r = Self::new(SPACE, ColorCode::default());
        assert(r@ =~~= blank_grid(default_color()));
        r
    }
}

/// One virtual terminal as it is stored.
#[derive(Debug, Clone, Copy)]
pub struct Vt {
    buffer: Buffer,
    cursor: Cursor,
    color_code: ColorCode,
}

impl View for Vt {
    type V = Terminal;

    closed spec fn view(&self) -> Terminal {
        Terminal {
            buffer: self.buffer@,
            x: self.cursor.col(),
            y: self.cursor.row(),
            enabled: self.cursor.shown(),
            color: self.color_code,
        }
    }
}

impl Vt {
    pub fn new() -> (r: Self)
        ensures
            r@ == Terminal::fresh(),
            r@.wf(),
    {
        let color_code = ColorCode::new(Color::LightGray, Color::Black);
        let buffer = Buffer::new(SPACE, color_code);
        assert(buffer@ =~~= blank_grid(default_color()));
        Self { buffer, cursor: Cursor::new(0, 0), color_code }
    }

    /// The attribute in which the terminal writes.
    pub fn get_color_code(&self) -> (r: ColorCode)
        ensures
            r == self@.color,
    {
        self.color_code
    }

    /// The terminal's cells.
    pub fn get_buffer(&self) -> (r: &Buffer)
        ensures
            r@ == self@.buffer,
    {
        &self.buffer
    }

    /// The terminal's cursor.
    pub fn get_cursor(&self) -> (r: &Cursor)
        ensures
            r.col() == self@.x,
            r.row() == self@.y,
            r.shown() == self@.enabled,
    {
        &self.cursor
    }
}

/// The number of virtual terminals.
pub const VT_NUMBER: usize = 2;

/// The console as it is stored: the terminals, the index of the one
/// that is shown, and the cells of the physical display.
pub struct Writer {
    vt_index: usize,
    vt: [Vt; VT_NUMBER],
    buffer: Buffer,
}

impl View for Writer {
    type V = Console;

    closed spec fn view(&self) -> Console {
        Console {
            terminals: Seq::new(VT_NUMBER as nat, |i: int| self.vt@[i]@),
            active: self.vt_index as int,
            display: self.buffer@,
        }
    }
}

/// What a switch of terminals tells the display's controller: hide the
/// cursor, then, the new cells being drawn, move it to column `x` of
/// row `y` and show it.
pub open spec fn switch_actions(x: int, y: int) -> Seq<PortAction> {
    disable_actions() + update_actions(x, y) + enable_actions()
}

impl Writer {
    /// The writer's invariant: that of the console it stands for.
    pub open spec fn wf(&self) -> bool {
        self@.wf()
    }

    pub fn new() -> (r: Self)
        ensures
            r@ == Console::fresh(),
            r.wf(),
    {
        let vt = Vt::new();
        let r = Self { vt_index: 0, buffer: Buffer::default(), vt: [vt; VT_NUMBER] };
        assert(r@.terminals =~= Console::fresh().terminals);
        r
    }

    /// The cells of the physical display.
    pub fn buffer(&self) -> (r: &Buffer)
        ensures
            r@ == self@.display,
    {
        &self.buffer
    }

    /// The index of the terminal that is shown.
    pub fn vt_index(&self) -> (r: usize)
        ensures
            r == self@.active,
    {
        self.vt_index
    }

    /// Terminal `index` as it is stored.
    pub fn vt(&self, index: usize) -> (r: &Vt)
        requires
            index < VT_NUMBER,
        ensures
            r@ == self@.terminals[index as int],
    {
        &self.vt[index]
    }

    /// Writes one byte to the active terminal: a line feed breaks the
    /// line, a backspace takes the last character of the line back, and
    /// any other byte is printed under the cursor.
    pub fn write_byte(&mut self, byte: u8)
        requires
            old(self).wf(),
        ensures
            final(self).wf(),
            final(self)@ == old(self)@.write_byte(byte),
    {
        self.write_byte_to(self.vt_index, byte)
    }

    /// Writes one byte to terminal `index`, shown or not. The display
    /// takes part only if the terminal is the one it shows: what is
    /// written to another terminal waits in that terminal's cells until
    /// it is switched to.
    pub fn write_byte_to(&mut self, index: usize, byte: u8)
        requires
            old(self).wf(),
            index < VT_NUMBER,
        ensures
            final(self).wf(),
            final(self)@ == old(self)@.write_byte_to(index as int, byte),
        decreases
                (if byte == BACKSPACE {
                    2int
                } else {
                    0int
                }),
    {
        assert(old(self)@.terminals[index as int].wf());
        if byte == LINE_FEED {
            self.new_line(index);
        } else if byte == BACKSPACE {
            self.remove_char(index);
        } else {
            let pos = self.vt[index].cursor.get_pos();
            let screen_char = ScreenChar::new(byte, self.vt[index].color_code);
            if index == self.vt_index {
                self.buffer.set(pos.0, pos.1, screen_char);
            }
            self.vt[index].buffer.set(pos.0, pos.1, screen_char);
            proof {
                self.lemma_changed(*old(self), index as int);
            }
            if pos.0 >= BUFFER_WIDTH - 1 {
                self.new_line(index);
            } else {
                let ghost drawn = *self;
                self.vt[index].cursor.inc();
                proof {
                    self.lemma_changed(drawn, index as int);
                }
            }
            assert(self@ =~~= old(self)@.write_byte_to(index as int, byte));
        }
    }

    /// Writes the bytes of `s` to the active terminal, first to last.
    pub fn write_str(&mut self, s: &str)
        requires
            old(self).wf(),
        ensures
            final(self).wf(),
            final(self)@ == old(self)@.write_bytes(s.spec_bytes()),
    {
        self.write_bytes(s.as_bytes())
    }

    /// Writes `bytes` to the active terminal, first to last.
    pub fn write_bytes(&mut self, bytes: &[u8])
        requires
            old(self).wf(),
        ensures
            final(self).wf(),
            final(self)@ == old(self)@.write_bytes(bytes@),
    {
        let n = bytes.len();
        assert(bytes@.take(0) =~= Seq::<u8>::empty());
        assert(self@ =~~= old(self)@.write_bytes(bytes@.take(0)));
        for i in 0..n
            invariant
                n == bytes@.len(),
                old(self).wf(),
                self.wf(),
                self@ == old(self)@.write_bytes(bytes@.take(i as int)),
        {
            self.write_byte(bytes[i]);
            proof {
                assert(bytes@.take(i + 1) =~= bytes@.take(i as int).push(bytes@[i as int]));
                lemma_console_write_push(old(self)@, bytes@.take(i as int), bytes@[i as int]);
            }
        }
        assert(bytes@.take(n as int) =~= bytes@);
    }

    /// Sets the attribute in which the active terminal writes from now
    /// on; the cells already written keep theirs.
    pub fn set_color_code(&mut self, color_code: ColorCode)
        requires
            old(self).wf(),
        ensures
            final(self).wf(),
            final(self)@ == old(self)@.with_current(
                Terminal { color: color_code, ..old(self)@.current() },
            ),
    {
        self.vt[self.vt_index].color_code = color_code;
        proof {
            self.lemma_changed(*old(self), self.vt_index as int);
        }
    }

    /// Sets the foreground colour in which the active terminal writes
    /// from now on.
    pub fn set_foreground(&mut self, fg: Color)
        requires
            old(self).wf(),
        ensures
            final(self).wf(),
            final(self)@ == old(self)@.with_current(
                Terminal {
                    color: old(self)@.current().color.with_foreground(fg),
                    ..old(self)@.current()
                },
            ),
    {
        self.vt[self.vt_index].color_code.set_foreground(fg);
        proof {
            self.lemma_changed(*old(self), self.vt_index as int);
        }
    }

    /// Sets the background colour in which the active terminal writes
    /// from now on.
    pub fn set_background(&mut self, bg: Color)
        requires
            old(self).wf(),
        ensures
            final(self).wf(),
            final(self)@ == old(self)@.with_current(
                Terminal {
                    color: old(self)@.current().color.with_background(bg),
                    ..old(self)@.current()
                },
            ),
    {
        self.vt[self.vt_index].color_code.set_background(bg);
        proof {
            self.lemma_changed(*old(self), self.vt_index as int);
        }
    }

    /// Empties the active terminal and brings its cursor home; what is
    /// returned moves the display's cursor there.
    pub fn clear(&mut self) -> (r: [PortAction; 4])
        requires
            old(self).wf(),
        ensures
            final(self).wf(),
            final(self)@ == old(self)@.with_current(old(self)@.current().clear()),
            r@ == update_actions(0, 0),
    {
        let ghost color = self@.current().color;
        for row in 0..BUFFER_HEIGHT
            invariant
                old(self).wf(),
                color == old(self)@.current().color,
                self.wf(),
                self@ == old(self)@.with_current(
                    Terminal { buffer: self@.display, ..old(self)@.current() },
                ),
                forall|y: int| 0 <= y < row ==> #[trigger] self@.display[y] == blank_row(color),
        {
            self.clear_row(self.vt_index, row);
            assert(self@ =~~= old(self)@.with_current(
                Terminal { buffer: self@.display, ..old(self)@.current() },
            ));
        }
        assert(self@.display =~~= blank_grid(color));
        let ghost emptied = *self;
        self.vt[self.vt_index].cursor.set_pos(0, 0);
        proof {
            self.lemma_changed(emptied, self.vt_index as int);
        }
        assert(self@ =~~= old(self)@.with_current(old(self)@.current().clear()));
        self.vt[self.vt_index].cursor.update()
    }

    /// Draws the cells of the active terminal on the display.
    fn update_buffer(&mut self)
        requires
            old(self).vt_index < VT_NUMBER,
        ensures
            final(self).vt_index == old(self).vt_index,
            final(self).vt == old(self).vt,
            final(self).buffer@ == old(self).vt@[old(self).vt_index as int].buffer@,
    {
        let ghost target = self.vt@[self.vt_index as int].buffer@;
        proof {
            self.vt@[self.vt_index as int].buffer.lemma_size();
        }
        for row in 0..BUFFER_HEIGHT
            invariant
                self.vt_index == old(self).vt_index,
                self.vt_index < VT_NUMBER,
                self.vt == old(self).vt,
                target == self.vt@[self.vt_index as int].buffer@,
                grid_wf(target),
                forall|y: int| 0 <= y < row ==> #[trigger] self.buffer@[y] == target[y],
        {
            for col in 0..BUFFER_WIDTH
                invariant
                    row < BUFFER_HEIGHT,
                    self.vt_index == old(self).vt_index,
                    self.vt_index < VT_NUMBER,
                    self.vt == old(self).vt,
                    target == self.vt@[self.vt_index as int].buffer@,
                    grid_wf(target),
                    forall|y: int| 0 <= y < row ==> #[trigger] self.buffer@[y] == target[y],
                    forall|x: int|
                        0 <= x < col ==> #[trigger] self.buffer@[row as int][x] == target[row as int][x],
            {
                let screen_char = self.vt[self.vt_index].buffer.get(col, row);
                self.buffer.set(col, row, screen_char);
            }
            assert(self.buffer@[row as int] =~= target[row as int]);
        }
        assert(self.buffer@ =~= target);
    }

    /// Shows terminal `index`: the cursor is hidden, the display redrawn
    /// with the cells of that terminal, and the cursor moved to where
    /// that terminal left it and shown again. What is returned tells the
    /// display's controller so. An index that names no terminal changes
    /// nothing and returns nothing.
    pub fn change_screen(&mut self, index: usize) -> (r: Option<[PortAction; 10]>)
        requires
            old(self).wf(),
        ensures
            final(self).wf(),
            final(self)@ == old(self)@.change_screen(index as int),
            r is Some <==> index < VT_NUMBER,
            r matches Some(actions) ==> actions@ == switch_actions(
                old(self)@.terminals[index as int].x,
                old(self)@.terminals[index as int].y,
            ),
    {
        if index >= VT_NUMBER {
            None
        } else {
            Some(self.switch(index))
        }
    }

    /// The switch itself, to a terminal that exists.
    fn switch(&mut self, index: usize) -> (r: [PortAction; 10])
        requires
            old(self).wf(),
            index < VT_NUMBER,
        ensures
            final(self).wf(),
            final(self)@ == old(self)@.change_screen(index as int),
            r@ == switch_actions(
                old(self)@.terminals[index as int].x,
                old(self)@.terminals[index as int].y,
            ),
    {
        assert(old(self)@.terminals[index as int].wf());
        let d = self.vt[self.vt_index].cursor.disable();
        self.vt_index = index;
        self.update_buffer();
        let u = self.vt[self.vt_index].cursor.update();
        let e = self.vt[self.vt_index].cursor.enable();
        let actions = [d[0], d[1], u[0], u[1], u[2], u[3], e[0], e[1], e[2], e[3]];
        proof {
            let was = old(self)@;
            let now = was.change_screen(index as int);
            assert forall|j: int| 0 <= j < VT_NUMBER implies #[trigger] self@.terminals[j]
                =~~= now.terminals[j] by {
                assert(was.terminals[j].wf());
            }
            assert(self@.terminals =~= now.terminals);
            assert(self@ =~~= now);
            assert forall|j: int| 0 <= j < VT_NUMBER implies (#[trigger] self@.terminals[j]).wf() by {
                assert(was.terminals[j].wf());
            }
            assert(actions@ =~= switch_actions(
                was.terminals[index as int].x,
                was.terminals[index as int].y,
            ));
        }
        actions
    }

    /// Shows the terminal after the active one, the first after the last.
    pub fn next_screen(&mut self) -> (r: [PortAction; 10])
        requires
            old(self).wf(),
        ensures
            final(self).wf(),
            final(self)@ == old(self)@.change_screen(old(self)@.next_index()),
            final(self)@.active == old(self)@.next_index(),
            r@ == switch_actions(
                old(self)@.terminals[old(self)@.next_index()].x,
                old(self)@.terminals[old(self)@.next_index()].y,
            ),
    {
        let index: usize;
        if self.vt_index == VT_NUMBER - 1 {
            index = 0;
        } else {
            index = self.vt_index + 1;
        }
        self.switch(index)
    }

    /// Shows the terminal before the active one, the last before the
    /// first.
    pub fn prev_screen(&mut self) -> (r: [PortAction; 10])
        requires
            old(self).wf(),
        ensures
            final(self).wf(),
            final(self)@ == old(self)@.change_screen(old(self)@.prev_index()),
            final(self)@.active == old(self)@.prev_index(),
            r@ == switch_actions(
                old(self)@.terminals[old(self)@.prev_index()].x,
                old(self)@.terminals[old(self)@.prev_index()].y,
            ),
    {
        let index: usize;
        if self.vt_index == 0 {
            index = VT_NUMBER - 1;
        } else {
            index = self.vt_index - 1;
        }
        self.switch(index)
    }

    /// Shows the cursor of the active terminal.
    pub fn cursor_enable(&mut self) -> (r: [PortAction; 4])
        requires
            old(self).wf(),
        ensures
            final(self).wf(),
            final(self)@ == old(self)@.with_current(
                Terminal { enabled: true, ..old(self)@.current() },
            ),
            r@ == enable_actions(),
    {
        let r = self.vt[self.vt_index].cursor.enable();
        proof {
            self.lemma_changed(*old(self), self.vt_index as int);
        }
        r
    }

    /// Hides the cursor of the active terminal.
    pub fn cursor_disable(&mut self) -> (r: [PortAction; 2])
        requires
            old(self).wf(),
        ensures
            final(self).wf(),
            final(self)@ == old(self)@.with_current(
                Terminal { enabled: false, ..old(self)@.current() },
            ),
            r@ == disable_actions(),
    {
        let r = self.vt[self.vt_index].cursor.disable();
        proof {
            self.lemma_changed(*old(self), self.vt_index as int);
        }
        r
    }

    /// Moves the display's cursor to where the active terminal's is.
    pub fn cursor_update(&self) -> (r: [PortAction; 4])
        requires
            self.wf(),
        ensures
            r@ == update_actions(self@.current().x, self@.current().y),
    {
        self.vt[self.vt_index].cursor.update()
    }

    /// `self` is `from` but for terminal `index`; the display mirrors
    /// that terminal if it is the one shown, and is as in `from` if not.
    spec fn changed(&self, from: Writer, index: int) -> bool {
        &&& self.vt_index == from.vt_index
        &&& forall|j: int| 0 <= j < VT_NUMBER && j != index ==> #[trigger] self.vt@[j] == from.vt@[j]
        &&& self.vt@[index]@.wf()
        &&& index != self.vt_index ==> !self.vt@[index]@.enabled
        &&& self.buffer@ == if index == self.vt_index {
            self.vt@[index]@.buffer
        } else {
            from.buffer@
        }
    }

    /// What `changed` means for the console.
    proof fn lemma_changed(&self, from: Writer, index: int)
        requires
            from.wf(),
            0 <= index < VT_NUMBER,
            self.changed(from, index),
        ensures
            self.wf(),
            self@ == from@.with_terminal(index, self.vt@[index]@),
    {
        let now = self.vt@[index]@;
        assert forall|j: int| 0 <= j < VT_NUMBER implies #[trigger] self@.terminals[j]
            == from@.terminals.update(index, now)[j] by {
            if j != index {
                assert(self.vt@[j] == from.vt@[j]);
            }
        }
        assert(self@.terminals =~= from@.terminals.update(index, now));
        assert forall|j: int| 0 <= j < VT_NUMBER implies (#[trigger] self@.terminals[j]).wf() by {
            if j != index {
                assert(self.vt@[j] == from.vt@[j]);
                assert(from@.terminals[j].wf());
            }
        }
        assert forall|j: int| 0 <= j < VT_NUMBER && j != self@.active implies !(
        #[trigger] self@.terminals[j]).enabled by {
            if j != index {
                assert(self.vt@[j] == from.vt@[j]);
                assert(!from@.terminals[j].enabled);
            }
        }
    }

    /// Takes the last character of the line of terminal `index` back.
    fn remove_char(&mut self, index: usize)
        requires
            old(self).wf(),
            index < VT_NUMBER,
        ensures
            final(self).wf(),
            final(self)@ == old(self)@.with_terminal(
                index as int,
                old(self)@.terminals[index as int].backspace(),
            ),
        decreases 1int,
    {
        assert(old(self)@.terminals[index as int].wf());
        if self.vt[index].cursor.get_pos().0 == 0 {
            assert(self@ =~~= old(self)@.with_terminal(
                index as int,
                old(self)@.terminals[index as int].backspace(),
            ));
            return ;
        }
        self.vt[index].cursor.dec();
        proof {
            self.lemma_changed(*old(self), index as int);
        }
        self.write_byte_to(index, SPACE);
        let ghost printed = *self;
        assert(printed@.terminals[index as int].wf());
        assert(index != self.vt_index ==> !printed@.terminals[index as int].enabled);
        self.vt[index].cursor.dec();
        proof {
            self.lemma_changed(printed, index as int);
        }
        assert(self@ =~~= old(self)@.with_terminal(
            index as int,
            old(self)@.terminals[index as int].backspace(),
        ));
    }

    /// `self` is `from` but for the cells of terminal `index`, which are
    /// `cells` now, and for the display if it shows that terminal.
    spec fn redrawn(&self, from: Writer, index: int, cells: Grid) -> bool {
        &&& self.vt_index == from.vt_index
        &&& forall|j: int| 0 <= j < VT_NUMBER && j != index ==> #[trigger] self.vt@[j] == from.vt@[j]
        &&& self.vt@[index].cursor == from.vt@[index].cursor
        &&& self.vt@[index].color_code == from.vt@[index].color_code
        &&& self.vt@[index].buffer@ == cells
        &&& self.buffer@ == if index == self.vt_index {
            cells
        } else {
            from.buffer@
        }
    }

    /// Breaks the line of terminal `index`.
    fn new_line(&mut self, index: usize)
        requires
            old(self).wf(),
            index < VT_NUMBER,
        ensures
            final(self).wf(),
            final(self)@ == old(self)@.with_terminal(
                index as int,
                old(self)@.terminals[index as int].new_line(),
            ),
    {
        assert(old(self)@.terminals[index as int].wf());
        let ghost before = self.vt@[index as int].buffer@;
        let shown = index == self.vt_index;
        if self.vt[index].cursor.get_pos().1 >= BUFFER_HEIGHT - 1 {
            for row in 1..BUFFER_HEIGHT
                invariant
                    index < VT_NUMBER,
                    shown == (index == self.vt_index),
                    old(self).wf(),
                    grid_wf(before),
                    self.redrawn(*old(self), index as int, self.vt@[index as int].buffer@),
                    forall|r: int|
                        0 <= r < row - 1 ==> #[trigger] self.vt@[index as int].buffer@[r] == before[r
                            + 1],
                    forall|r: int|
                        row - 1 <= r < BUFFER_HEIGHT ==> #[trigger] self.vt@[index as int].buffer@[r]
                            == before[r],
            {
                let ghost outer = self.vt@[index as int].buffer@;
                let ghost to = row - 1;
                let ghost from = row as int;
                for col in 0..BUFFER_WIDTH
                    invariant
                        1 <= row < BUFFER_HEIGHT,
                        to == row - 1,
                        from == row,
                        index < VT_NUMBER,
                        shown == (index == self.vt_index),
                        old(self).wf(),
                        grid_wf(outer),
                        self.redrawn(*old(self), index as int, self.vt@[index as int].buffer@),
                        forall|r: int|
                            0 <= r < BUFFER_HEIGHT && r != to
                                ==> #[trigger] self.vt@[index as int].buffer@[r] == outer[r],
                        forall|x: int|
                            0 <= x < col ==> #[trigger] self.vt@[index as int].buffer@[to][x]
                                == outer[from][x],
                        forall|x: int|
                            col <= x < BUFFER_WIDTH
                                ==> #[trigger] self.vt@[index as int].buffer@[to][x] == outer[to][x],
                {
                    let c = self.vt[index].buffer.get(col, row);
                    if shown {
                        self.buffer.set(col, row - 1, c);
                    }
                    self.vt[index].buffer.set(col, row - 1, c);
                }
                assert(self.vt@[index as int].buffer@[to] =~= before[from]);
            }
            proof {
                self.lemma_changed(*old(self), index as int);
            }
            self.clear_row(index, BUFFER_HEIGHT - 1);
            assert(self@.terminals[index as int].buffer =~~= scrolled(
                before,
                old(self)@.terminals[index as int].color,
            ));
        }
        let ghost drawn = *self;
        self.vt[index].cursor.next_line();
        proof {
            self.lemma_changed(drawn, index as int);
        }
        assert(self@ =~~= old(self)@.with_terminal(
            index as int,
            old(self)@.terminals[index as int].new_line(),
        ));
    }

    /// Empties row `row` of terminal `index`.
    fn clear_row(&mut self, index: usize, row: usize)
        requires
            row < BUFFER_HEIGHT,
            index < VT_NUMBER,
            old(self).wf(),
        ensures
            final(self).wf(),
            final(self)@ == old(self)@.with_terminal(
                index as int,
                Terminal {
                    buffer: old(self)@.terminals[index as int].buffer.update(
                        row as int,
                        blank_row(old(self)@.terminals[index as int].color),
                    ),
                    ..old(self)@.terminals[index as int]
                },
            ),
    {
        assert(old(self)@.terminals[index as int].wf());
        let ghost before = self.vt@[index as int].buffer@;
        let shown = index == self.vt_index;
        let cell = ScreenChar::new(SPACE, self.vt[index].color_code);
        for col in 0..BUFFER_WIDTH
            invariant
                row < BUFFER_HEIGHT,
                index < VT_NUMBER,
                shown == (index == self.vt_index),
                old(self).wf(),
                grid_wf(before),
                cell == blank(old(self)@.terminals[index as int].color),
                self.redrawn(*old(self), index as int, self.vt@[index as int].buffer@),
                forall|r: int|
                    0 <= r < BUFFER_HEIGHT && r != row ==> #[trigger] self.vt@[index as int].buffer@[r]
                        == before[r],
                forall|x: int|
                    0 <= x < col ==> #[trigger] self.vt@[index as int].buffer@[row as int][x] == cell,
        {
            if shown {
                self.buffer.set(col, row, cell);
            }
            self.vt[index].buffer.set(col, row, cell);
        }
        proof {
            self.lemma_changed(*old(self), index as int);
        }
        assert(self@.terminals[index as int].buffer =~~= before.update(
            row as int,
            blank_row(old(self)@.terminals[index as int].color),
        ));
    }
}

} // verus!

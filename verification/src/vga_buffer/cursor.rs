//! The cursor of a terminal, and how the display's controller is told
//! to show, hide and move its blinking cursor.

use crate::port::{Port, PortAction, PortWriteOnly};
use crate::vga_buffer::{BUFFER_HEIGHT, BUFFER_WIDTH};
use vstd::prelude::*;

verus! {

/// The controller's index port: the number of a register is written here.
pub const CRT_INDEX_PORT: u16 = 0x3D4;

/// The controller's data port: the register chosen is read and written here.
pub const CRT_DATA_PORT: u16 = 0x3D5;

/// The register of the scanline where the cursor's shape starts.
pub const CURSOR_START_REGISTER: u8 = 0x0A;

/// The register of the scanline where the cursor's shape ends.
pub const CURSOR_END_REGISTER: u8 = 0x0B;

/// The register of the high byte of the cursor's position.
pub const CURSOR_HIGH_REGISTER: u8 = 0x0E;

/// The register of the low byte of the cursor's position.
pub const CURSOR_LOW_REGISTER: u8 = 0x0F;

/// The scanline at which a shown cursor starts and ends.
pub const CURSOR_SCANLINE: u8 = 14;

/// The start register's value that hides the cursor.
pub const CURSOR_HIDDEN: u8 = 0x20;

/// Represent a cursor on a screen with a position (x, y).
#[derive(Debug, Clone, Copy)]
pub struct Cursor {
    x: usize,
    y: usize,
    enabled: bool,
}

/// The position of cell (x, y) as the controller counts it, row by row.
pub open spec fn linear_position(x: int, y: int) -> int {
    y * BUFFER_WIDTH + x
}

/// What shows the cursor: in both shape registers the scanline is set
/// and the bits that belong to something else are kept as they were.
pub open spec fn enable_actions() -> Seq<PortAction> {
    seq![
        PortAction::Write { port: CRT_INDEX_PORT, value: CURSOR_START_REGISTER },
        PortAction::Modify { port: CRT_DATA_PORT, keep: 0xc0, set: CURSOR_SCANLINE },
        PortAction::Write { port: CRT_INDEX_PORT, value: CURSOR_END_REGISTER },
        PortAction::Modify { port: CRT_DATA_PORT, keep: 0xe0, set: CURSOR_SCANLINE },
    ]
}

/// What hides the cursor.
pub open spec fn disable_actions() -> Seq<PortAction> {
    seq![
        PortAction::Write { port: CRT_INDEX_PORT, value: CURSOR_START_REGISTER },
        PortAction::Write { port: CRT_DATA_PORT, value: CURSOR_HIDDEN },
    ]
}

/// What moves the cursor to cell (x, y): the low byte of the linear
/// position, then the high byte.
pub open spec fn update_actions(x: int, y: int) -> Seq<PortAction> {
    seq![
        PortAction::Write { port: CRT_INDEX_PORT, value: CURSOR_LOW_REGISTER },
        PortAction::Write { port: CRT_DATA_PORT, value: (linear_position(x, y) % 256) as u8 },
        PortAction::Write { port: CRT_INDEX_PORT, value: CURSOR_HIGH_REGISTER },
        PortAction::Write { port: CRT_DATA_PORT, value: (linear_position(x, y) / 256) as u8 },
    ]
}

/// The cell after (x, y) in reading order; the last row is never left.
pub open spec fn cell_after(x: int, y: int) -> (int, int) {
    if x + 1 < BUFFER_WIDTH {
        (x + 1, y)
    } else {
        line_after(y)
    }
}

/// The first cell of the row after `y`, or of `y` itself if it is the last.
pub open spec fn line_after(y: int) -> (int, int) {
    if y < BUFFER_HEIGHT - 1 {
        (0, y + 1)
    } else {
        (0, y)
    }
}

/// The cell before (x, y) in its row; the first column is never left.
pub open spec fn cell_before(x: int, y: int) -> (int, int) {
    if x > 0 {
        (x - 1, y)
    } else {
        (x, y)
    }
}

impl Cursor {
    /// The cursor's column.
    pub closed spec fn col(&self) -> int {
        self.x as int
    }

    /// The cursor's row.
    pub closed spec fn row(&self) -> int {
        self.y as int
    }

    /// Whether the cursor was last told to show.
    pub closed spec fn shown(&self) -> bool {
        self.enabled
    }

    /// The cursor is on the display.
    pub open spec fn wf(&self) -> bool {
        0 <= self.col() < BUFFER_WIDTH && 0 <= self.row() < BUFFER_HEIGHT
    }

    /// Return a new cursor, not shown yet.
    pub fn new(x: usize, y: usize) -> (r: Self)
        requires
            x < BUFFER_WIDTH,
            y < BUFFER_HEIGHT,
        ensures
            r.wf(),
            r.col() == x,
            r.row() == y,
            !r.shown(),
    {
        Self { x, y, enabled: false }
    }

    /// Enable the blinking cursor on the screen.
    pub fn enable(&mut self) -> (r: [PortAction; 4])
        ensures
            r@ == enable_actions(),
            final(self).shown(),
            final(self).col() == old(self).col(),
            final(self).row() == old(self).row(),
    {
        self.enabled = true;
        let port1 = PortWriteOnly::<u8>::new(CRT_INDEX_PORT);
        let port2 = Port::<u8>::new(CRT_DATA_PORT);
        let r = [
            port1.write(CURSOR_START_REGISTER),
            port2.modify(0xc0, CURSOR_SCANLINE),
            port1.write(CURSOR_END_REGISTER),
            port2.modify(0xe0, CURSOR_SCANLINE),
        ];
        assert(r@ =~= enable_actions());
        r
    }

    /// Disable the blinking cursor on the screen.
    pub fn disable(&mut self) -> (r: [PortAction; 2])
        ensures
            r@ == disable_actions(),
            !final(self).shown(),
            final(self).col() == old(self).col(),
            final(self).row() == old(self).row(),
    {
        self.enabled = false;
        let port1 = PortWriteOnly::<u8>::new(CRT_INDEX_PORT);
        let port2 = PortWriteOnly::<u8>::new(CRT_DATA_PORT);
        let r = [port1.write(CURSOR_START_REGISTER), port2.write(CURSOR_HIDDEN)];
        assert(r@ =~= disable_actions());
        r
    }

    /// Update the position of the cursor on screen.
    pub fn update(&self) -> (r: [PortAction; 4])
        requires
            self.wf(),
        ensures
            r@ == update_actions(self.col(), self.row()),
    {
        assert(self.y * BUFFER_WIDTH + self.x < 2000) by (nonlinear_arith)
            requires
                self.y < 25,
                self.x < 80,
                BUFFER_WIDTH == 80,
        ;
        let pos = self.y * BUFFER_WIDTH + self.x;
        assert((pos & 0xff) == pos % 256 && ((pos >> 8) & 0xff) == pos / 256) by (bit_vector)
            requires
                pos < 2000,
        ;
        let port1 = PortWriteOnly::<u8>::new(CRT_INDEX_PORT);
        let port2 = PortWriteOnly::<u8>::new(CRT_DATA_PORT);
        let r = [
            port1.write(CURSOR_LOW_REGISTER),
            port2.write((pos & 0xff) as u8),
            port1.write(CURSOR_HIGH_REGISTER),
            port2.write(((pos >> 8) & 0xff) as u8),
        ];
        assert(r@ =~= update_actions(self.col(), self.row()));
        r
    }

    /// Whether the cursor was last told to show.
    pub fn is_enabled(&self) -> (r: bool)
        ensures
            r == self.shown(),
    {
        self.enabled
    }

    /// Get the position of the cursor.
    pub fn get_pos(&self) -> (r: (usize, usize))
        ensures
            r.0 == self.col(),
            r.1 == self.row(),
    {
        (self.x, self.y)
    }

    /// Set the position of the cursor.
    pub fn set_pos(&mut self, x: usize, y: usize)
        requires
            x < BUFFER_WIDTH,
            y < BUFFER_HEIGHT,
        ensures
            final(self).wf(),
            final(self).col() == x,
            final(self).row() == y,
            final(self).shown() == old(self).shown(),
    {
        self.x = x;
        self.y = y;
    }

    /// Increment the cursor by 1 character.
    ///
    /// If it's the end of line set x to 0 and y to next line or the same if
    /// the last line.
    pub fn inc(&mut self)
        requires
            old(self).wf(),
        ensures
            final(self).wf(),
            (final(self).col(), final(self).row()) == cell_after(old(self).col(), old(self).row()),
            final(self).shown() == old(self).shown(),
    {
        self.x += 1;
        if self.x >= BUFFER_WIDTH {
            self.x = 0;
            if self.y < BUFFER_HEIGHT - 1 {
                self.y += 1;
            }
        }
    }

    /// Move the cursor back by 1 character, at most to the start of its line.
    pub fn dec(&mut self)
        requires
            old(self).wf(),
        ensures
            final(self).wf(),
            (final(self).col(), final(self).row()) == cell_before(old(self).col(), old(self).row()),
            final(self).shown() == old(self).shown(),
    {
        if self.x > 0 {
            self.x -= 1;
        }
    }

    /// Put cursor on next line
    ///
    /// Set x to 0 and add one to y if it's not the last line.
    pub fn next_line(&mut self)
        requires
            old(self).wf(),
        ensures
            final(self).wf(),
            (final(self).col(), final(self).row()) == line_after(old(self).row()),
            final(self).shown() == old(self).shown(),
    {
        self.x = 0;
        if self.y < BUFFER_HEIGHT - 1 {
            self.y += 1;
        }
    }
}

impl Default for Cursor {
    /// The cursor at home, the top left cell.
    fn default() -> (r: Self)
        ensures
            r.wf(),
            r.col() == 0,
            r.row() == 0,
            !r.shown(),
    {
        Self::new(0, 0)
    }
}

} // verus!

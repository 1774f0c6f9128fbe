use kfs::port::PortAction;
use kfs::spinlock::Spinlock;
use kfs::vga_buffer::color::{Color, ColorCode};
use kfs::vga_buffer::cursor::Cursor;
use kfs::vga_buffer::writer::{Buffer, ScreenChar, Vt, Writer, VT_NUMBER};
use kfs::vga_buffer::{_print, BUFFER_HEIGHT, BUFFER_WIDTH};

const W: usize = BUFFER_WIDTH;
const H: usize = BUFFER_HEIGHT;

fn default_color() -> ColorCode {
    ColorCode::new(Color::LightGray, Color::Black)
}

fn cell(c: u8) -> ScreenChar {
    ScreenChar::new(c, default_color())
}

fn space() -> ScreenChar {
    cell(b' ')
}

/// The display mirrors the active terminal, cell for cell.
fn assert_mirror(w: &Writer) {
    let active = w.vt(w.vt_index()).get_buffer();
    for y in 0..H {
        for x in 0..W {
            assert_eq!(w.buffer().get(x, y), active.get(x, y));
        }
    }
}

fn cursor_of(w: &Writer, index: usize) -> (usize, usize) {
    w.vt(index).get_cursor().get_pos()
}

/// The byte written as cell number `i` of a long run: never a line feed
/// and never a backspace.
fn filler(i: usize) -> u8 {
    b'!' + (i % 90) as u8
}

fn switch_actions(x: usize, y: usize) -> Vec<PortAction> {
    let pos = y * W + x;
    vec![
        PortAction::Write { port: 0x3D4, value: 0x0A },
        PortAction::Write { port: 0x3D5, value: 0x20 },
        PortAction::Write { port: 0x3D4, value: 0x0F },
        PortAction::Write { port: 0x3D5, value: (pos % 256) as u8 },
        PortAction::Write { port: 0x3D4, value: 0x0E },
        PortAction::Write { port: 0x3D5, value: (pos / 256) as u8 },
        PortAction::Write { port: 0x3D4, value: 0x0A },
        PortAction::Modify { port: 0x3D5, keep: 0xC0, set: 14 },
        PortAction::Write { port: 0x3D4, value: 0x0B },
        PortAction::Modify { port: 0x3D5, keep: 0xE0, set: 14 },
    ]
}

#[test]
fn dimensions_are_eighty_by_twenty_five() {
    assert_eq!(BUFFER_WIDTH, 80);
    assert_eq!(BUFFER_HEIGHT, 25);
    assert_eq!(VT_NUMBER, 2);
}

#[test]
fn color_code_packs_background_high_and_foreground_low() {
    assert_eq!(ColorCode::new(Color::LightGray, Color::Black).0, 0x07);
    assert_eq!(ColorCode::new(Color::White, Color::Blue).0, 0x1F);
    assert_eq!(ColorCode::new(Color::Black, Color::White).0, 0xF0);
    assert_eq!(ColorCode::new(Color::Yellow, Color::Red).0, 0x4E);
    assert_eq!(ColorCode::default(), ColorCode::new(Color::LightGray, Color::Black));
}

#[test]
fn colors_are_numbered_in_order() {
    let all = [
        Color::Black,
        Color::Blue,
        Color::Green,
        Color::Cyan,
        Color::Red,
        Color::Magenta,
        Color::Brown,
        Color::LightGray,
        Color::DarkGray,
        Color::LightBlue,
        Color::LightGreen,
        Color::LightCyan,
        Color::LightRed,
        Color::Pink,
        Color::Yellow,
        Color::White,
    ];
    for (i, c) in all.into_iter().enumerate() {
        assert_eq!(c.number() as usize, i);
    }
}

#[test]
fn set_foreground_keeps_the_background_and_the_other_way_round() {
    let mut c = ColorCode::new(Color::Green, Color::Magenta);
    assert_eq!(c.0, 0x52);
    c.set_foreground(Color::White);
    assert_eq!(c.0, 0x5F);
    c.set_background(Color::Black);
    assert_eq!(c.0, 0x0F);
    c.set_background(Color::White);
    c.set_foreground(Color::Black);
    assert_eq!(c.0, 0xF0);
}

#[test]
fn blank_cell_is_a_space_in_the_default_attribute() {
    assert_eq!(ScreenChar::blank(), ScreenChar { ascii_character: 0x20, color_code: ColorCode(0x07) });
}

#[test]
fn buffer_set_and_get() {
    let mut b = Buffer::new(b'x', ColorCode(0x1F));
    assert_eq!(b.get(0, 0), ScreenChar::new(b'x', ColorCode(0x1F)));
    assert_eq!(b.get(W - 1, H - 1), ScreenChar::new(b'x', ColorCode(0x1F)));
    b.set(3, 2, cell(b'q'));
    assert_eq!(b.get(3, 2), cell(b'q'));
    assert_eq!(b.get(2, 3), ScreenChar::new(b'x', ColorCode(0x1F)));
    b.set_char(3, 2, b'r');
    assert_eq!(b.get(3, 2), cell(b'r'));
    b.set_color(3, 2, ColorCode(0x4E));
    assert_eq!(b.get(3, 2), ScreenChar::new(b'r', ColorCode(0x4E)));
    b.clear();
    for y in 0..H {
        for x in 0..W {
            assert_eq!(b.get(x, y), ScreenChar::blank());
        }
    }
    let d = Buffer::default();
    assert_eq!(d.get(79, 24), ScreenChar::blank());
}

#[test]
fn new_terminal_is_blank_with_the_cursor_at_home() {
    let vt = Vt::new();
    assert_eq!(vt.get_color_code(), default_color());
    assert_eq!(vt.get_cursor().get_pos(), (0, 0));
    assert!(!vt.get_cursor().is_enabled());
    for y in 0..H {
        for x in 0..W {
            assert_eq!(vt.get_buffer().get(x, y), space());
        }
    }
}

#[test]
fn new_writer_shows_the_first_terminal() {
    let w = Writer::new();
    assert_eq!(w.vt_index(), 0);
    assert_mirror(&w);
    assert_eq!(w.buffer().get(0, 0), space());
    assert_eq!(cursor_of(&w, 0), (0, 0));
    assert_eq!(cursor_of(&w, 1), (0, 0));
}

#[test]
fn write_byte_prints_under_the_cursor_and_advances() {
    let mut w = Writer::new();
    w.write_byte(b'h');
    w.write_byte(b'i');
    assert_eq!(w.buffer().get(0, 0), cell(b'h'));
    assert_eq!(w.buffer().get(1, 0), cell(b'i'));
    assert_eq!(w.buffer().get(2, 0), space());
    assert_eq!(cursor_of(&w, 0), (2, 0));
    assert_mirror(&w);
}

#[test]
fn line_feed_goes_to_the_start_of_the_next_row() {
    let mut w = Writer::new();
    w.write_str("ab\ncd");
    assert_eq!(w.buffer().get(0, 0), cell(b'a'));
    assert_eq!(w.buffer().get(1, 0), cell(b'b'));
    assert_eq!(w.buffer().get(0, 1), cell(b'c'));
    assert_eq!(w.buffer().get(1, 1), cell(b'd'));
    assert_eq!(cursor_of(&w, 0), (2, 1));
    assert_mirror(&w);
}

#[test]
fn last_column_wraps_to_the_next_row() {
    let mut w = Writer::new();
    for i in 0..W {
        w.write_byte(filler(i));
    }
    assert_eq!(w.buffer().get(W - 1, 0), cell(filler(W - 1)));
    assert_eq!(cursor_of(&w, 0), (0, 1));
    w.write_byte(b'z');
    assert_eq!(w.buffer().get(0, 1), cell(b'z'));
    assert_eq!(cursor_of(&w, 0), (1, 1));
}

#[test]
fn backspace_empties_the_cell_before_the_cursor() {
    let mut w = Writer::new();
    w.write_str("abc");
    w.write_byte(0x08);
    assert_eq!(w.buffer().get(0, 0), cell(b'a'));
    assert_eq!(w.buffer().get(1, 0), cell(b'b'));
    assert_eq!(w.buffer().get(2, 0), space());
    assert_eq!(cursor_of(&w, 0), (2, 0));
    assert_mirror(&w);
}

#[test]
fn backspace_in_the_first_column_changes_nothing() {
    let mut w = Writer::new();
    w.write_str("ab\n");
    w.set_foreground(Color::Red);
    w.write_byte(0x08);
    assert_eq!(cursor_of(&w, 0), (0, 1));
    assert_eq!(w.buffer().get(0, 1), space());
    assert_eq!(w.buffer().get(1, 0), cell(b'b'));
    assert_mirror(&w);
}

#[test]
fn backspace_uses_the_current_attribute() {
    let mut w = Writer::new();
    w.write_str("ab");
    w.set_color_code(ColorCode(0x4E));
    w.write_byte(0x08);
    assert_eq!(w.buffer().get(1, 0), ScreenChar::new(b' ', ColorCode(0x4E)));
    assert_eq!(w.buffer().get(0, 0), cell(b'a'));
}

#[test]
fn filling_the_screen_but_for_one_cell_does_not_scroll() {
    let mut w = Writer::new();
    for i in 0..W * H - 1 {
        w.write_byte(filler(i));
    }
    assert_eq!(cursor_of(&w, 0), (W - 1, H - 1));
    for y in 0..H {
        for x in 0..W {
            let i = y * W + x;
            let expected = if i < W * H - 1 { cell(filler(i)) } else { space() };
            assert_eq!(w.buffer().get(x, y), expected);
        }
    }
}

#[test]
fn one_more_than_a_screen_scrolls_exactly_once() {
    let mut w = Writer::new();
    let mut scrolls = 0;
    for i in 0..W * H + 1 {
        let top_left = w.buffer().get(0, 0);
        let second_row = w.buffer().get(0, 1);
        w.write_byte(filler(i));
        // A scroll is seen by the second row's first cell arriving at the top.
        if i >= W && w.buffer().get(0, 0) == second_row && top_left != second_row {
            scrolls += 1;
            assert_eq!(i, W * H - 1);
        }
    }
    assert_eq!(scrolls, 1);
    // Row 0 now holds what was row 1, and so on; the first W bytes are gone.
    for y in 0..H - 1 {
        for x in 0..W {
            assert_eq!(w.buffer().get(x, y), cell(filler((y + 1) * W + x)));
        }
    }
    assert_eq!(w.buffer().get(0, H - 1), cell(filler(W * H)));
    for x in 1..W {
        assert_eq!(w.buffer().get(x, H - 1), space());
    }
    assert_eq!(cursor_of(&w, 0), (1, H - 1));
    assert_mirror(&w);
}

#[test]
fn scroll_forgets_the_top_row() {
    let mut a = Writer::new();
    let mut b = Writer::new();
    a.write_str("first row of a\n");
    b.write_str("something else entirely\n");
    for w in [&mut a, &mut b] {
        for i in 1..H {
            w.write_byte(b'0' + (i % 10) as u8);
            w.write_byte(b'\n');
        }
    }
    for y in 0..H {
        for x in 0..W {
            assert_eq!(a.buffer().get(x, y), b.buffer().get(x, y));
        }
    }
    assert_eq!(a.buffer().get(0, 0), cell(b'1'));
    assert_eq!(cursor_of(&a, 0), cursor_of(&b, 0));
}

#[test]
fn line_feed_on_the_last_row_scrolls_and_clears_the_bottom_row() {
    let mut w = Writer::new();
    for i in 0..H - 1 {
        w.write_byte(b'a' + i as u8);
        w.write_byte(b'\n');
    }
    assert_eq!(cursor_of(&w, 0), (0, H - 1));
    w.write_str("last");
    w.write_byte(b'\n');
    assert_eq!(cursor_of(&w, 0), (0, H - 1));
    for y in 0..H - 2 {
        assert_eq!(w.buffer().get(0, y), cell(b'a' + (y + 1) as u8));
    }
    assert_eq!(w.buffer().get(0, H - 2), cell(b'l'));
    assert_eq!(w.buffer().get(3, H - 2), cell(b't'));
    for x in 0..W {
        assert_eq!(w.buffer().get(x, H - 1), space());
    }
    assert_mirror(&w);
}

#[test]
fn scroll_clears_the_bottom_row_in_the_current_attribute() {
    let mut w = Writer::new();
    w.set_color_code(ColorCode(0x2F));
    for _ in 0..H {
        w.write_byte(b'\n');
    }
    assert_eq!(w.buffer().get(0, H - 1), ScreenChar::new(b' ', ColorCode(0x2F)));
    assert_eq!(w.buffer().get(0, H - 2), space());
}

#[test]
fn colors_apply_to_cells_written_afterwards_only() {
    let mut w = Writer::new();
    w.write_byte(b'a');
    w.set_foreground(Color::Red);
    w.write_byte(b'b');
    w.set_background(Color::White);
    w.write_byte(b'c');
    w.set_color_code(ColorCode::new(Color::Yellow, Color::Blue));
    w.write_byte(b'd');
    assert_eq!(w.buffer().get(0, 0), ScreenChar::new(b'a', ColorCode(0x07)));
    assert_eq!(w.buffer().get(1, 0), ScreenChar::new(b'b', ColorCode(0x04)));
    assert_eq!(w.buffer().get(2, 0), ScreenChar::new(b'c', ColorCode(0xF4)));
    assert_eq!(w.buffer().get(3, 0), ScreenChar::new(b'd', ColorCode(0x1E)));
    assert_eq!(w.vt(0).get_color_code(), ColorCode(0x1E));
    assert_eq!(w.vt(1).get_color_code(), ColorCode(0x07));
    assert_mirror(&w);
}

#[test]
fn clear_empties_the_terminal_in_the_current_attribute_and_homes_the_cursor() {
    let mut w = Writer::new();
    w.write_str("some text\nmore");
    w.set_color_code(ColorCode(0x1F));
    let actions = w.clear();
    assert_eq!(
        actions.to_vec(),
        vec![
            PortAction::Write { port: 0x3D4, value: 0x0F },
            PortAction::Write { port: 0x3D5, value: 0 },
            PortAction::Write { port: 0x3D4, value: 0x0E },
            PortAction::Write { port: 0x3D5, value: 0 },
        ]
    );
    for y in 0..H {
        for x in 0..W {
            assert_eq!(w.buffer().get(x, y), ScreenChar::new(b' ', ColorCode(0x1F)));
        }
    }
    assert_eq!(cursor_of(&w, 0), (0, 0));
    assert_mirror(&w);
    // The other terminal is as it was.
    assert_eq!(w.vt(1).get_buffer().get(0, 0), space());
}

#[test]
fn two_terminals_keep_their_own_cells() {
    let mut w = Writer::new();
    w.write_byte(b'A');
    let actions = w.change_screen(1).unwrap();
    assert_eq!(actions.to_vec(), switch_actions(0, 0));
    assert_eq!(w.vt_index(), 1);
    assert_eq!(w.buffer().get(0, 0), space());
    w.write_byte(b'B');
    assert_eq!(w.buffer().get(0, 0), cell(b'B'));
    // Terminal 0 was not touched while terminal 1 was written.
    assert_eq!(w.vt(0).get_buffer().get(0, 0), cell(b'A'));
    let actions = w.change_screen(0).unwrap();
    assert_eq!(actions.to_vec(), switch_actions(1, 0));
    assert_eq!(w.vt_index(), 0);
    assert_eq!(w.buffer().get(0, 0), cell(b'A'));
    assert_eq!(cursor_of(&w, 0), (1, 0));
    assert!(w.vt(0).get_cursor().is_enabled());
    assert!(!w.vt(1).get_cursor().is_enabled());
    assert_eq!(w.vt(1).get_buffer().get(0, 0), cell(b'B'));
    assert_eq!(cursor_of(&w, 1), (1, 0));
    assert_mirror(&w);
}

#[test]
fn writing_to_a_hidden_terminal_leaves_the_display_alone() {
    let mut w = Writer::new();
    w.write_str("shown");
    w.write_byte_to(1, b'h');
    w.write_byte_to(1, b'\n');
    w.write_byte_to(1, b'i');
    w.write_byte_to(1, b'j');
    w.write_byte_to(1, 0x08);
    // Nothing of it is on the display, and terminal 0 is as it was.
    assert_eq!(w.vt_index(), 0);
    assert_eq!(w.buffer().get(0, 0), cell(b's'));
    assert_eq!(w.buffer().get(0, 1), space());
    assert_eq!(cursor_of(&w, 0), (5, 0));
    assert_mirror(&w);
    // It waits in terminal 1.
    assert_eq!(w.vt(1).get_buffer().get(0, 0), cell(b'h'));
    assert_eq!(w.vt(1).get_buffer().get(0, 1), cell(b'i'));
    assert_eq!(w.vt(1).get_buffer().get(1, 1), space());
    assert_eq!(cursor_of(&w, 1), (1, 1));
    // And shows once the terminal is switched to.
    w.change_screen(1);
    assert_eq!(w.buffer().get(0, 0), cell(b'h'));
    assert_eq!(w.buffer().get(0, 1), cell(b'i'));
    assert_mirror(&w);
}

#[test]
fn writing_to_the_shown_terminal_by_index_is_writing_to_it() {
    let mut a = Writer::new();
    let mut b = Writer::new();
    for byte in "one\ntwo\u{08}".bytes() {
        a.write_byte(byte);
        b.write_byte_to(0, byte);
    }
    for y in 0..H {
        for x in 0..W {
            assert_eq!(a.buffer().get(x, y), b.buffer().get(x, y));
        }
    }
    assert_eq!(cursor_of(&a, 0), cursor_of(&b, 0));
    assert_mirror(&b);
}

#[test]
fn a_hidden_terminal_scrolls_by_itself() {
    let mut w = Writer::new();
    w.write_str("top");
    for i in 0..H {
        w.write_byte_to(1, b'a' + i as u8);
        w.write_byte_to(1, b'\n');
    }
    assert_eq!(w.vt(1).get_buffer().get(0, 0), cell(b'b'));
    assert_eq!(w.vt(1).get_buffer().get(0, H - 2), cell(b'a' + (H - 1) as u8));
    assert_eq!(w.vt(1).get_buffer().get(0, H - 1), space());
    assert_eq!(w.buffer().get(0, 0), cell(b't'));
    assert_mirror(&w);
}

#[test]
fn switching_there_and_back_restores_cells_and_cursor() {
    for (i, j) in [(0usize, 1usize), (1, 0), (0, 0), (1, 1)] {
        let mut w = Writer::new();
        w.write_str("zero\nline two");
        w.change_screen(1);
        w.set_color_code(ColorCode(0x3C));
        w.write_str("one\n\n  indented");
        let before: Vec<ScreenChar> =
            (0..W * H).map(|p| w.vt(i).get_buffer().get(p % W, p / W)).collect();
        let cursor = cursor_of(&w, i);
        w.change_screen(i);
        w.change_screen(j);
        w.change_screen(i);
        let after: Vec<ScreenChar> =
            (0..W * H).map(|p| w.vt(i).get_buffer().get(p % W, p / W)).collect();
        let shown: Vec<ScreenChar> = (0..W * H).map(|p| w.buffer().get(p % W, p / W)).collect();
        assert_eq!(after, before);
        assert_eq!(shown, before);
        assert_eq!(cursor_of(&w, i), cursor);
        assert_eq!(w.vt_index(), i);
    }
}

#[test]
fn change_screen_to_a_terminal_that_is_not_there_does_nothing() {
    let mut w = Writer::new();
    w.write_str("kept");
    assert!(w.change_screen(VT_NUMBER).is_none());
    assert!(w.change_screen(usize::MAX).is_none());
    assert_eq!(w.vt_index(), 0);
    assert_eq!(w.buffer().get(0, 0), cell(b'k'));
    assert_eq!(cursor_of(&w, 0), (4, 0));
    assert!(!w.vt(0).get_cursor().is_enabled());
}

#[test]
fn next_and_prev_screen_wrap_around() {
    let mut w = Writer::new();
    w.change_screen(VT_NUMBER - 1);
    assert_eq!(w.vt_index(), VT_NUMBER - 1);
    w.next_screen();
    assert_eq!(w.vt_index(), 0);
    w.prev_screen();
    assert_eq!(w.vt_index(), VT_NUMBER - 1);
    w.prev_screen();
    assert_eq!(w.vt_index(), VT_NUMBER - 2);
    w.next_screen();
    assert_eq!(w.vt_index(), VT_NUMBER - 1);
    assert_mirror(&w);
}

#[test]
fn next_screen_redraws_and_reports_the_cursor() {
    let mut w = Writer::new();
    w.change_screen(1);
    w.write_str("x\ny\nzz");
    w.change_screen(0);
    let actions = w.next_screen();
    assert_eq!(actions.to_vec(), switch_actions(2, 2));
    assert_eq!(w.buffer().get(0, 2), cell(b'z'));
    assert_mirror(&w);
}

#[test]
fn cursor_commands_act_on_the_active_terminal() {
    let mut w = Writer::new();
    w.write_str("0123456789\n\n\nabc");
    assert_eq!(
        w.cursor_update().to_vec(),
        vec![
            PortAction::Write { port: 0x3D4, value: 0x0F },
            PortAction::Write { port: 0x3D5, value: 243 },
            PortAction::Write { port: 0x3D4, value: 0x0E },
            PortAction::Write { port: 0x3D5, value: 0 },
        ]
    );
    let enable = w.cursor_enable();
    assert_eq!(enable.to_vec(), switch_actions(0, 0)[6..].to_vec());
    assert!(w.vt(0).get_cursor().is_enabled());
    assert!(!w.vt(1).get_cursor().is_enabled());
    let disable = w.cursor_disable();
    assert_eq!(disable.to_vec(), switch_actions(0, 0)[..2].to_vec());
    assert!(!w.vt(0).get_cursor().is_enabled());
    assert_eq!(cursor_of(&w, 0), (3, 3));
}

#[test]
fn cursor_position_is_row_times_width_plus_column() {
    let c = Cursor::new(79, 24);
    assert_eq!(
        c.update().to_vec(),
        vec![
            PortAction::Write { port: 0x3D4, value: 0x0F },
            PortAction::Write { port: 0x3D5, value: (1999 % 256) as u8 },
            PortAction::Write { port: 0x3D4, value: 0x0E },
            PortAction::Write { port: 0x3D5, value: (1999 / 256) as u8 },
        ]
    );
    let c = Cursor::new(5, 4);
    // 4 * 80 + 5 = 325 = 0x0145.
    assert_eq!(c.update()[1], PortAction::Write { port: 0x3D5, value: 0x45 });
    assert_eq!(c.update()[3], PortAction::Write { port: 0x3D5, value: 0x01 });
}

#[test]
fn cursor_moves_stay_on_the_display() {
    let mut c = Cursor::new(0, 0);
    c.dec();
    assert_eq!(c.get_pos(), (0, 0));
    c.inc();
    assert_eq!(c.get_pos(), (1, 0));
    c.dec();
    assert_eq!(c.get_pos(), (0, 0));
    c.set_pos(W - 1, 3);
    c.inc();
    assert_eq!(c.get_pos(), (0, 4));
    c.set_pos(W - 1, H - 1);
    c.inc();
    assert_eq!(c.get_pos(), (0, H - 1));
    c.set_pos(17, 5);
    c.next_line();
    assert_eq!(c.get_pos(), (0, 6));
    c.set_pos(17, H - 1);
    c.next_line();
    assert_eq!(c.get_pos(), (0, H - 1));
    assert_eq!(Cursor::default().get_pos(), (0, 0));
}

#[test]
fn cursor_enable_and_disable_keep_the_position() {
    let mut c = Cursor::new(7, 9);
    assert!(!c.is_enabled());
    let on = c.enable();
    assert!(c.is_enabled());
    assert_eq!(on[1], PortAction::Modify { port: 0x3D5, keep: 0xC0, set: 14 });
    assert_eq!(on[3], PortAction::Modify { port: 0x3D5, keep: 0xE0, set: 14 });
    assert_eq!(c.get_pos(), (7, 9));
    let off = c.disable();
    assert!(!c.is_enabled());
    assert_eq!(off[1], PortAction::Write { port: 0x3D5, value: 0x20 });
    assert_eq!(c.get_pos(), (7, 9));
}

#[test]
fn write_str_writes_the_bytes_of_the_string() {
    let mut a = Writer::new();
    let mut b = Writer::new();
    let text = "tab\there\nb\u{08}c \u{e9}";
    a.write_str(text);
    for byte in text.bytes() {
        b.write_byte(byte);
    }
    for y in 0..H {
        for x in 0..W {
            assert_eq!(a.buffer().get(x, y), b.buffer().get(x, y));
        }
    }
    assert_eq!(cursor_of(&a, 0), cursor_of(&b, 0));
    // The two bytes of the last character are two cells.
    assert_eq!(a.buffer().get(2, 1), cell(0xC3));
    assert_eq!(a.buffer().get(3, 1), cell(0xA9));
}

#[test]
fn print_writes_under_the_lock_and_shows_the_cursor() {
    let mut lock = Spinlock::new(Writer::new());
    let actions = _print(&mut lock, "hello\nyou");
    assert!(!lock.is_locked());
    assert_eq!(actions.to_vec(), switch_actions(3, 1));
    let guard = lock.lock();
    assert_eq!(guard.buffer().get(4, 0), cell(b'o'));
    assert_eq!(guard.buffer().get(2, 1), cell(b'u'));
    assert!(guard.vt(0).get_cursor().is_enabled());
    assert_eq!(guard.vt(0).get_cursor().get_pos(), (3, 1));
    guard.release();
}

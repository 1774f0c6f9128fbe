use kfs::keyboard::{DecodedKey, HandleCtrl, KeyCode, Keyboard, ScancodeSet1, Us104Key};
use kfs::kshell::command::{
    builtin, clear_vt, echo, exit, help, info, next_vt, prev_vt, print_number, Builtin, HELP,
};
use kfs::kshell::{first_byte, kshell, split, Command, ReadAction, Shortcut, CMD_SIZE, MAX_ARG};
use kfs::port::PortAction;
use kfs::spinlock::Spinlock;
use kfs::vga_buffer::color::ColorCode;
use kfs::vga_buffer::writer::{ScreenChar, Writer};

fn typed(text: &str) -> Command {
    let mut cmd = Command::new();
    for c in text.chars() {
        cmd.read(DecodedKey::Unicode(c));
    }
    cmd
}

fn words_of(line: &str) -> Vec<String> {
    let args = split(line.as_bytes());
    (0..args.len())
        .map(|i| String::from_utf8(args.get(line.as_bytes(), i).to_vec()).unwrap())
        .collect()
}

#[test]
fn new_command_is_empty() {
    let cmd = Command::new();
    assert_eq!(cmd.get(), b"");
    assert!(!cmd.modkey());
}

#[test]
fn characters_are_added_and_echoed() {
    let mut cmd = Command::new();
    assert_eq!(cmd.read(DecodedKey::Unicode('l')), ReadAction::Echo('l'));
    assert_eq!(cmd.read(DecodedKey::Unicode('s')), ReadAction::Echo('s'));
    assert_eq!(cmd.read(DecodedKey::Unicode(' ')), ReadAction::Echo(' '));
    assert_eq!(cmd.get(), b"ls ");
}

#[test]
fn backspace_takes_the_last_byte_and_is_not_echoed_on_an_empty_line() {
    let mut cmd = typed("ab");
    assert_eq!(cmd.read(DecodedKey::Unicode('\u{08}')), ReadAction::Echo('\u{08}'));
    assert_eq!(cmd.get(), b"a");
    assert_eq!(cmd.read(DecodedKey::Unicode('\u{08}')), ReadAction::Echo('\u{08}'));
    assert_eq!(cmd.get(), b"");
    assert_eq!(cmd.read(DecodedKey::Unicode('\u{08}')), ReadAction::Continue);
    assert_eq!(cmd.get(), b"");
}

#[test]
fn enter_completes_the_line_and_tab_is_ignored() {
    let mut cmd = typed("help");
    assert_eq!(cmd.read(DecodedKey::Unicode('\t')), ReadAction::Continue);
    assert_eq!(cmd.get(), b"help");
    assert_eq!(cmd.read(DecodedKey::Unicode('\n')), ReadAction::Submit('\n'));
    assert_eq!(cmd.get(), b"help");
}

#[test]
fn a_full_line_takes_no_more() {
    let mut cmd = Command::new();
    for _ in 0..CMD_SIZE {
        assert_eq!(cmd.read(DecodedKey::Unicode('x')), ReadAction::Echo('x'));
    }
    assert_eq!(cmd.get().len(), 1024);
    assert_eq!(cmd.read(DecodedKey::Unicode('y')), ReadAction::Continue);
    assert_eq!(cmd.get().len(), 1024);
    assert_eq!(cmd.read(DecodedKey::Unicode('\u{08}')), ReadAction::Echo('\u{08}'));
    assert_eq!(cmd.get().len(), 1023);
    assert_eq!(cmd.read(DecodedKey::Unicode('y')), ReadAction::Echo('y'));
    assert_eq!(cmd.get()[1023], b'y');
}

#[test]
fn a_character_leaves_the_first_byte_of_its_encoding() {
    assert_eq!(first_byte('a'), b'a');
    assert_eq!(first_byte('\u{7f}'), 0x7F);
    assert_eq!(first_byte('\u{e9}'), 0xC3);
    assert_eq!(first_byte('\u{20ac}'), 0xE2);
    assert_eq!(first_byte('\u{1f600}'), 0xF0);
    for c in ['\0', 'z', '\u{80}', '\u{7ff}', '\u{800}', '\u{ffff}', '\u{10000}', '\u{10ffff}'] {
        let mut buf = [0u8; 4];
        assert_eq!(first_byte(c), c.encode_utf8(&mut buf).as_bytes()[0]);
    }
    let cmd = typed("\u{e9}");
    assert_eq!(cmd.get(), &[0xC3]);
}

#[test]
fn arrows_are_shortcuts_and_other_raw_keys_are_not() {
    let mut cmd = typed("abc");
    assert_eq!(cmd.shortcut(KeyCode::ArrowRight), Some(Shortcut::NextScreen));
    assert_eq!(cmd.shortcut(KeyCode::ArrowLeft), Some(Shortcut::PrevScreen));
    assert_eq!(cmd.shortcut(KeyCode::ArrowUp), None);
    assert_eq!(cmd.shortcut(KeyCode::F1), None);
    assert_eq!(
        cmd.read(DecodedKey::RawKey(KeyCode::ArrowRight)),
        ReadAction::Switch(Shortcut::NextScreen)
    );
    assert_eq!(
        cmd.read(DecodedKey::RawKey(KeyCode::ArrowLeft)),
        ReadAction::Switch(Shortcut::PrevScreen)
    );
    assert_eq!(cmd.read(DecodedKey::RawKey(KeyCode::Home)), ReadAction::Continue);
    assert_eq!(cmd.get(), b"abc");
}

#[test]
fn get_key_decodes_and_resolves() {
    let mut kb: Keyboard<Us104Key, ScancodeSet1> =
        Keyboard::new(Us104Key, ScancodeSet1, HandleCtrl::Ignore);
    let mut cmd = Command::new();
    assert_eq!(cmd.get_key(&mut kb, 0x1E), Some(DecodedKey::Unicode('a')));
    assert_eq!(cmd.get_key(&mut kb, 0x9E), None);
    assert_eq!(cmd.get_key(&mut kb, 0x2A), None);
    assert!(kb.modifiers().lshift);
    assert_eq!(cmd.get_key(&mut kb, 0x1E), Some(DecodedKey::Unicode('A')));
    assert_eq!(cmd.get_key(&mut kb, 0x54), None);
    assert_eq!(cmd.get_key(&mut kb, 0xE0), None);
    assert_eq!(cmd.get_key(&mut kb, 0x4B), Some(DecodedKey::RawKey(KeyCode::ArrowLeft)));
    assert_eq!(cmd.get(), b"");
}

#[test]
fn get_key_keeps_left_alt_for_the_shell() {
    let mut kb: Keyboard<Us104Key, ScancodeSet1> =
        Keyboard::new(Us104Key, ScancodeSet1, HandleCtrl::Ignore);
    let mut cmd = Command::new();
    assert_eq!(cmd.get_key(&mut kb, 0x38), None);
    assert!(cmd.modkey());
    assert_eq!(cmd.get_key(&mut kb, 0x1E), Some(DecodedKey::Unicode('a')));
    assert!(cmd.modkey());
    assert_eq!(cmd.get_key(&mut kb, 0xB8), None);
    assert!(!cmd.modkey());
}

#[test]
fn split_parts_a_line_at_spaces() {
    assert_eq!(words_of("echo one two"), vec!["echo", "one", "two"]);
    assert_eq!(words_of("  echo   one "), vec!["echo", "one"]);
    assert_eq!(words_of(""), Vec::<String>::new());
    assert_eq!(words_of("   "), Vec::<String>::new());
    assert_eq!(words_of("single"), vec!["single"]);
    assert_eq!(words_of("tab\tis no separator"), vec!["tab\tis", "no", "separator"]);
}

#[test]
fn split_looks_at_the_first_twenty_pieces_only() {
    let many: Vec<String> = (0..30).map(|i| format!("w{}", i)).collect();
    let line = many.join(" ");
    assert_eq!(words_of(&line), many[..MAX_ARG].to_vec());
    // Empty pieces count among the twenty.
    let line = format!("{}a b", " ".repeat(18));
    assert_eq!(words_of(&line), vec!["a", "b"]);
    let line = format!("{}a b", " ".repeat(19));
    assert_eq!(words_of(&line), vec!["a"]);
    let line = format!("{}a b", " ".repeat(20));
    assert_eq!(words_of(&line), Vec::<String>::new());
}

#[test]
fn builtin_names() {
    let table = [
        ("exit", Builtin::Exit),
        ("shutdown", Builtin::Shutdown),
        ("reboot", Builtin::Reboot),
        ("clear", Builtin::Clear),
        ("next", Builtin::Next),
        ("prev", Builtin::Prev),
        ("help", Builtin::Help),
        ("info", Builtin::Info),
        ("read_serial", Builtin::ReadSerial),
        ("echo", Builtin::Echo),
    ];
    for (name, command) in table {
        assert_eq!(builtin(name.as_bytes()), Some(command));
    }
    for name in ["", "Exit", "exi", "exits", "echo ", "read-serial", "ls"] {
        assert_eq!(builtin(name.as_bytes()), None);
    }
}

#[test]
fn kshell_finds_the_command_and_its_arguments() {
    let line = b" echo  hello world";
    let (command, args) = kshell(line);
    assert_eq!(command, Some(Builtin::Echo));
    assert_eq!(args.len(), 3);
    assert_eq!(args.get(line, 1), b"hello");
    assert_eq!(args.get(line, 2), b"world");
    let (command, args) = kshell(b"unknown thing");
    assert_eq!(command, None);
    assert_eq!(args.len(), 2);
    let (command, args) = kshell(b"");
    assert_eq!(command, None);
    assert_eq!(args.len(), 0);
    let (command, _) = kshell(b"clear");
    assert_eq!(command, Some(Builtin::Clear));
}

#[test]
fn clear_vt_clears_under_the_lock() {
    let mut lock = Spinlock::new(Writer::new());
    let mut guard = lock.lock();
    guard.write_str("text");
    guard.release();
    let actions = clear_vt(&mut lock);
    assert_eq!(actions[1], PortAction::Write { port: 0x3D5, value: 0 });
    assert!(!lock.is_locked());
    let guard = lock.lock();
    assert_eq!(guard.buffer().get(0, 0), ScreenChar::blank());
    assert_eq!(guard.vt(0).get_cursor().get_pos(), (0, 0));
    guard.release();
}

#[test]
fn next_vt_and_prev_vt_switch_under_the_lock() {
    let mut lock = Spinlock::new(Writer::new());
    next_vt(&mut lock);
    assert!(!lock.is_locked());
    let guard = lock.lock();
    assert_eq!(guard.vt_index(), 1);
    guard.release();
    next_vt(&mut lock);
    let guard = lock.lock();
    assert_eq!(guard.vt_index(), 0);
    guard.release();
    prev_vt(&mut lock);
    assert!(!lock.is_locked());
    let guard = lock.lock();
    assert_eq!(guard.vt_index(), 1);
    guard.release();
}

#[test]
fn exit_says_so_in_red_on_white_and_restores_the_default() {
    let mut lock = Spinlock::new(Writer::new());
    exit(&mut lock);
    assert!(!lock.is_locked());
    let guard = lock.lock();
    for (x, c) in "exit".bytes().enumerate() {
        assert_eq!(guard.buffer().get(x, 0), ScreenChar::new(c, ColorCode(0xF4)));
    }
    assert_eq!(guard.buffer().get(4, 0), ScreenChar::blank());
    assert_eq!(guard.vt(0).get_cursor().get_pos(), (0, 1));
    assert_eq!(guard.vt(0).get_color_code(), ColorCode(0x07));
    guard.release();
}

/// The text of row `y` of the display, without the spaces at its end.
fn row(lock: &mut Spinlock<Writer>, y: usize) -> String {
    let guard = lock.lock();
    let bytes: Vec<u8> = (0..80).map(|x| guard.buffer().get(x, y).ascii_character).collect();
    guard.release();
    String::from_utf8(bytes).unwrap().trim_end().to_string()
}

#[test]
fn help_prints_the_list_of_commands() {
    let mut lock = Spinlock::new(Writer::new());
    help(&mut lock);
    assert!(!lock.is_locked());
    assert_eq!(HELP.lines().count(), 13);
    for (y, line) in HELP.lines().enumerate() {
        assert_eq!(row(&mut lock, y), line.trim_end());
    }
    assert_eq!(row(&mut lock, 0), "exit         - quit the shell");
    assert_eq!(row(&mut lock, 8), "echo         - print on terminal all arguments");
    assert_eq!(row(&mut lock, 9), "");
    assert_eq!(row(&mut lock, 10), "shortcut:");
    assert_eq!(row(&mut lock, 11), "  <Alt>+<ArrowLeft>  -> previous screen");
    assert_eq!(row(&mut lock, 12), "  <Alt>+<ArrowRight> -> next screen");
    let guard = lock.lock();
    assert_eq!(guard.vt(0).get_cursor().get_pos(), (0, 13));
    guard.release();
}

#[test]
fn info_prints_the_version() {
    let mut lock = Spinlock::new(Writer::new());
    let actions = info(&mut lock);
    assert_eq!(kfs::VERSION, "1.0.0");
    assert_eq!(row(&mut lock, 0), "version: 1.0.0");
    assert_eq!(row(&mut lock, 1), "");
    // The cursor goes to the start of the second row: position 80.
    assert_eq!(actions[3], PortAction::Write { port: 0x3D5, value: 80 });
    assert_eq!(actions[5], PortAction::Write { port: 0x3D5, value: 0 });
}

#[test]
fn numbers_print_in_base_ten() {
    for (n, text) in [(0usize, "0"), (7, "7"), (10, "10"), (19, "19"), (1024, "1024"), (90210, "90210")] {
        let mut lock = Spinlock::new(Writer::new());
        print_number(&mut lock, n);
        assert_eq!(row(&mut lock, 0), text);
        assert!(!lock.is_locked());
    }
    let mut lock = Spinlock::new(Writer::new());
    print_number(&mut lock, usize::MAX);
    assert_eq!(row(&mut lock, 0), format!("{}", usize::MAX));
}

#[test]
fn echo_prints_the_number_of_arguments_and_each_of_them() {
    let mut lock = Spinlock::new(Writer::new());
    let line = b"echo  hello big  world ";
    let (command, args) = kshell(line);
    assert_eq!(command, Some(Builtin::Echo));
    echo(&mut lock, line, &args);
    assert!(!lock.is_locked());
    assert_eq!(row(&mut lock, 0), "nb argument: 3");
    assert_eq!(row(&mut lock, 1), "0: 'hello'");
    assert_eq!(row(&mut lock, 2), "1: 'big'");
    assert_eq!(row(&mut lock, 3), "2: 'world'");
    assert_eq!(row(&mut lock, 4), "");
}

#[test]
fn echo_without_arguments_prints_nought() {
    let mut lock = Spinlock::new(Writer::new());
    let line = b"echo";
    let (_, args) = kshell(line);
    let actions = echo(&mut lock, line, &args);
    assert_eq!(row(&mut lock, 0), "nb argument: 0");
    assert_eq!(row(&mut lock, 1), "");
    assert_eq!(actions[3], PortAction::Write { port: 0x3D5, value: 80 });
}

#[test]
fn echo_of_many_arguments_counts_past_nine() {
    let mut lock = Spinlock::new(Writer::new());
    let line = b"echo a b c d e f g h i j k l";
    let (_, args) = kshell(line);
    echo(&mut lock, line, &args);
    assert_eq!(row(&mut lock, 0), "nb argument: 12");
    assert_eq!(row(&mut lock, 10), "9: 'j'");
    assert_eq!(row(&mut lock, 11), "10: 'k'");
    assert_eq!(row(&mut lock, 12), "11: 'l'");
}

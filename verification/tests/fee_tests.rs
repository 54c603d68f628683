use fee::config::{Config, Rgb};
use fee::fee::{Action, Fee};
use fee::input::{command, Command, Input, Key, KeyInput};
use fee::listing::{ListError, RawEntry, RawKind};
use fee::render::get_terminal_height;

fn entry(name: &str, kind: RawKind) -> RawEntry {
    RawEntry { name: Some(name.to_string()), kind }
}

fn files(n: usize) -> Vec<RawEntry> {
    (0..n).map(|i| entry(&format!("f{}", i), RawKind::File)).collect()
}

fn browser(cwd: &str, raw: &Vec<RawEntry>) -> Fee {
    let mut fee = Fee::new(cwd.to_string(), Config::default_config());
    fee.load(raw).unwrap();
    fee.listen();
    fee
}

fn press(key: Key) -> Input {
    Input::Key(KeyInput { key, control: false, pressed: true })
}

fn names(fee: &Fee) -> Vec<String> {
    fee.current_contents().iter().map(|i| i.name.clone()).collect()
}

#[test]
fn new_browser_is_empty_and_not_listening() {
    let fee = Fee::new("/tmp".to_string(), Config::default_config());
    assert_eq!(fee.cwd(), "/tmp");
    assert_eq!(fee.selection(), 0);
    assert_eq!(fee.scroll(), 0);
    assert!(fee.current_contents().is_empty());
    assert!(!fee.listening());
    assert_eq!(fee.config().dir_color, Some(Rgb { r: 59, g: 120, b: 255 }));
}

#[test]
fn browsing_order_keeps_the_raw_order_of_each_kind() {
    let raw = vec![
        entry("b", RawKind::Directory),
        entry("a", RawKind::Directory),
        entry("z.txt", RawKind::File),
        entry("m.bin", RawKind::File),
    ];
    let mut fee = browser("/tmp", &raw);
    assert_eq!(names(&fee), vec!["b", "a", "z.txt", "m.bin"]);
    let mut seen = Vec::new();
    for _ in 0..4 {
        seen.push(fee.current_contents()[fee.selection()].name.clone());
        fee.move_down(10);
    }
    assert_eq!(seen, vec!["b", "a", "z.txt", "m.bin"]);
    assert_eq!(fee.selection(), 0);
}

#[test]
fn move_down_then_up_returns() {
    let mut fee = browser("/tmp", &files(10));
    for start in 0..10 {
        while fee.selection() != start {
            fee.move_down(4);
        }
        fee.move_up(4);
        fee.move_down(4);
        assert_eq!(fee.selection(), start);
        fee.move_down(4);
        fee.move_up(4);
        assert_eq!(fee.selection(), start);
    }
}

#[test]
fn move_up_wraps_to_the_last_entry() {
    let mut fee = browser("/tmp", &files(10));
    fee.move_up(4);
    assert_eq!(fee.selection(), 9);
    assert_eq!(fee.scroll(), 6);
}

#[test]
fn move_down_wraps_to_the_first_entry() {
    let mut fee = browser("/tmp", &files(10));
    fee.move_up(4);
    assert_eq!((fee.selection(), fee.scroll()), (9, 6));
    fee.move_down(4);
    assert_eq!((fee.selection(), fee.scroll()), (0, 0));
}

#[test]
fn wrap_with_fewer_entries_than_rows_keeps_the_top() {
    let mut fee = browser("/tmp", &files(3));
    fee.move_up(5);
    assert_eq!((fee.selection(), fee.scroll()), (2, 0));
    let mut fee = browser("/tmp", &files(5));
    fee.move_up(5);
    assert_eq!((fee.selection(), fee.scroll()), (4, 0));
    let mut fee = browser("/tmp", &files(6));
    fee.move_up(5);
    assert_eq!((fee.selection(), fee.scroll()), (5, 1));
}

#[test]
fn single_entry_wraps_onto_itself() {
    let mut fee = browser("/tmp", &files(1));
    fee.move_up(3);
    assert_eq!((fee.selection(), fee.scroll()), (0, 0));
    fee.move_down(3);
    assert_eq!((fee.selection(), fee.scroll()), (0, 0));
}

#[test]
fn scroll_follows_the_selection_down_and_up() {
    let mut fee = browser("/tmp", &files(10));
    let mut trace = Vec::new();
    for _ in 0..6 {
        fee.move_down(4);
        trace.push((fee.selection(), fee.scroll()));
    }
    assert_eq!(trace, vec![(1, 0), (2, 0), (3, 0), (4, 1), (5, 2), (6, 3)]);
    let mut trace = Vec::new();
    for _ in 0..5 {
        fee.move_up(4);
        trace.push((fee.selection(), fee.scroll()));
    }
    assert_eq!(trace, vec![(5, 3), (4, 3), (3, 3), (2, 2), (1, 1)]);
}

#[test]
fn selection_stays_in_the_window() {
    for height in 1..=6u16 {
        let mut fee = browser("/tmp", &files(7));
        let h = height as usize;
        for step in 0..40 {
            if step % 5 < 3 {
                fee.move_down(height);
            } else {
                fee.move_up(height);
            }
            assert!(fee.scroll() <= fee.selection());
            assert!(fee.selection() < fee.scroll() + h);
        }
        for _ in 0..20 {
            fee.move_up(height);
            assert!(fee.scroll() <= fee.selection());
            assert!(fee.selection() < fee.scroll() + h);
        }
    }
}

#[test]
fn moving_in_an_empty_listing_changes_nothing() {
    let mut fee = browser("/tmp", &Vec::new());
    fee.move_up(4);
    assert_eq!((fee.selection(), fee.scroll()), (0, 0));
    fee.move_down(4);
    assert_eq!((fee.selection(), fee.scroll()), (0, 0));
    assert!(matches!(fee.select(), Action::Redraw));
    assert_eq!(fee.cwd(), "/tmp");
}

#[test]
fn go_back_without_parent_changes_nothing() {
    let mut fee = browser("/", &files(5));
    fee.move_down(3);
    fee.move_down(3);
    assert!(matches!(fee.go_back(), Action::Redraw));
    assert_eq!(fee.cwd(), "/");
    assert_eq!((fee.selection(), fee.scroll()), (2, 0));
    assert_eq!(fee.current_contents().len(), 5);
    assert!(fee.listening());
}

#[test]
fn go_back_enters_the_parent() {
    let mut fee = browser("/tmp/work", &files(5));
    fee.move_up(3);
    assert_eq!((fee.selection(), fee.scroll()), (4, 2));
    assert!(matches!(fee.go_back(), Action::Reload));
    assert_eq!(fee.cwd(), "/tmp");
    assert_eq!((fee.selection(), fee.scroll()), (0, 0));
    assert!(fee.current_contents().is_empty());
    fee.load(&vec![entry("work", RawKind::Directory)]).unwrap();
    assert_eq!(names(&fee), vec!["work"]);
    assert!(matches!(fee.go_back(), Action::Reload));
    assert_eq!(fee.cwd(), "/");
    assert!(matches!(fee.go_back(), Action::Redraw));
    assert_eq!(fee.cwd(), "/");
}

#[test]
fn activating_a_directory_enters_it() {
    let raw = vec![
        entry("z.txt", RawKind::File),
        entry("b", RawKind::Directory),
        entry("a", RawKind::Directory),
    ];
    let mut fee = browser("/tmp", &raw);
    fee.move_down(2);
    assert_eq!(fee.selection(), 1);
    assert!(matches!(fee.select(), Action::Reload));
    assert_eq!(fee.cwd(), "/tmp/a");
    assert_eq!((fee.selection(), fee.scroll()), (0, 0));
    assert!(fee.current_contents().is_empty());
    let inner = vec![entry("x", RawKind::File), entry("sub", RawKind::Directory)];
    fee.load(&inner).unwrap();
    assert_eq!(names(&fee), vec!["sub", "x"]);
    assert_eq!((fee.selection(), fee.scroll()), (0, 0));
}

#[test]
fn activating_a_file_asks_to_open_it() {
    let raw = vec![entry("d", RawKind::Directory), entry("z.txt", RawKind::File)];
    let mut fee = browser("/tmp", &raw);
    fee.move_down(5);
    match fee.select() {
        Action::Open { path, probe } => {
            assert_eq!(path, "/tmp/z.txt");
            assert!(probe);
        }
        other => panic!("unexpected action {:?}", other),
    }
    assert_eq!(fee.cwd(), "/tmp");
    assert_eq!(fee.selection(), 1);
    assert_eq!(names(&fee), vec!["d", "z.txt"]);
}

#[test]
fn identical_templates_need_no_probe() {
    let config = Config {
        text_editor_command: vec!["vi".to_string(), "$f".to_string()],
        binary_editor_command: vec!["vi".to_string(), "$f".to_string()],
        wait_for_editor_exit: false,
        dir_color: None,
        file_color: None,
    };
    let mut fee = Fee::new("/srv".to_string(), config);
    fee.load(&files(1)).unwrap();
    match fee.select() {
        Action::Open { path, probe } => {
            assert_eq!(path, "/srv/f0");
            assert!(!probe);
        }
        other => panic!("unexpected action {:?}", other),
    }
}

#[test]
fn load_failure_changes_nothing() {
    let mut fee = browser("/tmp", &files(4));
    fee.move_down(2);
    fee.move_down(2);
    let bad = vec![entry("a", RawKind::File), RawEntry { name: None, kind: RawKind::File }];
    assert_eq!(fee.load(&bad), Err(ListError::FileName { index: 1 }));
    assert_eq!(fee.current_contents().len(), 4);
    assert_eq!((fee.selection(), fee.scroll()), (2, 1));
    let bad = vec![entry("a", RawKind::Unknown)];
    assert_eq!(fee.load(&bad), Err(ListError::FileType { index: 0 }));
}

#[test]
fn load_resets_selection_and_scroll() {
    let mut fee = browser("/tmp", &files(9));
    fee.move_up(3);
    assert_eq!((fee.selection(), fee.scroll()), (8, 6));
    assert_eq!(fee.load(&files(2)), Ok(()));
    assert_eq!((fee.selection(), fee.scroll()), (0, 0));
    assert_eq!(fee.current_contents().len(), 2);
}

#[test]
fn keys_map_to_commands() {
    assert_eq!(command(press(Key::Up)), Command::MoveUp);
    assert_eq!(command(press(Key::Down)), Command::MoveDown);
    assert_eq!(command(press(Key::Enter)), Command::Activate);
    assert_eq!(command(press(Key::Right)), Command::Activate);
    assert_eq!(command(press(Key::Esc)), Command::GoBack);
    assert_eq!(command(press(Key::Left)), Command::GoBack);
    assert_eq!(command(press(Key::Other)), Command::Nothing);
    assert_eq!(command(press(Key::Char('c'))), Command::Nothing);
    assert_eq!(command(press(Key::Char('q'))), Command::Nothing);
    let ctrl = |c: char, pressed: bool| Input::Key(KeyInput { key: Key::Char(c), control: true, pressed });
    assert_eq!(command(ctrl('c', true)), Command::Quit);
    assert_eq!(command(ctrl('x', true)), Command::Nothing);
    assert_eq!(command(ctrl('C', true)), Command::Nothing);
    assert_eq!(command(ctrl('c', false)), Command::Nothing);
    assert_eq!(command(Input::Key(KeyInput { key: Key::Up, control: false, pressed: false })), Command::Nothing);
    assert_eq!(command(Input::Other), Command::Nothing);
}

#[test]
fn key_presses_drive_the_browser() {
    let raw = vec![entry("d", RawKind::Directory), entry("f", RawKind::File), entry("g", RawKind::File)];
    let mut fee = browser("/tmp", &raw);
    assert!(matches!(fee.handle_keypress(press(Key::Down), 2), Action::Redraw));
    assert_eq!((fee.selection(), fee.scroll()), (1, 0));
    assert!(matches!(fee.handle_keypress(press(Key::Down), 2), Action::Redraw));
    assert_eq!((fee.selection(), fee.scroll()), (2, 1));
    assert!(matches!(fee.handle_keypress(press(Key::Up), 2), Action::Redraw));
    assert_eq!((fee.selection(), fee.scroll()), (1, 1));
    match fee.handle_keypress(press(Key::Enter), 2) {
        Action::Open { path, probe } => {
            assert_eq!(path, "/tmp/f");
            assert!(probe);
        }
        other => panic!("unexpected action {:?}", other),
    }
    assert!(matches!(fee.handle_keypress(press(Key::Up), 2), Action::Redraw));
    assert!(matches!(fee.handle_keypress(press(Key::Right), 2), Action::Reload));
    assert_eq!(fee.cwd(), "/tmp/d");
    fee.load(&Vec::new()).unwrap();
    assert!(matches!(fee.handle_keypress(press(Key::Right), 2), Action::Redraw));
    assert!(matches!(fee.handle_keypress(press(Key::Left), 2), Action::Reload));
    assert_eq!(fee.cwd(), "/tmp");
    fee.load(&raw).unwrap();
    assert!(matches!(fee.handle_keypress(press(Key::Esc), 2), Action::Reload));
    assert_eq!(fee.cwd(), "/");
    assert!(matches!(fee.handle_keypress(press(Key::Esc), 2), Action::Redraw));
    assert_eq!(fee.cwd(), "/");
}

#[test]
fn other_keys_only_redraw() {
    let mut fee = browser("/tmp", &files(3));
    fee.move_down(2);
    assert!(matches!(fee.handle_keypress(press(Key::Char('x')), 2), Action::Redraw));
    assert!(matches!(fee.handle_keypress(press(Key::Other), 2), Action::Redraw));
    assert_eq!((fee.selection(), fee.scroll()), (1, 0));
    assert_eq!(fee.cwd(), "/tmp");
    assert!(fee.listening());
}

#[test]
fn what_is_no_key_press_only_redraws() {
    let mut fee = browser("/tmp", &files(5));
    fee.move_down(2);
    fee.move_down(2);
    assert_eq!((fee.selection(), fee.scroll()), (2, 1));
    let keys = [
        Key::Up,
        Key::Down,
        Key::Enter,
        Key::Right,
        Key::Esc,
        Key::Left,
        Key::Char('c'),
        Key::Other,
    ];
    for key in keys {
        for control in [false, true] {
            let release = Input::Key(KeyInput { key, control, pressed: false });
            assert!(matches!(fee.handle_keypress(release, 2), Action::Redraw));
            assert_eq!(fee.cwd(), "/tmp");
            assert_eq!((fee.selection(), fee.scroll()), (2, 1));
            assert_eq!(fee.current_contents().len(), 5);
            assert!(fee.listening());
        }
    }
    assert!(matches!(fee.handle_keypress(Input::Other, 2), Action::Redraw));
    assert_eq!(fee.cwd(), "/tmp");
    assert_eq!((fee.selection(), fee.scroll()), (2, 1));
    assert_eq!(fee.current_contents().len(), 5);
    assert!(fee.listening());
}

#[test]
fn what_is_no_key_press_is_ignored_while_not_listening() {
    let mut fee = Fee::new("/tmp".to_string(), Config::default_config());
    fee.load(&files(3)).unwrap();
    let release = Input::Key(KeyInput { key: Key::Down, control: false, pressed: false });
    assert!(matches!(fee.handle_keypress(release, 2), Action::Ignore));
    assert!(matches!(fee.handle_keypress(Input::Other, 2), Action::Ignore));
    assert_eq!((fee.selection(), fee.scroll()), (0, 0));
}

#[test]
fn control_c_ends_the_session() {
    let mut fee = browser("/tmp", &files(3));
    let quit = Input::Key(KeyInput { key: Key::Char('c'), control: true, pressed: true });
    assert!(matches!(fee.handle_keypress(quit, 2), Action::Quit));
    assert!(!fee.listening());
    assert!(matches!(fee.handle_keypress(press(Key::Down), 2), Action::Ignore));
    assert!(matches!(fee.handle_keypress(Input::Other, 2), Action::Ignore));
    assert_eq!((fee.selection(), fee.scroll()), (0, 0));
}

#[test]
fn inputs_before_the_session_are_ignored() {
    let mut fee = Fee::new("/tmp".to_string(), Config::default_config());
    fee.load(&files(3)).unwrap();
    assert!(matches!(fee.handle_keypress(press(Key::Down), 2), Action::Ignore));
    assert_eq!(fee.selection(), 0);
    fee.listen();
    assert!(fee.listening());
    assert!(matches!(fee.handle_keypress(press(Key::Down), 2), Action::Redraw));
    assert_eq!(fee.selection(), 1);
}

#[test]
fn enter_goes_to_the_given_directory() {
    let mut fee = browser("/tmp", &files(6));
    fee.move_up(2);
    fee.enter("/var/log".to_string());
    assert_eq!(fee.cwd(), "/var/log");
    assert_eq!((fee.selection(), fee.scroll()), (0, 0));
    assert!(fee.current_contents().is_empty());
}

#[test]
fn window_without_rows() {
    let mut fee = browser("/tmp", &files(3));
    fee.move_up(0);
    assert_eq!((fee.selection(), fee.scroll()), (2, 3));
    assert_eq!(fee.update(0).len(), 5);
    fee.move_up(0);
    assert_eq!((fee.selection(), fee.scroll()), (1, 2));
    fee.move_down(0);
    assert_eq!((fee.selection(), fee.scroll()), (2, 3));
    fee.move_down(0);
    assert_eq!((fee.selection(), fee.scroll()), (0, 0));
    fee.move_down(0);
    assert_eq!((fee.selection(), fee.scroll()), (1, 1));
}

#[test]
fn terminal_height_leaves_one_row_free() {
    assert_eq!(get_terminal_height(24), 23);
    assert_eq!(get_terminal_height(1), 0);
    assert_eq!(get_terminal_height(u16::MAX), u16::MAX - 1);
}

use pty_session::{get_default_shell, make_winsize, Terminal};

// A child identifier that no live process will carry: well inside the
// positive range the driver demands, far above any real pid, so the
// release signal below can only land on nothing.
const FAKE_CHILD: i32 = i32::MAX;

#[test]
fn winsize() {
    let mut terminal = Terminal::new(FAKE_CHILD, 3, 4);
    assert_eq!(terminal.get_winsize(), (0, 0));
    terminal.set_winsize(120, 72);
    assert_eq!(terminal.get_winsize(), (120, 72));
}

#[test]
fn winsize_full_range() {
    let mut terminal = Terminal::new(FAKE_CHILD, 0, 1);
    terminal.set_winsize(0, 0);
    assert_eq!(terminal.get_winsize(), (0, 0));
    terminal.set_winsize(65535, 65535);
    assert_eq!(terminal.get_winsize(), (65535, 65535));
    terminal.set_winsize(1, 65535);
    assert_eq!(terminal.get_winsize(), (1, 65535));
}

#[test]
fn release_fires_exactly_once() {
    let mut terminal = Terminal::new(FAKE_CHILD, 5, 6);
    terminal.set_winsize(24, 80);
    assert!(terminal.release());
    assert!(!terminal.release());
    assert!(!terminal.release());
    // Geometry survives release so buffered state can still be inspected.
    assert_eq!(terminal.get_winsize(), (24, 80));
}

#[test]
fn default_shell_prefers_caller_choice() {
    let shell = get_default_shell(Some(String::from("/bin/sh")));
    assert_eq!(shell, "/bin/sh");
}

#[test]
fn default_shell_falls_back() {
    let shell = get_default_shell(None);
    assert_eq!(shell, "/bin/bash");
}

#[test]
fn make_winsize_sets_rows_cols_and_no_pixels() {
    let w = make_winsize(120, 72);
    assert_eq!(w.rows, 120);
    assert_eq!(w.cols, 72);
    assert_eq!(w.xpixel, 0);
    assert_eq!(w.ypixel, 0);
    let z = make_winsize(0, 0);
    assert_eq!(z.rows, 0);
    assert_eq!(z.cols, 0);
}

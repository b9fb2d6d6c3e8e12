use eth::tty::{Tty, TtyBuilder};

fn render_of(lines: &[&str], cursor: Option<char>) -> String {
    let mut img = String::new();
    for (i, line) in lines.iter().enumerate() {
        if i > 0 {
            img.push('\n');
        }
        if line.is_empty() {
            img.push(' ');
        } else {
            img.push_str(line);
        }
    }
    if let Some(c) = cursor {
        img.push(c);
    }
    img
}

#[test]
fn builder_defaults() {
    let tty = TtyBuilder::new().build();
    let contents = tty.contents();
    // 25 empty lines joined by newlines, then the default cursor
    assert_eq!(contents, render_of(&[""; 25], Some('\u{00ab}')));
}

#[test]
fn builder_explicit() {
    let tty = TtyBuilder::new().rows(2).cursor('_').build();
    assert_eq!(tty.contents(), " \n _");
}

#[test]
fn new_starts_blank() {
    let tty = Tty::new(3);
    assert_eq!(tty.contents(), render_of(&["", "", ""], Some('\u{00ab}')));
}

#[test]
fn write_char_lands_on_last_line() {
    let mut tty = Tty::new(2);
    tty.write_char('a');
    tty.write_char('b');
    assert_eq!(tty.contents(), render_of(&["", "ab"], Some('\u{00ab}')));
}

#[test]
fn write_string_appends() {
    let mut tty = Tty::new(2);
    tty.write_string("hi".to_string());
    tty.write_string(" there".to_string());
    assert_eq!(tty.contents(), render_of(&["", "hi there"], Some('\u{00ab}')));
}

#[test]
fn backspace_drops_last_char() {
    let mut tty = Tty::new(2);
    tty.write_string("ab".to_string());
    tty.backspace();
    assert_eq!(tty.contents(), render_of(&["", "a"], Some('\u{00ab}')));
}

#[test]
fn backspace_on_empty_line_is_noop() {
    let mut tty = Tty::new(2);
    tty.backspace();
    assert_eq!(tty.contents(), render_of(&["", ""], Some('\u{00ab}')));
}

#[test]
fn scroll_shifts_lines_up() {
    let mut tty = Tty::new(3);
    tty.write_string("one".to_string());
    tty.scroll();
    tty.write_string("two".to_string());
    assert_eq!(tty.contents(), render_of(&["", "one", "two"], Some('\u{00ab}')));
}

#[test]
fn clear_resets_lines() {
    let mut tty = Tty::new(3);
    tty.write_string("one".to_string());
    tty.scroll();
    tty.clear();
    assert_eq!(tty.contents(), render_of(&["", "", ""], Some('\u{00ab}')));
}

// Capacity: whatever is done, the rendering always shows exactly R rows,
// that is R - 1 newlines.
#[test]
fn capacity_constant_rows() {
    let mut tty = Tty::new(4);
    let check = |t: &Tty| {
        assert_eq!(t.contents().chars().filter(|c| *c == '\n').count(), 3);
    };
    check(&tty);
    tty.write_string("abc".to_string());
    check(&tty);
    tty.scroll();
    check(&tty);
    tty.backspace();
    check(&tty);
    tty.write_char('x');
    check(&tty);
    tty.clear();
    check(&tty);
}

// Capacity: R scrolls bring any window back to the freshly cleared state.
#[test]
fn capacity_r_scrolls_equal_clear() {
    let mut scrolled = Tty::new(3);
    scrolled.write_string("a".to_string());
    scrolled.scroll();
    scrolled.write_string("b".to_string());
    for _ in 0..3 {
        scrolled.scroll();
    }
    let mut cleared = Tty::new(3);
    cleared.write_string("junk".to_string());
    cleared.clear();
    assert_eq!(scrolled.contents(), cleared.contents());
}

// A prompt and a character scroll up one row per newline; after one
// scroll the line is still in view on the middle row, and only after
// all three rows have scrolled past is the window blank again.
#[test]
fn round_trip_prompt_scrolls_out() {
    let mut tty = Tty::new(3);
    tty.write_string("core> ".to_string());
    tty.write_char('a');
    tty.scroll();
    assert_eq!(tty.contents(), render_of(&["", "core> a", ""], Some('\u{00ab}')));
    tty.scroll();
    tty.scroll();
    assert_eq!(tty.contents(), render_of(&["", "", ""], Some('\u{00ab}')));
}

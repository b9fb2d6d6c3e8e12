use eth::listener::ListenerTab;

fn render_of(lines: &[&str], cursor: char) -> String {
    let mut img = String::new();
    for (i, line) in lines.iter().enumerate() {
        if i > 0 {
            img.push('\n');
        }
        if line.is_empty() {
            img.push(' ');
        } else {
            img.push_str(line);
        }
    }
    img.push(cursor);
    img
}

fn rows19(last: &str) -> String {
    let mut lines: Vec<&str> = vec![""; 19];
    lines[18] = last;
    render_of(&lines, '_')
}

#[test]
fn session_starts_with_prompt() {
    let tab = ListenerTab::new();
    assert_eq!(tab.contents(), rows19("eth> "));
    assert_eq!(tab.command(), "");
}

#[test]
fn characters_echo_and_accumulate() {
    let mut tab = ListenerTab::new();
    assert_eq!(tab.keystroke('h'), None);
    assert_eq!(tab.keystroke('i'), None);
    assert_eq!(tab.command(), "hi");
    assert_eq!(tab.contents(), rows19("eth> hi"));
}

#[test]
fn backspace_drops_from_command_and_screen() {
    let mut tab = ListenerTab::new();
    tab.keystroke('h');
    tab.keystroke('i');
    assert_eq!(tab.keystroke('\u{8}'), None);
    assert_eq!(tab.command(), "h");
    assert_eq!(tab.contents(), rows19("eth> h"));
}

#[test]
fn backspace_on_empty_command_is_a_noop() {
    let mut tab = ListenerTab::new();
    assert_eq!(tab.keystroke('\u{8}'), None);
    assert_eq!(tab.command(), "");
    // nothing accumulated: the window keeps its prompt untouched
    assert_eq!(tab.contents(), rows19("eth> "));
}

#[test]
fn return_submits_the_command() {
    let mut tab = ListenerTab::new();
    tab.keystroke('(');
    tab.keystroke(')');
    let submitted = tab.keystroke('\r');
    assert_eq!(submitted.as_deref(), Some("()"));
    assert_eq!(tab.command(), "");
    // the console scrolled: the echoed line moved up one row
    let mut lines: Vec<&str> = vec![""; 19];
    lines[17] = "eth> ()";
    assert_eq!(tab.contents(), render_of(&lines, '_'));
}

#[test]
fn result_is_rendered_then_prompt() {
    let mut tab = ListenerTab::new();
    tab.keystroke('1');
    tab.keystroke('\n');
    tab.submit_result(Ok("1".to_string()));
    let mut lines: Vec<&str> = vec![""; 19];
    lines[16] = "eth> 1";
    lines[17] = "1";
    lines[18] = "core> ";
    assert_eq!(tab.contents(), render_of(&lines, '_'));
}

#[test]
fn fault_text_is_rendered_in_place_of_result() {
    let mut tab = ListenerTab::new();
    tab.keystroke('x');
    tab.keystroke('\r');
    tab.submit_result(Err("error: unbound symbol".to_string()));
    let mut lines: Vec<&str> = vec![""; 19];
    lines[16] = "eth> x";
    lines[17] = "error: unbound symbol";
    lines[18] = "core> ";
    assert_eq!(tab.contents(), render_of(&lines, '_'));
    // the session goes on: the next keystroke echoes after the prompt
    tab.keystroke('y');
    assert_eq!(tab.command(), "y");
}

#[test]
fn form_feed_clears_screen_and_reprompts() {
    let mut tab = ListenerTab::new();
    tab.keystroke('j');
    tab.keystroke('k');
    assert_eq!(tab.keystroke('\u{c}'), None);
    assert_eq!(tab.command(), "");
    assert_eq!(tab.contents(), rows19("core> "));
}

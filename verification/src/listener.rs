use crate::tty::{
    backspaced, blank_lines, char_written, scrolled, written, Tty, TtyBuilder,
};
use vstd::prelude::*;

verus! {

/// The interactive console session: keystrokes accumulate a command
/// line, echoed into a [`Tty`]; a completed line is handed to the
/// caller for one round trip to the runtime port, whose answer is
/// rendered back followed by a fresh prompt.
pub struct ListenerTab {
    command: String,
    tty: Tty,
}

impl ListenerTab {
    /// The command text accumulated since the last submission.
    pub closed spec fn command_m(self) -> Seq<char> {
        self.command@
    }

    /// The console window.
    pub closed spec fn tty_m(self) -> Tty {
        self.tty
    }

    pub open spec fn wf(self) -> bool {
        self.tty_m().wf()
    }

    pub fn new() -> (t: ListenerTab)
        ensures
            t.wf(),
            t.command_m() == Seq::<char>::empty(),
            t.tty_m().rows_model() == 19,
            t.tty_m().cursor_model() == '_',
            t.tty_m().lines_model() == written(blank_lines(19), "eth> "@),
    {
        let mut tty = TtyBuilder::new().rows(19).cursor('_').build();
        tty.write_string(String::from_str("eth> "));
        ListenerTab { command: String::new(), tty }
    }

    /// Applies one keystroke.
    ///
    /// A carriage return or newline scrolls the console, empties the
    /// accumulated command and returns it: the caller owes the port one
    /// round trip with it, answered through [`Self::submit_result`].
    /// A form feed clears the console and the command and re-prompts.
    /// A backspace with a non-empty command drops the command's last
    /// character and backspaces the console; with nothing accumulated it
    /// is wholly a no-op, so it can never eat the prompt. Any other
    /// character is appended to both. No other keystroke returns a
    /// command.
    pub fn keystroke(&mut self, ch: char) -> (r: Option<String>)
        requires
            old(self).wf(),
        ensures
            final(self).wf(),
            final(self).tty_m().rows_model() == old(self).tty_m().rows_model(),
            final(self).tty_m().cursor_model() == old(self).tty_m().cursor_model(),
            if ch == '\r' || ch == '\n' {
                &&& r matches Some(cmd) && cmd@ == old(self).command_m()
                &&& final(self).command_m() == Seq::<char>::empty()
                &&& final(self).tty_m().lines_model() == scrolled(old(self).tty_m().lines_model())
            } else if ch == '\u{c}' {
                &&& r is None
                &&& final(self).command_m() == Seq::<char>::empty()
                &&& final(self).tty_m().lines_model() == written(
                    blank_lines(old(self).tty_m().rows_model()),
                    "core> "@,
                )
            } else if ch == '\u{8}' {
                &&& r is None
                &&& if old(self).command_m().len() == 0 {
                    &&& final(self).command_m() == old(self).command_m()
                    &&& final(self).tty_m().lines_model() == old(self).tty_m().lines_model()
                } else {
                    &&& final(self).command_m() == old(self).command_m().drop_last()
                    &&& final(self).tty_m().lines_model() == backspaced(
                        old(self).tty_m().lines_model(),
                    )
                }
            } else {
                &&& r is None
                &&& final(self).command_m() == old(self).command_m().push(ch)
                &&& final(self).tty_m().lines_model() == char_written(
                    old(self).tty_m().lines_model(),
                    ch,
                )
            },
    {
        if ch == '\r' || ch == '\n' {
            self.tty.scroll();
            let cmd = self.command.clone();
            self.command = String::new();
            Some(cmd)
        } else if ch == '\u{c}' {
            self.command = String::new();
            self.tty.clear();
            self.tty.write_string(String::from_str("core> "));
            None
        } else if ch == '\u{8}' {
            if !self.command.as_str().is_empty() {
                let _ = crate::strutil::pop_char(&mut self.command);
                self.tty.backspace();
            }
            None
        } else {
            crate::strutil::push_char(&mut self.command, ch);
            self.tty.write_char(ch);
            None
        }
    }

    /// Renders the port's answer to the submitted command: the result
    /// text — or the formatted fault text in its place — then a scroll
    /// and a fresh prompt. The session never aborts on a fault.
    pub fn submit_result(&mut self, result: Result<String, String>)
        requires
            old(self).wf(),
        ensures
            final(self).wf(),
            final(self).command_m() == old(self).command_m(),
            final(self).tty_m().rows_model() == old(self).tty_m().rows_model(),
            final(self).tty_m().cursor_model() == old(self).tty_m().cursor_model(),
            ({
                let shown = match result {
                    Ok(text) => text@,
                    Err(fault) => fault@,
                };
                final(self).tty_m().lines_model() == written(
                    scrolled(written(old(self).tty_m().lines_model(), shown)),
                    "core> "@,
                )
            }),
    {
        let text = match result {
            Ok(text) => text,
            Err(fault) => fault,
        };
        self.tty.write_string(text);
        self.tty.scroll();
        self.tty.write_string(String::from_str("core> "));
    }

    /// The rendered console window.
    pub fn contents(&self) -> (r: String)
        requires
            self.wf(),
        ensures
            r@ == self.tty_m().rendering(),
    {
        self.tty.contents()
    }

    /// The command text accumulated so far.
    pub fn command(&self) -> (r: &String)
        ensures
            r@ == self.command_m(),
    {
        &self.command
    }
}

} // verus!

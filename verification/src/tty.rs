use crate::strutil::push_char;
use vstd::prelude::*;

verus! {

/// How one line appears in the window: an empty line shows as a single
/// space, so a row never collapses to nothing.
pub open spec fn line_img(l: Seq<char>) -> Seq<char> {
    if l.len() == 0 {
        seq![' ']
    } else {
        l
    }
}

/// The first `k` lines of the window, each followed by a newline.
pub open spec fn rendered_prefix(lines: Seq<Seq<char>>, k: int) -> Seq<char>
    decreases k,
{
    if k <= 0 {
        Seq::empty()
    } else {
        rendered_prefix(lines, k - 1) + line_img(lines[k - 1]) + seq!['\n']
    }
}

/// The whole window: lines joined by newlines, the last without one.
pub open spec fn rendered_lines(lines: Seq<Seq<char>>) -> Seq<char> {
    if lines.len() == 0 {
        Seq::empty()
    } else {
        rendered_prefix(lines, lines.len() - 1) + line_img(lines[lines.len() - 1])
    }
}

/// `rows` empty lines.
pub open spec fn blank_lines(rows: int) -> Seq<Seq<char>> {
    Seq::new(rows as nat, |i: int| Seq::<char>::empty())
}

/// `text` appended to the bottom line.
pub open spec fn written(lines: Seq<Seq<char>>, text: Seq<char>) -> Seq<Seq<char>> {
    lines.update(lines.len() - 1, lines.last() + text)
}

/// One character appended to the bottom line.
pub open spec fn char_written(lines: Seq<Seq<char>>, ch: char) -> Seq<Seq<char>> {
    lines.update(lines.len() - 1, lines.last().push(ch))
}

/// The first line dropped, a fresh empty line at the bottom.
pub open spec fn scrolled(lines: Seq<Seq<char>>) -> Seq<Seq<char>> {
    lines.drop_first().push(Seq::<char>::empty())
}

/// The last character of the bottom line removed, if it has one.
pub open spec fn backspaced(lines: Seq<Seq<char>>) -> Seq<Seq<char>> {
    if lines.last().len() == 0 {
        lines
    } else {
        lines.update(lines.len() - 1, lines.last().drop_last())
    }
}

/// `n` scrolls in a row.
pub open spec fn scrolled_n(lines: Seq<Seq<char>>, n: int) -> Seq<Seq<char>>
    decreases n,
{
    if n <= 0 {
        lines
    } else {
        scrolled(scrolled_n(lines, n - 1))
    }
}

proof fn lemma_scrolled_n_shape(lines: Seq<Seq<char>>, k: int)
    requires
        1 <= lines.len(),
        0 <= k <= lines.len(),
    ensures
        scrolled_n(lines, k).len() == lines.len(),
        forall|j: int|
            lines.len() - k <= j < lines.len() ==> #[trigger] scrolled_n(lines, k)[j].len() == 0,
    decreases k,
{
    if k > 0 {
        lemma_scrolled_n_shape(lines, k - 1);
        let prev = scrolled_n(lines, k - 1);
        assert(forall|j: int|
            0 <= j < lines.len() - 1 ==> #[trigger] scrolled(prev)[j] == prev[j + 1]);
    }
}

/// Capacity law: scrolling a window as many times as it has lines
/// leaves every line empty — the buffer reads as freshly cleared,
/// whatever it held before.
pub proof fn lemma_scrolls_clear(lines: Seq<Seq<char>>)
    requires
        1 <= lines.len(),
    ensures
        scrolled_n(lines, lines.len() as int) == blank_lines(lines.len() as int),
{
    lemma_scrolled_n_shape(lines, lines.len() as int);
    assert(scrolled_n(lines, lines.len() as int) =~~= blank_lines(lines.len() as int));
}

/// A fresh vector of `rows` empty lines.
pub(crate) fn make_blank(rows: usize) -> (v: Vec<String>)
    ensures
        v.deep_view() == blank_lines(rows as int),
        v@.len() == rows,
{
    let mut v: Vec<String> = Vec::new();
    let mut i: usize = 0;
    while i < rows
        invariant
            i <= rows,
            v@.len() == i,
            forall|j: int| 0 <= j < i ==> #[trigger] v@[j]@.len() == 0,
        decreases rows - i,
    {
        v.push(String::new());
        i = i + 1;
    }
    proof {
        assert(v.deep_view() =~~= blank_lines(rows as int));
    }
    v
}

/// Joins the lines into the displayed image, without any cursor.
pub(crate) fn join_lines(lines: &Vec<String>) -> (img: String)
    requires
        1 <= lines@.len(),
    ensures
        img@ == rendered_lines(lines.deep_view()),
{
    let n = lines.len();
    let mut img = String::new();
    let mut i: usize = 0;
    while i < n - 1
        invariant
            i <= n - 1,
            n == lines@.len(),
            1 <= n,
            img@ == rendered_prefix(lines.deep_view(), i as int),
        decreases n - 1 - i,
    {
        let ghost pre = img@;
        let line = lines[i].as_str();
        if line.is_empty() {
            img.append(" ");
        } else {
            img.append(line);
        }
        img.append("\n");
        proof {
            reveal_strlit(" ");
            reveal_strlit("\n");
            assert(lines.deep_view()[i as int] == lines@[i as int]@);
            assert(" "@ =~= seq![' ']);
            assert("\n"@ =~= seq!['\n']);
            assert(img@ =~= pre + line_img(lines.deep_view()[i as int]) + seq!['\n']);
        }
        i = i + 1;
    }
    let last = lines[n - 1].as_str();
    if last.is_empty() {
        img.append(" ");
    } else {
        img.append(last);
    }
    proof {
        reveal_strlit(" ");
        assert(lines.deep_view()[n - 1] == lines@[n - 1]@);
        assert(" "@ =~= seq![' ']);
        assert(img@ =~= rendered_lines(lines.deep_view()));
    }
    img
}

/// A fixed-height scrolling text window with a trailing cursor glyph.
/// Writes always land on the last line; scrolling drops the first line.
pub struct Tty {
    image: String,
    lines: Vec<String>,
    rows: usize,
    cursor: char,
}

/// Builder for [`Tty`], with defaults for the row count and the cursor.
pub struct TtyBuilder {
    rows: Option<usize>,
    cursor: Option<char>,
}

impl TtyBuilder {
    pub closed spec fn spec_rows(self) -> int {
        match self.rows {
            Some(r) => r as int,
            None => 25,
        }
    }

    pub closed spec fn spec_cursor(self) -> char {
        match self.cursor {
            Some(c) => c,
            None => '\u{00ab}',
        }
    }

    pub fn new() -> (b: TtyBuilder)
        ensures
            b.spec_rows() == 25,
            b.spec_cursor() == '\u{00ab}',
    {
        TtyBuilder { rows: None, cursor: None }
    }

    pub fn rows(&self, rows: usize) -> (b: TtyBuilder)
        ensures
            b.spec_rows() == rows as int,
            b.spec_cursor() == self.spec_cursor(),
    {
        TtyBuilder { rows: Some(rows), cursor: self.cursor }
    }

    pub fn cursor(&self, cursor: char) -> (b: TtyBuilder)
        ensures
            b.spec_rows() == self.spec_rows(),
            b.spec_cursor() == cursor,
    {
        TtyBuilder { rows: self.rows, cursor: Some(cursor) }
    }

    pub fn build(&self) -> (t: Tty)
        requires
            1 <= self.spec_rows(),
        ensures
            t.wf(),
            t.rows_model() == self.spec_rows(),
            t.cursor_model() == self.spec_cursor(),
            t.lines_model() == blank_lines(self.spec_rows()),
    {
        let rows: usize = match self.rows {
            Some(rows) => rows,
            None => 25,
        };
        let cursor: char = match self.cursor {
            Some(cursor) => cursor,
            None => '\u{00ab}',
        };
        let mut t = Tty { image: String::new(), lines: make_blank(rows), rows, cursor };
        t.collapse();
        t
    }
}

impl Tty {
    /// The lines of the window, top first.
    pub closed spec fn lines_model(self) -> Seq<Seq<char>> {
        self.lines.deep_view()
    }

    pub closed spec fn rows_model(self) -> int {
        self.rows as int
    }

    pub closed spec fn cursor_model(self) -> char {
        self.cursor
    }

    /// The cached image agrees with the rendering of the current lines.
    pub closed spec fn image_ok(self) -> bool {
        self.image@ == self.rendering()
    }

    /// What `contents` returns: the joined lines with the cursor appended.
    pub open spec fn rendering(self) -> Seq<char> {
        rendered_lines(self.lines_model()) + seq![self.cursor_model()]
    }

    /// The window always holds exactly `rows` lines, at least one, and the
    /// cached image always equals the rendering of the current lines.
    pub open spec fn wf(self) -> bool {
        &&& 1 <= self.rows_model()
        &&& self.lines_model().len() == self.rows_model()
        &&& self.image_ok()
    }

    pub fn new(rows: usize) -> (t: Tty)
        requires
            1 <= rows,
        ensures
            t.wf(),
            t.rows_model() == rows as int,
            t.cursor_model() == '\u{00ab}',
            t.lines_model() == blank_lines(rows as int),
    {
        let mut t = Tty {
            image: String::new(),
            lines: make_blank(rows),
            rows,
            cursor: '\u{00ab}',
        };
        t.collapse();
        t
    }

    /// Recomputes the cached image from the lines.
    fn collapse(&mut self)
        requires
            1 <= old(self).rows,
            old(self).lines@.len() == old(self).rows,
        ensures
            final(self).lines == old(self).lines,
            final(self).rows == old(self).rows,
            final(self).cursor == old(self).cursor,
            final(self).wf(),
    {
        let mut img = join_lines(&self.lines);
        push_char(&mut img, self.cursor);
        proof {
            assert(img@ =~= rendered_lines(self.lines.deep_view()) + seq![self.cursor]);
        }
        self.image = img;
    }

    /// Resets every line to empty; the geometry is kept.
    pub fn clear(&mut self)
        requires
            old(self).wf(),
        ensures
            final(self).wf(),
            final(self).lines_model() == blank_lines(old(self).rows_model()),
            final(self).rows_model() == old(self).rows_model(),
            final(self).cursor_model() == old(self).cursor_model(),
    {
        self.lines = make_blank(self.rows);
        self.collapse();
    }

    /// Drops the first line and appends a fresh empty line at the bottom.
    pub fn scroll(&mut self)
        requires
            old(self).wf(),
        ensures
            final(self).wf(),
            final(self).lines_model() == scrolled(old(self).lines_model()),
            final(self).rows_model() == old(self).rows_model(),
            final(self).cursor_model() == old(self).cursor_model(),
    {
        let _ = self.lines.remove(0);
        self.lines.push(String::new());
        proof {
            assert(self.lines.deep_view() =~~= old(self).lines_model().drop_first().push(
                Seq::<char>::empty(),
            ));
        }
        self.collapse();
    }

    /// Removes the last character of the bottom line; a no-op when that
    /// line is already empty.
    pub fn backspace(&mut self)
        requires
            old(self).wf(),
        ensures
            final(self).wf(),
            final(self).lines_model() == backspaced(old(self).lines_model()),
            final(self).rows_model() == old(self).rows_model(),
            final(self).cursor_model() == old(self).cursor_model(),
    {
        let i = self.rows - 1;
        if !self.lines[i].as_str().is_empty() {
            let mut last = self.lines.pop().unwrap();
            let _ = crate::strutil::pop_char(&mut last);
            self.lines.push(last);
            proof {
                assert(self.lines.deep_view() =~~= old(self).lines_model().update(
                    old(self).rows_model() - 1,
                    old(self).lines_model().last().drop_last(),
                ));
            }
        } else {
            proof {
                assert(self.lines.deep_view() =~~= old(self).lines_model());
            }
        }
        self.collapse();
    }

    /// Appends one character to the bottom line.
    pub fn write_char(&mut self, ch: char)
        requires
            old(self).wf(),
        ensures
            final(self).wf(),
            final(self).lines_model() == char_written(old(self).lines_model(), ch),
            final(self).rows_model() == old(self).rows_model(),
            final(self).cursor_model() == old(self).cursor_model(),
    {
        let mut last = self.lines.pop().unwrap();
        push_char(&mut last, ch);
        self.lines.push(last);
        proof {
            assert(self.lines.deep_view() =~~= old(self).lines_model().update(
                old(self).rows_model() - 1,
                old(self).lines_model().last().push(ch),
            ));
        }
        self.collapse();
    }

    /// Appends a string to the bottom line.
    pub fn write_string(&mut self, text: String)
        requires
            old(self).wf(),
        ensures
            final(self).wf(),
            final(self).lines_model() == written(old(self).lines_model(), text@),
            final(self).rows_model() == old(self).rows_model(),
            final(self).cursor_model() == old(self).cursor_model(),
    {
        let mut last = self.lines.pop().unwrap();
        last.append(text.as_str());
        self.lines.push(last);
        proof {
            assert(self.lines.deep_view() =~~= old(self).lines_model().update(
                old(self).rows_model() - 1,
                old(self).lines_model().last() + text@,
            ));
        }
        self.collapse();
    }

    /// The rendered window.
    pub fn contents(&self) -> (r: String)
        requires
            self.wf(),
        ensures
            r@ == self.rendering(),
    {
        self.image.clone()
    }
}

} // verus!

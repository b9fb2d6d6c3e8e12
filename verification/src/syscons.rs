use vstd::prelude::*;

verus! {

/// Is `c` one of the ten decimal digit characters?
pub open spec fn digit_char(c: char) -> bool {
    48 <= c as u32 && c as u32 <= 57
}

/// Relies on chrono::Utc::now, formatted with "%m%d%H%M%S": month, day,
/// hour, minute and second, two zero-padded decimal digits each, ten
/// digit characters in all.
#[verifier::external_body]
pub(crate) fn now_stamp() -> (r: String)
    ensures
        r@.len() == 10,
        forall|i: int| 0 <= i < 10 ==> digit_char(#[trigger] r@[i]),
{
    chrono::Utc::now().format("%m%d%H%M%S").to_string()
}

/// The log lines joined by newlines, without a trailing one.
pub open spec fn joined(lines: Seq<Seq<char>>) -> Seq<char>
    decreases lines.len(),
{
    if lines.len() == 0 {
        Seq::empty()
    } else if lines.len() == 1 {
        lines[0]
    } else {
        joined(lines.drop_last()) + seq!['\n'] + lines.last()
    }
}

/// Does `line` read as a timestamped entry for `message`: ten decimal
/// digits of timestamp, a colon and a space, then the message itself?
pub open spec fn stamped(line: Seq<char>, message: Seq<char>) -> bool {
    &&& line.len() == message.len() + 12
    &&& forall|i: int| 0 <= i < 10 ==> digit_char(#[trigger] line[i])
    &&& line[10] == ':'
    &&& line[11] == ' '
    &&& line.skip(12) == message
}

/// An append-only diagnostic log; every entry carries a timestamp.
pub struct SysCons {
    text: Vec<String>,
}

impl SysCons {
    /// The log entries, oldest first.
    pub closed spec fn lines_model(self) -> Seq<Seq<char>> {
        self.text.deep_view()
    }

    pub fn new() -> (c: SysCons)
        ensures
            c.lines_model() == Seq::<Seq<char>>::empty(),
    {
        let c = SysCons { text: Vec::<String>::new() };
        proof {
            assert(c.lines_model() =~= Seq::<Seq<char>>::empty());
        }
        c
    }

    /// Appends one entry: the current timestamp, `": "`, then the message.
    pub fn log(&mut self, message: String)
        ensures
            final(self).lines_model().len() == old(self).lines_model().len() + 1,
            final(self).lines_model().drop_last() == old(self).lines_model(),
            stamped(final(self).lines_model().last(), message@),
    {
        let mut line = now_stamp();
        line.append(": ");
        line.append(message.as_str());
        proof {
            reveal_strlit(": ");
        }
        self.text.push(line);
        proof {
            assert(final(self).lines_model().drop_last() =~= old(self).lines_model());
            assert(final(self).lines_model().last().skip(12) =~= message@);
        }
    }

    /// The whole log as one newline-joined string; `None` while empty.
    pub fn contents(&self) -> (r: Option<String>)
        ensures
            r is None <==> self.lines_model().len() == 0,
            r is Some ==> r->0@ == joined(self.lines_model()),
    {
        let n = self.text.len();
        if n == 0 {
            None
        } else {
            let mut img = String::new();
            let mut i: usize = 0;
            while i < n
                invariant
                    i <= n,
                    n == self.text@.len(),
                    1 <= n,
                    img@ == joined(self.lines_model().take(i as int)),
                decreases n - i,
            {
                if i > 0 {
                    img.append("\n");
                }
                img.append(self.text[i].as_str());
                proof {
                    reveal_strlit("\n");
                    let m = self.lines_model();
                    assert(m.take(i + 1).drop_last() =~= m.take(i as int));
                    assert(m.take(i + 1).last() == m[i as int]);
                    assert(m[i as int] == self.text@[i as int]@);
                    if i == 0 {
                        assert(img@ =~= joined(m.take(i + 1)));
                    } else {
                        assert(img@ =~= joined(m.take(i as int)) + seq!['\n'] + m[i as int]);
                    }
                }
                i = i + 1;
            }
            proof {
                assert(self.lines_model().take(n as int) =~= self.lines_model());
            }
            Some(img)
        }
    }
}

} // verus!

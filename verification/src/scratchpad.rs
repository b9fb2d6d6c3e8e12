use crate::buttons::CoreButton;
use crate::tty::{
    backspaced, blank_lines, char_written, join_lines, make_blank, rendered_lines, scrolled,
    written,
};
use vstd::prelude::*;

verus! {

/// A fixed-height scrolling text window without a cursor glyph, used for
/// read-only panels. Writes land on the last line; scrolling drops the
/// first line.
pub struct ControlInfo {
    image: String,
    lines: Vec<String>,
    rows: usize,
    cols: usize,
}

impl ControlInfo {
    /// The lines of the window, top first.
    pub closed spec fn lines_model(self) -> Seq<Seq<char>> {
        self.lines.deep_view()
    }

    pub closed spec fn rows_model(self) -> int {
        self.rows as int
    }

    pub closed spec fn cols_model(self) -> int {
        self.cols as int
    }

    /// The cached image agrees with the rendering of the current lines.
    pub closed spec fn image_ok(self) -> bool {
        self.image@ == self.rendering()
    }

    /// What `contents` returns: the joined lines, no cursor.
    pub open spec fn rendering(self) -> Seq<char> {
        rendered_lines(self.lines_model())
    }

    /// The window always holds exactly `rows` lines, at least one, and the
    /// cached image always equals the rendering of the current lines.
    pub open spec fn wf(self) -> bool {
        &&& 1 <= self.rows_model()
        &&& self.lines_model().len() == self.rows_model()
        &&& self.image_ok()
    }

    pub fn new(rows: usize, cols: usize) -> (c: ControlInfo)
        requires
            1 <= rows,
        ensures
            c.wf(),
            c.rows_model() == rows as int,
            c.cols_model() == cols as int,
            c.lines_model() == blank_lines(rows as int),
    {
        let mut c = ControlInfo { image: String::new(), lines: make_blank(rows), rows, cols };
        c.collapse();
        c
    }

    /// Recomputes the cached image from the lines.
    fn collapse(&mut self)
        requires
            1 <= old(self).rows,
            old(self).lines@.len() == old(self).rows,
        ensures
            final(self).lines == old(self).lines,
            final(self).rows == old(self).rows,
            final(self).cols == old(self).cols,
            final(self).wf(),
    {
        self.image = join_lines(&self.lines);
    }

    /// Resets every line to empty; the geometry is kept.
    pub fn clear(&mut self)
        requires
            old(self).wf(),
        ensures
            final(self).wf(),
            final(self).lines_model() == blank_lines(old(self).rows_model()),
            final(self).rows_model() == old(self).rows_model(),
            final(self).cols_model() == old(self).cols_model(),
    {
        self.lines = make_blank(self.rows);
        self.collapse();
    }

    /// Drops the first line and appends a fresh empty line at the bottom.
    pub fn scroll(&mut self)
        requires
            old(self).wf(),
        ensures
            final(self).wf(),
            final(self).lines_model() == scrolled(old(self).lines_model()),
            final(self).rows_model() == old(self).rows_model(),
            final(self).cols_model() == old(self).cols_model(),
    {
        let _ = self.lines.remove(0);
        self.lines.push(String::new());
        proof {
            assert(self.lines.deep_view() =~~= old(self).lines_model().drop_first().push(
                Seq::<char>::empty(),
            ));
        }
        self.collapse();
    }

    /// Removes the last character of the bottom line; a no-op when that
    /// line is already empty.
    pub fn backspace(&mut self)
        requires
            old(self).wf(),
        ensures
            final(self).wf(),
            final(self).lines_model() == backspaced(old(self).lines_model()),
            final(self).rows_model() == old(self).rows_model(),
            final(self).cols_model() == old(self).cols_model(),
    {
        let i = self.rows - 1;
        if !self.lines[i].as_str().is_empty() {
            let mut last = self.lines.pop().unwrap();
            let _ = crate::strutil::pop_char(&mut last);
            self.lines.push(last);
            proof {
                assert(self.lines.deep_view() =~~= old(self).lines_model().update(
                    old(self).rows_model() - 1,
                    old(self).lines_model().last().drop_last(),
                ));
            }
        } else {
            proof {
                assert(self.lines.deep_view() =~~= old(self).lines_model());
            }
        }
        self.collapse();
    }

    /// Appends one character to the bottom line.
    pub fn write_char(&mut self, ch: char)
        requires
            old(self).wf(),
        ensures
            final(self).wf(),
            final(self).lines_model() == char_written(old(self).lines_model(), ch),
            final(self).rows_model() == old(self).rows_model(),
            final(self).cols_model() == old(self).cols_model(),
    {
        let mut last = self.lines.pop().unwrap();
        crate::strutil::push_char(&mut last, ch);
        self.lines.push(last);
        proof {
            assert(self.lines.deep_view() =~~= old(self).lines_model().update(
                old(self).rows_model() - 1,
                old(self).lines_model().last().push(ch),
            ));
        }
        self.collapse();
    }

    /// Appends a string to the bottom line.
    pub fn write(&mut self, text: String)
        requires
            old(self).wf(),
        ensures
            final(self).wf(),
            final(self).lines_model() == written(old(self).lines_model(), text@),
            final(self).rows_model() == old(self).rows_model(),
            final(self).cols_model() == old(self).cols_model(),
    {
        let mut last = self.lines.pop().unwrap();
        last.append(text.as_str());
        self.lines.push(last);
        proof {
            assert(self.lines.deep_view() =~~= old(self).lines_model().update(
                old(self).rows_model() - 1,
                old(self).lines_model().last() + text@,
            ));
        }
        self.collapse();
    }

    /// The rendered window.
    pub fn contents(&self) -> (r: String)
        requires
            self.wf(),
        ensures
            r@ == self.rendering(),
    {
        self.image.clone()
    }
}

/// Layout parameters for the group-filter button grid.
#[derive(Debug)]
pub struct ControlGroups {
    cols: usize,
}

impl ControlGroups {
    pub closed spec fn cols_model(self) -> int {
        self.cols as int
    }

    pub fn new(cols: usize) -> (g: ControlGroups)
        ensures
            g.cols_model() == cols as int,
    {
        ControlGroups { cols }
    }
}

/// The grid of scratchpad controls the runtime has defined.
pub struct ScratchpadGrid {
    cols: usize,
    scratchpad: Vec<CoreButton>,
}

impl ScratchpadGrid {
    pub closed spec fn cols_model(self) -> int {
        self.cols as int
    }

    /// The labels of the controls, in the order they were added.
    pub closed spec fn labels_model(self) -> Seq<Seq<char>> {
        Seq::new(self.scratchpad@.len(), |i: int| self.scratchpad@[i].label@)
    }

    pub fn new(cols: usize) -> (g: ScratchpadGrid)
        ensures
            g.cols_model() == cols as int,
            g.labels_model() == Seq::<Seq<char>>::empty(),
    {
        let scratchpad: Vec<CoreButton> = Vec::new();
        proof {
            assert(Seq::new(0nat, |i: int| Seq::<char>::empty()) =~= Seq::<Seq<char>>::empty());
        }
        let g = ScratchpadGrid { cols, scratchpad };
        proof {
            assert(g.labels_model() =~= Seq::<Seq<char>>::empty());
        }
        g
    }

    /// Appends one control to the grid.
    pub fn add_control(&mut self, button: CoreButton)
        ensures
            final(self).cols_model() == old(self).cols_model(),
            final(self).labels_model() == old(self).labels_model().push(button.label@),
            final(self).groups_model() == old(self).groups_model().push(button.group@),
    {
        let ghost label = button.label@;
        let ghost group = button.group@;
        self.scratchpad.push(button);
        proof {
            assert(self.labels_model() =~= old(self).labels_model().push(label));
            assert(self.groups_model() =~= old(self).groups_model().push(group));
        }
    }

    /// The groups of the controls, in the order they were added.
    pub closed spec fn groups_model(self) -> Seq<Seq<char>> {
        Seq::new(self.scratchpad@.len(), |i: int| self.scratchpad@[i].group@)
    }

    /// Which controls the grid shows under this filter: the positions of
    /// the controls whose group passes, in their original order.
    pub fn filtered_controls(&self, filter: &String) -> (r: Vec<usize>)
        ensures
            r@.map_values(|u: usize| u as int) == filtered_positions(
                self.groups_model(),
                filter@,
            ),
    {
        let n = self.scratchpad.len();
        let mut r: Vec<usize> = Vec::new();
        let mut i: usize = 0;
        proof {
            assert(self.groups_model().take(0) =~= Seq::<Seq<char>>::empty());
            assert(r@.map_values(|u: usize| u as int) =~= Seq::<int>::empty());
        }
        while i < n
            invariant
                i <= n,
                n == self.scratchpad@.len(),
                r@.map_values(|u: usize| u as int) == filtered_positions(
                    self.groups_model().take(i as int),
                    filter@,
                ),
            decreases n - i,
        {
            let passes = filter.as_str().is_empty() || self.scratchpad[i].group == *filter;
            proof {
                let g = self.groups_model();
                assert(g.take(i + 1).drop_last() =~= g.take(i as int));
                assert(g.take(i + 1).last() == g[i as int]);
                assert(g[i as int] == self.scratchpad@[i as int].group@);
            }
            if passes {
                let ghost prev = r@.map_values(|u: usize| u as int);
                r.push(i);
                proof {
                    assert(r@.map_values(|u: usize| u as int) =~= prev.push(i as int));
                }
            }
            i = i + 1;
        }
        proof {
            assert(self.groups_model().take(n as int) =~= self.groups_model());
        }
        r
    }
}

/// Does a control of this group pass the filter? An empty filter shows
/// every control.
pub open spec fn group_passes(group: Seq<char>, filter: Seq<char>) -> bool {
    filter.len() == 0 || group == filter
}

/// The positions, in order, of the controls whose group passes the
/// filter.
pub open spec fn filtered_positions(groups: Seq<Seq<char>>, filter: Seq<char>) -> Seq<int>
    decreases groups.len(),
{
    if groups.len() == 0 {
        Seq::empty()
    } else {
        let rest = filtered_positions(groups.drop_last(), filter);
        if group_passes(groups.last(), filter) {
            rest.push(groups.len() - 1)
        } else {
            rest
        }
    }
}

/// An event from the scratchpad panel.
#[derive(Debug, Clone)]
pub enum ScratchpadMessage {
    GroupPress(usize),
    ControlPress(usize),
}

/// The scratchpad panel: a read-only info window beside a grid of
/// runtime-defined controls, filtered by group.
pub struct ScratchpadTab {
    cgroup: String,
    cgroups: ControlGroups,
    cgroup_labels: Vec<String>,
    scratchpad_grid: ScratchpadGrid,
    scratchpad: Vec<CoreButton>,
    control_info: ControlInfo,
    poll_interval_secs: u64,
}

impl ScratchpadTab {
    pub closed spec fn info_model(self) -> ControlInfo {
        self.control_info
    }

    pub open spec fn wf(self) -> bool {
        self.info_model().wf()
    }

    pub fn new() -> (t: ScratchpadTab)
        ensures
            t.wf(),
            t.info_model().rows_model() == 12,
            t.info_model().cols_model() == 30,
            t.info_model().lines_model() == blank_lines(12),
    {
        ScratchpadTab {
            cgroup: String::new(),
            cgroups: ControlGroups::new(5),
            cgroup_labels: Vec::new(),
            scratchpad_grid: ScratchpadGrid::new(5),
            scratchpad: Vec::new(),
            control_info: ControlInfo::new(12, 30),
            poll_interval_secs: 60,
        }
    }

    /// Button presses carry no state change of their own; the panel is
    /// redrawn from the grid either way.
    pub fn update(&mut self, message: ScratchpadMessage)
        requires
            old(self).wf(),
        ensures
            *final(self) == *old(self),
    {
        match message {
            ScratchpadMessage::GroupPress(_) => (),
            ScratchpadMessage::ControlPress(_) => (),
        }
    }
}

} // verus!

//! The command console's output buffer: a bounded list of tagged lines and
//! the scroll position over the rendered paragraph.
use crate::utils::ContentType;
use std::collections::VecDeque;
use vstd::prelude::*;

verus! {

/// What a console line is, which decides how it is drawn.
#[derive(Clone, Copy, PartialEq, Eq, Debug, Structural)]
pub enum OutputKind {
    /// A command the user entered.
    Cmd,
    /// Normal output.
    Std,
    /// Error output.
    Error,
    /// Secondary output, drawn dimmed.
    Dim,
    /// A raw value, highlighted as the given content type.
    Raw(Option<ContentType>),
}

/// The console's lines and scroll state.
pub struct ConsoleData {
    lines: VecDeque<(OutputKind, String)>,
    capacity: usize,
    position_y: u16,
    height: u16,
    width: u16,
    paragraph_line_count: u16,
    total_lines: usize,
    is_bottom: bool,
    max_offset: u16,
}

/// The console as the contracts see it.
pub struct ConsoleView {
    pub lines: Seq<(OutputKind, Seq<char>)>,
    pub capacity: nat,
    pub position_y: nat,
    pub height: nat,
    pub width: nat,
    pub paragraph_line_count: nat,
    pub is_bottom: bool,
    pub max_offset: nat,
}

/// The view of a tagged line.
pub open spec fn line_view(l: (OutputKind, String)) -> (OutputKind, Seq<char>) {
    (l.0, l.1@)
}

/// The lines of a buffer after pushing one line: the oldest line is dropped
/// first when the buffer is full.
pub open spec fn pushed_lines(
    lines: Seq<(OutputKind, Seq<char>)>,
    capacity: nat,
    line: (OutputKind, Seq<char>),
) -> Seq<(OutputKind, Seq<char>)> {
    if lines.len() == capacity && lines.len() > 0 {
        lines.drop_first().push(line)
    } else {
        lines.push(line)
    }
}

impl View for ConsoleData {
    type V = ConsoleView;

    closed spec fn view(&self) -> ConsoleView {
        ConsoleView {
            lines: self.lines@.map_values(|l: (OutputKind, String)| line_view(l)),
            capacity: self.capacity as nat,
            position_y: self.position_y as nat,
            height: self.height as nat,
            width: self.width as nat,
            paragraph_line_count: self.paragraph_line_count as nat,
            is_bottom: self.is_bottom,
            max_offset: self.max_offset as nat,
        }
    }
}

impl ConsoleData {
    /// The console's invariant: it never holds more lines than a non-zero
    /// capacity, and its line counter is the number of lines it holds.
    pub closed spec fn wf(&self) -> bool {
        &&& self.capacity > 0 ==> self.lines@.len() <= self.capacity
        &&& self.total_lines == self.lines@.len()
    }

    /// An empty console that keeps at most `capacity` lines.
    pub fn new(capacity: usize) -> (r: Self)
        ensures
            r.wf(),
            r@.lines == Seq::<(OutputKind, Seq<char>)>::empty(),
            r@.capacity == capacity,
            r@.position_y == 0,
            r@.height == 1,
            r@.width == 0,
            r@.paragraph_line_count == 1,
            r@.is_bottom,
            r@.max_offset == 0,
    {
        let r = ConsoleData {
            lines: VecDeque::new(),
            capacity,
            position_y: 0,
            height: 1,
            width: 0,
            paragraph_line_count: 1,
            total_lines: 0,
            is_bottom: true,
            max_offset: 0,
        };
        proof {
            assert(r@.lines =~= Seq::<(OutputKind, Seq<char>)>::empty());
        }
        r
    }

    /// The lines held, oldest first.
    pub fn lines(&self) -> (r: &VecDeque<(OutputKind, String)>)
        ensures
            r@.map_values(|l: (OutputKind, String)| line_view(l)) == self@.lines,
    {
        &self.lines
    }

    /// How many lines the console holds, as its line counter keeps it.
    pub fn total_lines(&self) -> (r: usize)
        requires
            self.wf(),
        ensures
            r == self@.lines.len(),
    {
        self.total_lines
    }

    /// The first row of the paragraph shown at the top.
    pub fn position_y(&self) -> (r: u16)
        ensures
            r == self@.position_y,
    {
        self.position_y
    }

    /// Whether the view follows the end of the output.
    pub fn is_bottom(&self) -> (r: bool)
        ensures
            r == self@.is_bottom,
    {
        self.is_bottom
    }

    /// The largest first row that still fills the view.
    pub fn max_offset(&self) -> (r: u16)
        ensures
            r == self@.max_offset,
    {
        self.max_offset
    }

    /// The number of rows of the rendered paragraph.
    pub fn paragraph_line_count(&self) -> (r: u16)
        ensures
            r == self@.paragraph_line_count,
    {
        self.paragraph_line_count
    }

    /// Adds a line at the end, dropping the oldest line when the console is
    /// full.
    pub fn push(&mut self, kind: OutputKind, line: String)
        requires
            old(self).wf(),
        ensures
            final(self).wf(),
            final(self)@ == (ConsoleView {
                lines: pushed_lines(old(self)@.lines, old(self)@.capacity, (kind, line@)),
                ..old(self)@
            }),
    {
        if self.lines.len() == self.capacity {
            self.lines.pop_front();
        }
        self.lines.push_back((kind, line));
        self.total_lines = self.lines.len();
        proof {
            let o = old(self)@.lines;
            if o.len() == old(self)@.capacity && o.len() > 0 {
                assert(self@.lines =~= o.drop_first().push((kind, line@)));
            } else {
                assert(self@.lines =~= o.push((kind, line@)));
            }
        }
    }

    /// Adds a line of normal output.
    pub fn push_std(&mut self, line: String)
        requires
            old(self).wf(),
        ensures
            final(self).wf(),
            final(self)@ == (ConsoleView {
                lines: pushed_lines(old(self)@.lines, old(self)@.capacity, (OutputKind::Std, line@)),
                ..old(self)@
            }),
    {
        self.push(OutputKind::Std, line);
    }

    /// Adds a line of error output.
    pub fn push_err(&mut self, line: String)
        requires
            old(self).wf(),
        ensures
            final(self).wf(),
            final(self)@ == (ConsoleView {
                lines: pushed_lines(old(self)@.lines, old(self)@.capacity, (OutputKind::Error, line@)),
                ..old(self)@
            }),
    {
        self.push(OutputKind::Error, line);
    }

    /// Adds the lines in order.
    pub fn extend(&mut self, lines: Vec<(OutputKind, String)>)
        requires
            old(self).wf(),
        ensures
            final(self).wf(),
            final(self)@ == (ConsoleView {
                lines: pushed_all(
                    old(self)@.lines,
                    old(self)@.capacity,
                    lines@.map_values(|l: (OutputKind, String)| line_view(l)),
                ),
                ..old(self)@
            }),
    {
        let ghost input = lines@.map_values(|l: (OutputKind, String)| line_view(l));
        let ghost target = pushed_all(self@.lines, self@.capacity, input);
        let ghost start = self@;
        let mut i: usize = 0;
        proof {
            assert(input.skip(0) =~= input);
        }
        while i < lines.len()
            invariant
                i <= lines.len(),
                input == lines@.map_values(|l: (OutputKind, String)| line_view(l)),
                self.wf(),
                self@ == (ConsoleView { lines: self@.lines, ..start }),
                target == pushed_all(self@.lines, start.capacity, input.skip(i as int)),
            decreases lines.len() - i,
        {
            let k = lines[i].0;
            let l = lines[i].1.clone();
            proof {
                assert(input.skip(i as int)[0] == (k, l@));
                assert(input.skip(i as int).drop_first() =~= input.skip(i + 1));
            }
            self.push(k, l);
            i = i + 1;
        }
        proof {
            assert(input.skip(i as int) =~= Seq::<(OutputKind, Seq<char>)>::empty());
        }
    }

    /// Records the size of the view and the number of rows the rendered
    /// paragraph takes; the view keeps following the end of the output when
    /// it did before.
    pub fn update(&mut self, height: u16, width: u16, line_count: u16)
        ensures
            final(self)@.lines == old(self)@.lines,
            final(self)@.capacity == old(self)@.capacity,
            final(self)@.height == height,
            final(self)@.width == width,
            final(self)@.paragraph_line_count == line_count,
            final(self)@.max_offset == if line_count >= height { line_count - height } else { 0 },
            old(self)@.is_bottom ==> final(self)@.position_y == final(self)@.max_offset
                && final(self)@.is_bottom,
            !old(self)@.is_bottom ==> final(self)@.position_y == old(self)@.position_y
                && !final(self)@.is_bottom,
            final(self).wf() == old(self).wf(),
    {
        self.height = height;
        self.width = width;
        self.paragraph_line_count = line_count;
        self.max_offset = line_count.saturating_sub(height);
        if self.is_bottom {
            self.scroll_end();
        }
    }

    /// Shows the first row.
    pub fn scroll_start(&mut self)
        ensures
            final(self)@ == (ConsoleView { position_y: 0, is_bottom: false, ..old(self)@ }),
            final(self).wf() == old(self).wf(),
    {
        self.position_y = 0;
        self.is_bottom = false;
    }

    /// Shows the last rows and follows the end of the output.
    pub fn scroll_end(&mut self)
        ensures
            final(self)@ == (ConsoleView {
                position_y: old(self)@.max_offset,
                is_bottom: true,
                ..old(self)@
            }),
            final(self).wf() == old(self).wf(),
    {
        self.position_y = self.max_offset;
        self.is_bottom = self.position_y >= self.max_offset;
    }

    /// Moves the view three rows up.
    pub fn scroll_up(&mut self)
        ensures
            final(self)@ == (ConsoleView {
                position_y: if old(self)@.position_y >= 3 { (old(self)@.position_y - 3) as nat } else { 0 },
                is_bottom: false,
                ..old(self)@
            }),
            final(self).wf() == old(self).wf(),
    {
        self.position_y = self.position_y.saturating_sub(3);
        self.is_bottom = false;
    }

    /// Moves the view three rows down, no further than the last rows.
    pub fn scroll_down(&mut self)
        ensures
            ({
                let y = min_nat(old(self)@.position_y + 3, old(self)@.max_offset);
                final(self)@ == (ConsoleView {
                    position_y: y,
                    is_bottom: y >= old(self)@.max_offset,
                    ..old(self)@
                })
            }),
            final(self).wf() == old(self).wf(),
    {
        let y = self.position_y.saturating_add(3);
        self.position_y = if y < self.max_offset { y } else { self.max_offset };
        self.is_bottom = self.position_y >= self.max_offset;
    }

    /// Moves the view one page up.
    pub fn scroll_page_up(&mut self)
        ensures
            ({
                let y: nat = if old(self)@.position_y >= old(self)@.height {
                    (old(self)@.position_y - old(self)@.height) as nat
                } else {
                    0
                };
                final(self)@ == (ConsoleView {
                    position_y: y,
                    is_bottom: y >= old(self)@.max_offset,
                    ..old(self)@
                })
            }),
            final(self).wf() == old(self).wf(),
    {
        self.position_y = self.position_y.saturating_sub(self.height);
        self.is_bottom = self.position_y >= self.max_offset;
    }

    /// Moves the view one page down, no further than the last rows.
    pub fn scroll_page_down(&mut self)
        ensures
            final(self)@ == (ConsoleView {
                position_y: min_nat(old(self)@.position_y + old(self)@.height, old(self)@.max_offset),
                is_bottom: false,
                ..old(self)@
            }),
            final(self).wf() == old(self).wf(),
    {
        let y = self.position_y.saturating_add(self.height);
        self.position_y = if y < self.max_offset { y } else { self.max_offset };
        self.is_bottom = false;
    }
}

/// The smaller of two naturals.
pub open spec fn min_nat(a: nat, b: nat) -> nat {
    if a <= b { a } else { b }
}

/// The lines of a buffer after pushing several lines in order.
pub open spec fn pushed_all(
    lines: Seq<(OutputKind, Seq<char>)>,
    capacity: nat,
    more: Seq<(OutputKind, Seq<char>)>,
) -> Seq<(OutputKind, Seq<char>)>
    decreases more.len(),
{
    if more.len() == 0 {
        lines
    } else {
        pushed_all(pushed_lines(lines, capacity, more[0]), capacity, more.drop_first())
    }
}

/// A scroll of the console's view.
#[derive(Clone, Copy, PartialEq, Eq, Debug, Structural)]
pub enum ScrollOp {
    Start,
    End,
    Up,
    Down,
    PageUp,
    PageDown,
}

/// The console after a scroll.
pub open spec fn scrolled(v: ConsoleView, op: ScrollOp) -> ConsoleView {
    match op {
        ScrollOp::Start => ConsoleView { position_y: 0, is_bottom: false, ..v },
        ScrollOp::End => ConsoleView { position_y: v.max_offset, is_bottom: true, ..v },
        ScrollOp::Up => ConsoleView {
            position_y: if v.position_y >= 3 {
                (v.position_y - 3) as nat
            } else {
                0
            },
            is_bottom: false,
            ..v
        },
        ScrollOp::Down => {
            let y = min_nat(v.position_y + 3, v.max_offset);
            ConsoleView { position_y: y, is_bottom: y >= v.max_offset, ..v }
        },
        ScrollOp::PageUp => {
            let y: nat = if v.position_y >= v.height {
                (v.position_y - v.height) as nat
            } else {
                0
            };
            ConsoleView { position_y: y, is_bottom: y >= v.max_offset, ..v }
        },
        ScrollOp::PageDown => ConsoleView {
            position_y: min_nat(v.position_y + v.height, v.max_offset),
            is_bottom: false,
            ..v
        },
    }
}

impl ConsoleData {
    /// How many lines the console keeps.
    pub fn capacity(&self) -> (r: usize)
        ensures
            r == self@.capacity,
    {
        self.capacity
    }

    /// Scrolls the view.
    pub fn scroll(&mut self, op: ScrollOp)
        ensures
            final(self)@ == scrolled(old(self)@, op),
            final(self).wf() == old(self).wf(),
    {
        match op {
            ScrollOp::Start => self.scroll_start(),
            ScrollOp::End => self.scroll_end(),
            ScrollOp::Up => self.scroll_up(),
            ScrollOp::Down => self.scroll_down(),
            ScrollOp::PageUp => self.scroll_page_up(),
            ScrollOp::PageDown => self.scroll_page_down(),
        }
    }
}

/// A console never holds more lines than a non-zero capacity, whatever
/// was pushed into it.
pub proof fn lemma_console_bounded(c: &ConsoleData)
    requires
        c.wf(),
    ensures
        c@.capacity > 0 ==> c@.lines.len() <= c@.capacity,
{
}

/// Pushing one line keeps it as the newest line, keeps every earlier line
/// but possibly the oldest, and never goes beyond a non-zero capacity.
pub proof fn lemma_push_keeps_newest(
    lines: Seq<(OutputKind, Seq<char>)>,
    capacity: nat,
    line: (OutputKind, Seq<char>),
)
    requires
        capacity > 0 ==> lines.len() <= capacity,
    ensures
        pushed_lines(lines, capacity, line).last() == line,
        capacity > 0 ==> pushed_lines(lines, capacity, line).len() <= capacity,
        pushed_lines(lines, capacity, line).len() >= 1,
        lines.len() < capacity || capacity == 0 ==> pushed_lines(lines, capacity, line) == lines.push(line),
{
}

} // verus!

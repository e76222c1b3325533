//! A raw value shown as a scrollable paragraph.
use crate::cli_tab::CliKey;
use crate::footer::{hints, push_hint};
use crate::utils::ContentType;
use vstd::prelude::*;

verus! {

/// A raw value and where its paragraph is scrolled to.  `line_count` is
/// the number of rows the paragraph takes at the current width, as the
/// widget measured it when it was last drawn.
pub struct RawParagraph {
    pub raw: String,
    pub content_type: Option<ContentType>,
    /// Whether the value is formatted before it is highlighted.
    pub format: bool,
    pub position_y: u16,
    pub height: u16,
    pub width: u16,
    pub line_count: usize,
}

/// What a key did to the paragraph.
#[derive(Debug, PartialEq, Eq)]
pub enum ParagraphOutcome {
    NotTaken,
    Taken,
    /// Copy this text to the clipboard and say so.
    Yank(String),
}

/// The furthest the paragraph scrolls: the rows it takes (cut to 16 bits)
/// beyond the view's height.
pub open spec fn spec_max_offset(line_count: usize, height: u16) -> u16 {
    let rows = (line_count as nat % 65536) as int;
    if rows > height {
        (rows - height) as u16
    } else {
        0
    }
}

/// `a - b`, or 0 where `b` is larger.
pub open spec fn sat_sub(a: u16, b: u16) -> u16 {
    if a >= b {
        (a - b) as u16
    } else {
        0
    }
}

/// The smaller of `a + b` and `limit`.
pub open spec fn capped_add(a: u16, b: u16, limit: u16) -> u16 {
    if a + b < limit {
        (a + b) as u16
    } else {
        limit
    }
}

/// Where a scroll key moves the paragraph's first shown row, for the keys
/// that scroll it without modifiers.
pub open spec fn scroll_position(p: RawParagraph, key: CliKey) -> Option<u16> {
    let m = spec_max_offset(p.line_count, p.height);
    let y = p.position_y;
    if key == CliKey::Char('j') || key == CliKey::Down {
        Some(capped_add(y, 3, m))
    } else if key == CliKey::Char('k') || key == CliKey::Up {
        Some(sat_sub(y, 3))
    } else if key == CliKey::PageDown {
        Some(capped_add(y, p.height, m))
    } else if key == CliKey::PageUp {
        Some(sat_sub(y, p.height))
    } else if key == CliKey::End {
        Some(m)
    } else if key == CliKey::Home {
        Some(0)
    } else {
        None
    }
}

/// Two paragraphs that differ at most in where they are scrolled to.
pub open spec fn same_but_position(a: RawParagraph, b: RawParagraph) -> bool {
    &&& a.raw@ == b.raw@
    &&& a.content_type == b.content_type
    &&& a.format == b.format
    &&& a.height == b.height
    &&& a.width == b.width
    &&& a.line_count == b.line_count
}

impl RawParagraph {
    /// A paragraph of the raw value, at the top, before it was drawn.
    pub fn new(raw: String, content_type: Option<ContentType>, format: bool) -> (r: RawParagraph)
        ensures
            r.raw@ == raw@,
            r.content_type == content_type,
            r.format == format,
            r.position_y == 0,
            r.height == 1,
            r.width == 0,
            r.line_count == 0,
    {
        RawParagraph { raw, content_type, format, position_y: 0, height: 1, width: 0, line_count: 0 }
    }

    /// Records the size of the view and the rows the paragraph takes in it.
    pub fn update(&mut self, height: u16, width: u16, line_count: usize)
        ensures
            final(self).height == height,
            final(self).width == width,
            final(self).line_count == line_count,
            final(self).position_y == old(self).position_y,
            final(self).raw@ == old(self).raw@,
            final(self).content_type == old(self).content_type,
    {
        self.height = height;
        self.width = width;
        self.line_count = line_count;
    }

    /// The furthest the paragraph scrolls.
    pub fn max_offset(&self) -> (r: u16)
        ensures
            r == spec_max_offset(self.line_count, self.height),
    {
        let n = self.line_count;
        let rows = #[verifier::truncate] (n as u16);
        assert(rows == n as nat % 65536) by (bit_vector)
            requires
                rows == #[verifier::truncate] (n as u16),
        ;
        rows.saturating_sub(self.height)
    }

    /// Shows the first row.
    pub fn scroll_start(&mut self)
        ensures
            final(self).position_y == 0,
            same_but_position(*old(self), *final(self)),
    {
        self.position_y = 0;
    }

    /// Shows the last rows.
    pub fn scroll_end(&mut self)
        ensures
            final(self).position_y == spec_max_offset(old(self).line_count, old(self).height),
            same_but_position(*old(self), *final(self)),
    {
        self.position_y = self.max_offset();
    }

    /// Scrolls three rows up, stopping at the first.
    pub fn scroll_up(&mut self)
        ensures
            final(self).position_y == sat_sub(old(self).position_y, 3),
            same_but_position(*old(self), *final(self)),
    {
        self.position_y = self.position_y.saturating_sub(3);
    }

    /// Scrolls three rows down, stopping at the furthest offset.
    pub fn scroll_down(&mut self)
        ensures
            final(self).position_y == capped_add(
                old(self).position_y,
                3,
                spec_max_offset(old(self).line_count, old(self).height),
            ),
            same_but_position(*old(self), *final(self)),
    {
        let m = self.max_offset();
        let y = self.position_y.saturating_add(3);
        self.position_y = if y < m { y } else { m };
    }

    /// Scrolls one view up, stopping at the first row.
    pub fn scroll_page_up(&mut self)
        ensures
            final(self).position_y == sat_sub(old(self).position_y, old(self).height),
            same_but_position(*old(self), *final(self)),
    {
        self.position_y = self.position_y.saturating_sub(self.height);
    }

    /// Scrolls one view down, stopping at the furthest offset.
    pub fn scroll_page_down(&mut self)
        ensures
            final(self).position_y == capped_add(
                old(self).position_y,
                old(self).height,
                spec_max_offset(old(self).line_count, old(self).height),
            ),
            same_but_position(*old(self), *final(self)),
    {
        let m = self.max_offset();
        let y = self.position_y.saturating_add(self.height);
        self.position_y = if y < m { y } else { m };
    }

    /// A scroll key without modifiers: `j` or Down and `k` or Up scroll
    /// three rows, Page Down and Page Up one view, End and Home to the last
    /// and first rows; the answer says whether the key was one of them.
    pub fn scroll_key(&mut self, key: CliKey) -> (r: bool)
        ensures
            r == scroll_position(*old(self), key) is Some,
            final(self).position_y == match scroll_position(*old(self), key) {
                Some(y) => y,
                None => old(self).position_y,
            },
            same_but_position(*old(self), *final(self)),
    {
        match key {
            CliKey::Char('j') | CliKey::Down => {
                self.scroll_down();
                true
            },
            CliKey::Char('k') | CliKey::Up => {
                self.scroll_up();
                true
            },
            CliKey::PageDown => {
                self.scroll_page_down();
                true
            },
            CliKey::PageUp => {
                self.scroll_page_up();
                true
            },
            CliKey::End => {
                self.scroll_end();
                true
            },
            CliKey::Home => {
                self.scroll_start();
                true
            },
            _ => false,
        }
    }

    /// A key: Control-Y yanks the raw value; without modifiers `j` or Down
    /// and `k` or Up scroll three rows, Page Down and Page Up one view, End
    /// and Home to the last and first rows.  `ctrl` says whether Control
    /// was the only modifier, `plain` whether there was none.
    pub fn handle_key(&mut self, key: CliKey, ctrl: bool, plain: bool) -> (r: ParagraphOutcome)
        ensures
            same_but_position(*old(self), *final(self)),
            ctrl && key == CliKey::Char('y') ==> (r matches ParagraphOutcome::Yank(t) && t@ == old(self).raw@)
                && final(self).position_y == old(self).position_y,
            !(ctrl && key == CliKey::Char('y')) ==> if plain && scroll_position(*old(self), key) is Some {
                r == ParagraphOutcome::Taken && final(self).position_y == scroll_position(*old(self), key)->0
            } else {
                r == ParagraphOutcome::NotTaken && final(self).position_y == old(self).position_y
            },
    {
        if ctrl && key == CliKey::Char('y') {
            return ParagraphOutcome::Yank(self.raw.clone());
        }
        if plain && self.scroll_key(key) {
            return ParagraphOutcome::Taken;
        }
        ParagraphOutcome::NotTaken
    }

    /// The key hints of the footer.
    pub fn footer_elements(&self) -> (r: Vec<(String, String)>)
        ensures
            hints(r@) == seq![
                ("^y"@, "Yank"@),
                ("↓/j"@, "Down"@),
                ("↑/k"@, "Up"@),
            ],
    {
        let mut v: Vec<(String, String)> = Vec::new();
        push_hint(&mut v, "^y", "Yank");
        push_hint(&mut v, "↓/j", "Down");
        push_hint(&mut v, "↑/k", "Up");
        proof {
            assert(hints(v@) =~= seq![
                ("^y"@, "Yank"@),
                ("↓/j"@, "Down"@),
                ("↑/k"@, "Up"@),
            ]);
        }
        v
    }
}

/// From a row within reach, scrolling down by any step stays within reach,
/// and scrolling up never moves down.
pub proof fn lemma_scroll_bounded(y: u16, step: u16, line_count: usize, height: u16)
    requires
        y <= spec_max_offset(line_count, height),
    ensures
        capped_add(y, step, spec_max_offset(line_count, height)) <= spec_max_offset(line_count, height),
        sat_sub(y, step) <= y,
{
}

} // verus!

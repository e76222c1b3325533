//! The tables that show a list, a hash and a stream value: which row is
//! selected, where the scrollbar stands, how wide the columns are, and what
//! the keys do.
use crate::field::FieldKey;
use crate::footer::{hints, push_hint};
use crate::list_list::{all_lines, all_lines_of, max_width, widest, Data};
use crate::nav::{next_index, prev_index, wrap_next, wrap_prev};
use crate::text::{decimal, replace_str, spec_replace, u64_to_string};
use vstd::prelude::*;

verus! {

/// The height of a table row in the scrollbar's units.
pub const ITEM_HEIGHT: usize = 4;

/// How many colour palettes a list value can cycle through.
pub const PALETTE_COUNT: usize = 4;

/// A vertical scrollbar: the length of what it scrolls and where it stands.
#[derive(Clone, Copy, PartialEq, Eq, Debug, Structural)]
pub struct ScrollBar {
    pub content_length: usize,
    pub position: usize,
}

/// The scrollbar of a fresh table of `len` rows, at the top.
pub open spec fn fresh_scroll(len: nat) -> ScrollBar {
    ScrollBar { content_length: ((len - 1) * ITEM_HEIGHT) as usize, position: 0 }
}

/// A cell's text as a table shows it on one line: line breaks written `\n`.
pub open spec fn one_line(s: Seq<char>) -> Seq<char> {
    spec_replace(s, "\n"@, "\\n"@)
}

/// The views of some strings.
pub open spec fn texts(v: Seq<String>) -> Seq<Seq<char>> {
    v.map_values(|t: String| t@)
}

/// Whether a list or hash table takes a key: a press of `Esc`, Down, `j`,
/// Up or `k`.
pub open spec fn table_takes(key: FieldKey, press: bool) -> bool {
    press && (key == FieldKey::Esc || key == FieldKey::Down || key == FieldKey::Char('j')
        || key == FieldKey::Up || key == FieldKey::Char('k'))
}

/// Whether a stream view takes a key: a press of Down, `j`, Up or `k`, or
/// of a key that moves the keys to the other table.
pub open spec fn stream_takes(opt_for_id: bool, key: FieldKey, press: bool) -> bool {
    press && (key == FieldKey::Down || key == FieldKey::Char('j') || key == FieldKey::Up
        || key == FieldKey::Char('k') || (opt_for_id && (key == FieldKey::Right || key
        == FieldKey::Char('l'))) || (!opt_for_id && (key == FieldKey::Left || key == FieldKey::Char(
        'h'))))
}

fn one_line_of(s: &str) -> (r: String)
    ensures
        r@ == one_line(s@),
{
    proof {
        reveal_strlit("\n");
    }
    replace_str(s, "\n", "\\n")
}

fn decimal_string(n: usize) -> (r: String)
    ensures
        r@ == decimal(n as nat),
{
    u64_to_string(n as u64)
}

// ---------------------------------------------------------------------------
// A list value
// ---------------------------------------------------------------------------
/// The table of a list value.
pub struct ListValue {
    /// The elements as they were read.
    pub item_values: Vec<String>,
    pub selected: Option<usize>,
    /// The rows: each element's position and its text on one line.
    pub items: Vec<Data>,
    pub longest_item_lens: (u16, u16),
    pub scroll: ScrollBar,
    pub color_index: usize,
}

impl ListValue {
    /// The table has rows, the selection is one of them, the scrollbar can
    /// reach every row, and the palette is one of the four.
    pub open spec fn wf(&self) -> bool {
        &&& 0 < self.items@.len() <= usize::MAX / ITEM_HEIGHT
        &&& (self.selected matches Some(i) ==> i < self.items@.len())
        &&& self.color_index < PALETTE_COUNT
    }

    /// The rows of a list value: each element's position and its text on
    /// one line, with the column widths that fit them.
    pub fn new(data: Vec<String>) -> (r: ListValue)
        requires
            0 < data@.len() <= usize::MAX / ITEM_HEIGHT,
        ensures
            r.wf(),
            texts(r.item_values@) == texts(data@),
            r.items@.len() == data@.len(),
            forall|i: int| 0 <= i < data@.len() ==> (#[trigger] r.items@[i]).index@ == decimal(i as nat)
                && r.items@[i].value@ == one_line(data@[i]@),
            r.selected == Some(0usize),
            r.longest_item_lens.0 as nat == max_width(r.items@.map_values(|d: Data| d.index@)) % 65536,
            r.longest_item_lens.1 as nat == max_width(all_lines(r.items@.map_values(|d: Data| d.value@)))
                % 65536,
            r.scroll == fresh_scroll(data@.len()),
            r.color_index == 3,
    {
        let mut items: Vec<Data> = Vec::new();
        let mut i: usize = 0;
        while i < data.len()
            invariant
                i <= data.len(),
                items@.len() == i,
                forall|k: int| 0 <= k < i ==> (#[trigger] items@[k]).index@ == decimal(k as nat)
                    && items@[k].value@ == one_line(data@[k]@),
            decreases data.len() - i,
        {
            let row = Data { index: decimal_string(i), value: one_line_of(data[i].as_str()) };
            items.push(row);
            i = i + 1;
        }
        let lens = crate::list_list::constraint_len_calculator(&items);
        let len = items.len();
        ListValue {
            item_values: data,
            selected: Some(0),
            items,
            longest_item_lens: lens,
            scroll: ScrollBar { content_length: (len - 1) * ITEM_HEIGHT, position: 0 },
            color_index: 3,
        }
    }

    /// Selects the next row, the first after the last.
    pub fn next(&mut self)
        requires
            old(self).wf(),
        ensures
            final(self).wf(),
            final(self).selected == Some(wrap_next(old(self).selected, old(self).items@.len()) as usize),
            final(self).scroll == (ScrollBar {
                position: (wrap_next(old(self).selected, old(self).items@.len()) * ITEM_HEIGHT) as usize,
                ..old(self).scroll
            }),
            final(self).items@ == old(self).items@,
            final(self).item_values@ == old(self).item_values@,
            final(self).longest_item_lens == old(self).longest_item_lens,
            final(self).color_index == old(self).color_index,
    {
        let i = next_index(self.selected, self.items.len());
        self.selected = Some(i);
        self.scroll.position = i * ITEM_HEIGHT;
    }

    /// Selects the previous row, the last before the first.
    pub fn previous(&mut self)
        requires
            old(self).wf(),
        ensures
            final(self).wf(),
            final(self).selected == Some(wrap_prev(old(self).selected, old(self).items@.len()) as usize),
            final(self).scroll == (ScrollBar {
                position: (wrap_prev(old(self).selected, old(self).items@.len()) * ITEM_HEIGHT) as usize,
                ..old(self).scroll
            }),
            final(self).items@ == old(self).items@,
            final(self).item_values@ == old(self).item_values@,
            final(self).longest_item_lens == old(self).longest_item_lens,
            final(self).color_index == old(self).color_index,
    {
        let i = prev_index(self.selected, self.items.len());
        self.selected = Some(i);
        self.scroll.position = i * ITEM_HEIGHT;
    }

    /// Moves to the next of the four palettes, the first after the last.
    pub fn next_color(&mut self)
        requires
            old(self).wf(),
        ensures
            final(self).wf(),
            final(self).color_index == (old(self).color_index + 1) % (PALETTE_COUNT as int),
            final(self).selected == old(self).selected,
            final(self).scroll == old(self).scroll,
            final(self).items@ == old(self).items@,
    {
        self.color_index = (self.color_index + 1) % PALETTE_COUNT;
    }

    /// Moves to the previous of the four palettes, the last before the
    /// first.
    pub fn previous_color(&mut self)
        requires
            old(self).wf(),
        ensures
            final(self).wf(),
            final(self).color_index == (old(self).color_index + PALETTE_COUNT - 1) % (
            PALETTE_COUNT as int),
            final(self).selected == old(self).selected,
            final(self).scroll == old(self).scroll,
            final(self).items@ == old(self).items@,
    {
        self.color_index = (self.color_index + PALETTE_COUNT - 1) % PALETTE_COUNT;
    }

    /// A key press: `Esc` is taken and left to the caller, `j` or Down
    /// selects the next row, `k` or Up the previous one; other keys, and
    /// keys that are not presses, are not taken.
    pub fn handle_key(&mut self, key: FieldKey, press: bool) -> (r: bool)
        requires
            old(self).wf(),
        ensures
            final(self).wf(),
            r == table_takes(key, press),
            final(self).selected == (if press && (key == FieldKey::Down || key == FieldKey::Char('j')) {
                Some(wrap_next(old(self).selected, old(self).items@.len()) as usize)
            } else if press && (key == FieldKey::Up || key == FieldKey::Char('k')) {
                Some(wrap_prev(old(self).selected, old(self).items@.len()) as usize)
            } else {
                old(self).selected
            }),
            final(self).scroll == (if press && (key == FieldKey::Down || key == FieldKey::Char('j')
                || key == FieldKey::Up || key == FieldKey::Char('k')) {
                ScrollBar {
                    position: (final(self).selected->0 * ITEM_HEIGHT) as usize,
                    ..old(self).scroll
                }
            } else {
                old(self).scroll
            }),
            final(self).items@ == old(self).items@,
            final(self).color_index == old(self).color_index,
    {
        if !press {
            return false;
        }
        match key {
            FieldKey::Esc => true,
            FieldKey::Down | FieldKey::Char('j') => {
                self.next();
                true
            },
            FieldKey::Up | FieldKey::Char('k') => {
                self.previous();
                true
            },
            _ => false,
        }
    }

    /// The key hints of the footer.
    pub fn footer_elements(&self) -> (r: Vec<(String, String)>)
        ensures
            hints(r@) == seq![("Esc"@, "Escape"@), ("↑/j"@, "Up"@), ("↓/k"@, "Down"@)],
    {
        let mut v: Vec<(String, String)> = Vec::new();
        push_hint(&mut v, "Esc", "Escape");
        push_hint(&mut v, "↑/j", "Up");
        push_hint(&mut v, "↓/k", "Down");
        proof {
            assert(hints(v@) =~= seq![("Esc"@, "Escape"@), ("↑/j"@, "Up"@), ("↓/k"@, "Down"@)]);
        }
        v
    }
}

// ---------------------------------------------------------------------------
// A hash value
// ---------------------------------------------------------------------------
/// One row of a hash value: its number, the field, the value on one line,
/// and the value as it was read.
#[derive(Debug)]
pub struct HashRow {
    pub index: String,
    pub key: String,
    pub value: String,
    pub origin_value: String,
}

/// How a mouse event moves a table.
#[derive(Clone, Copy, PartialEq, Eq, Debug, Structural)]
pub enum MouseMove {
    ScrollUp,
    ScrollDown,
    Other,
}

/// The table of a hash value.
pub struct HashValue {
    pub selected: Option<usize>,
    pub items: Vec<HashRow>,
    pub longest_item_lens: (u16, u16, u16),
    pub scroll: ScrollBar,
}

/// The number of the `i`-th row of a page that starts at `offset`, stopping
/// at the largest `usize`.
pub open spec fn row_number(i: nat, offset: nat) -> nat {
    if i + offset > usize::MAX {
        usize::MAX as nat
    } else {
        i + offset
    }
}

impl HashValue {
    /// The table just made from `data` with rows numbered from `offset`:
    /// each row holds its number, the field, the value on one line and the
    /// value as read; the first row is selected and the columns fit.
    pub open spec fn is_fresh(&self, data: Seq<(String, String)>, offset: usize) -> bool {
        &&& self.wf()
        &&& self.items@.len() == data.len()
        &&& forall|i: int| 0 <= i < data.len() ==> {
            &&& (#[trigger] self.items@[i]).index@ == decimal(row_number(i as nat, offset as nat))
            &&& self.items@[i].key@ == data[i].0@
            &&& self.items@[i].value@ == one_line(data[i].1@)
            &&& self.items@[i].origin_value@ == data[i].1@
        }
        &&& self.selected == Some(0usize)
        &&& self.longest_item_lens.0 as nat == max_width(self.items@.map_values(|d: HashRow| d.index@)) % 65536
        &&& self.longest_item_lens.1 as nat == max_width(self.items@.map_values(|d: HashRow| d.key@)) % 65536
        &&& self.longest_item_lens.2 as nat == max_width(
            all_lines(self.items@.map_values(|d: HashRow| d.value@)),
        ) % 65536
        &&& self.scroll == fresh_scroll(data.len())
    }

    /// The table has rows, the selection is one of them, and the scrollbar
    /// can reach every row.
    pub open spec fn wf(&self) -> bool {
        &&& 0 < self.items@.len() <= usize::MAX / ITEM_HEIGHT
        &&& (self.selected matches Some(i) ==> i < self.items@.len())
    }

    /// The rows of a hash value, from its fields and values in the order
    /// they were read; the rows are numbered from `offset`.
    pub fn new(data: Vec<(String, String)>, offset: usize) -> (r: HashValue)
        requires
            0 < data@.len() <= usize::MAX / ITEM_HEIGHT,
        ensures
            r.is_fresh(data@, offset),
    {
        let mut items: Vec<HashRow> = Vec::new();
        let mut indexes: Vec<String> = Vec::new();
        let mut keys: Vec<String> = Vec::new();
        let mut values: Vec<String> = Vec::new();
        let mut i: usize = 0;
        while i < data.len()
            invariant
                i <= data.len(),
                items@.len() == i,
                forall|k: int| 0 <= k < i ==> {
                    &&& (#[trigger] items@[k]).index@ == decimal(row_number(k as nat, offset as nat))
                    &&& items@[k].key@ == data@[k].0@
                    &&& items@[k].value@ == one_line(data@[k].1@)
                    &&& items@[k].origin_value@ == data@[k].1@
                },
                texts(indexes@) == items@.map_values(|d: HashRow| d.index@),
                texts(keys@) == items@.map_values(|d: HashRow| d.key@),
                texts(values@) == items@.map_values(|d: HashRow| d.value@),
            decreases data.len() - i,
        {
            let n = i.saturating_add(offset);
            let row = HashRow {
                index: decimal_string(n),
                key: data[i].0.clone(),
                value: one_line_of(data[i].1.as_str()),
                origin_value: data[i].1.clone(),
            };
            let ghost before = items@;
            let ghost (bi, bk, bv) = (indexes@, keys@, values@);
            indexes.push(row.index.clone());
            keys.push(row.key.clone());
            values.push(row.value.clone());
            items.push(row);
            proof {
                assert(items@ =~= before.push(row));
                assert(texts(indexes@) =~= texts(bi).push(row.index@));
                assert(texts(keys@) =~= texts(bk).push(row.key@));
                assert(texts(values@) =~= texts(bv).push(row.value@));
                assert(items@.map_values(|d: HashRow| d.index@) =~= before.map_values(|d: HashRow| d.index@).push(row.index@));
                assert(items@.map_values(|d: HashRow| d.key@) =~= before.map_values(|d: HashRow| d.key@).push(row.key@));
                assert(items@.map_values(|d: HashRow| d.value@) =~= before.map_values(|d: HashRow| d.value@).push(row.value@));
            }
            i = i + 1;
        }
        let lines = all_lines_of(&values);
        let lens = (widest(&indexes), widest(&keys), widest(&lines));
        let len = items.len();
        HashValue {
            selected: Some(0),
            items,
            longest_item_lens: lens,
            scroll: ScrollBar { content_length: (len - 1) * ITEM_HEIGHT, position: 0 },
        }
    }

    /// Selects the next row, the first after the last.
    pub fn next(&mut self)
        requires
            old(self).wf(),
        ensures
            final(self).wf(),
            final(self).selected == Some(wrap_next(old(self).selected, old(self).items@.len()) as usize),
            final(self).scroll == (ScrollBar {
                position: (wrap_next(old(self).selected, old(self).items@.len()) * ITEM_HEIGHT) as usize,
                ..old(self).scroll
            }),
            final(self).items@ == old(self).items@,
            final(self).longest_item_lens == old(self).longest_item_lens,
    {
        let i = next_index(self.selected, self.items.len());
        self.selected = Some(i);
        self.scroll.position = i * ITEM_HEIGHT;
    }

    /// Selects the previous row, the last before the first.
    pub fn previous(&mut self)
        requires
            old(self).wf(),
        ensures
            final(self).wf(),
            final(self).selected == Some(wrap_prev(old(self).selected, old(self).items@.len()) as usize),
            final(self).scroll == (ScrollBar {
                position: (wrap_prev(old(self).selected, old(self).items@.len()) * ITEM_HEIGHT) as usize,
                ..old(self).scroll
            }),
            final(self).items@ == old(self).items@,
            final(self).longest_item_lens == old(self).longest_item_lens,
    {
        let i = prev_index(self.selected, self.items.len());
        self.selected = Some(i);
        self.scroll.position = i * ITEM_HEIGHT;
    }

    /// A key press: `Esc` is taken and left to the caller, `j` or Down
    /// selects the next row, `k` or Up the previous one; other keys, and
    /// keys that are not presses, are not taken.
    pub fn handle_key(&mut self, key: FieldKey, press: bool) -> (r: bool)
        requires
            old(self).wf(),
        ensures
            final(self).wf(),
            r == table_takes(key, press),
            final(self).selected == (if press && (key == FieldKey::Down || key == FieldKey::Char('j')) {
                Some(wrap_next(old(self).selected, old(self).items@.len()) as usize)
            } else if press && (key == FieldKey::Up || key == FieldKey::Char('k')) {
                Some(wrap_prev(old(self).selected, old(self).items@.len()) as usize)
            } else {
                old(self).selected
            }),
            final(self).scroll == (if press && (key == FieldKey::Down || key == FieldKey::Char('j')
                || key == FieldKey::Up || key == FieldKey::Char('k')) {
                ScrollBar {
                    position: (final(self).selected->0 * ITEM_HEIGHT) as usize,
                    ..old(self).scroll
                }
            } else {
                old(self).scroll
            }),
            final(self).items@ == old(self).items@,
    {
        if !press {
            return false;
        }
        match key {
            FieldKey::Esc => true,
            FieldKey::Down | FieldKey::Char('j') => {
                self.next();
                true
            },
            FieldKey::Up | FieldKey::Char('k') => {
                self.previous();
                true
            },
            _ => false,
        }
    }

    /// A mouse event: scrolling up selects the previous row, scrolling down
    /// the next one; anything else is not taken.
    pub fn handle_mouse(&mut self, event: MouseMove) -> (r: bool)
        requires
            old(self).wf(),
        ensures
            final(self).wf(),
            r == (event != MouseMove::Other),
            final(self).selected == match event {
                MouseMove::ScrollUp => Some(wrap_prev(old(self).selected, old(self).items@.len()) as usize),
                MouseMove::ScrollDown => Some(wrap_next(old(self).selected, old(self).items@.len()) as usize),
                MouseMove::Other => old(self).selected,
            },
            final(self).scroll == match event {
                MouseMove::Other => old(self).scroll,
                _ => ScrollBar { position: (final(self).selected->0 * ITEM_HEIGHT) as usize, ..old(self).scroll },
            },
            final(self).items@ == old(self).items@,
    {
        match event {
            MouseMove::ScrollUp => {
                self.previous();
                true
            },
            MouseMove::ScrollDown => {
                self.next();
                true
            },
            MouseMove::Other => false,
        }
    }

    /// The key hints of the footer.
    pub fn footer_elements(&self) -> (r: Vec<(String, String)>)
        ensures
            hints(r@) == seq![("↓/j"@, "Down"@), ("↑/k"@, "Up"@)],
    {
        let mut v: Vec<(String, String)> = Vec::new();
        push_hint(&mut v, "↓/j", "Down");
        push_hint(&mut v, "↑/k", "Up");
        proof {
            assert(hints(v@) =~= seq![("↓/j"@, "Down"@), ("↑/k"@, "Up"@)]);
        }
        v
    }
}

// ---------------------------------------------------------------------------
// A stream value
// ---------------------------------------------------------------------------
/// One entry of a stream: its id and its field-value pairs.
#[derive(Debug)]
pub struct StreamEntry {
    pub key: String,
    pub value: Vec<(String, String)>,
}

/// The field-value pairs of an entry from its flat list of fields and
/// values; an odd last field is dropped.
pub open spec fn pairs(values: Seq<Seq<char>>) -> Seq<(Seq<char>, Seq<char>)> {
    Seq::new(values.len() / 2, |k: int| (values[2 * k], values[2 * k + 1]))
}

/// The views of an entry's pairs.
pub open spec fn pair_texts(v: Seq<(String, String)>) -> Seq<(Seq<char>, Seq<char>)> {
    v.map_values(|p: (String, String)| (p.0@, p.1@))
}

/// The width of the first column: the widest line of any field; of the
/// second: the widest line of any value (each cut to 16 bits).
pub open spec fn pair_widths(v: Seq<(Seq<char>, Seq<char>)>) -> (nat, nat) {
    (
        max_width(all_lines(v.map_values(|p: (Seq<char>, Seq<char>)| p.0))) % 65536,
        max_width(all_lines(v.map_values(|p: (Seq<char>, Seq<char>)| p.1))) % 65536,
    )
}

/// The table of a stream value: the ids on the left, the selected entry's
/// pairs on the right, and which of the two the keys move.
pub struct StreamView {
    pub opt_for_id: bool,
    pub items: Vec<StreamEntry>,
    pub id_selected: Option<usize>,
    pub id_scroll: ScrollBar,
    pub entry_selected: Option<usize>,
    pub entry_longest: (u16, u16),
    pub entry_scroll: ScrollBar,
}

/// An entry table that shows the pairs `v` from the top.
pub open spec fn fresh_entries(
    v: Seq<(Seq<char>, Seq<char>)>,
    selected: Option<usize>,
    lens: (u16, u16),
    scroll: ScrollBar,
) -> bool {
    &&& selected == Some(0usize)
    &&& (lens.0 as nat, lens.1 as nat) == pair_widths(v)
    &&& scroll == fresh_scroll(v.len())
}

/// The table after moving down (see `StreamView::next`).
pub open spec fn moved_down(o: StreamView, f: StreamView) -> bool {
    &&& f.items@ == o.items@
    &&& f.opt_for_id == o.opt_for_id
    &&& {
        let len = o.items@.len();
        let i = o.id_index();
        let n = wrap_next(Some(i as usize), len);
        if o.opt_for_id {
            if n == i {
                f == o
            } else {
                &&& f.id_selected == Some(n as usize)
                &&& f.id_scroll == (ScrollBar {
                    position: (n * ITEM_HEIGHT) as usize,
                    ..o.id_scroll
                })
                &&& fresh_entries(pair_texts(o.items@[n as int].value@),
                    f.entry_selected, f.entry_longest,
                    f.entry_scroll)
            }
        } else {
            let e = wrap_next(o.entry_selected, o.items@[i as int].value@.len());
            &&& f.id_selected == o.id_selected
            &&& f.id_scroll == o.id_scroll
            &&& f.entry_selected == Some(e as usize)
            &&& f.entry_scroll == (ScrollBar {
                position: (e * ITEM_HEIGHT) as usize,
                ..o.entry_scroll
            })
            &&& f.entry_longest == o.entry_longest
        }
    }
}

/// The table after moving up (see `StreamView::previous`).
pub open spec fn moved_up(o: StreamView, f: StreamView) -> bool {
    &&& f.items@ == o.items@
    &&& f.opt_for_id == o.opt_for_id
    &&& {
        let len = o.items@.len();
        let i = o.id_index();
        let n = wrap_prev(Some(i as usize), len);
        if o.opt_for_id {
            if n == i {
                f == o
            } else {
                &&& f.id_selected == Some(n as usize)
                &&& f.id_scroll == (ScrollBar {
                    position: (n * ITEM_HEIGHT) as usize,
                    ..o.id_scroll
                })
                &&& fresh_entries(pair_texts(o.items@[n as int].value@),
                    f.entry_selected, f.entry_longest,
                    f.entry_scroll)
            }
        } else {
            let e = wrap_prev(o.entry_selected, o.items@[i as int].value@.len());
            &&& f.id_selected == o.id_selected
            &&& f.id_scroll == o.id_scroll
            &&& f.entry_selected == Some(e as usize)
            &&& f.entry_scroll == (ScrollBar {
                position: (e * ITEM_HEIGHT) as usize,
                ..o.entry_scroll
            })
            &&& f.entry_longest == o.entry_longest
        }
    }
}

impl StreamView {
    /// The view just made from `data`: each entry keeps its id and pairs up
    /// its fields and values; the keys move the ids, the first entry is
    /// selected and its pairs shown from the top.
    pub open spec fn is_fresh(&self, data: Seq<(String, Vec<String>)>) -> bool {
        &&& self.wf()
        &&& self.opt_for_id
        &&& self.items@.len() == data.len()
        &&& forall|i: int| 0 <= i < data.len() ==> (#[trigger] self.items@[i]).key@ == data[i].0@
            && pair_texts(self.items@[i].value@) == pairs(texts(data[i].1@))
        &&& self.id_selected == Some(0usize)
        &&& self.id_scroll == fresh_scroll(data.len())
        &&& fresh_entries(pair_texts(self.items@[0].value@), self.entry_selected, self.entry_longest,
            self.entry_scroll)
    }

    /// There are entries, each with pairs; both selections are rows of
    /// their tables, and the scrollbars can reach every row.
    pub open spec fn wf(&self) -> bool {
        &&& 0 < self.items@.len() <= usize::MAX / ITEM_HEIGHT
        &&& forall|i: int| 0 <= i < self.items@.len() ==> 0 < (#[trigger] self.items@[i]).value@.len()
            <= usize::MAX / ITEM_HEIGHT
        &&& (self.id_selected matches Some(i) ==> i < self.items@.len())
        &&& (self.entry_selected matches Some(j) ==> j < self.items@[self.id_index() as int].value@.len())
    }

    /// The entry whose pairs are shown: the selected one, the first where
    /// none is.
    pub open spec fn id_index(&self) -> nat {
        match self.id_selected {
            Some(i) => i as nat,
            None => 0,
        }
    }

    /// The entries of a stream from their ids and flat field-value lists;
    /// the first entry is selected and its pairs shown.
    pub fn new(data: Vec<(String, Vec<String>)>) -> (r: StreamView)
        requires
            0 < data@.len() <= usize::MAX / ITEM_HEIGHT,
            forall|i: int| 0 <= i < data@.len() ==> 2 <= (#[trigger] data@[i]).1@.len() <= usize::MAX
                / ITEM_HEIGHT,
        ensures
            r.is_fresh(data@),
    {
        let mut items: Vec<StreamEntry> = Vec::new();
        let mut i: usize = 0;
        while i < data.len()
            invariant
                i <= data.len(),
                items@.len() == i,
                forall|k: int| 0 <= k < data@.len() ==> 2 <= (#[trigger] data@[k]).1@.len() <= usize::MAX
                    / ITEM_HEIGHT,
                forall|k: int| 0 <= k < i ==> (#[trigger] items@[k]).key@ == data@[k].0@
                    && pair_texts(items@[k].value@) == pairs(texts(data@[k].1@))
                    && 0 < items@[k].value@.len() <= usize::MAX / ITEM_HEIGHT,
            decreases data.len() - i,
        {
            let entry = StreamEntry { key: data[i].0.clone(), value: pair_up(&data[i].1) };
            items.push(entry);
            i = i + 1;
        }
        let (selected, lens, scroll) = entry_table(&items[0].value);
        StreamView {
            opt_for_id: true,
            items,
            id_selected: Some(0),
            id_scroll: ScrollBar { content_length: (data.len() - 1) * ITEM_HEIGHT, position: 0 },
            entry_selected: selected,
            entry_longest: lens,
            entry_scroll: scroll,
        }
    }

    /// Moves down: to the next entry (the first after the last), showing
    /// its pairs from the top where the entry changed; or to the next pair
    /// of the shown entry.
    pub fn next(&mut self)
        requires
            old(self).wf(),
        ensures
            final(self).wf(),
            moved_down(*old(self), *final(self)),
    {
        let i = match self.id_selected {
            Some(i) => i,
            None => 0,
        };
        if self.opt_for_id {
            let n = next_index(Some(i), self.items.len());
            if i != n {
                self.id_selected = Some(n);
                self.id_scroll.position = n * ITEM_HEIGHT;
                let (selected, lens, scroll) = entry_table(&self.items[n].value);
                self.entry_selected = selected;
                self.entry_longest = lens;
                self.entry_scroll = scroll;
            }
        } else {
            let e = next_index(self.entry_selected, self.items[i].value.len());
            self.entry_selected = Some(e);
            self.entry_scroll.position = e * ITEM_HEIGHT;
        }
    }

    /// Moves up: to the previous entry (the last before the first),
    /// showing its pairs from the top where the entry changed; or to the
    /// previous pair of the shown entry.
    pub fn previous(&mut self)
        requires
            old(self).wf(),
        ensures
            final(self).wf(),
            moved_up(*old(self), *final(self)),
    {
        let i = match self.id_selected {
            Some(i) => i,
            None => 0,
        };
        if self.opt_for_id {
            let n = prev_index(Some(i), self.items.len());
            if i != n {
                self.id_selected = Some(n);
                self.id_scroll.position = n * ITEM_HEIGHT;
                let (selected, lens, scroll) = entry_table(&self.items[n].value);
                self.entry_selected = selected;
                self.entry_longest = lens;
                self.entry_scroll = scroll;
            }
        } else {
            let e = prev_index(self.entry_selected, self.items[i].value.len());
            self.entry_selected = Some(e);
            self.entry_scroll.position = e * ITEM_HEIGHT;
        }
    }

    /// A key press: `j` or Down moves down, `k` or Up moves up; `l` or
    /// Right moves the keys to the pairs and `h` or Left back to the ids,
    /// each taken only where it changes which table the keys move.
    pub fn handle_key(&mut self, key: FieldKey, press: bool) -> (r: bool)
        requires
            old(self).wf(),
        ensures
            final(self).wf(),
            final(self).items@ == old(self).items@,
            r == stream_takes(old(self).opt_for_id, key, press),
            !press ==> !r && *final(self) == *old(self),
            press && (key == FieldKey::Down || key == FieldKey::Char('j')) ==> r && moved_down(
                *old(self),
                *final(self),
            ),
            press && (key == FieldKey::Up || key == FieldKey::Char('k')) ==> r && moved_up(
                *old(self),
                *final(self),
            ),
            press && (key == FieldKey::Right || key == FieldKey::Char('l')) ==> r == old(self).opt_for_id
                && !final(self).opt_for_id && final(self).id_selected == old(self).id_selected
                && final(self).entry_selected == old(self).entry_selected,
            press && (key == FieldKey::Left || key == FieldKey::Char('h')) ==> r == !old(self).opt_for_id
                && final(self).opt_for_id && final(self).id_selected == old(self).id_selected
                && final(self).entry_selected == old(self).entry_selected,
            press && !(key == FieldKey::Down || key == FieldKey::Char('j') || key == FieldKey::Up
                || key == FieldKey::Char('k') || key == FieldKey::Right || key == FieldKey::Char('l')
                || key == FieldKey::Left || key == FieldKey::Char('h')) ==> !r && *final(self)
                == *old(self),
    {
        if !press {
            return false;
        }
        match key {
            FieldKey::Down | FieldKey::Char('j') => {
                self.next();
                true
            },
            FieldKey::Up | FieldKey::Char('k') => {
                self.previous();
                true
            },
            FieldKey::Right | FieldKey::Char('l') => {
                if self.opt_for_id {
                    self.opt_for_id = false;
                    true
                } else {
                    false
                }
            },
            FieldKey::Left | FieldKey::Char('h') => {
                if !self.opt_for_id {
                    self.opt_for_id = true;
                    true
                } else {
                    false
                }
            },
            _ => false,
        }
    }

    /// The key hints of the footer: the way to the other table first.
    pub fn footer_elements(&self) -> (r: Vec<(String, String)>)
        ensures
            hints(r@) == if self.opt_for_id {
                seq![("→/l"@, "Entry"@), ("↑/j"@, "Up"@), ("↓/k"@, "Down"@)]
            } else {
                seq![("←/h"@, "Id"@), ("↑/j"@, "Up"@), ("↓/k"@, "Down"@)]
            },
    {
        let mut v: Vec<(String, String)> = Vec::new();
        if self.opt_for_id {
            push_hint(&mut v, "→/l", "Entry");
        } else {
            push_hint(&mut v, "←/h", "Id");
        }
        push_hint(&mut v, "↑/j", "Up");
        push_hint(&mut v, "↓/k", "Down");
        proof {
            if self.opt_for_id {
                assert(hints(v@) =~= seq![("→/l"@, "Entry"@), ("↑/j"@, "Up"@), ("↓/k"@, "Down"@)]);
            } else {
                assert(hints(v@) =~= seq![("←/h"@, "Id"@), ("↑/j"@, "Up"@), ("↓/k"@, "Down"@)]);
            }
        }
        v
    }
}

/// Pairs up a flat list of fields and values.
fn pair_up(values: &Vec<String>) -> (r: Vec<(String, String)>)
    requires
        2 <= values@.len() <= usize::MAX / ITEM_HEIGHT,
    ensures
        pair_texts(r@) == pairs(texts(values@)),
        0 < r@.len() <= usize::MAX / ITEM_HEIGHT,
{
    let ghost vs = texts(values@);
    let mut out: Vec<(String, String)> = Vec::new();
    let mut k: usize = 0;
    while k + 1 < values.len()
        invariant
            k % 2 == 0,
            k <= values@.len(),
            vs == texts(values@),
            out@.len() == k / 2,
            forall|j: int| 0 <= j < out@.len() ==> (#[trigger] out@[j]).0@ == vs[2 * j] && out@[j].1@
                == vs[2 * j + 1],
        decreases values.len() - k,
    {
        out.push((values[k].clone(), values[k + 1].clone()));
        k = k + 2;
    }
    proof {
        assert(out@.len() == vs.len() / 2);
        assert(pair_texts(out@) =~= pairs(vs));
    }
    out
}

/// A table of the pairs `v`, at the top.
fn entry_table(v: &Vec<(String, String)>) -> (r: (Option<usize>, (u16, u16), ScrollBar))
    requires
        0 < v@.len() <= usize::MAX / ITEM_HEIGHT,
    ensures
        fresh_entries(pair_texts(v@), r.0, r.1, r.2),
{
    let mut fields: Vec<String> = Vec::new();
    let mut values: Vec<String> = Vec::new();
    let mut i: usize = 0;
    while i < v.len()
        invariant
            i <= v.len(),
            texts(fields@) == pair_texts(v@).take(i as int).map_values(|p: (Seq<char>, Seq<char>)| p.0),
            texts(values@) == pair_texts(v@).take(i as int).map_values(|p: (Seq<char>, Seq<char>)| p.1),
        decreases v.len() - i,
    {
        let ghost (bf, bv) = (fields@, values@);
        let f = v[i].0.clone();
        let x = v[i].1.clone();
        fields.push(f);
        values.push(x);
        proof {
            let pv = pair_texts(v@);
            assert(pv.take(i + 1) =~= pv.take(i as int).push(pv[i as int]));
            assert(texts(fields@) =~= texts(bf).push(f@));
            assert(texts(values@) =~= texts(bv).push(x@));
            assert(pv.take(i + 1).map_values(|p: (Seq<char>, Seq<char>)| p.0) =~= pv.take(i as int).map_values(|p: (Seq<char>, Seq<char>)| p.0).push(pv[i as int].0));
            assert(pv.take(i + 1).map_values(|p: (Seq<char>, Seq<char>)| p.1) =~= pv.take(i as int).map_values(|p: (Seq<char>, Seq<char>)| p.1).push(pv[i as int].1));
        }
        i = i + 1;
    }
    proof {
        assert(pair_texts(v@).take(v@.len() as int) =~= pair_texts(v@));
    }
    let field_lines = all_lines_of(&fields);
    let value_lines = all_lines_of(&values);
    let lens = (widest(&field_lines), widest(&value_lines));
    (Some(0), lens, ScrollBar { content_length: (v.len() - 1) * ITEM_HEIGHT, position: 0 })
}

} // verus!

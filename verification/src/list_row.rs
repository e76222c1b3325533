//! The rows of a framed list: each row's cells, how high it may grow, and
//! which border joins it to its neighbours.
use crate::text::{spec_lines, split_lines, strs_view, to_chars};
use vstd::prelude::*;

verus! {

/// A row of the list.
#[derive(Debug)]
pub struct ListRow {
    pub index: usize,
    pub cells: Vec<String>,
    pub expand: bool,
    /// The most rows it takes: the fewest lines of any of its cells, and
    /// no more than the builder's limit.
    pub max_height: u16,
    pub is_first: bool,
    pub is_last: bool,
}

/// A row as the contracts see it: position, cells, whether it is expanded,
/// its height, and whether it is the first and the last.
pub type RowView = (usize, Seq<Seq<char>>, bool, u16, bool, bool);

/// The view of a row.
pub open spec fn row_view(r: ListRow) -> RowView {
    (r.index, strs_view(r.cells@), r.expand, r.max_height, r.is_first, r.is_last)
}

/// The views of some rows.
pub open spec fn rows_view(v: Seq<ListRow>) -> Seq<RowView> {
    v.map_values(|r: ListRow| row_view(r))
}

/// The height a row of these cells may take: the builder's limit, lowered
/// to the number of lines (cut to 16 bits) of any cell that has fewer.
pub open spec fn cells_height(limit: u16, cells: Seq<Seq<char>>) -> u16
    decreases cells.len(),
{
    if cells.len() == 0 {
        limit
    } else {
        let h = cells_height(limit, cells.drop_last());
        let n = (spec_lines(cells.last()).len() % 65536) as u16;
        if n < h {
            n
        } else {
            h
        }
    }
}

/// Builds the rows of a list whose rows have `cell_count` cells.
pub struct RowsBuilder {
    pub max_height: u16,
    pub cell_count: usize,
    pub rows: Vec<ListRow>,
}

/// The border that frames a row: closed all round for a row alone, open
/// below for the first, open above for the last, open both ways between.
#[derive(Clone, Copy, PartialEq, Eq, Debug, Structural)]
pub enum RowBorder {
    Single,
    First,
    Last,
    Middle,
}

/// The border of a row by its place in the list.
pub open spec fn spec_row_border(is_first: bool, is_last: bool) -> RowBorder {
    if is_first && is_last {
        RowBorder::Single
    } else if is_first {
        RowBorder::First
    } else if is_last {
        RowBorder::Last
    } else {
        RowBorder::Middle
    }
}

/// The border of a row.
pub fn row_border(row: &ListRow) -> (r: RowBorder)
    ensures
        r == spec_row_border(row.is_first, row.is_last),
{
    if row.is_first && row.is_last {
        RowBorder::Single
    } else if row.is_first {
        RowBorder::First
    } else if row.is_last {
        RowBorder::Last
    } else {
        RowBorder::Middle
    }
}

impl RowsBuilder {
    /// A builder of rows of `cell_count` cells, each at most three rows
    /// high.
    pub fn new(cell_count: usize) -> (r: RowsBuilder)
        ensures
            r.max_height == 3,
            r.cell_count == cell_count,
            r.rows@.len() == 0,
    {
        RowsBuilder { max_height: 3, cell_count, rows: Vec::new() }
    }

    /// Adds a row of these cells at the end, where it has as many cells as
    /// the list's rows have; the row before it is then no longer the last.
    pub fn add_row(&mut self, data: Vec<String>)
        ensures
            final(self).max_height == old(self).max_height,
            final(self).cell_count == old(self).cell_count,
            data@.len() != old(self).cell_count ==> rows_view(final(self).rows@) == rows_view(
                old(self).rows@,
            ),
            data@.len() == old(self).cell_count ==> {
                let before = rows_view(old(self).rows@);
                let n = before.len();
                let kept = if n > 0 {
                    before.update(n - 1, (before[n - 1].0, before[n - 1].1, before[n - 1].2, before[n - 1].3, before[n - 1].4, false))
                } else {
                    before
                };
                rows_view(final(self).rows@) == kept.push(
                    (
                        n as usize,
                        strs_view(data@),
                        false,
                        cells_height(old(self).max_height, strs_view(data@)),
                        n == 0,
                        true,
                    ),
                )
            },
    {
        if data.len() != self.cell_count {
            return;
        }
        let ghost before = rows_view(self.rows@);
        let n = self.rows.len();
        if n > 0 {
            let mut last = self.rows.pop().unwrap();
            last.is_last = false;
            self.rows.push(last);
            proof {
                assert(rows_view(self.rows@) =~= before.update(
                    n - 1,
                    (before[n - 1].0, before[n - 1].1, before[n - 1].2, before[n - 1].3, before[n - 1].4, false),
                ));
            }
        }
        let ghost kept = rows_view(self.rows@);
        let height = cells_height_of(self.max_height, &data);
        let row = ListRow {
            index: n,
            cells: data,
            expand: false,
            max_height: height,
            is_first: n == 0,
            is_last: true,
        };
        self.rows.push(row);
        proof {
            assert(rows_view(self.rows@) =~= kept.push(row_view(row)));
        }
    }

    /// The rows built.
    pub fn get_rows(self) -> (r: Vec<ListRow>)
        ensures
            rows_view(r@) == rows_view(self.rows@),
    {
        self.rows
    }
}

fn cells_height_of(limit: u16, cells: &Vec<String>) -> (r: u16)
    ensures
        r == cells_height(limit, strs_view(cells@)),
{
    let ghost cv = strs_view(cells@);
    let mut h = limit;
    let mut i: usize = 0;
    while i < cells.len()
        invariant
            i <= cells@.len(),
            cv == strs_view(cells@),
            h == cells_height(limit, cv.take(i as int)),
        decreases cells@.len() - i,
    {
        let lines = split_lines(&to_chars(cells[i].as_str()));
        let count = lines.len();
        let n = #[verifier::truncate] (count as u16);
        assert(n == count as nat % 65536) by (bit_vector)
            requires
                n == #[verifier::truncate] (count as u16),
        ;
        proof {
            assert(cv.take(i + 1).drop_last() =~= cv.take(i as int));
            assert(cv.take(i + 1).last() == cells@[i as int]@);
            assert(lines@.len() == spec_lines(cells@[i as int]@).len());
        }
        if n < h {
            h = n;
        }
        i = i + 1;
    }
    proof {
        assert(cv.take(cv.len() as int) =~= cv);
    }
    h
}

} // verus!

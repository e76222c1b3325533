//! The rows of a list value (an index and a possibly multi-line value) and
//! the widths of the columns that show them.
use crate::text::{from_chars, spec_lines, split_lines, to_chars};
use vstd::prelude::*;

verus! {

/// The width in terminal columns of a text, as `unicode-width` measures it.
pub uninterp spec fn spec_str_width(s: Seq<char>) -> nat;

/// The displayed width of a text (`UnicodeWidthStr::width`).  An empty text
/// is zero columns wide.
#[verifier::external_body]
pub fn str_width(s: &str) -> (r: usize)
    ensures
        r as nat == spec_str_width(s@),
        s@.len() == 0 ==> r == 0,
{
    unicode_width::UnicodeWidthStr::width(s)
}

/// The widest of some texts, zero where there are none.
pub open spec fn max_width(texts: Seq<Seq<char>>) -> nat
    decreases texts.len(),
{
    if texts.len() == 0 {
        0
    } else {
        let m = max_width(texts.drop_last());
        let w = spec_str_width(texts.last());
        if w > m {
            w
        } else {
            m
        }
    }
}

/// The widest of some texts, as a `u16` (the width cut to its low 16 bits,
/// as `as u16` does).
pub fn widest(texts: &Vec<String>) -> (r: u16)
    ensures
        r as nat == max_width(texts@.map_values(|t: String| t@)) % 65536,
{
    let ghost v = texts@.map_values(|t: String| t@);
    let mut m: usize = 0;
    let mut i: usize = 0;
    while i < texts.len()
        invariant
            i <= texts.len(),
            v == texts@.map_values(|t: String| t@),
            m as nat == max_width(v.take(i as int)),
        decreases texts.len() - i,
    {
        let w = str_width(texts[i].as_str());
        proof {
            assert(v.take(i + 1).drop_last() =~= v.take(i as int));
            assert(v.take(i + 1).last() == texts@[i as int]@);
        }
        if w > m {
            m = w;
        }
        i = i + 1;
    }
    proof {
        assert(v.take(v.len() as int) =~= v);
    }
    let r = #[verifier::truncate] (m as u16);
    assert(r == m % 65536) by (bit_vector)
        requires
            r == #[verifier::truncate] (m as u16),
    ;
    r
}

/// One row of a list value: its position and its text.
#[derive(Debug)]
pub struct Data {
    pub index: String,
    pub value: String,
}

impl Data {
    pub fn index(&self) -> (r: &str)
        ensures
            r@ == self.index@,
    {
        self.index.as_str()
    }

    pub fn value(&self) -> (r: &str)
        ensures
            r@ == self.value@,
    {
        self.value.as_str()
    }
}

/// The lines of every value, one after another.
pub open spec fn all_lines(values: Seq<Seq<char>>) -> Seq<Seq<char>>
    decreases values.len(),
{
    if values.len() == 0 {
        seq![]
    } else {
        all_lines(values.drop_last()) + spec_lines(values.last())
    }
}

/// Every line of every text, one text after another.
pub fn all_lines_of(values: &Vec<String>) -> (r: Vec<String>)
    ensures
        r@.map_values(|t: String| t@) == all_lines(values@.map_values(|t: String| t@)),
{
    let ghost vs = values@.map_values(|t: String| t@);
    let mut lines: Vec<String> = Vec::new();
    let mut i: usize = 0;
    while i < values.len()
        invariant
            i <= values.len(),
            vs == values@.map_values(|t: String| t@),
            lines@.map_values(|t: String| t@) == all_lines(vs.take(i as int)),
        decreases values.len() - i,
    {
        let chars = to_chars(values[i].as_str());
        let split = split_lines(&chars);
        let ghost before = lines@.map_values(|t: String| t@);
        let mut k: usize = 0;
        while k < split.len()
            invariant
                i < values.len(),
                k <= split.len(),
                split@.map_values(|l: Vec<char>| l@) == spec_lines(values@[i as int]@),
                lines@.map_values(|t: String| t@) == before + split@.map_values(
                    |l: Vec<char>| l@,
                ).take(k as int),
            decreases split.len() - k,
        {
            let ghost prev = lines@;
            let line = from_chars(&split[k]);
            lines.push(line);
            proof {
                assert(lines@ =~= prev.push(line));
                assert(lines@.map_values(|t: String| t@) =~= prev.map_values(|t: String| t@).push(line@));
                assert(split@.map_values(|l: Vec<char>| l@).take(k + 1) =~= split@.map_values(|l: Vec<char>| l@).take(k as int).push(split@[k as int]@));
            }
            k = k + 1;
        }
        proof {
            assert(split@.map_values(|l: Vec<char>| l@).take(split@.len() as int) =~= split@.map_values(
                |l: Vec<char>| l@,
            ));
            assert(vs.take(i + 1).drop_last() =~= vs.take(i as int));
            assert(vs.take(i + 1).last() == values@[i as int]@);
        }
        i = i + 1;
    }
    proof {
        assert(vs.take(vs.len() as int) =~= vs);
    }
    lines
}

/// The widths of the two columns: the widest index, and the widest line of
/// any value (each cut to 16 bits).
pub fn constraint_len_calculator(items: &Vec<Data>) -> (r: (u16, u16))
    ensures
        r.0 as nat == max_width(items@.map_values(|d: Data| d.index@)) % 65536,
        r.1 as nat == max_width(all_lines(items@.map_values(|d: Data| d.value@))) % 65536,
{
    let mut indexes: Vec<String> = Vec::new();
    let mut values: Vec<String> = Vec::new();
    let mut i: usize = 0;
    while i < items.len()
        invariant
            i <= items.len(),
            indexes@.map_values(|t: String| t@) == items@.take(i as int).map_values(
                |d: Data| d.index@,
            ),
            values@.map_values(|t: String| t@) == items@.take(i as int).map_values(
                |d: Data| d.value@,
            ),
        decreases items.len() - i,
    {
        let ghost before_idx = indexes@;
        let ghost before_val = values@;
        let idx = items[i].index.clone();
        let val = items[i].value.clone();
        indexes.push(idx);
        values.push(val);
        proof {
            assert(items@.take(i + 1) =~= items@.take(i as int).push(items@[i as int]));
            assert(indexes@ =~= before_idx.push(idx));
            assert(values@ =~= before_val.push(val));
            assert(indexes@.map_values(|t: String| t@) =~= before_idx.map_values(|t: String| t@).push(idx@));
            assert(values@.map_values(|t: String| t@) =~= before_val.map_values(|t: String| t@).push(val@));
            assert(items@.take(i + 1).map_values(|d: Data| d.index@) =~= items@.take(i as int).map_values(|d: Data| d.index@).push(items@[i as int].index@));
            assert(items@.take(i + 1).map_values(|d: Data| d.value@) =~= items@.take(i as int).map_values(|d: Data| d.value@).push(items@[i as int].value@));
        }
        i = i + 1;
    }
    proof {
        assert(items@.take(items@.len() as int) =~= items@);
    }
    let lines = all_lines_of(&values);
    (widest(&indexes), widest(&lines))
}

} // verus!

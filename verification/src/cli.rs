//! The application's command-line arguments.
use crate::text::str_eq;
use vstd::prelude::*;

verus! {

/// The value of a command-line argument.
#[derive(Debug)]
pub enum Value {
    Bool(bool),
    /// A text value (the `String` values of the argument parser).
    Text(String),
}

/// A value as the contracts see it.
pub enum ValueView {
    Bool(bool),
    Text(Seq<char>),
}

impl View for Value {
    type V = ValueView;

    open spec fn view(&self) -> ValueView {
        match self {
            Value::Bool(b) => ValueView::Bool(*b),
            Value::Text(s) => ValueView::Text(s@),
        }
    }
}

/// An argument given on the command line: its position among the words,
/// its id, and its value.
pub type Occurrence = (usize, String, Value);

/// The arguments ordered by position: an ordered list of positions with one
/// entry each, a later occurrence at the same position replacing an earlier
/// one.
pub open spec fn ordered(entries: Seq<(usize, Seq<char>, ValueView)>) -> bool {
    forall|i: int, j: int| 0 <= i < j < entries.len() ==> entries[i].0 < entries[j].0
}

/// The view of an occurrence.
pub open spec fn occ_view(o: Occurrence) -> (usize, Seq<char>, ValueView) {
    (o.0, o.1@, o.2@)
}

/// The arguments as a map from position to id and value, later occurrences
/// replacing earlier ones at the same position.
pub open spec fn occurrences_map(occ: Seq<(usize, Seq<char>, ValueView)>) -> Map<usize, (Seq<char>, ValueView)>
    decreases occ.len(),
{
    if occ.len() == 0 {
        Map::empty()
    } else {
        occurrences_map(occ.drop_last()).insert(occ.last().0, (occ.last().1, occ.last().2))
    }
}

proof fn lemma_occ_contains(occ: Seq<(usize, Seq<char>, ValueView)>, k: usize)
    ensures
        occurrences_map(occ).dom().contains(k) <==> exists|i: int| 0 <= i < occ.len() && occ[i].0 == k,
    decreases occ.len(),
{
    if occ.len() > 0 {
        lemma_occ_contains(occ.drop_last(), k);
        if occurrences_map(occ).dom().contains(k) && occ.last().0 != k {
            let i = choose|i: int| 0 <= i < occ.len() - 1 && occ.drop_last()[i].0 == k;
            assert(occ[i].0 == k);
        }
        if exists|i: int| 0 <= i < occ.len() && occ[i].0 == k {
            let i = choose|i: int| 0 <= i < occ.len() && occ[i].0 == k;
            if i < occ.len() - 1 {
                assert(occ.drop_last()[i].0 == k);
            }
        }
    }
}

proof fn lemma_occ_index(occ: Seq<(usize, Seq<char>, ValueView)>, i: int)
    requires
        ordered(occ),
        0 <= i < occ.len(),
    ensures
        occurrences_map(occ).dom().contains(occ[i].0),
        occurrences_map(occ)[occ[i].0] == (occ[i].1, occ[i].2),
    decreases occ.len(),
{
    if i < occ.len() - 1 {
        lemma_occ_index(occ.drop_last(), i);
        assert(occ.drop_last()[i] == occ[i]);
    }
}

proof fn lemma_occ_ext(b: Seq<(usize, Seq<char>, ValueView)>, m: Map<usize, (Seq<char>, ValueView)>)
    requires
        ordered(b),
        forall|k: usize| m.dom().contains(k) <==> exists|i: int| 0 <= i < b.len() && b[i].0 == k,
        forall|i: int| 0 <= i < b.len() ==> m[b[i].0] == (b[i].1, b[i].2),
    ensures
        occurrences_map(b) == m,
{
    assert forall|k: usize| occurrences_map(b).dom().contains(k) <==> m.dom().contains(k) by {
        lemma_occ_contains(b, k);
    }
    assert forall|k: usize| occurrences_map(b).dom().contains(k) implies occurrences_map(b)[k] == m[k] by {
        lemma_occ_contains(b, k);
        let i = choose|i: int| 0 <= i < b.len() && b[i].0 == k;
        lemma_occ_index(b, i);
    }
    assert(occurrences_map(b) =~= m);
}

/// Records an occurrence in a list ordered by position.
fn insert_occurrence(list: &mut Vec<Occurrence>, o: Occurrence)
    requires
        ordered(old(list)@.map_values(|x: Occurrence| occ_view(x))),
    ensures
        ordered(final(list)@.map_values(|x: Occurrence| occ_view(x))),
        occurrences_map(final(list)@.map_values(|x: Occurrence| occ_view(x))) == occurrences_map(
            old(list)@.map_values(|x: Occurrence| occ_view(x)),
        ).insert(o.0, (o.1@, o.2@)),
{
    let ghost ov = old(list)@.map_values(|x: Occurrence| occ_view(x));
    let ghost m = occurrences_map(ov).insert(o.0, (o.1@, o.2@));
    let ghost item = occ_view(o);
    proof {
        assert forall|j: usize| occurrences_map(ov).dom().contains(j) <==> exists|i: int|
            0 <= i < ov.len() && ov[i].0 == j by {
            lemma_occ_contains(ov, j);
        }
        assert forall|i: int| 0 <= i < ov.len() implies occurrences_map(ov)[ov[i].0] == (ov[i].1, ov[i].2) by {
            lemma_occ_index(ov, i);
        }
    }
    let mut i: usize = 0;
    while i < list.len() && list[i].0 < o.0
        invariant
            i <= list.len(),
            list@.map_values(|x: Occurrence| occ_view(x)) == ov,
            forall|j: int| 0 <= j < i ==> ov[j].0 < o.0,
        decreases list.len() - i,
    {
        i = i + 1;
    }
    if i < list.len() && list[i].0 == o.0 {
        list.set(i, o);
    } else {
        list.insert(i, o);
    }
    proof {
        let nv = list@.map_values(|x: Occurrence| occ_view(x));
        if i < ov.len() && ov[i as int].0 == item.0 {
            assert(nv =~= ov.update(i as int, item));
        } else {
            assert(nv =~= ov.insert(i as int, item));
        }
        assert forall|a: int, b: int| 0 <= a < b < nv.len() implies nv[a].0 < nv[b].0 by {
            if i < ov.len() && ov[i as int].0 == item.0 {
            } else {
                if b < i {
                } else if b == i {
                } else if a < i {
                    assert(nv[b] == ov[b - 1]);
                } else if a == i {
                    assert(nv[b] == ov[b - 1]);
                } else {
                    assert(nv[b] == ov[b - 1]);
                    assert(nv[a] == ov[a - 1]);
                }
            }
        }
        assert forall|j: usize| m.dom().contains(j) <==> exists|x: int| 0 <= x < nv.len() && nv[x].0 == j by {
            if j == item.0 {
                assert(nv[i as int].0 == j);
            }
            if m.dom().contains(j) && j != item.0 {
                let x = choose|x: int| 0 <= x < ov.len() && ov[x].0 == j;
                if i < ov.len() && ov[i as int].0 == item.0 {
                    assert(nv[x].0 == j);
                } else if x < i {
                    assert(nv[x].0 == j);
                } else {
                    assert(nv[x + 1].0 == j);
                }
            }
            if exists|x: int| 0 <= x < nv.len() && nv[x].0 == j {
                let x = choose|x: int| 0 <= x < nv.len() && nv[x].0 == j;
                if i < ov.len() && ov[i as int].0 == item.0 {
                    if x != i {
                        assert(ov[x].0 == j);
                    }
                } else if x < i {
                    assert(ov[x].0 == j);
                } else if x > i {
                    assert(ov[x - 1].0 == j);
                }
            }
        }
        assert forall|x: int| 0 <= x < nv.len() implies m[nv[x].0] == (nv[x].1, nv[x].2) by {
            if i < ov.len() && ov[i as int].0 == item.0 {
                if x != i {
                    assert(nv[x] == ov[x]);
                }
            } else if x < i {
                assert(nv[x] == ov[x]);
            } else if x > i {
                assert(nv[x] == ov[x - 1]);
            }
        }
        lemma_occ_ext(nv, m);
    }
}

impl Value {
    /// The arguments given on the command line, ordered by their position;
    /// at one position the last occurrence counts.
    pub fn from_occurrences(occurrences: Vec<Occurrence>) -> (r: Vec<(String, Value)>)
        ensures
            exists|ord: Seq<(usize, Seq<char>, ValueView)>|
                ordered(ord) && occurrences_map(ord) == occurrences_map(
                    occurrences@.map_values(|x: Occurrence| occ_view(x)),
                ) && r@.map_values(|p: (String, Value)| (p.0@, p.1@)) == ord.map_values(
                    |e: (usize, Seq<char>, ValueView)| (e.1, e.2),
                ),
    {
        let ghost input = occurrences@.map_values(|x: Occurrence| occ_view(x));
        let mut list: Vec<Occurrence> = Vec::new();
        let mut rest = occurrences;
        let ghost consumed: Seq<(usize, Seq<char>, ValueView)> = seq![];
        proof {
            assert(list@.map_values(|x: Occurrence| occ_view(x)) =~= Seq::<(usize, Seq<char>, ValueView)>::empty());
        }
        let mut i: usize = 0;
        let n = rest.len();
        let mut items: Vec<Option<Occurrence>> = Vec::new();
        while rest.len() > 0
            invariant
                rest@.len() + i == n,
                n == input.len(),
                rest@.map_values(|x: Occurrence| occ_view(x)) == input.skip(i as int),
                ordered(list@.map_values(|x: Occurrence| occ_view(x))),
                occurrences_map(list@.map_values(|x: Occurrence| occ_view(x))) == occurrences_map(input.take(i as int)),
            decreases rest.len(),
        {
            let ghost old_rest = rest@;
            let o = rest.remove(0);
            proof {
                assert forall|k: int| 0 <= k < rest@.len() implies occ_view(#[trigger] rest@[k]) == input.skip(i + 1)[k] by {
                    assert(rest@[k] == old_rest[k + 1]);
                    assert(occ_view(old_rest[k + 1]) == input.skip(i as int)[k + 1]);
                }
                assert(input.skip(i as int)[0] == occ_view(o));
                assert(input.take(i + 1).drop_last() =~= input.take(i as int));
                assert(input.take(i + 1).last() == occ_view(o));
                assert(rest@.map_values(|x: Occurrence| occ_view(x)) =~= input.skip(i + 1));
            }
            insert_occurrence(&mut list, o);
            i = i + 1;
        }
        proof {
            assert(input.take(i as int) =~= input);
        }
        let ghost ord = list@.map_values(|x: Occurrence| occ_view(x));
        let mut out: Vec<(String, Value)> = Vec::new();
        let mut list = list;
        let mut j: usize = 0;
        let total = list.len();
        while list.len() > 0
            invariant
                list@.len() + j == total,
                total == ord.len(),
                list@.map_values(|x: Occurrence| occ_view(x)) == ord.skip(j as int),
                out@.map_values(|p: (String, Value)| (p.0@, p.1@)) == ord.take(j as int).map_values(
                    |e: (usize, Seq<char>, ValueView)| (e.1, e.2),
                ),
            decreases list.len(),
        {
            let ghost old_list = list@;
            let (_, id, v) = list.remove(0);
            proof {
                assert forall|k: int| 0 <= k < list@.len() implies occ_view(#[trigger] list@[k]) == ord.skip(j + 1)[k] by {
                    assert(list@[k] == old_list[k + 1]);
                    assert(occ_view(old_list[k + 1]) == ord.skip(j as int)[k + 1]);
                }
                assert(ord.skip(j as int)[0] == (ord[j as int].0, id@, v@));
                assert(list@.map_values(|x: Occurrence| occ_view(x)) =~= ord.skip(j + 1));
            }
            let ghost pv = (id@, v@);
            let ghost old_out = out@;
            out.push((id, v));
            proof {
                assert(ord.take(j + 1) =~= ord.take(j as int).push(ord[j as int]));
                assert(out@.map_values(|p: (String, Value)| (p.0@, p.1@)) =~= old_out.map_values(|p: (String, Value)| (p.0@, p.1@)).push(pv));
                assert(out@.map_values(|p: (String, Value)| (p.0@, p.1@)) =~= ord.take(j + 1).map_values(
                    |e: (usize, Seq<char>, ValueView)| (e.1, e.2),
                ));
            }
            j = j + 1;
        }
        proof {
            assert(ord.take(j as int) =~= ord);
        }
        out
    }
}

/// The application's arguments.
#[derive(Debug)]
pub struct AppArguments {
    /// The named database to connect to, overriding the configured default.
    pub target: Option<String>,
}

/// The target named by the arguments: the last text value of `target`.
pub open spec fn target_of(values: Seq<(Seq<char>, ValueView)>) -> Option<Seq<char>>
    decreases values.len(),
{
    if values.len() == 0 {
        None
    } else {
        let (id, v) = values.last();
        match v {
            ValueView::Text(s) => if id == "target"@ {
                Some(s)
            } else {
                target_of(values.drop_last())
            },
            _ => target_of(values.drop_last()),
        }
    }
}

impl AppArguments {
    /// The application's arguments from the ordered argument values.
    pub fn from_values(values: Vec<(String, Value)>) -> (r: AppArguments)
        ensures
            match r.target {
                Some(t) => target_of(values@.map_values(|p: (String, Value)| (p.0@, p.1@))) == Some(t@),
                None => target_of(values@.map_values(|p: (String, Value)| (p.0@, p.1@))) is None,
            },
    {
        let ghost vv = values@.map_values(|p: (String, Value)| (p.0@, p.1@));
        let mut target: Option<String> = None;
        let mut values = values;
        let n = values.len();
        let mut i: usize = 0;
        while values.len() > 0
            invariant
                values@.len() + i == n,
                n == vv.len(),
                values@.map_values(|p: (String, Value)| (p.0@, p.1@)) == vv.skip(i as int),
                match target {
                    Some(t) => target_of(vv.take(i as int)) == Some(t@),
                    None => target_of(vv.take(i as int)) is None,
                },
            decreases values.len(),
        {
            let ghost old_values = values@;
            let (id, v) = values.remove(0);
            proof {
                assert forall|k: int| 0 <= k < values@.len() implies (#[trigger] values@[k]).0@ == vv.skip(i + 1)[k].0 && values@[k].1@ == vv.skip(i + 1)[k].1 by {
                    assert(values@[k] == old_values[k + 1]);
                    assert((old_values[k + 1].0@, old_values[k + 1].1@) == vv.skip(i as int)[k + 1]);
                }
                assert(vv.skip(i as int)[0] == (id@, v@));
                assert(values@.map_values(|p: (String, Value)| (p.0@, p.1@)) =~= vv.skip(i + 1));
                assert(vv.take(i + 1).drop_last() =~= vv.take(i as int));
                assert(vv.take(i + 1).last() == (id@, v@));
            }
            if str_eq(id.as_str(), "target") {
                match v {
                    Value::Text(s) => {
                        target = Some(s);
                    },
                    _ => {},
                }
            }
            i = i + 1;
        }
        proof {
            assert(vv.take(i as int) =~= vv);
        }
        AppArguments { target }
    }
}

} // verus!

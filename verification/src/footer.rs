//! The key hints shown in the footer: pairs of keys and what they do.
use vstd::prelude::*;

verus! {

/// The hints as the contracts see them.
pub open spec fn hints(v: Seq<(String, String)>) -> Seq<(Seq<char>, Seq<char>)> {
    v.map_values(|p: (String, String)| (p.0@, p.1@))
}

/// Adds a hint at the end.
pub fn push_hint(v: &mut Vec<(String, String)>, keys: &str, action: &str)
    ensures
        hints(final(v)@) == hints(old(v)@).push((keys@, action@)),
{
    let ghost before = v@;
    let h = (keys.to_string(), action.to_string());
    v.push(h);
    proof {
        assert(hints(v@) =~= hints(before).push((keys@, action@)));
    }
}

/// Adds the hints of `more` at the end, in order.
pub fn append_hints(v: &mut Vec<(String, String)>, more: Vec<(String, String)>)
    ensures
        hints(final(v)@) == hints(old(v)@) + hints(more@),
{
    let ghost start = hints(v@);
    let mut i: usize = 0;
    while i < more.len()
        invariant
            i <= more.len(),
            hints(v@) == start + hints(more@).take(i as int),
        decreases more.len() - i,
    {
        let ghost before = v@;
        let h = (more[i].0.clone(), more[i].1.clone());
        v.push(h);
        proof {
            assert(hints(v@) =~= hints(before).push((h.0@, h.1@)));
            assert(hints(more@).take(i + 1) =~= hints(more@).take(i as int).push(hints(more@)[i as int]));
        }
        i = i + 1;
    }
    proof {
        assert(hints(more@).take(more@.len() as int) =~= hints(more@));
    }
}

} // verus!

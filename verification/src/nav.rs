//! Moving the selection of a list one row down or up, wrapping at the ends.
use vstd::prelude::*;

verus! {

/// The row below the selected one, or the first after the last; the first
/// where nothing is selected.
pub open spec fn wrap_next(selected: Option<usize>, len: nat) -> nat {
    match selected {
        Some(i) => if i + 1 >= len {
            0
        } else {
            (i + 1) as nat
        },
        None => 0,
    }
}

/// The row above the selected one, or the last before the first; the first
/// where nothing is selected.
pub open spec fn wrap_prev(selected: Option<usize>, len: nat) -> nat {
    match selected {
        Some(i) => if i == 0 {
            (len - 1) as nat
        } else {
            (i - 1) as nat
        },
        None => 0,
    }
}

/// The row below the selection in a list of `len` rows.
pub fn next_index(selected: Option<usize>, len: usize) -> (r: usize)
    requires
        len > 0 || selected is None,
    ensures
        r as nat == wrap_next(selected, len as nat),
{
    match selected {
        Some(i) => if i >= len - 1 {
            0
        } else {
            i + 1
        },
        None => 0,
    }
}

/// The row above the selection in a list of `len` rows.
pub fn prev_index(selected: Option<usize>, len: usize) -> (r: usize)
    requires
        len > 0 || selected is None || selected != Some(0usize),
    ensures
        r as nat == wrap_prev(selected, len as nat),
{
    match selected {
        Some(i) => if i == 0 {
            len - 1
        } else {
            i - 1
        },
        None => 0,
    }
}

/// Down then up, or up then down, comes back to the row one started from,
/// and both stay within the list.
pub proof fn lemma_next_prev(i: usize, len: nat)
    requires
        i < len,
        len <= usize::MAX,
    ensures
        wrap_next(Some(i), len) < len,
        wrap_prev(Some(i), len) < len,
        wrap_prev(Some(wrap_next(Some(i), len) as usize), len) == i,
        wrap_next(Some(wrap_prev(Some(i), len) as usize), len) == i,
{
}

} // verus!

//! What each pane view is given to draw.
use vstd::prelude::*;

verus! {

/// The search matches and current match a pane draws: those of the search
/// when the pane is active and a search is open, none otherwise.
pub fn search_args<'a>(
    is_active: bool,
    has_search: bool,
    matches: &'a [(usize, usize, usize)],
    current: usize,
) -> (r: (&'a [(usize, usize, usize)], Option<usize>))
    ensures
        is_active && has_search ==> r.0@ == matches@ && r.1 == Some(current),
        !(is_active && has_search) ==> r.0@.len() == 0 && r.1 is None,
{
    if is_active && has_search {
        (matches, Some(current))
    } else {
        let empty: &'a [(usize, usize, usize)] = &[];
        assert(empty@.len() == 0);
        (empty, None)
    }
}

} // verus!

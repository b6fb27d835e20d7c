//! Search state kept between searches: the history of queries and the
//! position among the matches of the current one.
use vstd::prelude::*;
use crate::history::MAX_ENTRIES;
use crate::text::{chars_eq, string_chars};

verus! {

/// `h` without the entries equal to `q`, in order.
pub open spec fn without(h: Seq<Seq<char>>, q: Seq<char>) -> Seq<Seq<char>>
    decreases h.len(),
{
    if h.len() == 0 {
        seq![]
    } else {
        without(h.drop_last(), q) + if h.last() == q { seq![] } else { seq![h.last()] }
    }
}

/// The history after committing query `q`: unchanged for an empty query;
/// otherwise `q` moves to the end, and the oldest entry goes when more
/// than fifty remain.
pub open spec fn pushed_history(h: Seq<Seq<char>>, q: Seq<char>) -> Seq<Seq<char>> {
    if q.len() == 0 {
        h
    } else {
        let r = without(h, q).push(q);
        if r.len() > MAX_ENTRIES { r.drop_first() } else { r }
    }
}

/// No query occurs twice.
pub open spec fn distinct(h: Seq<Seq<char>>) -> bool {
    forall|i: int, j: int| 0 <= i < j < h.len() ==> h[i] != h[j]
}

/// Search-related state of the application.
pub struct SearchState {
    /// Committed queries, oldest first.
    pub search_history: Vec<String>,
    /// The query being typed before history browsing started.
    pub search_before_history: String,
    /// Matches `(abs_row, start_col, len)` of the current query.
    pub search_matches: Vec<(usize, usize, usize)>,
    /// Index of the current match.
    pub search_current: usize,
}

impl SearchState {
    pub open spec fn history(&self) -> Seq<Seq<char>> {
        self.search_history@.map_values(|s: String| s@)
    }

    /// Records a committed query: an empty one is ignored; otherwise an
    /// earlier copy is removed, the query goes to the end, the history is
    /// cut to fifty entries, and the in-progress query is cleared.
    pub fn push_search_history(&mut self, query: String)
        ensures
            final(self).history() == pushed_history(old(self).history(), query@),
            query@.len() == 0 ==> final(self).search_before_history@ == old(self).search_before_history@,
            query@.len() > 0 ==> final(self).search_before_history@.len() == 0,
            final(self).search_matches@ == old(self).search_matches@,
            final(self).search_current == old(self).search_current,
    {
        let qc = string_chars(&query);
        if qc.len() == 0 {
            return;
        }
        let ghost h = self.history();
        let mut kept: Vec<String> = Vec::new();
        let mut i: usize = 0;
        let n = self.search_history.len();
        while i < n
            invariant
                n == self.search_history@.len(),
                i <= n,
                h == self.history(),
                qc@ == query@,
                kept@.map_values(|s: String| s@) == without(h.take(i as int), query@),
            decreases n - i,
        {
            let e = string_chars(&self.search_history[i]);
            let ghost before = kept@.map_values(|s: String| s@);
            let same = chars_eq(e.as_slice(), qc.as_slice());
            if !same {
                kept.push(self.search_history[i].clone());
            }
            proof {
                assert(h.take(i + 1).drop_last() =~= h.take(i as int));
                assert(h.take(i + 1).last() == h[i as int]);
                assert(h[i as int] == self.search_history@[i as int]@);
                assert(kept@.map_values(|s: String| s@) =~= without(h.take(i + 1), query@));
            }
            i = i + 1;
        }
        assert(h.take(n as int) =~= h);
        let ghost w = kept@.map_values(|s: String| s@);
        kept.push(query);
        assert(kept@.map_values(|s: String| s@) =~= w.push(qc@));
        if kept.len() > MAX_ENTRIES {
            let ghost before = kept@;
            kept.remove(0);
            assert(kept@.map_values(|s: String| s@) =~= before.map_values(|s: String| s@).drop_first());
        }
        self.search_history = kept;
        self.search_before_history = String::new();
    }
}

/// Entries of `without(h, q)` come from `h` and differ from `q`.
pub proof fn lemma_without_members(h: Seq<Seq<char>>, q: Seq<char>)
    ensures
        forall|k: int| 0 <= k < without(h, q).len() ==> #[trigger] without(h, q)[k] != q && h.contains(without(h, q)[k]),
        without(h, q).len() <= h.len(),
    decreases h.len(),
{
    if h.len() > 0 {
        lemma_without_members(h.drop_last(), q);
        let w = without(h, q);
        assert forall|k: int| 0 <= k < w.len() implies #[trigger] w[k] != q && h.contains(w[k]) by {
            let w0 = without(h.drop_last(), q);
            if k < w0.len() {
                assert(w[k] == w0[k]);
                let j = choose|j: int| 0 <= j < h.drop_last().len() && h.drop_last()[j] == w0[k];
                assert(h[j] == w[k]);
            } else {
                assert(w[k] == h.last());
                assert(h[h.len() - 1] == w[k]);
            }
        }
    }
}

/// `without` keeps distinct entries distinct.
pub proof fn lemma_without_distinct(h: Seq<Seq<char>>, q: Seq<char>)
    requires
        distinct(h),
    ensures
        distinct(without(h, q)),
    decreases h.len(),
{
    if h.len() > 0 {
        let hd = h.drop_last();
        assert(distinct(hd)) by {
            assert forall|i: int, j: int| 0 <= i < j < hd.len() implies hd[i] != hd[j] by {
                assert(hd[i] == h[i] && hd[j] == h[j]);
            }
        }
        lemma_without_distinct(hd, q);
        lemma_without_members(hd, q);
        let w0 = without(hd, q);
        let w = without(h, q);
        assert forall|i: int, j: int| 0 <= i < j < w.len() implies w[i] != w[j] by {
            if j < w0.len() {
                assert(w[i] == w0[i] && w[j] == w0[j]);
            } else {
                assert(w[j] == h.last());
                assert(w[i] == w0[i]);
                assert(hd.contains(w0[i]));
                let k = choose|k: int| 0 <= k < hd.len() && hd[k] == w0[i];
                assert(h[k] == hd[k]);
            }
        }
    }
}

/// Committing a query keeps the history free of repeats and at most fifty
/// long, puts the query last, and leaves it there exactly once.
pub proof fn lemma_push_history(h: Seq<Seq<char>>, q: Seq<char>)
    requires
        distinct(h),
        h.len() <= MAX_ENTRIES,
        q.len() > 0,
    ensures
        distinct(pushed_history(h, q)),
        pushed_history(h, q).len() <= MAX_ENTRIES,
        pushed_history(h, q).last() == q,
        forall|k: int| 0 <= k < pushed_history(h, q).len() - 1 ==> #[trigger] pushed_history(h, q)[k] != q,
{
    lemma_without_distinct(h, q);
    lemma_without_members(h, q);
    let w = without(h, q);
    let r = w.push(q);
    assert(distinct(r)) by {
        assert forall|i: int, j: int| 0 <= i < j < r.len() implies r[i] != r[j] by {
            if j < w.len() {
                assert(r[i] == w[i] && r[j] == w[j]);
            } else {
                assert(r[i] == w[i]);
            }
        }
    }
    if r.len() > MAX_ENTRIES {
        let d = r.drop_first();
        assert forall|i: int, j: int| 0 <= i < j < d.len() implies d[i] != d[j] by {
            assert(d[i] == r[i + 1] && d[j] == r[j + 1]);
        }
        assert forall|k: int| 0 <= k < d.len() - 1 implies #[trigger] d[k] != q by {
            assert(d[k] == w[k + 1]);
        }
    } else {
        assert forall|k: int| 0 <= k < r.len() - 1 implies #[trigger] r[k] != q by {
            assert(r[k] == w[k]);
        }
    }
}

/// The match after `current` among `len` matches, wrapping to the first.
pub fn next_match_index(current: usize, len: usize) -> (r: usize)
    requires
        len > 0,
        current < usize::MAX,
    ensures
        r == (current + 1) % (len as int),
{
    (current + 1) % len
}

/// The match before `current` among `len` matches, wrapping to the last.
pub fn prev_match_index(current: usize, len: usize) -> (r: usize)
    requires
        len > 0,
    ensures
        r == if current == 0 { len - 1 } else { current - 1 },
{
    if current == 0 { len - 1 } else { current - 1 }
}

/// Going to the previous match undoes going to the next one.
pub proof fn lemma_prev_undoes_next(current: int, len: int)
    requires
        0 <= current < len,
    ensures
        ({
            let n = (current + 1) % len;
            (if n == 0 { len - 1 } else { n - 1 }) == current
        }),
{
    if current + 1 < len {
        assert((current + 1) % len == current + 1) by (nonlinear_arith)
            requires 0 <= current + 1 < len;
    } else {
        assert((current + 1) % len == 0) by (nonlinear_arith)
            requires current + 1 == len, len > 0;
    }
}

} // verus!

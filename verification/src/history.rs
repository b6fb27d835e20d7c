//! The search-history file: one `: <unix_ts>:0;<query>` line per query
//! (zsh extended-history format), oldest first.
use vstd::prelude::*;
use crate::text::{chars_eq, chars_to_string, decimal, digit_char, find_from, lemma_find_from_range, push_all, push_decimal, push_str, str_chars, string_chars};

verus! {

/// How many queries the history keeps.
pub const MAX_ENTRIES: usize = 50;

/// A line without the `\r` of a `\r\n` ending.
pub open spec fn strip_cr(l: Seq<char>) -> Seq<char> {
    if l.len() > 0 && l.last() == '\r' { l.drop_last() } else { l }
}

/// The lines of `s` from position `p` on, as `str::lines` yields them:
/// split at `\n`, a `\r` before the `\n` removed, no empty line after a
/// final `\n`.
pub open spec fn lines_from(s: Seq<char>, p: int) -> Seq<Seq<char>>
    decreases s.len() - p,
{
    if p < 0 || p >= s.len() {
        seq![]
    } else {
        let i = find_from(s, '\n', p);
        if i < 0 {
            seq![s.subrange(p, s.len() as int)]
        } else {
            proof { lemma_find_from_range(s, '\n', p); }
            seq![strip_cr(s.subrange(p, i))] + lines_from(s, i + 1)
        }
    }
}

/// The query a history line holds: what follows the first `;` after a
/// leading `": "`, when that is not empty.
pub open spec fn line_query(l: Seq<char>) -> Option<Seq<char>> {
    if l.len() >= 2 && l[0] == ':' && l[1] == ' ' {
        let a = l.skip(2);
        let j = find_from(a, ';', 0);
        if j < 0 {
            None
        } else {
            let q = a.skip(j + 1);
            if q.len() == 0 { None } else { Some(q) }
        }
    } else {
        None
    }
}

/// The queries of the lines that hold one, in order.
pub open spec fn queries(ls: Seq<Seq<char>>) -> Seq<Seq<char>>
    decreases ls.len(),
{
    if ls.len() == 0 {
        seq![]
    } else {
        queries(ls.drop_last()) + match line_query(ls.last()) {
            Some(q) => seq![q],
            None => seq![],
        }
    }
}

/// Whether entry `i` of `e` occurs again later.
pub open spec fn occurs_later(e: Seq<Seq<char>>, i: int) -> bool {
    exists|j: int| i < j < e.len() && #[trigger] e[j] == e[i]
}

/// The entries among the first `k` that do not occur again later in `e`,
/// in order.
pub open spec fn last_occurrences(e: Seq<Seq<char>>, k: int) -> Seq<Seq<char>>
    decreases k,
{
    if k <= 0 {
        seq![]
    } else {
        last_occurrences(e, k - 1) + if occurs_later(e, k - 1) { seq![] } else { seq![e[k - 1]] }
    }
}

pub open spec fn take_at_most(e: Seq<Seq<char>>, n: int) -> Seq<Seq<char>> {
    if e.len() <= n { e } else { e.take(n) }
}

/// The history a file with contents `raw` holds: the queries of its lines,
/// each kept at its last occurrence only, the first fifty of them.
pub open spec fn history_of(raw: Seq<char>) -> Seq<Seq<char>> {
    let e = queries(lines_from(raw, 0));
    take_at_most(last_occurrences(e, e.len() as int), MAX_ENTRIES as int)
}

pub proof fn lemma_queries_concat(a: Seq<Seq<char>>, b: Seq<Seq<char>>)
    ensures
        queries(a + b) == queries(a) + queries(b),
    decreases b.len(),
{
    if b.len() == 0 {
        assert(a + b =~= a);
        assert(queries(b) =~= seq![]);
        assert(queries(a) + queries(b) =~= queries(a));
    } else {
        lemma_queries_concat(a, b.drop_last());
        assert((a + b).drop_last() =~= a + b.drop_last());
        assert((a + b).last() == b.last());
    }
}

proof fn lemma_find_from_push(s: Seq<char>, c: char, p: int)
    requires
        0 <= p <= s.len(),
    ensures
        find_from(s.push(c), c, p) == if find_from(s, c, p) >= 0 { find_from(s, c, p) } else { s.len() as int },
    decreases s.len() - p,
{
    let t = s.push(c);
    if p < s.len() {
        assert(t[p] == s[p]);
        if s[p] != c {
            lemma_find_from_push(s, c, p + 1);
        }
    } else {
        assert(t[p] == c);
    }
}

proof fn lemma_lines_newline(s: Seq<char>, p: int)
    requires
        0 <= p <= s.len(),
        s.len() > 0 ==> s.last() != '\n' && s.last() != '\r',
    ensures
        queries(lines_from(s.push('\n'), p)) == queries(lines_from(s, p)),
    decreases s.len() - p,
{
    let t = s.push('\n');
    lemma_find_from_push(s, '\n', p);
    lemma_find_from_range(s, '\n', p);
    if p == s.len() {
        assert(lines_from(t, p + 1) =~= Seq::<Seq<char>>::empty());
        assert(lines_from(t, p) =~= seq![strip_cr(t.subrange(p, p))]);
        assert(strip_cr(t.subrange(p, p)) =~= Seq::<char>::empty());
        assert(line_query(Seq::<char>::empty()) is None);
        assert(seq![strip_cr(t.subrange(p, p))].drop_last() =~= Seq::<Seq<char>>::empty());
        assert(queries(Seq::<Seq<char>>::empty()) =~= Seq::<Seq<char>>::empty());
        assert(lines_from(s, p) =~= Seq::<Seq<char>>::empty());
    } else {
        let i = find_from(s, '\n', p);
        if i >= 0 {
            assert(t.subrange(p, i) =~= s.subrange(p, i));
            lemma_lines_newline(s, i + 1);
            lemma_queries_concat(seq![strip_cr(s.subrange(p, i))], lines_from(t, i + 1));
            lemma_queries_concat(seq![strip_cr(s.subrange(p, i))], lines_from(s, i + 1));
        } else {
            let n = s.len() as int;
            assert(t.subrange(p, n) =~= s.subrange(p, n));
            assert(strip_cr(s.subrange(p, n)) == s.subrange(p, n));
            assert(lines_from(t, n + 1) =~= Seq::<Seq<char>>::empty());
            assert(lines_from(t, p) =~= seq![s.subrange(p, n)] + Seq::<Seq<char>>::empty());
            assert(lines_from(t, p) =~= lines_from(s, p));
        }
    }
}

/// The file's last line counts whether or not a newline ends it: a file
/// that does not end in a line break loads the same history as the file
/// with one appended.
pub proof fn lemma_history_last_line(raw: Seq<char>)
    requires
        raw.len() > 0 ==> raw.last() != '\n' && raw.last() != '\r',
    ensures
        history_of(raw.push('\n')) == history_of(raw),
{
    lemma_lines_newline(raw, 0);
}

/// The query of one line, `None` when the line holds none.
fn query_of_line(l: &[char]) -> (r: Option<Vec<char>>)
    ensures
        r matches Some(q) ==> line_query(l@) == Some(q@),
        r is None ==> line_query(l@) is None,
{
    let n = l.len();
    if n < 2 || l[0] != ':' || l[1] != ' ' {
        return None;
    }
    let ghost a = l@.skip(2);
    let mut j: usize = 2;
    while j < n && l[j] != ';'
        invariant
            2 <= j <= n,
            n == l@.len(),
            a == l@.skip(2),
            find_from(a, ';', 0) == find_from(a, ';', j - 2),
        decreases n - j,
    {
        j = j + 1;
    }
    if j >= n {
        return None;
    }
    let mut q: Vec<char> = Vec::new();
    let mut k: usize = j + 1;
    while k < n
        invariant
            j < k <= n,
            n == l@.len(),
            q@ == l@.subrange(j + 1, k as int),
        decreases n - k,
    {
        q.push(l[k]);
        k = k + 1;
    }
    assert(a.skip(j - 2 + 1) =~= l@.subrange(j + 1, n as int));
    if q.len() == 0 {
        None
    } else {
        Some(q)
    }
}

/// Whether entry `i` occurs again after it.
fn occurs_after(e: &Vec<Vec<char>>, i: usize) -> (r: bool)
    requires
        i < e@.len(),
    ensures
        r == occurs_later(e@.map_values(|v: Vec<char>| v@), i as int),
{
    let ghost ev = e@.map_values(|v: Vec<char>| v@);
    let n = e.len();
    let mut j: usize = i + 1;
    while j < n
        invariant
            n == e@.len(),
            i < j <= e@.len(),
            ev == e@.map_values(|v: Vec<char>| v@),
            forall|k: int| i < k < j ==> ev[k] != ev[i as int],
        decreases e@.len() - j,
    {
        if chars_eq(e[j].as_slice(), e[i].as_slice()) {
            assert(ev[j as int] == ev[i as int]);
            return true;
        }
        j = j + 1;
    }
    false
}

/// The history held by a history file whose contents are `raw`, oldest
/// query first: lines not in the `: <ts>:0;<query>` form and empty queries
/// are skipped, only the last occurrence of a repeated query is kept, and
/// at most fifty queries are returned.
pub fn load_search_history(raw: &str) -> (r: Vec<String>)
    ensures
        r@.map_values(|s: String| s@) == history_of(raw@),
{
    let s = str_chars(raw);
    let n = s.len();
    let mut entries: Vec<Vec<char>> = Vec::new();
    let mut p: usize = 0;
    proof {
        assert(queries(seq![]) =~= seq![]);
    }
    while p < n
        invariant
            n == s@.len(),
            s@ == raw@,
            p <= n,
            entries@.map_values(|v: Vec<char>| v@) + queries(lines_from(s@, p as int)) == queries(lines_from(s@, 0)),
        decreases n - p,
    {
        let mut i: usize = p;
        while i < n && s[i] != '\n'
            invariant
                p <= i <= n,
                n == s@.len(),
                find_from(s@, '\n', p as int) == find_from(s@, '\n', i as int),
            decreases n - i,
        {
            i = i + 1;
        }
        let mut end: usize = i;
        if i < n && end > p && s[end - 1] == '\r' {
            end = end - 1;
        }
        let mut line: Vec<char> = Vec::new();
        let mut k: usize = p;
        while k < end
            invariant
                p <= k <= end,
                end <= n,
                n == s@.len(),
                line@ == s@.subrange(p as int, k as int),
            decreases end - k,
        {
            line.push(s[k]);
            k = k + 1;
        }
        let ghost lines = lines_from(s@, p as int);
        let ghost rest = if i < n { lines_from(s@, i + 1) } else { seq![] };
        proof {
            if i < n {
                assert(line@ =~= strip_cr(s@.subrange(p as int, i as int)));
            } else {
                assert(line@ =~= s@.subrange(p as int, n as int));
            }
            assert(lines =~= seq![line@] + rest);
            lemma_queries_concat(seq![line@], rest);
            assert(seq![line@].drop_last() =~= seq![]);
        }
        let qo = query_of_line(line.as_slice());
        let ghost before = entries@.map_values(|v: Vec<char>| v@);
        match qo {
            Some(q) => {
                entries.push(q);
            },
            None => {},
        }
        proof {
            assert(queries(seq![line@]) == queries(seq![line@].drop_last()) + match line_query(line@) {
                Some(q) => seq![q],
                None => seq![],
            });
            let now = entries@.map_values(|v: Vec<char>| v@);
            assert(now + queries(rest) =~= before + queries(lines));
        }
        p = if i < n { i + 1 } else { n };
    }
    let ghost ev = entries@.map_values(|v: Vec<char>| v@);
    assert(ev =~= queries(lines_from(s@, 0)));
    let mut kept: Vec<Vec<char>> = Vec::new();
    let mut i: usize = 0;
    while i < entries.len()
        invariant
            i <= entries@.len(),
            ev == entries@.map_values(|v: Vec<char>| v@),
            kept@.map_values(|v: Vec<char>| v@) == last_occurrences(ev, i as int),
        decreases entries@.len() - i,
    {
        let later = occurs_after(&entries, i);
        let ghost before = kept@.map_values(|v: Vec<char>| v@);
        if !later {
            let mut copy: Vec<char> = Vec::new();
            push_all(&mut copy, entries[i].as_slice());
            kept.push(copy);
        }
        proof {
            assert(kept@.map_values(|v: Vec<char>| v@) =~= last_occurrences(ev, i + 1));
        }
        i = i + 1;
    }
    let ghost lo = last_occurrences(ev, ev.len() as int);
    let mut out: Vec<String> = Vec::new();
    let mut k: usize = 0;
    while k < kept.len() && k < MAX_ENTRIES
        invariant
            k <= kept@.len(),
            k <= MAX_ENTRIES,
            kept@.map_values(|v: Vec<char>| v@) == lo,
            out@.map_values(|s: String| s@) == lo.take(k as int),
        decreases kept@.len() - k,
    {
        let st = chars_to_string(kept[k].as_slice());
        assert(kept@[k as int]@ == lo[k as int]);
        let ghost prev = out@;
        out.push(st);
        proof {
            assert(out@ == prev.push(st));
            assert(out@.map_values(|s: String| s@) =~= prev.map_values(|s: String| s@).push(st@));
            assert(lo.take(k + 1) =~= lo.take(k as int).push(lo[k as int]));
        }
        k = k + 1;
    }
    proof {
        if lo.len() <= MAX_ENTRIES {
            assert(lo.take(k as int) =~= lo);
        }
    }
    out
}

/// The line a query is saved as: `: <ts>:0;<query>`.
pub open spec fn entry_line(q: Seq<char>, ts: nat) -> Seq<char> {
    ": "@ + decimal(ts) + ":0;"@ + q
}

/// The lines joined, each followed by `\n`, except that no query saves as
/// the single empty line.
pub open spec fn join_lines(ls: Seq<Seq<char>>) -> Seq<char>
    decreases ls.len(),
{
    if ls.len() == 0 {
        seq![]
    } else if ls.len() == 1 {
        ls[0]
    } else {
        join_lines(ls.drop_last()) + seq!['\n'] + ls.last()
    }
}

/// The contents a history is saved as: the first fifty queries, one line
/// each with the time stamp `ts`, joined by `\n`, with a final `\n`.
pub open spec fn history_file(h: Seq<Seq<char>>, ts: nat) -> Seq<char> {
    join_lines(take_at_most(h, MAX_ENTRIES as int).map_values(|q: Seq<char>| entry_line(q, ts))) + seq!['\n']
}

/// The contents of the history file for `history` saved at Unix time `ts`.
pub fn save_search_history(history: &[String], ts: u64) -> (r: String)
    ensures
        r@ == history_file(history@.map_values(|s: String| s@), ts as nat),
{
    let ghost h = history@.map_values(|s: String| s@);
    let ghost t = take_at_most(h, MAX_ENTRIES as int);
    let ghost ls = t.map_values(|q: Seq<char>| entry_line(q, ts as nat));
    let n: usize = if history.len() < MAX_ENTRIES { history.len() } else { MAX_ENTRIES };
    let mut out: Vec<char> = Vec::new();
    let mut i: usize = 0;
    while i < n
        invariant
            i <= n,
            n <= history@.len(),
            n == t.len(),
            h == history@.map_values(|s: String| s@),
            t == take_at_most(h, MAX_ENTRIES as int),
            ls == t.map_values(|q: Seq<char>| entry_line(q, ts as nat)),
            out@ == join_lines(ls.take(i as int)),
        decreases n - i,
    {
        let ghost before = out@;
        if i > 0 {
            out.push('\n');
        }
        push_str(&mut out, ": ");
        push_decimal(&mut out, ts);
        push_str(&mut out, ":0;");
        let q = string_chars(&history[i]);
        push_all(&mut out, q.as_slice());
        proof {
            assert(t[i as int] == history@[i as int]@);
            assert(ls.take(i + 1).drop_last() =~= ls.take(i as int));
            assert(ls.take(i + 1).last() == entry_line(history@[i as int]@, ts as nat));
            if i == 0 {
                assert(out@ =~= join_lines(ls.take(1)));
            } else {
                assert(out@ =~= join_lines(ls.take(i + 1)));
            }
        }
        i = i + 1;
    }
    out.push('\n');
    assert(ls.take(n as int) =~= ls);
    chars_to_string(out.as_slice())
}


/// The lines joined, each followed by `\n`.
pub open spec fn terminated_lines(ls: Seq<Seq<char>>) -> Seq<char>
    decreases ls.len(),
{
    if ls.len() == 0 {
        seq![]
    } else {
        ls[0] + seq!['\n'] + terminated_lines(ls.drop_first())
    }
}

proof fn lemma_find_from_shift(x: Seq<char>, y: Seq<char>, c: char, p: int)
    requires
        p >= 0,
    ensures
        find_from(x + y, c, x.len() + p) == if find_from(y, c, p) < 0 { -1 } else { x.len() + find_from(y, c, p) },
    decreases y.len() - p,
{
    if p < y.len() {
        assert((x + y)[x.len() + p] == y[p]);
        if y[p] != c {
            lemma_find_from_shift(x, y, c, p + 1);
        }
    }
}

proof fn lemma_lines_shift(x: Seq<char>, y: Seq<char>, p: int)
    requires
        p >= 0,
    ensures
        lines_from(x + y, x.len() + p) == lines_from(y, p),
    decreases y.len() - p,
{
    let s = x + y;
    if p < y.len() {
        lemma_find_from_shift(x, y, '\n', p);
        let i = find_from(y, '\n', p);
        if i < 0 {
            assert(s.subrange(x.len() + p, s.len() as int) =~= y.subrange(p, y.len() as int));
        } else {
            lemma_find_from_range(y, '\n', p);
            assert(s.subrange(x.len() + p, x.len() + i) =~= y.subrange(p, i));
            lemma_lines_shift(x, y, i + 1);
            assert(x.len() + i + 1 == x.len() + (i + 1));
        }
    }
}

proof fn lemma_find_after_prefix(a: Seq<char>, c: char, r: Seq<char>, p: int)
    requires
        0 <= p <= a.len(),
        forall|k: int| 0 <= k < a.len() ==> a[k] != c,
    ensures
        find_from(a + seq![c] + r, c, p) == a.len(),
    decreases a.len() - p,
{
    let s = a + seq![c] + r;
    if p < a.len() {
        assert(s[p] == a[p]);
        lemma_find_after_prefix(a, c, r, p + 1);
    } else {
        assert(s[p] == c);
    }
}

proof fn lemma_lines_of_terminated(ls: Seq<Seq<char>>)
    requires
        forall|i: int| 0 <= i < ls.len() ==> !(#[trigger] ls[i]).contains('\n'),
        forall|i: int| 0 <= i < ls.len() ==> (#[trigger] ls[i]).len() > 0 && ls[i].last() != '\r',
    ensures
        lines_from(terminated_lines(ls), 0) == ls,
    decreases ls.len(),
{
    if ls.len() > 0 {
        let l0 = ls[0];
        let rest = terminated_lines(ls.drop_first());
        let s = terminated_lines(ls);
        assert(s == l0 + seq!['\n'] + rest);
        assert forall|k: int| 0 <= k < l0.len() implies l0[k] != '\n' by {
            if l0[k] == '\n' {
                assert(l0.contains('\n'));
            }
        }
        lemma_find_after_prefix(l0, '\n', rest, 0);
        assert(s.subrange(0, l0.len() as int) =~= l0);
        let pre = l0 + seq!['\n'];
        assert(s =~= pre + rest);
        lemma_lines_shift(pre, rest, 0);
        assert forall|i: int| 0 <= i < ls.drop_first().len() implies !(#[trigger] ls.drop_first()[i]).contains('\n') by {
            assert(ls.drop_first()[i] == ls[i + 1]);
        }
        assert forall|i: int| 0 <= i < ls.drop_first().len() implies (#[trigger] ls.drop_first()[i]).len() > 0
            && ls.drop_first()[i].last() != '\r' by {
            assert(ls.drop_first()[i] == ls[i + 1]);
        }
        lemma_lines_of_terminated(ls.drop_first());
        assert(lines_from(s, 0) =~= seq![l0] + ls.drop_first());
        assert(seq![l0] + ls.drop_first() =~= ls);
    }
}

proof fn lemma_terminated_push(ls: Seq<Seq<char>>, x: Seq<char>)
    ensures
        terminated_lines(ls.push(x)) == terminated_lines(ls) + x + seq!['\n'],
    decreases ls.len(),
{
    if ls.len() == 0 {
        assert(ls.push(x).drop_first() =~= seq![]);
        assert(ls.push(x)[0] == x);
        assert(terminated_lines(ls.push(x).drop_first()) =~= seq![]);
        assert(terminated_lines(ls) =~= seq![]);
        assert(terminated_lines(ls.push(x)) =~= x + seq!['\n'] + seq![]);
        assert(terminated_lines(ls.push(x)) =~= terminated_lines(ls) + x + seq!['\n']);
    } else {
        assert(ls.push(x).drop_first() =~= ls.drop_first().push(x));
        assert(ls.push(x)[0] == ls[0]);
        lemma_terminated_push(ls.drop_first(), x);
        assert(terminated_lines(ls.push(x)) =~= terminated_lines(ls) + x + seq!['\n']);
    }
}

proof fn lemma_join_terminated(ls: Seq<Seq<char>>)
    ensures
        ls.len() > 0 ==> join_lines(ls) + seq!['\n'] == terminated_lines(ls),
    decreases ls.len(),
{
    if ls.len() == 1 {
        assert(ls.drop_first() =~= seq![]);
        assert(terminated_lines(ls.drop_first()) =~= seq![]);
        assert(join_lines(ls) + seq!['\n'] =~= terminated_lines(ls));
    } else if ls.len() > 1 {
        lemma_join_terminated(ls.drop_last());
        assert(ls.drop_last().push(ls.last()) =~= ls);
        lemma_terminated_push(ls.drop_last(), ls.last());
        assert(join_lines(ls) + seq!['\n'] =~= terminated_lines(ls));
    }
}

proof fn lemma_decimal_digits(n: nat)
    ensures
        forall|k: int| 0 <= k < decimal(n).len() ==> '0' <= #[trigger] decimal(n)[k] <= '9',
    decreases n,
{
    if n >= 10 {
        lemma_decimal_digits(n / 10);
        assert forall|k: int| 0 <= k < decimal(n).len() implies '0' <= #[trigger] decimal(n)[k] <= '9' by {
            if k < decimal(n / 10).len() {
                assert(decimal(n)[k] == decimal(n / 10)[k]);
            } else {
                assert(decimal(n)[k] == digit_char(n % 10));
            }
        }
    } else {
        assert(decimal(n)[0] == digit_char(n));
    }
}

proof fn lemma_line_query_of_entry(q: Seq<char>, ts: nat)
    requires
        q.len() > 0,
    ensures
        line_query(entry_line(q, ts)) == Some(q),
{
    let d = decimal(ts);
    let l = entry_line(q, ts);
    let a = l.skip(2);
    let pre = d + ":0"@;
    reveal_strlit(": ");
    reveal_strlit(":0;");
    reveal_strlit(":0");
    assert(a =~= pre + seq![';'] + q);
    lemma_decimal_digits(ts);
    assert forall|k: int| 0 <= k < pre.len() implies pre[k] != ';' by {
        if k < d.len() {
            assert('0' <= d[k] <= '9');
        }
    }
    lemma_find_after_prefix(pre, ';', q, 0);
    assert(a.skip(pre.len() + 1 as int) =~= q);
}

proof fn lemma_queries_of_entries(h: Seq<Seq<char>>, ts: nat)
    requires
        forall|i: int| 0 <= i < h.len() ==> (#[trigger] h[i]).len() > 0,
    ensures
        queries(h.map_values(|q: Seq<char>| entry_line(q, ts))) == h,
    decreases h.len(),
{
    if h.len() > 0 {
        let ls = h.map_values(|q: Seq<char>| entry_line(q, ts));
        assert(ls.drop_last() =~= h.drop_last().map_values(|q: Seq<char>| entry_line(q, ts)));
        assert forall|i: int| 0 <= i < h.drop_last().len() implies (#[trigger] h.drop_last()[i]).len() > 0 by {
            assert(h.drop_last()[i] == h[i]);
        }
        lemma_queries_of_entries(h.drop_last(), ts);
        lemma_line_query_of_entry(h.last(), ts);
        assert(ls.last() == entry_line(h.last(), ts));
        assert(h.drop_last().push(h.last()) =~= h);
    }
}

proof fn lemma_last_occurrences_distinct(e: Seq<Seq<char>>, k: int)
    requires
        0 <= k <= e.len(),
        forall|i: int, j: int| 0 <= i < j < e.len() ==> e[i] != e[j],
    ensures
        last_occurrences(e, k) == e.take(k),
    decreases k,
{
    if k > 0 {
        lemma_last_occurrences_distinct(e, k - 1);
        assert(!occurs_later(e, k - 1));
        assert(e.take(k - 1).push(e[k - 1]) =~= e.take(k));
    }
}

/// Reading back what was saved gives the history again: for at most fifty
/// distinct queries, none empty, none holding a line break or ending in a
/// carriage return, loading the saved file yields the same queries in the
/// same order, whatever the time stamp.
pub proof fn lemma_history_roundtrip(h: Seq<Seq<char>>, ts: nat)
    requires
        h.len() <= MAX_ENTRIES,
        forall|i: int| 0 <= i < h.len() ==> (#[trigger] h[i]).len() > 0,
        forall|i: int| 0 <= i < h.len() ==> !(#[trigger] h[i]).contains('\n'),
        forall|i: int| 0 <= i < h.len() ==> (#[trigger] h[i]).last() != '\r',
        forall|i: int, j: int| 0 <= i < j < h.len() ==> h[i] != h[j],
    ensures
        history_of(history_file(h, ts)) == h,
{
    let ls = h.map_values(|q: Seq<char>| entry_line(q, ts));
    assert(take_at_most(h, MAX_ENTRIES as int) == h);
    reveal_strlit(": ");
    reveal_strlit(":0;");
    lemma_decimal_digits(ts);
    assert forall|i: int| 0 <= i < ls.len() implies !(#[trigger] ls[i]).contains('\n') by {
        let l = ls[i];
        assert(l == entry_line(h[i], ts));
        if l.contains('\n') {
            let k = choose|k: int| 0 <= k < l.len() && l[k] == '\n';
            let d = decimal(ts);
            if k >= 2 + d.len() + 3 {
                assert(h[i][k - (2 + d.len() + 3)] == '\n');
                assert(h[i].contains('\n'));
            } else if k >= 2 && k < 2 + d.len() {
                assert(l[k] == d[k - 2]);
                assert('0' <= d[k - 2] <= '9');
            }
        }
    }
    assert forall|i: int| 0 <= i < ls.len() implies (#[trigger] ls[i]).len() > 0 && ls[i].last() != '\r' by {
        assert(ls[i] == entry_line(h[i], ts));
        assert(ls[i].last() == h[i].last());
    }
    if h.len() == 0 {
        assert(ls =~= seq![]);
        assert(history_file(h, ts) =~= seq!['\n']);
        assert(find_from(seq!['\n'], '\n', 0) == 0);
        assert(lines_from(seq!['\n'], 1) == Seq::<Seq<char>>::empty());
        assert(lines_from(seq!['\n'], 0) =~= seq![strip_cr(seq!['\n'].subrange(0, 0))]);
        assert(line_query(seq!['\n'].subrange(0, 0)) is None);
        assert(seq![strip_cr(seq!['\n'].subrange(0, 0))].drop_last() =~= seq![]);
        let l1 = lines_from(seq!['\n'], 0);
        assert(l1.len() == 1);
        assert(l1.drop_last() =~= seq![]);
        assert(queries(l1.drop_last()) =~= seq![]);
        assert(l1.last() =~= seq![]);
        assert(line_query(l1.last()) is None);
        assert(queries(l1) =~= seq![]);
        lemma_last_occurrences_distinct(seq![], 0);
    } else {
        lemma_join_terminated(ls);
        lemma_lines_of_terminated(ls);
        lemma_queries_of_entries(h, ts);
        lemma_last_occurrences_distinct(h, h.len() as int);
        assert(h.take(h.len() as int) =~= h);
    }
}

} // verus!

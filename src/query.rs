//! Reading one key out of a URL query string (`?a=1&b=2`).

use vstd::prelude::*;

verus! {

/// The pieces of `s` between occurrences of `c`, as `str::split` yields them:
/// an empty `s` gives one empty piece, and each `c` starts a new piece.
pub open spec fn split(s: Seq<char>, c: char) -> Seq<Seq<char>>
    decreases s.len(),
{
    if s.len() == 0 {
        seq![Seq::empty()]
    } else {
        let rest = split(s.drop_first(), c);
        if s[0] == c {
            seq![Seq::empty()] + rest
        } else {
            rest.update(0, seq![s[0]] + rest[0])
        }
    }
}

/// Looks `key` up in a list of `key=value` pairs, first match first. A pair
/// without `=` ends the search with nothing; a value stops at a second `=`.
pub open spec fn pair_value(pairs: Seq<Seq<char>>, key: Seq<char>) -> Option<Seq<char>>
    decreases pairs.len(),
{
    if pairs.len() == 0 {
        None
    } else {
        let parts = split(pairs[0], '=');
        if parts.len() < 2 {
            None
        } else if parts[0] == key {
            Some(parts[1])
        } else {
            pair_value(pairs.drop_first(), key)
        }
    }
}

/// The value of `key` in `query`: nothing unless `query` starts with `?`,
/// then the lookup over the `&`-separated pairs that follow.
pub open spec fn query_value(query: Seq<char>, key: Seq<char>) -> Option<Seq<char>> {
    if query.len() > 0 && query[0] == '?' {
        pair_value(split(query.drop_first(), '&'), key)
    } else {
        None
    }
}

proof fn lemma_split_at_first(s: Seq<char>, c: char, i: int)
    requires
        0 <= i <= s.len(),
        forall|j: int| 0 <= j < i ==> s[j] != c,
        i < s.len() ==> s[i] == c,
    ensures
        split(s, c).len() >= 1,
        split(s, c)[0] == s.take(i),
        i < s.len() ==> split(s, c).drop_first() == split(s.skip(i + 1), c),
        i == s.len() ==> split(s, c).len() == 1,
    decreases i,
{
    if s.len() == 0 {
        assert(s.take(i) =~= Seq::<char>::empty());
    } else if i == 0 {
        assert(s.take(0) =~= Seq::<char>::empty());
        assert(split(s, c).drop_first() =~= split(s.drop_first(), c));
        assert(s.skip(1) =~= s.drop_first());
    } else {
        let t = s.drop_first();
        lemma_split_at_first(t, c, i - 1);
        let rest = split(t, c);
        assert(split(s, c) == rest.update(0, seq![s[0]] + rest[0]));
        assert(s.take(i) =~= seq![s[0]] + t.take(i - 1));
        if i < s.len() {
            assert(split(s, c).drop_first() =~= rest.drop_first());
            assert(t.skip(i) =~= s.skip(i + 1));
        }
    }
}

/// First position in `[from, to)` holding `c`, or `to`.
fn find_char(s: &str, from: usize, to: usize, c: char) -> (i: usize)
    requires
        from <= to <= s@.len(),
    ensures
        from <= i <= to,
        forall|j: int| from <= j < i ==> s@[j] != c,
        i < to ==> s@[i as int] == c,
{
    let mut i = from;
    while i < to
        invariant
            from <= i <= to <= s@.len(),
            forall|j: int| from <= j < i ==> s@[j] != c,
        decreases to - i,
    {
        if s.get_char(i) == c {
            return i;
        }
        i = i + 1;
    }
    i
}

/// Whether the characters of `s` in `[from, to)` are exactly `key`.
fn matches_at(s: &str, from: usize, to: usize, key: &str) -> (r: bool)
    requires
        from <= to <= s@.len(),
    ensures
        r == (s@.subrange(from as int, to as int) == key@),
{
    let n = key.unicode_len();
    if n != to - from {
        return false;
    }
    let mut k: usize = 0;
    while k < n
        invariant
            n == key@.len(),
            n == to - from,
            from <= to <= s@.len(),
            k <= n,
            forall|j: int| 0 <= j < k ==> s@[from + j] == key@[j],
        decreases n - k,
    {
        if s.get_char(from + k) != key.get_char(k) {
            assert(s@.subrange(from as int, to as int)[k as int] != key@[k as int]);
            return false;
        }
        k = k + 1;
    }
    assert(s@.subrange(from as int, to as int) =~= key@);
    true
}

/// Returns the value of `search_key` in a query string as a browser reports
/// it (`?key=value&other=thing`).
///
/// The query must start with `?`. Pairs are separated by `&` and are looked at
/// in order; the first whose key equals `search_key` gives its value (up to a
/// second `=`, if any). A pair without `=` ends the search with `None`.
pub fn parse_url_query_string<'a>(query: &'a str, search_key: &str) -> (r: Option<&'a str>)
    ensures
        match r {
            Some(v) => query_value(query@, search_key@) == Some(v@),
            None => query_value(query@, search_key@) is None,
        },
{
    let n = query.unicode_len();
    if n == 0 || query.get_char(0) != '?' {
        return None;
    }
    let ghost q = query@;
    let ghost target = pair_value(split(q.drop_first(), '&'), search_key@);
    let mut p: usize = 1;
    loop
        invariant
            n == q.len(),
            q == query@,
            1 <= p <= n,
            target == query_value(q, search_key@),
            target == pair_value(split(q.subrange(p as int, n as int), '&'), search_key@),
        decreases n - p,
    {
        let ghost rest = q.subrange(p as int, n as int);
        let end = find_char(query, p, n, '&');
        proof {
            lemma_split_at_first(rest, '&', end - p);
        }
        let ghost pair = rest.take(end - p);
        assert(pair =~= q.subrange(p as int, end as int));
        let eq = find_char(query, p, end, '=');
        proof {
            lemma_split_at_first(pair, '=', eq - p);
        }
        if eq == end {
            return None;
        }
        let ghost after = pair.skip(eq - p + 1);
        assert(after =~= q.subrange(eq + 1, end as int));
        let value_end = find_char(query, eq + 1, end, '=');
        proof {
            lemma_split_at_first(after, '=', value_end - eq - 1);
            assert(pair.take(eq - p) =~= q.subrange(p as int, eq as int));
            assert(after.take(value_end - eq - 1) =~= q.subrange(eq + 1, value_end as int));
        }
        if matches_at(query, p, eq, search_key) {
            return Some(query.substring_char(eq + 1, value_end));
        }
        if end == n {
            assert(split(rest, '&').drop_first().len() == 0);
            assert(pair_value(split(rest, '&').drop_first(), search_key@) is None);
            return None;
        }
        proof {
            assert(rest.skip(end - p + 1) =~= q.subrange(end + 1, n as int));
        }
        p = end + 1;
    }
}

} // verus!

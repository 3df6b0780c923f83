//! The fuzzy subsequence matcher shared by the selector dropdowns and the
//! cross-cluster search, together with the substring test used by the list
//! filter and the descending-score ranking of candidates.

use vstd::prelude::*;

verus! {

/// Queries longer than this never match; the bound keeps every score far
/// below `i64::MAX`, and no string that fits in memory comes near it.
pub const FUZZY_MAX_QUERY: usize = 0x100_0000;

/// What `str::to_lowercase` returns, as a function of the characters alone.
pub uninterp spec fn lower_of(s: Seq<char>) -> Seq<char>;

/// Relies on `str::to_lowercase`: its result depends on the characters of
/// `s` alone, and lowercasing the empty string yields the empty string.
#[verifier::external_body]
pub(crate) fn lower_chars(s: &str) -> (r: Vec<char>)
    ensures
        r@ == lower_of(s@),
        s@.len() == 0 ==> r@.len() == 0,
{
    s.to_lowercase().chars().collect()
}

/// A match starting right after one of these characters earns the
/// word-boundary bonus.
pub open spec fn is_boundary_char(c: char) -> bool {
    c == '-' || c == '_' || c == '/'
}

/// One left-to-right walk over the target from the current position.
/// `qi` is how many query characters have been consumed so far,
/// `prev_matched` whether the previous target character was matched, and
/// `boundary` whether the current position starts the target or follows a
/// boundary character. Returns the final count of consumed query characters
/// and the score earned over this part of the walk.
pub open spec fn fuzzy_walk(
    q: Seq<char>,
    t: Seq<char>,
    qi: int,
    prev_matched: bool,
    boundary: bool,
) -> (int, int)
    decreases t.len(),
{
    if t.len() == 0 {
        (qi, 0)
    } else if qi < q.len() && t[0] == q[qi] {
        let pts = 1 + (if prev_matched {
            2int
        } else {
            0int
        }) + (if boundary {
            3int
        } else {
            0int
        });
        let rest = fuzzy_walk(q, t.drop_first(), qi + 1, true, is_boundary_char(t[0]));
        (rest.0, pts + rest.1)
    } else {
        fuzzy_walk(q, t.drop_first(), qi, false, is_boundary_char(t[0]))
    }
}

/// The bonus awarded to targets shorter than 100 characters.
pub open spec fn shorter_bonus(tlen: int) -> int {
    if tlen < 100 {
        100 - tlen
    } else {
        0
    }
}

/// The score of matching query `q` against target `t`, both already
/// lowercased, or `None` when `q` is not consumed in full. The empty query
/// matches everything with score 0.
pub open spec fn fuzzy_score(q: Seq<char>, t: Seq<char>) -> Option<i64> {
    if q.len() == 0 {
        Some(0i64)
    } else if q.len() > FUZZY_MAX_QUERY {
        None
    } else {
        let walk = fuzzy_walk(q, t, 0, false, true);
        if walk.0 == q.len() {
            Some((walk.1 + shorter_bonus(t.len() as int)) as i64)
        } else {
            None
        }
    }
}

/// The walk consumes query characters in order and earns at most 6 points
/// for each one.
pub proof fn lemma_walk_bounds(q: Seq<char>, t: Seq<char>, qi: int, prev_matched: bool, boundary: bool)
    requires
        0 <= qi <= q.len(),
    ensures
        ({
            let w = fuzzy_walk(q, t, qi, prev_matched, boundary);
            qi <= w.0 <= q.len() && 0 <= w.1 <= 6 * (w.0 - qi)
        }),
    decreases t.len(),
{
    if t.len() == 0 {
    } else if qi < q.len() && t[0] == q[qi] {
        lemma_walk_bounds(q, t.drop_first(), qi + 1, true, is_boundary_char(t[0]));
    } else {
        lemma_walk_bounds(q, t.drop_first(), qi, false, is_boundary_char(t[0]));
    }
}

/// The matcher on lowercased character vectors: walks the target once and
/// returns exactly the specified score.
pub fn fuzzy_match_chars(query: &Vec<char>, target: &Vec<char>) -> (r: Option<i64>)
    ensures
        r == fuzzy_score(query@, target@),
{
    if query.len() == 0 {
        return Some(0);
    }
    if query.len() > FUZZY_MAX_QUERY {
        return None;
    }
    let ghost total = fuzzy_walk(query@, target@, 0, false, true);
    proof {
        lemma_walk_bounds(query@, target@, 0, false, true);
        assert(target@.skip(0) =~= target@);
    }
    let mut qi: usize = 0;
    let mut score: i64 = 0;
    let mut prev_matched: bool = false;
    let mut boundary: bool = true;
    let mut ti: usize = 0;
    while ti < target.len()
        invariant
            0 < query@.len() <= FUZZY_MAX_QUERY,
            qi <= query@.len(),
            ti <= target@.len(),
            0 <= score <= 6 * (qi as int),
            total == fuzzy_score_walk_total(query@, target@),
            ({
                let w = fuzzy_walk(query@, target@.skip(ti as int), qi as int, prev_matched, boundary);
                total.0 == w.0 && total.1 == score + w.1
            }),
        decreases target@.len() - ti,
    {
        let ghost t_rest = target@.skip(ti as int);
        proof {
            assert(t_rest.len() > 0);
            assert(t_rest[0] == target@[ti as int]);
            assert(t_rest.drop_first() =~= target@.skip(ti as int + 1));
        }
        let tc: char = target[ti];
        if qi < query.len() && tc == query[qi] {
            let mut pts: i64 = 1;
            if prev_matched {
                pts = pts + 2;
            }
            if boundary {
                pts = pts + 3;
            }
            proof {
                lemma_walk_bounds(query@, t_rest.drop_first(), qi as int + 1, true, is_boundary_char(t_rest[0]));
            }
            score = score + pts;
            prev_matched = true;
            qi = qi + 1;
        } else {
            prev_matched = false;
        }
        boundary = tc == '-' || tc == '_' || tc == '/';
        ti = ti + 1;
    }
    proof {
        assert(target@.skip(ti as int) =~= Seq::<char>::empty());
    }
    if qi == query.len() {
        let tlen: usize = target.len();
        let bonus: i64 = if tlen < 100 {
            (100 - tlen) as i64
        } else {
            0
        };
        Some(score + bonus)
    } else {
        None
    }
}

/// The full walk over `t`, from the start of `q`.
pub open spec fn fuzzy_score_walk_total(q: Seq<char>, t: Seq<char>) -> (int, int) {
    fuzzy_walk(q, t, 0, false, true)
}

/// Fuzzy subsequence match. Returns a score if all characters in `query`
/// appear in order, case-insensitively, within `target`, or `None` if they
/// do not. The empty query matches everything with score 0.
pub fn fuzzy_match(query: &str, target: &str) -> (r: Option<i64>)
    ensures
        r == fuzzy_score(lower_of(query@), lower_of(target@)),
        query@.len() == 0 ==> r == Some(0i64),
{
    let q = lower_chars(query);
    let t = lower_chars(target);
    fuzzy_match_chars(&q, &t)
}

/// The score the ranking assigns to entry `i` of `names` under `query`.
pub open spec fn rank_score(names: Seq<String>, query: Seq<char>, i: int) -> Option<i64> {
    fuzzy_score(lower_of(query), lower_of(names[i]@))
}

/// The character sequences of a sequence of strings.
pub open spec fn seq_views(names: Seq<String>) -> Seq<Seq<char>> {
    names.map_values(|s: String| s@)
}

/// `idxs` ranks the entries of `items` under `query`: it lists exactly the
/// indices whose entry fuzzily matches the query, each once, in descending
/// score order.
pub open spec fn ranked_view(idxs: Seq<usize>, items: Seq<Seq<char>>, query: Seq<char>) -> bool {
    &&& forall|k: int|
        0 <= k < idxs.len() ==> (#[trigger] idxs[k]) < items.len() && fuzzy_score(
            lower_of(query),
            lower_of(items[idxs[k] as int]),
        ) is Some
    &&& forall|j: int|
        0 <= j < items.len() && fuzzy_score(lower_of(query), lower_of(#[trigger] items[j]))
            is Some ==> exists|k: int| 0 <= k < idxs.len() && (#[trigger] idxs[k]) as int == j
    &&& forall|k1: int, k2: int|
        0 <= k1 < k2 < idxs.len() ==> fuzzy_score(
            lower_of(query),
            lower_of(items[idxs[k1] as int]),
        )->0 >= fuzzy_score(lower_of(query), lower_of(items[idxs[k2] as int]))->0
    &&& forall|k1: int, k2: int| 0 <= k1 < k2 < idxs.len() ==> idxs[k1] != idxs[k2]
}

/// Ranks the entries of `names` that fuzzily match `query`, best score
/// first; entries that do not match are left out. Entries with equal scores
/// keep the order in which they appear in `names`.
pub fn rank_by_fuzzy(names: &Vec<String>, query: &str) -> (idxs: Vec<usize>)
    ensures
        ranked_view(idxs@, seq_views(names@), query@),
{
    let n: usize = names.len();
    let mut out: Vec<(usize, i64)> = Vec::new();
    let mut i: usize = 0;
    while i < n
        invariant
            n == names@.len(),
            i <= n,
            forall|k: int|
                0 <= k < out@.len() ==> (#[trigger] out@[k]).0 < i && rank_score(
                    names@,
                    query@,
                    out@[k].0 as int,
                ) is Some && out@[k].1 == rank_score(names@, query@, out@[k].0 as int)->0,
            forall|j: int|
                0 <= j < i && rank_score(names@, query@, j) is Some ==> exists|k: int|
                    0 <= k < out@.len() && (#[trigger] out@[k]).0 as int == j,
            forall|k1: int, k2: int| 0 <= k1 < k2 < out@.len() ==> out@[k1].1 >= out@[k2].1,
            forall|k1: int, k2: int| 0 <= k1 < k2 < out@.len() ==> out@[k1].0 != out@[k2].0,
        decreases n - i,
    {
        let m = fuzzy_match(query, names[i].as_str());
        if let Some(s) = m {
            let mut p: usize = 0;
            while p < out.len() && out[p].1 >= s
                invariant
                    p <= out@.len(),
                    forall|k: int| 0 <= k < p ==> (#[trigger] out@[k]).1 >= s,
                decreases out@.len() - p,
            {
                p = p + 1;
            }
            let ghost prior = out@;
            proof {
                prior.insert_ensures(p as int, (i, s));
            }
            out.insert(p, (i, s));
            proof {
                assert forall|k1: int, k2: int|
                    0 <= k1 < k2 < out@.len() implies out@[k1].1 >= out@[k2].1 by {
                    if k2 < p {
                    } else if k1 == p {
                        assert(out@[k2] == prior[k2 - 1]);
                        assert(prior[k2 - 1].1 < s || (p < prior.len() && prior[p as int].1 < s
                            && prior[p as int].1 >= prior[k2 - 1].1)) by {
                            if p < prior.len() {
                                assert(prior[p as int].1 < s);
                            }
                        }
                        if k2 - 1 > p {
                            assert(prior[p as int].1 >= prior[k2 - 1].1);
                        }
                    } else if k2 == p {
                        assert(out@[k1] == prior[k1]);
                    } else if k1 < p {
                        assert(out@[k1] == prior[k1]);
                        assert(out@[k2] == prior[k2 - 1]);
                    } else {
                        assert(out@[k1] == prior[k1 - 1]);
                        assert(out@[k2] == prior[k2 - 1]);
                    }
                }
                assert forall|j: int|
                    0 <= j < i + 1 && rank_score(names@, query@, j) is Some implies exists|k: int|
                        0 <= k < out@.len() && (#[trigger] out@[k]).0 as int == j by {
                    if j == i {
                        assert(out@[p as int].0 as int == j);
                    } else {
                        let k0 = choose|k: int|
                            0 <= k < prior.len() && (#[trigger] prior[k]).0 as int == j;
                        if k0 < p {
                            assert(out@[k0].0 as int == j);
                        } else {
                            assert(out@[k0 + 1].0 as int == j);
                        }
                    }
                }
            }
        }
        i = i + 1;
    }
    let mut idxs: Vec<usize> = Vec::new();
    let mut k: usize = 0;
    while k < out.len()
        invariant
            k <= out@.len(),
            idxs@.len() == k,
            forall|t: int| 0 <= t < k ==> #[trigger] idxs@[t] == out@[t].0,
            forall|t: int|
                0 <= t < out@.len() ==> (#[trigger] out@[t]).0 < names@.len() && rank_score(
                    names@,
                    query@,
                    out@[t].0 as int,
                ) is Some && out@[t].1 == rank_score(names@, query@, out@[t].0 as int)->0,
            forall|j: int|
                0 <= j < names@.len() && rank_score(names@, query@, j) is Some ==> exists|t: int|
                    0 <= t < out@.len() && (#[trigger] out@[t]).0 as int == j,
            forall|t1: int, t2: int| 0 <= t1 < t2 < out@.len() ==> out@[t1].1 >= out@[t2].1,
            forall|t1: int, t2: int| 0 <= t1 < t2 < out@.len() ==> out@[t1].0 != out@[t2].0,
        decreases out@.len() - k,
    {
        let pair = out[k];
        idxs.push(pair.0);
        k = k + 1;
    }
    proof {
        assert forall|j: int|
            0 <= j < names@.len() && rank_score(names@, query@, j) is Some implies exists|t: int|
                0 <= t < idxs@.len() && (#[trigger] idxs@[t]) as int == j by {
            let t0 = choose|t: int| 0 <= t < out@.len() && (#[trigger] out@[t]).0 as int == j;
            assert(idxs@[t0] as int == j);
        }
        let items = seq_views(names@);
        assert(items.len() == names@.len());
        assert forall|i: int| 0 <= i < names@.len() implies #[trigger] items[i] == names@[i]@ by {
        }
        assert forall|k: int|
            0 <= k < idxs@.len() implies (#[trigger] idxs@[k]) < items.len() && fuzzy_score(
            lower_of(query@),
            lower_of(items[idxs@[k] as int]),
        ) is Some by {
            assert(items[idxs@[k] as int] == names@[idxs@[k] as int]@);
        }
        assert forall|j: int|
            0 <= j < items.len() && fuzzy_score(lower_of(query@), lower_of(#[trigger] items[j]))
                is Some implies exists|k: int|
            0 <= k < idxs@.len() && (#[trigger] idxs@[k]) as int == j by {
            assert(items[j] == names@[j]@);
            assert(rank_score(names@, query@, j) is Some);
        }
        assert forall|k1: int, k2: int|
            0 <= k1 < k2 < idxs@.len() implies fuzzy_score(
            lower_of(query@),
            lower_of(items[idxs@[k1] as int]),
        )->0 >= fuzzy_score(lower_of(query@), lower_of(items[idxs@[k2] as int]))->0 by {
            assert(items[idxs@[k1] as int] == names@[idxs@[k1] as int]@);
            assert(items[idxs@[k2] as int] == names@[idxs@[k2] as int]@);
        }
        assert(ranked_view(idxs@, seq_views(names@), query@));
    }
    idxs
}

/// `q` appears, in order though not necessarily contiguously, within `t`.
pub open spec fn is_subsequence(q: Seq<char>, t: Seq<char>) -> bool
    decreases t.len(),
{
    if q.len() == 0 {
        true
    } else if t.len() == 0 {
        false
    } else {
        (q[0] == t[0] && is_subsequence(q.drop_first(), t.drop_first())) || is_subsequence(
            q,
            t.drop_first(),
        )
    }
}

/// Dropping the head of the query preserves being a subsequence.
proof fn lemma_subsequence_drop_query(q: Seq<char>, t: Seq<char>)
    requires
        q.len() > 0,
        is_subsequence(q, t),
    ensures
        is_subsequence(q.drop_first(), t),
    decreases t.len(),
{
    if t.len() == 0 {
    } else if q[0] == t[0] && is_subsequence(q.drop_first(), t.drop_first()) {
        if q.drop_first().len() > 0 {
            assert(is_subsequence(q.drop_first(), t));
        }
    } else {
        lemma_subsequence_drop_query(q, t.drop_first());
    }
}

/// The greedy walk consumes the whole query exactly when the unconsumed part
/// of the query is a subsequence of the remaining target.
proof fn lemma_walk_consumes_iff_subsequence(
    q: Seq<char>,
    t: Seq<char>,
    qi: int,
    prev_matched: bool,
    boundary: bool,
)
    requires
        0 <= qi <= q.len(),
    ensures
        fuzzy_walk(q, t, qi, prev_matched, boundary).0 == q.len() <==> is_subsequence(
            q.skip(qi),
            t,
        ),
    decreases t.len(),
{
    let rest = q.skip(qi);
    if t.len() == 0 {
        assert(is_subsequence(rest, t) <==> rest.len() == 0);
    } else if qi < q.len() && t[0] == q[qi] {
        lemma_walk_consumes_iff_subsequence(q, t.drop_first(), qi + 1, true, is_boundary_char(t[0]));
        assert(rest.len() > 0 && rest[0] == q[qi]);
        assert(rest.drop_first() =~= q.skip(qi + 1));
        if is_subsequence(rest, t) {
            lemma_subsequence_drop_query(rest, t);
            if !(rest[0] == t[0] && is_subsequence(rest.drop_first(), t.drop_first())) {
                assert(is_subsequence(rest, t.drop_first()));
                lemma_subsequence_drop_query(rest, t.drop_first());
            }
        }
    } else {
        lemma_walk_consumes_iff_subsequence(q, t.drop_first(), qi, false, is_boundary_char(t[0]));
        if qi == q.len() {
            assert(rest.len() == 0);
        } else {
            assert(rest.len() > 0 && rest[0] == q[qi] && rest[0] != t[0]);
            assert(is_subsequence(rest, t) <==> is_subsequence(rest, t.drop_first()));
        }
    }
}

/// Absence law: the matcher returns no score exactly when the query's
/// characters are not a subsequence of the target's. (Queries longer than
/// `FUZZY_MAX_QUERY` are rejected outright and are left out here.)
pub proof fn lemma_fuzzy_none_iff_not_subsequence(q: Seq<char>, t: Seq<char>)
    requires
        q.len() <= FUZZY_MAX_QUERY,
    ensures
        fuzzy_score(q, t) is None <==> !is_subsequence(q, t),
{
    if q.len() == 0 {
    } else {
        lemma_walk_consumes_iff_subsequence(q, t, 0, false, true);
        assert(q.skip(0) =~= q);
    }
}

/// Scoring law: against the query "pod", the exact target "pod" scores
/// strictly higher than the longer target "my-pod-long-name"; the
/// shorter-target bonus dominates.
pub proof fn lemma_exact_target_outscores_longer()
    ensures
        ({
            let q = seq!['p', 'o', 'd'];
            let short = fuzzy_score(q, seq!['p', 'o', 'd']);
            let long = fuzzy_score(
                q,
                seq!['m', 'y', '-', 'p', 'o', 'd', '-', 'l', 'o', 'n', 'g', '-', 'n', 'a', 'm', 'e'],
            );
            short is Some && long is Some && short->0 > long->0
        }),
{
    reveal_with_fuel(fuzzy_walk, 18);
    let q = seq!['p', 'o', 'd'];
    let ts = seq!['p', 'o', 'd'];
    let tl = seq!['m', 'y', '-', 'p', 'o', 'd', '-', 'l', 'o', 'n', 'g', '-', 'n', 'a', 'm', 'e'];
    assert(fuzzy_walk(q, ts, 0, false, true) == (3int, 10int));
    assert(fuzzy_walk(q, tl, 0, false, true) == (3int, 10int));
    assert(fuzzy_score(q, ts) == Some(107i64));
    assert(fuzzy_score(q, tl) == Some(94i64));
}

/// `needle` occurs contiguously somewhere within `hay`.
pub open spec fn contains_seq(hay: Seq<char>, needle: Seq<char>) -> bool {
    exists|i: int|
        0 <= i && i + needle.len() <= hay.len() && #[trigger] hay.subrange(i, i + needle.len())
            == needle
}

/// Substring test: scans `hay` for a contiguous occurrence of `needle`.
pub fn contains_chars(hay: &Vec<char>, needle: &Vec<char>) -> (r: bool)
    ensures
        r == contains_seq(hay@, needle@),
{
    let n: usize = needle.len();
    let h: usize = hay.len();
    if n > h {
        assert(!contains_seq(hay@, needle@));
        return false;
    }
    if n == 0 {
        proof {
            assert(hay@.subrange(0int, 0int + needle@.len()) =~= needle@);
            assert(contains_seq(hay@, needle@));
        }
        return true;
    }
    let mut i: usize = 0;
    while i <= h - n
        invariant
            1 <= n <= h,
            h == hay@.len(),
            n == needle@.len(),
            i <= h - n + 1,
            forall|k: int|
                0 <= k < i ==> #[trigger] hay@.subrange(k, k + needle@.len()) != needle@,
        decreases h - n - i + 1,
    {
        let mut j: usize = 0;
        let mut all_eq: bool = true;
        proof {
            assert(hay@.subrange(i as int, i as int) =~= needle@.subrange(0, 0));
        }
        while j < n
            invariant
                1 <= n <= h,
                h == hay@.len(),
                n == needle@.len(),
                i + n <= h,
                j <= n,
                all_eq <==> hay@.subrange(i as int, i + j as int) == needle@.subrange(0, j as int),
            decreases n - j,
        {
            let ghost pre_h = hay@.subrange(i as int, i + j as int);
            let ghost pre_n = needle@.subrange(0, j as int);
            let ghost ext_h = hay@.subrange(i as int, i + j + 1 as int);
            let ghost ext_n = needle@.subrange(0, j + 1 as int);
            proof {
                assert(ext_h =~= pre_h.push(hay@[i + j as int]));
                assert(ext_n =~= pre_n.push(needle@[j as int]));
                assert(ext_h.subrange(0, j as int) =~= pre_h);
                assert(ext_n.subrange(0, j as int) =~= pre_n);
            }
            if hay[i + j] != needle[j] {
                all_eq = false;
                proof {
                    assert(ext_h[j as int] != ext_n[j as int]);
                }
            } else {
                proof {
                    if all_eq {
                        assert(ext_h =~= ext_n);
                    }
                }
            }
            j = j + 1;
        }
        if all_eq {
            proof {
                assert(needle@.subrange(0, n as int) =~= needle@);
                assert(hay@.subrange(i as int, i + needle@.len()) == needle@);
            }
            return true;
        }
        proof {
            assert(needle@.subrange(0, n as int) =~= needle@);
            assert(hay@.subrange(i as int, i + needle@.len()) != needle@);
        }
        i = i + 1;
    }
    assert(!contains_seq(hay@, needle@));
    false
}

} // verus!

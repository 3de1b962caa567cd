use crate::syntax_select::names_view;
use crate::text::{chars_of, string_from_chars};
use vstd::prelude::*;

verus! {

/// Heuristic matches for a text, one per disambiguation that had a matching
/// rule: the score of that rule and the languages it names.
pub open spec fn matches_view(m: Vec<(usize, Vec<String>)>) -> Seq<(usize, Seq<Seq<char>>)> {
    m@.map_values(|e: (usize, Vec<String>)| (e.0, names_view(e.1)))
}

/// The (score, language) pairs of one match.
pub open spec fn match_entries(e: (usize, Seq<Seq<char>>)) -> Seq<(usize, Seq<char>)> {
    e.1.map_values(|n: Seq<char>| (e.0, n))
}

/// Every (score, language) pair of the matches, in order.
pub open spec fn flat_matches(m: Seq<(usize, Seq<Seq<char>>)>) -> Seq<(usize, Seq<char>)>
    decreases m.len(),
{
    if m.len() == 0 {
        Seq::empty()
    } else {
        flat_matches(m.drop_last()) + match_entries(m.last())
    }
}

/// The summed score of a language over the pairs.
pub open spec fn score_of(f: Seq<(usize, Seq<char>)>, n: Seq<char>) -> int
    decreases f.len(),
{
    if f.len() == 0 {
        0
    } else {
        score_of(f.drop_last(), n) + if f.last().1 == n {
            f.last().0 as int
        } else {
            0
        }
    }
}

/// How many pairs name a language.
pub open spec fn count_of(f: Seq<(usize, Seq<char>)>, n: Seq<char>) -> int
    decreases f.len(),
{
    if f.len() == 0 {
        0
    } else {
        count_of(f.drop_last(), n) + if f.last().1 == n {
            1int
        } else {
            0
        }
    }
}

/// The summed score of all pairs.
pub open spec fn total_score(f: Seq<(usize, Seq<char>)>) -> int
    decreases f.len(),
{
    if f.len() == 0 {
        0
    } else {
        total_score(f.drop_last()) + f.last().0
    }
}

/// Whether some pair names the language.
pub open spec fn is_candidate(f: Seq<(usize, Seq<char>)>, n: Seq<char>) -> bool {
    exists|k: int| 0 <= k < f.len() && #[trigger] f[k].1 == n
}

/// `a` ranks above `b`: a higher summed score, or the same score from more
/// matches.
pub open spec fn ranks_above(f: Seq<(usize, Seq<char>)>, a: Seq<char>, b: Seq<char>) -> bool {
    score_of(f, a) > score_of(f, b) || (score_of(f, a) == score_of(f, b) && count_of(f, a) > count_of(f,
        b))
}

/// The language the content points to: a candidate that ranks above every
/// other candidate. When the two best tie, there is none.
pub open spec fn is_content_winner(f: Seq<(usize, Seq<char>)>, n: Seq<char>) -> bool {
    is_candidate(f, n) && forall|o: Seq<char>| #[trigger] is_candidate(f, o) && o != n ==> ranks_above(f, n, o)
}

/// The sums fit in a machine word.
pub open spec fn content_sums_fit(m: Seq<(usize, Seq<Seq<char>>)>) -> bool {
    total_score(flat_matches(m)) <= usize::MAX && flat_matches(m).len() <= usize::MAX
}

proof fn lemma_flat_append(s: Seq<(usize, Seq<Seq<char>>)>, t: Seq<(usize, Seq<Seq<char>>)>)
    ensures
        flat_matches(s + t) == flat_matches(s) + flat_matches(t),
    decreases t.len(),
{
    if t.len() == 0 {
        assert(s + t =~= s);
        assert(flat_matches(s) + flat_matches(t) =~= flat_matches(s));
    } else {
        assert((s + t).drop_last() =~= s + t.drop_last());
        lemma_flat_append(s, t.drop_last());
        assert(flat_matches(s + t) =~= flat_matches(s) + flat_matches(t));
    }
}

proof fn lemma_total_append(f: Seq<(usize, Seq<char>)>, g: Seq<(usize, Seq<char>)>)
    ensures
        total_score(f + g) == total_score(f) + total_score(g),
        total_score(g) >= 0,
    decreases g.len(),
{
    if g.len() == 0 {
        assert(f + g =~= f);
    } else {
        assert((f + g).drop_last() =~= f + g.drop_last());
        lemma_total_append(f, g.drop_last());
    }
}

proof fn lemma_sums_bounded(f: Seq<(usize, Seq<char>)>, n: Seq<char>)
    ensures
        0 <= score_of(f, n) <= total_score(f),
        0 <= count_of(f, n) <= f.len(),
    decreases f.len(),
{
    if f.len() > 0 {
        lemma_sums_bounded(f.drop_last(), n);
    }
}

proof fn lemma_entries_total(e: (usize, Seq<Seq<char>>))
    ensures
        total_score(match_entries(e)) == e.0 * e.1.len(),
        match_entries(e).len() == e.1.len(),
    decreases e.1.len(),
{
    if e.1.len() > 0 {
        let shorter = (e.0, e.1.drop_last());
        lemma_entries_total(shorter);
        assert(match_entries(e).drop_last() =~= match_entries(shorter));
        assert(match_entries(e).last().0 == e.0);
        assert(total_score(match_entries(e)) == total_score(match_entries(shorter)) + e.0);
        assert(e.0 * e.1.len() == e.0 * (e.1.len() - 1) + e.0) by (nonlinear_arith);
    } else {
        assert(e.0 * e.1.len() == 0) by (nonlinear_arith)
            requires
                e.1.len() == 0,
        ;
    }
}

/// Whether the summed scores and the number of (score, language) pairs of
/// the matches fit in a machine word, as `content_sums_fit` states it.
pub fn matches_fit(matches: &Vec<(usize, Vec<String>)>) -> (b: bool)
    ensures
        b == content_sums_fit(matches_view(*matches)),
{
    let ghost m = matches_view(*matches);
    let mut total: usize = 0;
    let mut entries: usize = 0;
    let mut i: usize = 0;
    proof {
        assert(m.take(0) =~= Seq::<(usize, Seq<Seq<char>>)>::empty());
        lemma_total_append(flat_matches(m.take(0)), flat_matches(m));
    }
    while i < matches.len()
        invariant
            0 <= i <= matches@.len(),
            m == matches_view(*matches),
            total == total_score(flat_matches(m.take(i as int))),
            entries == flat_matches(m.take(i as int)).len(),
        decreases matches@.len() - i,
    {
        let ghost e = m[i as int];
        proof {
            assert(m.take(i + 1).drop_last() =~= m.take(i as int));
            assert(m.take(i + 1).last() == e);
            lemma_entries_total(e);
            lemma_total_append(flat_matches(m.take(i as int)), match_entries(e));
            assert(m =~= m.take(i + 1) + m.skip(i + 1));
            lemma_flat_append(m.take(i + 1), m.skip(i + 1));
            lemma_total_append(flat_matches(m.take(i + 1)), flat_matches(m.skip(i + 1)));
        }
        let score = matches[i].0;
        let count = matches[i].1.len();
        assert(e.0 == score && e.1.len() == count);
        let weighted = match score.checked_mul(count) {
            Some(w) => w,
            None => {
                return false;
            },
        };
        match total.checked_add(weighted) {
            Some(t) => {
                total = t;
            },
            None => {
                return false;
            },
        }
        match entries.checked_add(count) {
            Some(n) => {
                entries = n;
            },
            None => {
                return false;
            },
        }
        i += 1;
    }
    proof {
        assert(m.take(i as int) =~= m);
    }
    true
}

/// The pairs seen after `d` whole matches and `k` pairs of the next.
pub open spec fn seen_entries(m: Seq<(usize, Seq<Seq<char>>)>, d: int, k: int) -> Seq<(usize, Seq<char>)> {
    flat_matches(m.take(d)) + match_entries(m[d]).take(k)
}

proof fn lemma_seen_prefix(m: Seq<(usize, Seq<Seq<char>>)>, d: int, k: int)
    requires
        0 <= d < m.len(),
        0 <= k <= m[d].1.len(),
    ensures
        total_score(seen_entries(m, d, k)) <= total_score(flat_matches(m)),
        seen_entries(m, d, k).len() <= flat_matches(m).len(),
{
    let e = match_entries(m[d]);
    assert(m =~= m.take(d) + (seq![m[d]] + m.skip(d + 1)));
    lemma_flat_append(m.take(d), seq![m[d]] + m.skip(d + 1));
    lemma_flat_append(seq![m[d]], m.skip(d + 1));
    let one = seq![m[d]];
    assert(one.drop_last() =~= Seq::<(usize, Seq<Seq<char>>)>::empty());
    assert(one.last() == m[d]);
    assert(flat_matches(one.drop_last()) =~= Seq::<(usize, Seq<char>)>::empty());
    assert(flat_matches(one) =~= e);
    assert(e =~= e.take(k) + e.skip(k));
    let rest = e.skip(k) + flat_matches(m.skip(d + 1));
    assert(flat_matches(m) =~= seen_entries(m, d, k) + rest);
    lemma_total_append(seen_entries(m, d, k), rest);
}

proof fn lemma_seen_next(m: Seq<(usize, Seq<Seq<char>>)>, d: int)
    requires
        0 <= d < m.len(),
    ensures
        seen_entries(m, d, m[d].1.len() as int) == flat_matches(m.take(d + 1)),
{
    assert(m.take(d + 1).drop_last() =~= m.take(d));
    assert(match_entries(m[d]).take(m[d].1.len() as int) =~= match_entries(m[d]));
}

proof fn lemma_push_entry(f: Seq<(usize, Seq<char>)>, e: (usize, Seq<char>), x: Seq<char>)
    ensures
        score_of(f.push(e), x) == score_of(f, x) + if e.1 == x {
            e.0 as int
        } else {
            0
        },
        count_of(f.push(e), x) == count_of(f, x) + if e.1 == x {
            1int
        } else {
            0
        },
        is_candidate(f.push(e), x) == (is_candidate(f, x) || e.1 == x),
{
    assert(f.push(e).drop_last() =~= f);
    if is_candidate(f, x) {
        let k = choose|k: int| 0 <= k < f.len() && #[trigger] f[k].1 == x;
        assert(f.push(e)[k].1 == x);
    }
    if e.1 == x {
        assert(f.push(e)[f.len() as int].1 == x);
    }
    if is_candidate(f.push(e), x) {
        let k = choose|k: int| 0 <= k < f.push(e).len() && #[trigger] f.push(e)[k].1 == x;
        if k < f.len() {
            assert(f[k].1 == x);
        }
    }
}

/// The tally of the pairs seen so far: each language once, with its summed
/// score and match count.
pub open spec fn tally_matches(
    f: Seq<(usize, Seq<char>)>,
    names: Seq<Vec<char>>,
    scores: Seq<usize>,
    counts: Seq<usize>,
) -> bool {
    &&& names.len() == scores.len() == counts.len()
    &&& forall|i: int| 0 <= i < names.len() ==> scores[i] == score_of(f, (#[trigger] names[i])@)
    &&& forall|i: int| 0 <= i < names.len() ==> counts[i] == count_of(f, (#[trigger] names[i])@)
    &&& forall|i: int| 0 <= i < names.len() ==> is_candidate(f, (#[trigger] names[i])@)
    &&& forall|i: int, j: int| 0 <= i < names.len() && 0 <= j < names.len() && i != j ==> (#[trigger] names[i])@ != (#[trigger] names[j])@
    &&& forall|n: Seq<char>| #[trigger] is_candidate(f, n) ==> exists|i: int| 0 <= i < names.len() && (#[trigger] names[i])@ == n
}

fn same_chars(a: &Vec<char>, b: &Vec<char>) -> (r: bool)
    ensures
        r == (a@ == b@),
{
    if a.len() != b.len() {
        return false;
    }
    let mut i: usize = 0;
    while i < a.len()
        invariant
            0 <= i <= a@.len(),
            a@.len() == b@.len(),
            forall|j: int| 0 <= j < i ==> a@[j] == b@[j],
        decreases a@.len() - i,
    {
        if a[i] != b[i] {
            return false;
        }
        i += 1;
    }
    assert(a@ =~= b@);
    true
}

fn find_name(names: &Vec<Vec<char>>, name: &Vec<char>) -> (r: Option<usize>)
    ensures
        match r {
            Some(i) => i < names@.len() && names@[i as int]@ == name@,
            None => forall|i: int| 0 <= i < names@.len() ==> (#[trigger] names@[i])@ != name@,
        },
{
    let mut i: usize = 0;
    while i < names.len()
        invariant
            0 <= i <= names@.len(),
            forall|j: int| 0 <= j < i ==> (#[trigger] names@[j])@ != name@,
        decreases names@.len() - i,
    {
        if same_chars(&names[i], name) {
            return Some(i);
        }
        i += 1;
    }
    None
}

/// Adds the pair `(score, name)` to the tally.
fn tally_add(
    names: &mut Vec<Vec<char>>,
    scores: &mut Vec<usize>,
    counts: &mut Vec<usize>,
    score: usize,
    name: Vec<char>,
    f: Ghost<Seq<(usize, Seq<char>)>>,
)
    requires
        tally_matches(f@, old(names)@, old(scores)@, old(counts)@),
        total_score(f@.push((score, name@))) <= usize::MAX,
        f@.len() + 1 <= usize::MAX,
    ensures
        tally_matches(f@.push((score, name@)), final(names)@, final(scores)@, final(counts)@),
{
    let ghost g = f@.push((score, name@));
    proof {
        assert forall|x: Seq<char>| true implies {
            &&& score_of(g, x) == score_of(f@, x) + if name@ == x { score as int } else { 0 }
            &&& count_of(g, x) == count_of(f@, x) + if name@ == x { 1int } else { 0 }
            &&& is_candidate(g, x) == (is_candidate(f@, x) || name@ == x)
        } by {
            lemma_push_entry(f@, (score, name@), x);
        }
        assert(g.drop_last() =~= f@);
    }
    match find_name(names, &name) {
        Some(i) => {
            proof {
                lemma_sums_bounded(g, name@);
            }
            let s = scores[i] + score;
            let c = counts[i] + 1;
            scores.set(i, s);
            counts.set(i, c);
            proof {
                assert forall|n: Seq<char>| #[trigger] is_candidate(g, n) implies exists|j: int|
                    0 <= j < names@.len() && (#[trigger] names@[j])@ == n by {
                    if n == name@ {
                        assert(names@[i as int]@ == n);
                    } else {
                        assert(is_candidate(f@, n));
                    }
                }
            }
        },
        None => {
            proof {
                if is_candidate(f@, name@) {
                    let j = choose|j: int| 0 <= j < names@.len() && (#[trigger] names@[j])@ == name@;
                    assert(names@[j]@ != name@);
                }
                lemma_zero_unless_candidate(f@, name@);
            }
            let ghost old_names = names@;
            names.push(name);
            scores.push(score);
            counts.push(1);
            proof {
                let k = old_names.len() as int;
                assert(names@[k]@ == name@);
                assert forall|i: int, j: int| 0 <= i < names@.len() && 0 <= j < names@.len() && i != j implies (#[trigger] names@[i])@ != (#[trigger] names@[j])@ by {
                    if i < k && j < k {
                        assert(old_names[i] == names@[i]);
                        assert(old_names[j] == names@[j]);
                    } else if i == k {
                        assert(old_names[j] == names@[j]);
                    } else {
                        assert(old_names[i] == names@[i]);
                    }
                }
                assert forall|n: Seq<char>| #[trigger] is_candidate(g, n) implies exists|j: int|
                    0 <= j < names@.len() && (#[trigger] names@[j])@ == n by {
                    if n == name@ {
                        assert(names@[k]@ == n);
                    } else {
                        assert(is_candidate(f@, n));
                        let j = choose|j: int| 0 <= j < old_names.len() && (#[trigger] old_names[j])@ == n;
                        assert(names@[j] == old_names[j]);
                    }
                }
                assert forall|i: int| 0 <= i < names@.len() implies scores@[i] == score_of(g, (#[trigger] names@[i])@) by {
                    if i < k {
                        assert(old_names[i] == names@[i]);
                    }
                }
                assert forall|i: int| 0 <= i < names@.len() implies counts@[i] == count_of(g, (#[trigger] names@[i])@) by {
                    if i < k {
                        assert(old_names[i] == names@[i]);
                    }
                }
                assert forall|i: int| 0 <= i < names@.len() implies is_candidate(g, (#[trigger] names@[i])@) by {
                    if i < k {
                        assert(old_names[i] == names@[i]);
                    }
                }
            }
        },
    }
}

proof fn lemma_zero_unless_candidate(f: Seq<(usize, Seq<char>)>, n: Seq<char>)
    requires
        !is_candidate(f, n),
    ensures
        score_of(f, n) == 0,
        count_of(f, n) == 0,
    decreases f.len(),
{
    if f.len() > 0 {
        assert(f.last() == f[f.len() - 1]);
        assert(!is_candidate(f.drop_last(), n)) by {
            if is_candidate(f.drop_last(), n) {
                let k = choose|k: int| 0 <= k < f.drop_last().len() && #[trigger] f.drop_last()[k].1 == n;
                assert(f[k].1 == n);
            }
        }
        lemma_zero_unless_candidate(f.drop_last(), n);
    }
}

/// Whether entry `j` of a tally ranks above entry `b`.
pub open spec fn tally_beats(scores: Seq<usize>, counts: Seq<usize>, j: int, b: int) -> bool {
    scores[j] > scores[b] || (scores[j] == scores[b] && counts[j] > counts[b])
}

/// The language a text's heuristic matches point to: the one whose summed
/// score (then number of matches) ranks above every other language; none
/// when nothing matched or the two best tie.
pub fn best_content_language(matches: &Vec<(usize, Vec<String>)>) -> (r: Option<String>)
    requires
        content_sums_fit(matches_view(*matches)),
    ensures
        match r {
            Some(n) => is_content_winner(flat_matches(matches_view(*matches)), n@),
            None => forall|n: Seq<char>| !is_content_winner(flat_matches(matches_view(*matches)), n),
        },
{
    let ghost mv = matches_view(*matches);
    let mut names: Vec<Vec<char>> = Vec::new();
    let mut scores: Vec<usize> = Vec::new();
    let mut counts: Vec<usize> = Vec::new();
    let mut d: usize = 0;
    proof {
        assert(mv.take(0) =~= Seq::<(usize, Seq<Seq<char>>)>::empty());
        assert(flat_matches(mv.take(0)) =~= Seq::<(usize, Seq<char>)>::empty());
    }
    while d < matches.len()
        invariant
            0 <= d <= matches@.len(),
            mv == matches_view(*matches),
            content_sums_fit(mv),
            tally_matches(flat_matches(mv.take(d as int)), names@, scores@, counts@),
        decreases matches@.len() - d,
    {
        let score = matches[d].0;
        let langs = &matches[d].1;
        let mut k: usize = 0;
        proof {
            assert(match_entries(mv[d as int]).take(0) =~= Seq::<(usize, Seq<char>)>::empty());
            assert(seen_entries(mv, d as int, 0) =~= flat_matches(mv.take(d as int)));
        }
        while k < langs.len()
            invariant
                0 <= d < matches@.len(),
                0 <= k <= langs@.len(),
                mv == matches_view(*matches),
                content_sums_fit(mv),
                *langs == matches@[d as int].1,
                score == matches@[d as int].0,
                tally_matches(seen_entries(mv, d as int, k as int), names@, scores@, counts@),
            decreases langs@.len() - k,
        {
            let name = chars_of(langs[k].as_str());
            let ghost before = seen_entries(mv, d as int, k as int);
            proof {
                assert(mv[d as int] == (score, names_view(*langs)));
                lemma_seen_prefix(mv, d as int, k + 1);
                assert(match_entries(mv[d as int])[k as int] == (score, name@));
                assert(match_entries(mv[d as int]).take(k + 1) =~= match_entries(mv[d as int]).take(k as int).push((score, name@)));
                assert(seen_entries(mv, d as int, k + 1) =~= before.push((score, name@)));
            }
            tally_add(&mut names, &mut scores, &mut counts, score, name, Ghost(before));
            k += 1;
        }
        proof {
            assert(mv[d as int].1.len() == langs@.len());
            lemma_seen_next(mv, d as int);
        }
        d += 1;
    }
    proof {
        assert(mv.take(matches@.len() as int) =~= mv);
    }
    let ghost f = flat_matches(mv);
    if names.len() == 0 {
        proof {
            assert forall|n: Seq<char>| !is_content_winner(f, n) by {
                if is_candidate(f, n) {
                    let j = choose|j: int| 0 <= j < names@.len() && (#[trigger] names@[j])@ == n;
                }
            }
        }
        return None;
    }
    let mut best: usize = 0;
    let mut tie = false;
    let mut i: usize = 1;
    while i < names.len()
        invariant
            1 <= i <= names@.len(),
            best < i,
            tally_matches(f, names@, scores@, counts@),
            forall|j: int| 0 <= j < i ==> !tally_beats(scores@, counts@, j, best as int),
            tie <==> exists|j: int|
                0 <= j < i && j != best && #[trigger] scores@[j] == scores@[best as int] && counts@[j] == counts@[best as int],
        decreases names@.len() - i,
    {
        if scores[i] > scores[best] || (scores[i] == scores[best] && counts[i] > counts[best]) {
            let ghost old_best = best as int;
            best = i;
            tie = false;
            proof {
                assert forall|j: int| 0 <= j < i + 1 implies !tally_beats(scores@, counts@, j, best as int) by {
                    if j < i {
                        assert(!tally_beats(scores@, counts@, j, old_best));
                    }
                }
                assert(!exists|j: int|
                    0 <= j < i + 1 && j != best && #[trigger] scores@[j] == scores@[best as int] && counts@[j] == counts@[best as int]) by {
                    if exists|j: int|
                        0 <= j < i + 1 && j != best && #[trigger] scores@[j] == scores@[best as int] && counts@[j] == counts@[best as int] {
                        let j = choose|j: int|
                            0 <= j < i + 1 && j != best && #[trigger] scores@[j] == scores@[best as int] && counts@[j] == counts@[best as int];
                        assert(!tally_beats(scores@, counts@, j, old_best));
                    }
                }
            }
        } else if scores[i] == scores[best] && counts[i] == counts[best] {
            tie = true;
            proof {
                assert(scores@[i as int] == scores@[best as int]);
            }
        }
        i += 1;
    }
    proof {
        assert(names@[best as int]@ == names@[best as int]@);
    }
    if tie {
        proof {
            let j = choose|j: int|
                0 <= j < names@.len() && j != best && #[trigger] scores@[j] == scores@[best as int] && counts@[j] == counts@[best as int];
            assert forall|n: Seq<char>| !is_content_winner(f, n) by {
                if is_content_winner(f, n) {
                    let x = choose|x: int| 0 <= x < names@.len() && (#[trigger] names@[x])@ == n;
                    if x == best as int {
                        assert(names@[j]@ != n);
                        assert(is_candidate(f, names@[j]@));
                        assert(ranks_above(f, n, names@[j]@));
                    } else {
                        assert(names@[best as int]@ != n);
                        assert(is_candidate(f, names@[best as int]@));
                        assert(ranks_above(f, n, names@[best as int]@));
                        assert(!tally_beats(scores@, counts@, x, best as int));
                    }
                }
            }
        }
        None
    } else {
        let name = string_from_chars(&names[best]);
        proof {
            let b = best as int;
            assert forall|o: Seq<char>| #[trigger] is_candidate(f, o) && o != name@ implies ranks_above(f, name@, o) by {
                let x = choose|x: int| 0 <= x < names@.len() && (#[trigger] names@[x])@ == o;
                assert(x != b);
                assert(!tally_beats(scores@, counts@, x, b));
                if scores@[x] == scores@[b] && counts@[x] == counts@[b] {
                    assert(0 <= x < i && x != best && scores@[x] == scores@[b] && counts@[x] == counts@[b]);
                }
            }
        }
        Some(name)
    }
}

} // verus!

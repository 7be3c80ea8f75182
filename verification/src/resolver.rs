use vstd::prelude::*;
use vstd::pervasive::VecAdditionalExecFns;

verus! {

/// ASCII lower-casing of a single character: `'A'..='Z'` map to their
/// lower-case counterparts, every other character is unchanged.
pub open spec fn lower_char_spec(c: char) -> char {
    if 'A' <= c && c <= 'Z' {
        ((c as u8) + 32) as char
    } else {
        c
    }
}

/// Executable ASCII lower-casing, matching `lower_char_spec`.
pub fn lower_char(c: char) -> (r: char)
    ensures
        r == lower_char_spec(c),
{
    if 'A' <= c && c <= 'Z' {
        ((c as u8) + 32) as char
    } else {
        c
    }
}

/// A whole character sequence after ASCII lower-casing.
pub open spec fn lower_seq(s: Seq<char>) -> Seq<char> {
    s.map_values(|c: char| lower_char_spec(c))
}

pub open spec fn min_nat(a: nat, b: nat) -> nat {
    if a <= b {
        a
    } else {
        b
    }
}

/// Number of positions `i < n` at which `name` and `query` carry the same
/// character once both are ASCII lower-cased.
pub open spec fn sim_upto(name: Seq<char>, query: Seq<char>, n: int) -> nat
    decreases n,
{
    if n <= 0 {
        0
    } else {
        sim_upto(name, query, n - 1) + (if lower_char_spec(name[n - 1]) == lower_char_spec(
            query[n - 1],
        ) {
            1nat
        } else {
            0nat
        })
    }
}

/// The similarity score between a candidate name and a query: characters are
/// paired index by index up to the shorter length, lower-cased, and the
/// matching positions are counted.
pub open spec fn similarity(name: Seq<char>, query: Seq<char>) -> nat {
    sim_upto(name, query, min_nat(name.len(), query.len()) as int)
}

pub proof fn lemma_sim_upto_le(name: Seq<char>, query: Seq<char>, n: int)
    requires
        n >= 0,
    ensures
        sim_upto(name, query, n) <= n,
    decreases n,
{
    if n > 0 {
        lemma_sim_upto_le(name, query, n - 1);
    }
}

/// A similarity score never exceeds the query's length.
pub proof fn lemma_similarity_le_query(name: Seq<char>, query: Seq<char>)
    ensures
        similarity(name, query) <= query.len(),
{
    lemma_sim_upto_le(name, query, min_nat(name.len(), query.len()) as int);
}

proof fn lemma_pointwise_equal_full_score(name: Seq<char>, query: Seq<char>, n: int)
    requires
        0 <= n <= name.len(),
        n <= query.len(),
        forall|i: int| 0 <= i < n ==> lower_char_spec(name[i]) == lower_char_spec(query[i]),
    ensures
        sim_upto(name, query, n) == n,
    decreases n,
{
    if n > 0 {
        lemma_pointwise_equal_full_score(name, query, n - 1);
    }
}

/// The highest similarity score that any candidate reaches against the query.
pub open spec fn best_score(candidates: Seq<String>, query: Seq<char>) -> nat
    decreases candidates.len(),
{
    if candidates.len() == 0 {
        0
    } else {
        let rest = best_score(candidates.drop_last(), query);
        let last = similarity(candidates.last()@, query);
        if last > rest {
            last
        } else {
            rest
        }
    }
}

pub proof fn lemma_best_score_ge(candidates: Seq<String>, query: Seq<char>, i: int)
    requires
        0 <= i < candidates.len(),
    ensures
        similarity(candidates[i]@, query) <= best_score(candidates, query),
    decreases candidates.len(),
{
    if i < candidates.len() - 1 {
        lemma_best_score_ge(candidates.drop_last(), query, i);
        assert(candidates.drop_last()[i] == candidates[i]);
    }
}

pub proof fn lemma_best_score_attained(candidates: Seq<String>, query: Seq<char>)
    requires
        candidates.len() > 0,
    ensures
        exists|i: int|
            0 <= i < candidates.len() && similarity(candidates[i]@, query) == best_score(
                candidates,
                query,
            ),
    decreases candidates.len(),
{
    let last = candidates.len() - 1;
    if candidates.len() == 1 {
        assert(candidates.last() == candidates[0]);
        assert(best_score(candidates.drop_last(), query) == 0);
        assert(similarity(candidates[0]@, query) == best_score(candidates, query));
    } else {
        let rest = best_score(candidates.drop_last(), query);
        if similarity(candidates.last()@, query) > rest {
            assert(similarity(candidates[last]@, query) == best_score(candidates, query));
        } else {
            lemma_best_score_attained(candidates.drop_last(), query);
            let i = choose|i: int|
                0 <= i < candidates.drop_last().len() && similarity(
                    candidates.drop_last()[i]@,
                    query,
                ) == rest;
            assert(candidates.drop_last()[i] == candidates[i]);
            assert(similarity(candidates[i]@, query) == best_score(candidates, query));
        }
    }
}

/// The best score is bounded by the query's length.
pub proof fn lemma_best_score_le_query(candidates: Seq<String>, query: Seq<char>)
    ensures
        best_score(candidates, query) <= query.len(),
    decreases candidates.len(),
{
    if candidates.len() > 0 {
        lemma_best_score_le_query(candidates.drop_last(), query);
        lemma_similarity_le_query(candidates.last()@, query);
    }
}

/// Resolution succeeds exactly when the best candidate matches the query at
/// every query position.
pub open spec fn resolution_succeeds(names: Seq<String>, query: Seq<char>) -> bool {
    best_score(names, query) == query.len()
}

/// Resolution is ambiguous when the best candidate matches at least half of
/// the query positions, but not all of them.
pub open spec fn resolution_ambiguous(names: Seq<String>, query: Seq<char>) -> bool {
    best_score(names, query) != query.len() && 2 * best_score(names, query) >= query.len()
}

/// The name is unknown when even the best candidate matches fewer than half
/// of the query positions.
pub open spec fn resolution_unknown(names: Seq<String>, query: Seq<char>) -> bool {
    2 * best_score(names, query) < query.len()
}

/// Failure outcomes of name resolution, each carrying what is shown to the
/// user: a single close suggestion, or a short list of the closest names.
#[derive(Debug, PartialEq, Eq)]
pub enum ResolutionError {
    UnknownName { suggestions: Vec<String> },
    AmbiguousName { suggestion: String },
}

/// `idxs` selects `suggestions` out of `names`: distinct candidate indices,
/// ordered by descending similarity to `query`, and no candidate outside the
/// selection scores higher than any selected one.
pub open spec fn suggestions_from(
    names: Seq<String>,
    query: Seq<char>,
    suggestions: Seq<String>,
    idxs: Seq<int>,
) -> bool {
    &&& idxs.len() == suggestions.len()
    &&& forall|a: int|
        0 <= a < idxs.len() ==> 0 <= #[trigger] idxs[a] < names.len() && suggestions[a]@
            == names[idxs[a]]@
    &&& forall|a: int, b: int| 0 <= a < b < idxs.len() ==> idxs[a] != idxs[b]
    &&& forall|a: int, b: int|
        0 <= a <= b < idxs.len() ==> similarity(names[#[trigger] idxs[a]]@, query) >= similarity(
            names[#[trigger] idxs[b]]@,
            query,
        )
    &&& forall|j: int, a: int|
        #![trigger idxs.contains(j), idxs[a]]
        0 <= j < names.len() && !idxs.contains(j) && 0 <= a < idxs.len() ==> similarity(
            names[j]@,
            query,
        ) <= similarity(names[idxs[a]]@, query)
}

/// What an `UnknownName` failure reports: the name was unknown, and the
/// suggestion list holds the `min(5, n)` best candidate names by descending
/// similarity, the best one first.
pub open spec fn unknown_outcome(
    names: Seq<String>,
    query: Seq<char>,
    suggestions: Seq<String>,
) -> bool {
    &&& resolution_unknown(names, query)
    &&& suggestions.len() == min_nat(5, names.len())
    &&& exists|idxs: Seq<int>| suggestions_from(names, query, suggestions, idxs)
    &&& suggestions.len() > 0 && similarity(suggestions[0]@, query) == best_score(names, query)
}

/// Executable similarity score, equal to the `similarity` spec function.
pub fn similarity_score(name: &str, query: &str) -> (score: usize)
    ensures
        score == similarity(name@, query@),
{
    let n1 = name.unicode_len();
    let n2 = query.unicode_len();
    let m = if n1 <= n2 {
        n1
    } else {
        n2
    };
    let mut score: usize = 0;
    let mut i: usize = 0;
    while i < m
        invariant
            i <= m,
            n1 == name@.len(),
            n2 == query@.len(),
            m == min_nat(name@.len(), query@.len()),
            score == sim_upto(name@, query@, i as int),
            score <= i,
        decreases m - i,
    {
        let c1 = lower_char(name.get_char(i));
        let c2 = lower_char(query.get_char(i));
        if c1 == c2 {
            score = score + 1;
        }
        i = i + 1;
    }
    score
}

fn compute_scores(names: &Vec<String>, query: &str) -> (scores: Vec<usize>)
    ensures
        scores.len() == names.len(),
        forall|i: int|
            0 <= i < names.len() ==> #[trigger] scores[i] == similarity(names[i]@, query@),
{
    let mut scores: Vec<usize> = Vec::new();
    let mut i: usize = 0;
    while i < names.len()
        invariant
            i <= names.len(),
            scores.len() == i,
            forall|j: int|
                0 <= j < i ==> #[trigger] scores[j] == similarity(names[j]@, query@),
        decreases names.len() - i,
    {
        let s = similarity_score(names[i].as_str(), query);
        scores.push(s);
        i = i + 1;
    }
    scores
}

/// `v` occurs among the entries of `order`.
spec fn occurs(order: Seq<usize>, v: int) -> bool {
    exists|p: int| 0 <= p < order.len() && order[p] == v as usize
}

/// The first `min(k, n)` positions of a selection sort of `0..n` by
/// descending score: distinct in-range indices, ordered by descending score,
/// with every unselected index scoring no better than any selected one.
fn top_order(scores: &Vec<usize>, k: usize) -> (idxs: Vec<usize>)
    requires
        scores.len() >= 1,
        k >= 1,
    ensures
        idxs.len() == min_nat(k as nat, scores.len() as nat),
        forall|a: int| 0 <= a < idxs.len() ==> (#[trigger] idxs[a]) < scores.len(),
        forall|a: int, b: int| 0 <= a < b < idxs.len() ==> idxs[a] != idxs[b],
        forall|a: int, b: int|
            0 <= a <= b < idxs.len() ==> scores[#[trigger] idxs[a] as int] >= scores[#[trigger] idxs[b] as int],
        forall|j: int, a: int|
            #![trigger scores[j], idxs[a]]
            0 <= j < scores.len() && !idxs@.contains(j as usize) && 0 <= a < idxs.len()
                ==> scores[j] <= scores[idxs[a] as int],
{
    let n = scores.len();
    let mut order: Vec<usize> = Vec::new();
    let mut i: usize = 0;
    while i < n
        invariant
            i <= n,
            order.len() == i,
            forall|p: int| 0 <= p < i ==> #[trigger] order[p] == p,
        decreases n - i,
    {
        order.push(i);
        i = i + 1;
    }
    proof {
        assert forall|v: int| 0 <= v < n implies occurs(order@, v) by {
            assert(order@[v] == v as usize);
        }
    }
    let k2 = if k <= n {
        k
    } else {
        n
    };
    let mut t: usize = 0;
    while t < k2
        invariant
            t <= k2 <= n,
            n == scores.len(),
            order.len() == n,
            forall|p: int| 0 <= p < n ==> (#[trigger] order[p]) < n,
            forall|p: int, q: int| 0 <= p < q < n ==> order[p] != order[q],
            forall|v: int| 0 <= v < n ==> occurs(order@, v),
            forall|a: int, b: int|
                0 <= a <= b < t ==> scores[#[trigger] order[a] as int] >= scores[#[trigger] order[b] as int],
            forall|a: int, b: int|
                0 <= a < t <= b < n ==> scores[#[trigger] order[a] as int] >= scores[#[trigger] order[b] as int],
        decreases k2 - t,
    {
        let mut m: usize = t;
        let mut j: usize = t + 1;
        while j < n
            invariant
                t <= m < n,
                t < j <= n,
                n == scores.len(),
                order.len() == n,
                forall|p: int| 0 <= p < n ==> (#[trigger] order[p]) < n,
                forall|b: int|
                    t <= b < j ==> scores[order[m as int] as int] >= scores[#[trigger] order[b] as int],
            decreases n - j,
        {
            if scores[order[j]] > scores[order[m]] {
                m = j;
            }
            j = j + 1;
        }
        let ghost old_order = order@;
        let ot = order[t];
        let om = order[m];
        order.set(t, om);
        order.set(m, ot);
        proof {
            assert forall|v: int| 0 <= v < n implies occurs(order@, v) by {
                assert(occurs(old_order, v));
                let p = choose|p: int| 0 <= p < old_order.len() && old_order[p] == v as usize;
                if p == t as int {
                    assert(order[m as int] == v as usize);
                } else if p == m as int {
                    assert(order[t as int] == v as usize);
                } else {
                    assert(order[p] == v as usize);
                }
            }
        }
        t = t + 1;
    }
    let mut idxs: Vec<usize> = Vec::new();
    let mut a: usize = 0;
    while a < k2
        invariant
            a <= k2 <= n,
            order.len() == n,
            idxs.len() == a,
            forall|p: int| 0 <= p < a ==> idxs[p] == order[p],
        decreases k2 - a,
    {
        idxs.push(order[a]);
        a = a + 1;
    }
    proof {
        assert(idxs.len() == min_nat(k as nat, scores.len() as nat));
        assert forall|j: int, a2: int|
            #![trigger scores@[j], idxs@[a2]]
            0 <= j < scores.len() && !idxs@.contains(j as usize) && 0 <= a2 < idxs.len() implies
            scores[j] <= scores[idxs[a2] as int] by {
            assert(occurs(order@, j));
            let p = choose|p: int| 0 <= p < order@.len() && order@[p] == j as usize;
            if p < k2 as int {
                assert(idxs@[p] == j as usize);
                assert(idxs@.contains(j as usize));
            } else {
                assert(scores[order@[a2] as int] >= scores[order@[p] as int]);
            }
        }
    }
    idxs
}

/// Approximate name resolution: scores every candidate against the query by
/// positional lower-cased character matches and decides from the best score.
///
/// Succeeds with the index of a maximal-scoring candidate exactly when that
/// score covers the whole query; otherwise fails with `AmbiguousName`
/// (carrying the best candidate's name) when the best score reaches at least
/// half the query length, and with `UnknownName` (carrying the up to five
/// best candidate names, by descending score) when it does not.
#[verifier::rlimit(50)]
pub fn resolve(candidates: &Vec<String>, query: &str) -> (r: Result<usize, ResolutionError>)
    requires
        candidates.len() > 0,
    ensures
        r is Ok <==> resolution_succeeds(candidates@, query@),
        r is Err && r->Err_0 is AmbiguousName <==> resolution_ambiguous(candidates@, query@),
        r is Err && r->Err_0 is UnknownName <==> resolution_unknown(candidates@, query@),
        r matches Ok(i) ==> i < candidates.len() && similarity(candidates[i as int]@, query@)
            == query@.len(),
        r matches Err(ResolutionError::AmbiguousName { suggestion }) ==> {
            &&& resolution_ambiguous(candidates@, query@)
            &&& exists|b: int|
                0 <= b < candidates.len() && candidates[b]@ == suggestion@ && similarity(
                    candidates[b]@,
                    query@,
                ) == best_score(candidates@, query@)
        },
        r matches Err(ResolutionError::UnknownName { suggestions }) ==> unknown_outcome(
            candidates@,
            query@,
            suggestions@,
        ),
{
    let scores = compute_scores(candidates, query);
    let top = top_order(&scores, 5);
    let best_idx = top[0];
    let best = scores[best_idx];
    proof {
        lemma_best_score_attained(candidates@, query@);
        let w = choose|i: int|
            0 <= i < candidates@.len() && similarity(candidates@[i]@, query@) == best_score(
                candidates@,
                query@,
            );
        if !top@.contains(w as usize) {
            assert(scores@[w] <= scores@[top@[0] as int]);
        } else {
            let a = choose|a: int| 0 <= a < top@.len() && top@[a] == w as usize;
            assert(scores@[top@[a] as int] <= scores@[top@[0] as int]);
        }
        lemma_best_score_ge(candidates@, query@, best_idx as int);
        assert(best == best_score(candidates@, query@));
        lemma_best_score_le_query(candidates@, query@);
    }
    let qlen = query.unicode_len();
    if best == qlen {
        Ok(best_idx)
    } else if best >= qlen - best {
        Err(ResolutionError::AmbiguousName { suggestion: candidates[best_idx].clone() })
    } else {
        let mut suggestions: Vec<String> = Vec::new();
        let mut a: usize = 0;
        while a < top.len()
            invariant
                a <= top.len(),
                suggestions.len() == a,
                candidates.len() == scores.len(),
                forall|p: int| 0 <= p < top.len() ==> (#[trigger] top[p]) < candidates.len(),
                forall|p: int| 0 <= p < a ==> suggestions[p]@ == candidates[#[trigger] top[p] as int]@,
            decreases top.len() - a,
        {
            suggestions.push(candidates[top[a]].clone());
            a = a + 1;
        }
        proof {
            let ghost w = top@.map_values(|u: usize| u as int);
            assert forall|p: int| 0 <= p < w.len() implies 0 <= #[trigger] w[p]
                < candidates@.len() && suggestions@[p]@ == candidates@[w[p]]@ by {
                assert(w[p] == top@[p] as int);
            }
            assert forall|p: int, q: int| 0 <= p <= q < w.len() implies similarity(
                candidates@[#[trigger] w[p]]@,
                query@,
            ) >= similarity(candidates@[#[trigger] w[q]]@, query@) by {
                assert(scores@[top@[p] as int] >= scores@[top@[q] as int]);
            }
            assert forall|j: int, p: int|
                #![trigger w.contains(j), w[p]]
                0 <= j < candidates@.len() && !w.contains(j) && 0 <= p < w.len() implies similarity(
                candidates@[j]@,
                query@,
            ) <= similarity(candidates@[w[p]]@, query@) by {
                if top@.contains(j as usize) {
                    let pj = choose|pj: int| 0 <= pj < top@.len() && top@[pj] == j as usize;
                    assert(w[pj] == j);
                    assert(w.contains(j));
                } else {
                    assert(scores@[j] <= scores@[top@[p] as int]);
                }
            }
            assert(suggestions_from(candidates@, query@, suggestions@, w));
            assert(suggestions@[0]@ == candidates@[w[0]]@);
            assert(unknown_outcome(candidates@, query@, suggestions@));
        }
        Err(ResolutionError::UnknownName { suggestions })
    }
}

/// Law: a query that, after ASCII lower-casing, equals the name of candidate
/// `i` reaches the full score there, so resolution succeeds.
pub proof fn lemma_exact_match_succeeds(candidates: Seq<String>, query: Seq<char>, i: int)
    requires
        0 <= i < candidates.len(),
        lower_seq(candidates[i]@) == lower_seq(query),
    ensures
        resolution_succeeds(candidates, query),
        similarity(candidates[i]@, query) == query.len(),
{
    let name = candidates[i]@;
    assert(lower_seq(name).len() == name.len());
    assert(lower_seq(query).len() == query.len());
    assert forall|j: int| 0 <= j < query.len() implies lower_char_spec(name[j])
        == lower_char_spec(query[j]) by {
        assert(lower_seq(name)[j] == lower_char_spec(name[j]));
        assert(lower_seq(query)[j] == lower_char_spec(query[j]));
    }
    lemma_pointwise_equal_full_score(name, query, query.len() as int);
    lemma_best_score_ge(candidates, query, i);
    lemma_best_score_le_query(candidates, query);
}

/// Law: when exactly one candidate reaches the full score, any full-scoring
/// index — in particular the one a successful resolution returns — is that
/// candidate.
pub proof fn lemma_exact_match_unique(candidates: Seq<String>, query: Seq<char>, i: int, j: int)
    requires
        0 <= i < candidates.len(),
        forall|k: int|
            0 <= k < candidates.len() && k != i ==> similarity(#[trigger] candidates[k]@, query)
                != query.len(),
        0 <= j < candidates.len(),
        similarity(candidates[j]@, query) == query.len(),
    ensures
        j == i,
{
}

} // verus!

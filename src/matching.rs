//! The match engine: filters the catalog by profile and by a fuzzy query,
//! and ranks what is left by relevance.
use crate::config::WorkOrPersonal;
use crate::repolist::{Repo, RepoList};
use fuzzy_matcher::skim::SkimMatcherV2;
use fuzzy_matcher::FuzzyMatcher;
use vstd::prelude::*;

verus! {

/// The score that the default skim matcher gives `choice` for `pattern`,
/// or `None` when the pattern does not match.
pub uninterp spec fn skim_score(choice: Seq<char>, pattern: Seq<char>) -> Option<i64>;

/// Relies on fuzzy_matcher's `SkimMatcherV2::fuzzy_match` with the default
/// configuration: the score depends on the two strings alone, and an empty
/// pattern matches every choice with score 0.
#[verifier::external_body]
fn skim_fuzzy_match(choice: &str, pattern: &str) -> (r: Option<i64>)
    ensures
        r == skim_score(choice@, pattern@),
        pattern@.len() == 0 ==> r == Some(0i64),
{
    SkimMatcherV2::default().fuzzy_match(choice, pattern)
}

/// The relevance of a repository name for a query: every name matches the
/// empty query with the same baseline score.
pub open spec fn match_score(name: Seq<char>, query: Seq<char>) -> Option<i64> {
    if query.len() == 0 {
        Some(0i64)
    } else {
        skim_score(name, query)
    }
}

/// Whether a repository belongs to the profile that the filter asks for.
pub open spec fn in_category(repo: Repo, filter: Option<WorkOrPersonal>) -> bool {
    match filter {
        Some(c) => repo.category == c,
        None => true,
    }
}

/// Whether the catalog entry at `i` survives the profile filter and matches the query.
pub open spec fn is_candidate(
    repos: Seq<Repo>,
    query: Seq<char>,
    filter: Option<WorkOrPersonal>,
    i: int,
) -> bool {
    &&& 0 <= i < repos.len()
    &&& in_category(repos[i], filter)
    &&& match_score(repos[i].name@, query) is Some
}

/// The order of a ranked view: higher score first, and among equal scores
/// the entry that comes first in the catalog.
pub open spec fn ranks_before(a: (usize, i64), b: (usize, i64)) -> bool {
    a.1 > b.1 || (a.1 == b.1 && a.0 < b.0)
}

/// Every entry ranks strictly before each entry that follows it.
pub open spec fn strictly_ranked(v: Seq<(usize, i64)>) -> bool {
    forall|k: int, l: int| 0 <= k < l < v.len() ==> ranks_before(#[trigger] v[k], #[trigger] v[l])
}

/// `v` holds each candidate of the catalog once, as (catalog index, score),
/// sorted by descending score with ties kept in catalog order.
pub open spec fn is_ranked_view(
    repos: Seq<Repo>,
    query: Seq<char>,
    filter: Option<WorkOrPersonal>,
    v: Seq<(usize, i64)>,
) -> bool {
    &&& forall|k: int|
        0 <= k < v.len() ==> {
            &&& is_candidate(repos, query, filter, #[trigger] v[k].0 as int)
            &&& match_score(repos[v[k].0 as int].name@, query) == Some(v[k].1)
        }
    &&& forall|i: int|
        is_candidate(repos, query, filter, i) ==> exists|k: int|
            0 <= k < v.len() && #[trigger] v[k].0 == i
    &&& strictly_ranked(v)
}

/// The ranked view of a catalog for a query and a profile filter.
pub open spec fn ranked_view(
    repos: Seq<Repo>,
    query: Seq<char>,
    filter: Option<WorkOrPersonal>,
) -> Seq<(usize, i64)> {
    choose|v: Seq<(usize, i64)>| is_ranked_view(repos, query, filter, v)
}

proof fn lemma_ranks_before_asymmetric(a: (usize, i64), b: (usize, i64))
    ensures
        !(ranks_before(a, b) && ranks_before(b, a)),
        ranks_before(a, b) ==> a != b,
{
}

/// Two strictly ranked sequences with the same elements are the same sequence.
proof fn lemma_strictly_ranked_unique(v: Seq<(usize, i64)>, w: Seq<(usize, i64)>)
    requires
        strictly_ranked(v),
        strictly_ranked(w),
        forall|x: (usize, i64)| v.contains(x) <==> w.contains(x),
    ensures
        v == w,
    decreases v.len(),
{
    if v.len() == 0 {
        if w.len() > 0 {
            assert(w.contains(w[0]));
        }
        assert(v =~= w);
    } else {
        assert(v.contains(v[0]));
        let j = choose|j: int| 0 <= j < w.len() && w[j] == v[0];
        assert(w.contains(w[0]));
        let k = choose|k: int| 0 <= k < v.len() && v[k] == w[0];
        if j > 0 {
            assert(ranks_before(w[0], w[j]));
            if k > 0 {
                assert(ranks_before(v[0], v[k]));
                lemma_ranks_before_asymmetric(v[0], w[0]);
            } else {
                lemma_ranks_before_asymmetric(w[0], w[j]);
            }
            assert(false);
        }
        assert(w[0] == v[0]);
        let v1 = v.drop_first();
        let w1 = w.drop_first();
        assert forall|x: (usize, i64)| v1.contains(x) <==> w1.contains(x) by {
            if v1.contains(x) {
                let a = choose|a: int| 0 <= a < v1.len() && v1[a] == x;
                assert(v[a + 1] == x);
                assert(ranks_before(v[0], v[a + 1]));
                lemma_ranks_before_asymmetric(v[0], x);
                assert(v.contains(x));
                let b = choose|b: int| 0 <= b < w.len() && w[b] == x;
                assert(b != 0);
                assert(w1[b - 1] == x);
            }
            if w1.contains(x) {
                let a = choose|a: int| 0 <= a < w1.len() && w1[a] == x;
                assert(w[a + 1] == x);
                assert(ranks_before(w[0], w[a + 1]));
                lemma_ranks_before_asymmetric(w[0], x);
                assert(w.contains(x));
                let b = choose|b: int| 0 <= b < v.len() && v[b] == x;
                assert(b != 0);
                assert(v1[b - 1] == x);
            }
        }
        assert forall|k1: int, l1: int| 0 <= k1 < l1 < v1.len() implies ranks_before(
            v1[k1],
            v1[l1],
        ) by {
            assert(v1[k1] == v[k1 + 1] && v1[l1] == v[l1 + 1]);
        }
        assert forall|k1: int, l1: int| 0 <= k1 < l1 < w1.len() implies ranks_before(
            w1[k1],
            w1[l1],
        ) by {
            assert(w1[k1] == w[k1 + 1] && w1[l1] == w[l1 + 1]);
        }
        lemma_strictly_ranked_unique(v1, w1);
        assert(v =~= w) by {
            assert forall|a: int| 0 <= a < v.len() implies v[a] == w[a] by {
                if a > 0 {
                    assert(v[a] == v1[a - 1]);
                    assert(w[a] == w1[a - 1]);
                }
            }
        }
    }
}

/// Determinism and stability of ranking: a catalog, a query and a filter
/// admit exactly one ranked view, so repeated rankings agree, and entries
/// of equal score keep their relative catalog order.
pub proof fn lemma_ranked_view_unique(
    repos: Seq<Repo>,
    query: Seq<char>,
    filter: Option<WorkOrPersonal>,
    v: Seq<(usize, i64)>,
    w: Seq<(usize, i64)>,
)
    requires
        is_ranked_view(repos, query, filter, v),
        is_ranked_view(repos, query, filter, w),
    ensures
        v == w,
        forall|k: int, l: int|
            0 <= k < l < v.len() && v[k].1 == v[l].1 ==> v[k].0 < v[l].0,
{
    assert forall|x: (usize, i64)| v.contains(x) implies w.contains(x) by {
        let k = choose|k: int| 0 <= k < v.len() && v[k] == x;
        assert(is_candidate(repos, query, filter, v[k].0 as int));
        let l = choose|l: int| 0 <= l < w.len() && w[l].0 == x.0 as int;
        assert(w[l] == x);
    }
    assert forall|x: (usize, i64)| w.contains(x) implies v.contains(x) by {
        let k = choose|k: int| 0 <= k < w.len() && w[k] == x;
        assert(is_candidate(repos, query, filter, w[k].0 as int));
        let l = choose|l: int| 0 <= l < v.len() && v[l].0 == x.0 as int;
        assert(v[l] == x);
    }
    lemma_strictly_ranked_unique(v, w);
    assert forall|k: int, l: int| 0 <= k < l < v.len() && v[k].1 == v[l].1 implies v[k].0
        < v[l].0 by {
        assert(ranks_before(v[k], v[l]));
    }
}

/// Ranks the catalog for a query: keeps the repositories of the filter's
/// profile whose name matches `search_text`, paired with their catalog index
/// and score, in descending score order with ties kept in catalog order.
pub fn find_matches_in_order(
    repolist: &RepoList,
    search_text: &str,
    category: Option<WorkOrPersonal>,
) -> (r: Vec<(usize, i64)>)
    ensures
        is_ranked_view(repolist.repos@, search_text@, category, r@),
        r@ == ranked_view(repolist.repos@, search_text@, category),
{
    let ghost repos = repolist.repos@;
    let ghost query = search_text@;
    let n = repolist.repos.len();
    let mut matched: Vec<(usize, i64)> = Vec::new();
    let mut i: usize = 0;
    while i < n
        invariant
            n == repos.len(),
            repos == repolist.repos@,
            query == search_text@,
            i <= n,
            forall|k: int|
                0 <= k < matched@.len() ==> {
                    &&& is_candidate(repos, query, category, #[trigger] matched@[k].0 as int)
                    &&& matched@[k].0 < i
                    &&& match_score(repos[matched@[k].0 as int].name@, query) == Some(
                        matched@[k].1,
                    )
                },
            forall|j: int|
                0 <= j < i && is_candidate(repos, query, category, j) ==> exists|k: int|
                    0 <= k < matched@.len() && #[trigger] matched@[k].0 == j,
            strictly_ranked(matched@),
        decreases n - i,
    {
        let repo = &repolist.repos[i];
        let keep = match category {
            Some(c) => repo.category == c,
            None => true,
        };
        if keep {
            let score = skim_fuzzy_match(repo.name.as_str(), search_text);
            if let Some(s) = score {
                let mut p: usize = 0;
                while p < matched.len() && matched[p].1 >= s
                    invariant
                        p <= matched@.len(),
                        forall|q: int| 0 <= q < p ==> #[trigger] matched@[q].1 >= s,
                    decreases matched@.len() - p,
                {
                    p = p + 1;
                }
                let ghost before = matched@;
                matched.insert(p, (i, s));
                proof {
                    lemma_insert_keeps_ranked(before, p as int, (i, s));
                    assert forall|j: int|
                        0 <= j <= i && is_candidate(repos, query, category, j) implies exists|
                        k: int,
                    | 0 <= k < matched@.len() && #[trigger] matched@[k].0 == j by {
                        if j == i {
                            assert(matched@[p as int].0 == j);
                        } else {
                            let k = choose|k: int| 0 <= k < before.len() && #[trigger] before[k].0 == j;
                            if k < p {
                                assert(matched@[k].0 == j);
                            } else {
                                assert(matched@[k + 1].0 == j);
                            }
                        }
                    }
                }
            }
        }
        i = i + 1;
    }
    proof {
        assert(is_ranked_view(repos, query, category, matched@));
        let v = ranked_view(repos, query, category);
        assert(is_ranked_view(repos, query, category, v));
        lemma_ranked_view_unique(repos, query, category, matched@, v);
    }
    matched
}

/// Inserting `x` at `p` keeps a sequence strictly ranked when the entries
/// before `p` have a score of at least `x`'s and a smaller index, and the
/// entry at `p`, if any, has a lower score.
proof fn lemma_insert_keeps_ranked(v: Seq<(usize, i64)>, p: int, x: (usize, i64))
    requires
        strictly_ranked(v),
        0 <= p <= v.len(),
        forall|q: int| 0 <= q < p ==> #[trigger] v[q].1 >= x.1 && v[q].0 < x.0,
        p < v.len() ==> v[p].1 < x.1,
    ensures
        strictly_ranked(v.insert(p, x)),
{
    let w = v.insert(p, x);
    assert forall|k: int, l: int| 0 <= k < l < w.len() implies ranks_before(w[k], w[l]) by {
        if l < p {
            assert(w[k] == v[k] && w[l] == v[l]);
        } else if l == p {
            assert(w[k] == v[k]);
        } else if k == p {
            assert(w[l] == v[l - 1]);
            if l - 1 > p {
                assert(ranks_before(v[p], v[l - 1]));
            }
        } else if k < p {
            assert(w[k] == v[k] && w[l] == v[l - 1]);
        } else {
            assert(w[k] == v[k - 1] && w[l] == v[l - 1]);
        }
    }
}

/// An empty query filters nothing out beyond the profile: the ranked view
/// lists exactly the repositories of the filter's profile, each with the
/// baseline score 0, in catalog order.
pub proof fn lemma_empty_query_keeps_catalog_order(
    repos: Seq<Repo>,
    filter: Option<WorkOrPersonal>,
    v: Seq<(usize, i64)>,
)
    requires
        is_ranked_view(repos, Seq::<char>::empty(), filter, v),
    ensures
        forall|k: int| 0 <= k < v.len() ==> #[trigger] v[k].1 == 0,
        forall|k: int, l: int| 0 <= k < l < v.len() ==> #[trigger] v[k].0 < #[trigger] v[l].0,
        forall|i: int|
            0 <= i < repos.len() ==> (in_category(#[trigger] repos[i], filter) <==> exists|k: int|
                0 <= k < v.len() && v[k].0 == i),
{
    let q = Seq::<char>::empty();
    assert forall|k: int| 0 <= k < v.len() implies #[trigger] v[k].1 == 0 by {
        assert(is_candidate(repos, q, filter, v[k].0 as int));
    }
    assert forall|k: int, l: int| 0 <= k < l < v.len() implies #[trigger] v[k].0
        < #[trigger] v[l].0 by {
        assert(v[k].1 == 0 && v[l].1 == 0);
        assert(ranks_before(v[k], v[l]));
    }
    assert forall|i: int| 0 <= i < repos.len() implies (in_category(#[trigger] repos[i], filter)
        <==> exists|k: int| 0 <= k < v.len() && v[k].0 == i) by {
        if in_category(repos[i], filter) {
            assert(is_candidate(repos, q, filter, i));
        }
        if exists|k: int| 0 <= k < v.len() && v[k].0 == i {
            let k = choose|k: int| 0 <= k < v.len() && v[k].0 == i;
            assert(is_candidate(repos, q, filter, v[k].0 as int));
        }
    }
}

} // verus!

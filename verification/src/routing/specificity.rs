//! Facts about resolution that hold of every valid set of routes.

use crate::routing::config::patterns_of;
use crate::routing::config::RouteView;
use crate::routing::router::compile;
use crate::routing::router::is_best_match;
use crate::routing::router::accepts;
use crate::routing::router::rank;
use crate::routing::router::resolves_to;
use crate::routing::router::route_matches;
use crate::routing::router::tried_before;
use crate::routing::router::valid_table;
use crate::routing::router::Matcher;
use vstd::prelude::*;

verus! {

/// A prefix pattern respects path boundaries: it accepts its prefix itself
/// and every path that continues the prefix with `/`, and nothing else. So
/// `/admin/*` accepts `/admin`, `/admin/` and `/admin/x`, but not
/// `/administration`.
pub proof fn lemma_prefix_respects_boundary(prefix: Seq<char>, path: Seq<char>)
    ensures
        accepts(Matcher::Prefix(prefix), path) <==> (path == prefix || prefix.push(
            '/',
        ).is_prefix_of(path)),
{
    let longer = prefix.push('/');
    if accepts(Matcher::Prefix(prefix), path) && path.len() == prefix.len() {
        assert(path =~= prefix);
    }
    if longer.is_prefix_of(path) {
        assert(path[prefix.len() as int] == longer[prefix.len() as int]);
    }
}

/// The three kinds of pattern have ranks apart from each other: 0 for an
/// exact pattern, the ceiling for the catch-all, and strictly between the two
/// for a prefix, lower for a longer prefix.
pub proof fn lemma_rank_tells_kind(pattern: Seq<char>)
    requires
        0 < pattern.len() <= usize::MAX,
    ensures
        compile(pattern) is Exact <==> rank(compile(pattern)) == 0,
        compile(pattern) is CatchAll <==> rank(compile(pattern)) == usize::MAX,
        compile(pattern) matches Matcher::Prefix(prefix) ==> 0 < rank(compile(pattern))
            < usize::MAX && rank(compile(pattern)) == usize::MAX - (pattern.len() - 2),
{
}

/// Two patterns of equal rank that accept the same path are one pattern.
pub proof fn lemma_same_rank_same_pattern(first: Seq<char>, second: Seq<char>, path: Seq<char>)
    requires
        0 < first.len() <= usize::MAX,
        0 < second.len() <= usize::MAX,
        accepts(compile(first), path),
        accepts(compile(second), path),
        rank(compile(first)) == rank(compile(second)),
    ensures
        first == second,
{
    lemma_rank_tells_kind(first);
    lemma_rank_tells_kind(second);
    if let Matcher::Prefix(prefix) = compile(first) {
        assert forall|k: int| 0 <= k < first.len() implies first[k] == second[k] by {
            if k < prefix.len() {
                assert(first[k] == prefix[k]);
            }
        }
    }
}

/// Resolution prefers an exact pattern to a prefix, a prefix to the
/// catch-all, and a longer prefix to a shorter one: the route that a path
/// resolves to is at least as specific as any other route that accepts the
/// path.
pub proof fn lemma_best_match_is_most_specific(
    routes: Seq<RouteView>,
    path: Seq<char>,
    best: int,
    other: int,
)
    requires
        valid_table(routes),
        is_best_match(routes, path, best),
        0 <= other < routes.len(),
        route_matches(routes[other], path),
    ensures
        compile(routes[other].pattern) is Exact ==> compile(routes[best].pattern) is Exact,
        compile(routes[other].pattern) is Prefix ==> !(compile(routes[best].pattern) is CatchAll),
        compile(routes[other].pattern) is Prefix && compile(routes[best].pattern) is Prefix
            ==> routes[best].pattern.len() >= routes[other].pattern.len(),
{
    lemma_rank_tells_kind(routes[best].pattern);
    lemma_rank_tells_kind(routes[other].pattern);
}

/// At most one route is the best match of a path.
pub proof fn lemma_best_match_is_unique(
    routes: Seq<RouteView>,
    path: Seq<char>,
    first: int,
    second: int,
)
    requires
        is_best_match(routes, path, first),
        is_best_match(routes, path, second),
    ensures
        first == second,
{
}

/// Resolving a path is repeatable: against the same routes the same path
/// resolves to the same route every time, whether or not the answer was
/// remembered.
pub proof fn lemma_resolution_is_repeatable(
    routes: Seq<RouteView>,
    path: Seq<char>,
    first: Option<RouteView>,
    second: Option<RouteView>,
)
    requires
        resolves_to(routes, path, first),
        resolves_to(routes, path, second),
    ensures
        first == second,
{
    if let (Some(a), Some(b)) = (first, second) {
        let i = choose|at: int| #[trigger] is_best_match(routes, path, at) && routes[at] == a;
        let j = choose|at: int| #[trigger] is_best_match(routes, path, at) && routes[at] == b;
        lemma_best_match_is_unique(routes, path, i, j);
    }
}

/// Whether every route of `first` is a route of `second`.
pub open spec fn routes_among(first: Seq<RouteView>, second: Seq<RouteView>) -> bool {
    forall|i: int|
        0 <= i < first.len() ==> exists|j: int|
            0 <= j < second.len() && #[trigger] second[j] == #[trigger] first[i]
}

/// Resolution does not depend on the order of declaration: two valid lists
/// that hold the same routes resolve every path to the same route.
pub proof fn lemma_resolution_ignores_declaration_order(
    first: Seq<RouteView>,
    second: Seq<RouteView>,
    path: Seq<char>,
    from_first: Option<RouteView>,
    from_second: Option<RouteView>,
)
    requires
        valid_table(first),
        valid_table(second),
        routes_among(first, second),
        routes_among(second, first),
        resolves_to(first, path, from_first),
        resolves_to(second, path, from_second),
    ensures
        from_first == from_second,
{
    if let Some(a) = from_first {
        let i = choose|at: int| #[trigger] is_best_match(first, path, at) && first[at] == a;
        let j_of_a = choose|j: int| 0 <= j < second.len() && #[trigger] second[j] == first[i];
        if let Some(b) = from_second {
            let j = choose|at: int| #[trigger] is_best_match(second, path, at) && second[at] == b;
            let i_of_b = choose|k: int| 0 <= k < first.len() && #[trigger] first[k] == second[j];
            lemma_same_rank_same_pattern(a.pattern, b.pattern, path);
            assert(patterns_of(first)[i] == patterns_of(first)[i_of_b]);
        }
    } else if let Some(b) = from_second {
        let j = choose|at: int| #[trigger] is_best_match(second, path, at) && second[at] == b;
        let i_of_b = choose|k: int| 0 <= k < first.len() && #[trigger] first[k] == second[j];
    }
}

/// A path that some route accepts resolves to a route: among the routes that
/// accept it one is the best match.
pub proof fn lemma_match_has_best(routes: Seq<RouteView>, path: Seq<char>, at: int) -> (best: int)
    requires
        0 <= at < routes.len(),
        route_matches(routes[at], path),
    ensures
        is_best_match(routes, path, best),
    decreases routes.len(),
{
    let last = routes.len() - 1;
    let shorter = routes.take(last);
    let earlier = if at < last {
        at
    } else if exists|k: int| 0 <= k < last && route_matches(#[trigger] routes[k], path) {
        choose|k: int| 0 <= k < last && route_matches(#[trigger] routes[k], path)
    } else {
        -1
    };
    if earlier < 0 {
        last
    } else {
        assert(shorter[earlier] == routes[earlier]);
        let candidate = lemma_match_has_best(shorter, path, earlier);
        let best = if route_matches(routes[last], path) && !tried_before(routes, candidate, last) {
            last
        } else {
            candidate
        };
        assert forall|other: int|
            0 <= other < routes.len() && route_matches(
                #[trigger] routes[other],
                path,
            ) implies tried_before(routes, best, other) by {
            if other < last {
                assert(shorter[other] == routes[other]);
            }
        }
        best
    }
}

} // verus!

//! The pattern router: compiles route patterns, orders the routes by
//! specificity and resolves request paths, remembering what it resolved.
//!
//! The memory of resolved paths has no bound: every distinct path that matches
//! adds one entry, and none is ever dropped. A deployment that faces paths
//! chosen by strangers should put a limit on the paths it hands to the router.

use crate::error::HeisenbergError;
use crate::routing::config::first_repeat;
use crate::routing::config::first_repeated_pattern;
use crate::routing::config::patterns_of;
use crate::routing::config::route_views;
use crate::routing::config::RouteView;
use crate::routing::config::SpaRouteConfig;
use crate::routing::config::EMPTY_PATTERN_HINT;
use crate::routing::mode::Mode;
use crate::text::chars_of;
use crate::text::starts_with;
use vstd::hash_map::StringHashMap;
use vstd::prelude::*;
use vstd::string::StringExecFns;

verus! {

/// The rank of a catch-all route, and the number from which the length of a
/// prefix is taken to rank a prefix route. No prefix is as long as this.
pub const RANK_CEILING: usize = usize::MAX;

/// Hint given when a router is built from routes that repeat a pattern.
pub const REPEATED_PATTERN_HINT: &'static str =
    "• Each route pattern must be unique\n• Use different patterns like '/app/*' and '/admin/*'\n• Remove duplicate route configurations";

/// Mathematical form of a compiled pattern.
pub enum Matcher {
    /// Matches the one path that equals the text.
    Exact(Seq<char>),
    /// Matches the text itself and every path below it.
    Prefix(Seq<char>),
    /// Matches every path.
    CatchAll,
}

/// Whether a pattern ends in `/*`.
pub open spec fn ends_with_wildcard(pattern: Seq<char>) -> bool {
    &&& pattern.len() >= 2
    &&& pattern[pattern.len() - 2] == '/'
    &&& pattern[pattern.len() - 1] == '*'
}

/// The matcher of a pattern: `/*` matches everything, any other pattern that
/// ends in `/*` is a prefix, and the rest stand for themselves.
pub open spec fn compile(pattern: Seq<char>) -> Matcher {
    if !ends_with_wildcard(pattern) {
        Matcher::Exact(pattern)
    } else if pattern.len() == 2 {
        Matcher::CatchAll
    } else {
        Matcher::Prefix(pattern.take(pattern.len() - 2))
    }
}

/// Whether a matcher accepts a path. A prefix accepts a path that starts
/// with it and either ends there or goes on with `/`.
pub open spec fn accepts(matcher: Matcher, path: Seq<char>) -> bool {
    match matcher {
        Matcher::Exact(exact) => path == exact,
        Matcher::Prefix(prefix) => prefix.is_prefix_of(path) && (path.len() == prefix.len()
            || path[prefix.len() as int] == '/'),
        Matcher::CatchAll => true,
    }
}

/// The specificity rank of a matcher; a lower rank is tried first.
pub open spec fn rank(matcher: Matcher) -> int {
    match matcher {
        Matcher::Exact(_) => 0,
        Matcher::Prefix(prefix) => RANK_CEILING - prefix.len(),
        Matcher::CatchAll => RANK_CEILING as int,
    }
}

/// Whether a route accepts a path.
pub open spec fn route_matches(route: RouteView, path: Seq<char>) -> bool {
    accepts(compile(route.pattern), path)
}

/// The specificity rank of a route.
pub open spec fn route_rank(route: RouteView) -> int {
    rank(compile(route.pattern))
}

/// Whether the route declared at `first` is tried no later than the one
/// declared at `second`: by rank, and among equal ranks by declaration.
pub open spec fn tried_before(routes: Seq<RouteView>, first: int, second: int) -> bool {
    route_rank(routes[first]) < route_rank(routes[second]) || (route_rank(routes[first])
        == route_rank(routes[second]) && first <= second)
}

/// Whether the route declared at `at` accepts the path and is tried before
/// every other route that accepts it.
pub open spec fn is_best_match(routes: Seq<RouteView>, path: Seq<char>, at: int) -> bool {
    &&& 0 <= at < routes.len()
    &&& route_matches(routes[at], path)
    &&& forall|other: int|
        0 <= other < routes.len() && route_matches(#[trigger] routes[other], path)
            ==> tried_before(routes, at, other)
}

/// Whether `outcome` is what resolving `path` against the declared routes
/// gives: the best match, or nothing where no route accepts the path.
pub open spec fn resolves_to(
    routes: Seq<RouteView>,
    path: Seq<char>,
    outcome: Option<RouteView>,
) -> bool {
    match outcome {
        Some(route) => exists|at: int| #[trigger]
            is_best_match(routes, path, at) && routes[at] == route,
        None => forall|at: int|
            0 <= at < routes.len() ==> !route_matches(#[trigger] routes[at], path),
    }
}

/// Whether a list of routes can make a router: no pattern is empty, none
/// occurs twice, and every length fits the machine.
pub open spec fn valid_table(routes: Seq<RouteView>) -> bool {
    &&& patterns_of(routes).no_duplicates()
    &&& forall|at: int|
        0 <= at < routes.len() ==> 0 < (#[trigger] routes[at]).pattern.len() <= usize::MAX
}

/// A compiled pattern.
#[derive(Debug)]
pub enum PathMatcher {
    /// Matches the one path that equals the text.
    Exact(Vec<char>),
    /// Matches the text itself and every path below it.
    Prefix(Vec<char>),
    /// Matches every path.
    CatchAll,
}

impl View for PathMatcher {
    type V = Matcher;

    open spec fn view(&self) -> Matcher {
        match self {
            PathMatcher::Exact(exact) => Matcher::Exact(exact@),
            PathMatcher::Prefix(prefix) => Matcher::Prefix(prefix@),
            PathMatcher::CatchAll => Matcher::CatchAll,
        }
    }
}

/// Whether two texts hold the same characters.
fn same_chars(left: &Vec<char>, right: &Vec<char>) -> (same: bool)
    ensures
        same == (left@ == right@),
{
    if left.len() != right.len() {
        return false;
    }
    let found = starts_with(left, right);
    proof {
        if found {
            assert(left@ =~= right@);
        }
    }
    found
}

impl PathMatcher {
    /// Whether the matcher accepts the path, given as its characters.
    pub fn matches(&self, path: &Vec<char>) -> (accepted: bool)
        ensures
            accepted == accepts(self@, path@),
    {
        match self {
            PathMatcher::Exact(exact) => same_chars(path, exact),
            PathMatcher::Prefix(prefix) => starts_with(path, prefix) && (path.len()
                == prefix.len() || path[prefix.len()] == '/'),
            PathMatcher::CatchAll => true,
        }
    }

    /// The specificity rank of the matcher.
    pub fn rank(&self) -> (value: usize)
        ensures
            value == rank(self@),
    {
        match self {
            PathMatcher::Exact(_) => 0,
            PathMatcher::Prefix(prefix) => RANK_CEILING - prefix.len(),
            PathMatcher::CatchAll => RANK_CEILING,
        }
    }
}

/// Whether a pattern accepts a path, without a router: what the compiled
/// pattern says.
pub fn path_matches(pattern: &str, path: &str) -> (accepted: bool)
    ensures
        accepted == accepts(compile(pattern@), path@),
{
    let chars = chars_of(path);
    match Router::compile_pattern(pattern) {
        Ok(matcher) => matcher.matches(&chars),
        Err(_) => {
            let accepted = chars.len() == 0;
            assert(accepted == (path@ == pattern@)) by {
                if accepted {
                    assert(path@ =~= pattern@);
                }
            }
            accepted
        },
    }
}

/// A route with its compiled pattern and the position at which it was
/// declared.
#[derive(Debug)]
struct RouteEntry {
    matcher: PathMatcher,
    config: SpaRouteConfig,
    origin: usize,
}

impl RouteEntry {
    /// The entry stands for the route declared at its origin.
    spec fn stands_for(self, declared: Seq<RouteView>) -> bool {
        &&& self.origin < declared.len()
        &&& self.config@ == declared[self.origin as int]
        &&& self.matcher@ == compile(self.config@.pattern)
    }

    /// The entry is tried strictly before `later`.
    spec fn precedes(self, later: RouteEntry) -> bool {
        rank(self.matcher@) < rank(later.matcher@) || (rank(self.matcher@) == rank(later.matcher@)
            && self.origin < later.origin)
    }
}

/// Position `at` holds the first entry that accepts the path.
spec fn first_hit(entries: Seq<RouteEntry>, path: Seq<char>, at: int) -> bool {
    &&& 0 <= at < entries.len()
    &&& accepts(entries[at].matcher@, path)
    &&& forall|k: int| 0 <= k < at ==> !accepts((#[trigger] entries[k]).matcher@, path)
}

/// Some entry stands for the route declared at `origin`.
spec fn holds_origin(entries: Seq<RouteEntry>, origin: int) -> bool {
    exists|k: int| 0 <= k < entries.len() && (#[trigger] entries[k]).origin == origin
}

/// The entries are the first `count` declared routes, ordered by rank and,
/// among equal ranks, by declaration.
spec fn ordered_table(entries: Seq<RouteEntry>, declared: Seq<RouteView>, count: int) -> bool {
    &&& entries.len() == count
    &&& forall|k: int| 0 <= k < entries.len() ==> (#[trigger] entries[k]).stands_for(declared)
    &&& forall|k: int| 0 <= k < entries.len() ==> (#[trigger] entries[k]).origin < count
    &&& forall|d: int| 0 <= d < count ==> #[trigger] holds_origin(entries, d)
    &&& forall|a: int, b: int|
        0 <= a < b < entries.len() ==> (#[trigger] entries[a]).precedes(#[trigger] entries[b])
}

/// Putting the route declared next at the place its rank asks for keeps the
/// table ordered.
proof fn lemma_insert_keeps_order(
    before: Seq<RouteEntry>,
    entry: RouteEntry,
    pos: int,
    declared: Seq<RouteView>,
    count: int,
)
    requires
        ordered_table(before, declared, count),
        entry.stands_for(declared),
        entry.origin == count,
        0 <= pos <= before.len(),
        forall|k: int| 0 <= k < pos ==> rank((#[trigger] before[k]).matcher@) <= rank(entry.matcher@),
        pos < before.len() ==> rank(before[pos].matcher@) > rank(entry.matcher@),
    ensures
        ordered_table(before.insert(pos, entry), declared, count + 1),
{
    let after = before.insert(pos, entry);
    assert forall|d: int| 0 <= d < count + 1 implies #[trigger] holds_origin(after, d) by {
        if d == count {
            assert(after[pos].origin == d);
        } else {
            assert(holds_origin(before, d));
            let k = choose|k: int| 0 <= k < before.len() && (#[trigger] before[k]).origin == d;
            if k < pos {
                assert(after[k].origin == d);
            } else {
                assert(after[k + 1] == before[k]);
            }
        }
    }
}

/// The first entry of an ordered table that accepts a path stands for the
/// best match among the declared routes.
proof fn lemma_first_hit_is_best(
    entries: Seq<RouteEntry>,
    declared: Seq<RouteView>,
    path: Seq<char>,
    at: int,
)
    requires
        ordered_table(entries, declared, declared.len() as int),
        first_hit(entries, path, at),
    ensures
        is_best_match(declared, path, entries[at].origin as int),
        declared[entries[at].origin as int] == entries[at].config@,
{
    assert forall|other: int|
        0 <= other < declared.len() && route_matches(
            #[trigger] declared[other],
            path,
        ) implies tried_before(declared, entries[at].origin as int, other) by {
        assert(holds_origin(entries, other));
    }
}

/// Where no entry of an ordered table accepts a path, no declared route does.
proof fn lemma_no_hit_no_match(entries: Seq<RouteEntry>, declared: Seq<RouteView>, path: Seq<char>)
    requires
        ordered_table(entries, declared, declared.len() as int),
        forall|k: int| 0 <= k < entries.len() ==> !accepts((#[trigger] entries[k]).matcher@, path),
    ensures
        resolves_to(declared, path, None),
{
    assert forall|at: int| 0 <= at < declared.len() implies !route_matches(
        #[trigger] declared[at],
        path,
    ) by {
        assert(holds_origin(entries, at));
    }
}

/// Whether `error` is the one owed for routes that cannot make a router: the
/// first repeated pattern if there is one, else the empty pattern.
pub open spec fn rejects(routes: Seq<RouteView>, error: HeisenbergError) -> bool {
    ||| exists|at: int|
        first_repeat(patterns_of(routes), at) && error.is_config(
            "Duplicate route pattern: "@ + (#[trigger] routes[at]).pattern,
            REPEATED_PATTERN_HINT@,
        )
    ||| {
        &&& patterns_of(routes).no_duplicates()
        &&& exists|at: int| 0 <= at < routes.len() && (#[trigger] routes[at]).pattern.len() == 0
        &&& error.is_config("Route pattern cannot be empty"@, EMPTY_PATTERN_HINT@)
    }
}

/// What a router does with a path it resolved.
#[derive(Debug)]
pub enum RouteHandler {
    /// Forward the request to the route's development server.
    Proxy(SpaRouteConfig),
    /// Serve the request from the route's static assets.
    StaticFiles(SpaRouteConfig),
}

impl Clone for RouteHandler {
    fn clone(&self) -> (copy: Self)
        ensures
            copy.route() == self.route(),
            copy is Proxy <==> self is Proxy,
    {
        match self {
            RouteHandler::Proxy(config) => RouteHandler::Proxy(config.clone()),
            RouteHandler::StaticFiles(config) => RouteHandler::StaticFiles(config.clone()),
        }
    }
}

impl RouteHandler {
    /// The route that the handler serves.
    pub open spec fn route(self) -> RouteView {
        match self {
            RouteHandler::Proxy(config) => config@,
            RouteHandler::StaticFiles(config) => config@,
        }
    }
}

/// Resolves request paths to routes.
///
/// The routes are fixed when the router is made: no pattern is empty and
/// none occurs twice. A path that was resolved to a route is remembered and
/// answered from memory the next time; the answer is the same either way.
pub struct Router {
    routes: Vec<RouteEntry>,
    mode: Mode,
    pattern_cache: StringHashMap<usize>,
    declared: Ghost<Seq<RouteView>>,
}

impl Router {
    /// The router holds its declared routes in specificity order and
    /// remembers only true resolutions.
    #[verifier::type_invariant]
    spec fn wf(self) -> bool {
        &&& valid_table(self.declared@)
        &&& ordered_table(self.routes@, self.declared@, self.declared@.len() as int)
        &&& forall|path: Seq<char>| #[trigger]
            self.pattern_cache@.contains_key(path) ==> first_hit(
                self.routes@,
                path,
                self.pattern_cache@[path] as int,
            )
    }

    /// The routes in the order in which they were declared.
    pub closed spec fn declared(self) -> Seq<RouteView> {
        self.declared@
    }

    /// The mode the router was made for.
    pub closed spec fn spec_mode(self) -> Mode {
        self.mode
    }

    /// The paths whose resolution is remembered.
    pub closed spec fn cached_paths(self) -> Set<Seq<char>> {
        self.pattern_cache@.dom()
    }

    /// Compiles a pattern. The empty pattern is refused.
    pub fn compile_pattern(pattern: &str) -> (outcome: Result<PathMatcher, HeisenbergError>)
        ensures
            match outcome {
                Ok(matcher) => 0 < pattern@.len() <= usize::MAX && matcher@ == compile(pattern@),
                Err(error) => pattern@.len() == 0 && error.is_config(
                    "Route pattern cannot be empty"@,
                    EMPTY_PATTERN_HINT@,
                ),
            },
    {
        let mut chars = chars_of(pattern);
        let len = chars.len();
        if len == 0 {
            return Err(
                HeisenbergError::config("Route pattern cannot be empty", EMPTY_PATTERN_HINT),
            );
        }
        if len >= 2 && chars[len - 2] == '/' && chars[len - 1] == '*' {
            if len == 2 {
                Ok(PathMatcher::CatchAll)
            } else {
                chars.truncate(len - 2);
                Ok(PathMatcher::Prefix(chars))
            }
        } else {
            Ok(PathMatcher::Exact(chars))
        }
    }

    /// The specificity rank of a pattern: 0 for an exact pattern, the
    /// ceiling less the length of the prefix for a prefix pattern, and the
    /// ceiling for the catch-all.
    pub fn route_priority(pattern: &str) -> (value: usize)
        ensures
            value == rank(compile(pattern@)),
    {
        let chars = chars_of(pattern);
        let len = chars.len();
        if len >= 2 && chars[len - 2] == '/' && chars[len - 1] == '*' {
            if len == 2 {
                RANK_CEILING
            } else {
                RANK_CEILING - (len - 2)
            }
        } else {
            0
        }
    }

    /// Checks that no two routes share a pattern.
    pub fn validate_routes(routes: &Vec<SpaRouteConfig>) -> (outcome: Result<(), HeisenbergError>)
        ensures
            match outcome {
                Ok(_) => patterns_of(route_views(routes@)).no_duplicates(),
                Err(error) => exists|at: int|
                    first_repeat(patterns_of(route_views(routes@)), at) && error.is_config(
                        "Duplicate route pattern: "@ + (#[trigger] routes@[at]).pattern@,
                        REPEATED_PATTERN_HINT@,
                    ),
            },
    {
        match first_repeated_pattern(routes) {
            Some(at) => {
                let message = String::from_str("Duplicate route pattern: ").concat(
                    routes[at].pattern.as_str(),
                );
                Err(HeisenbergError::config(message.as_str(), REPEATED_PATTERN_HINT))
            },
            None => Ok(()),
        }
    }

    /// Makes a router for the given routes and mode.
    ///
    /// Fails where two routes share a pattern or a pattern is empty; a
    /// repeated pattern is reported first. Otherwise the router holds the
    /// routes in specificity order and remembers no path yet.
    pub fn new(routes: Vec<SpaRouteConfig>, mode: Mode) -> (outcome: Result<Router, HeisenbergError>)
        ensures
            match outcome {
                Ok(router) => {
                    &&& valid_table(route_views(routes@))
                    &&& router.declared() == route_views(routes@)
                    &&& router.spec_mode() == mode
                    &&& router.cached_paths() == Set::<Seq<char>>::empty()
                },
                Err(error) => rejects(route_views(routes@), error),
            },
    {
        let ghost declared = route_views(routes@);
        if let Err(error) = Router::validate_routes(&routes) {
            return Err(error);
        }
        let mut entries: Vec<RouteEntry> = Vec::new();
        let mut at: usize = 0;
        while at < routes.len()
            invariant
                at <= routes.len(),
                declared == route_views(routes@),
                patterns_of(declared).no_duplicates(),
                ordered_table(entries@, declared, at as int),
                forall|k: int| 0 <= k < at ==> 0 < (#[trigger] declared[k]).pattern.len() <= usize::MAX,
            decreases routes.len() - at,
        {
            let config = routes[at].clone();
            assert(config@ == declared[at as int]);
            let matcher = match Router::compile_pattern(config.pattern.as_str()) {
                Ok(matcher) => matcher,
                Err(error) => {
                    return Err(error);
                },
            };
            let value = matcher.rank();
            let mut pos: usize = 0;
            while pos < entries.len() && entries[pos].matcher.rank() <= value
                invariant
                    pos <= entries.len(),
                    value == rank(matcher@),
                    forall|k: int|
                        0 <= k < pos ==> rank((#[trigger] entries@[k]).matcher@) <= value,
                decreases entries.len() - pos,
            {
                pos += 1;
            }
            let entry = RouteEntry { matcher, config, origin: at };
            proof {
                lemma_insert_keeps_order(entries@, entry, pos as int, declared, at as int);
            }
            entries.insert(pos, entry);
            at += 1;
        }
        Ok(
            Router {
                routes: entries,
                mode,
                pattern_cache: StringHashMap::new(),
                declared: Ghost(declared),
            },
        )
    }

    /// Resolves a path to the route that serves it.
    ///
    /// The answer is the best match among the declared routes, whether it is
    /// taken from memory or found by trying the routes in specificity order.
    /// A path that was resolved to a route is remembered afterwards; the
    /// routes and the mode never change.
    pub fn match_route(&mut self, path: &str) -> (found: Option<&SpaRouteConfig>)
        ensures
            valid_table(old(self).declared()),
            resolves_to(
                old(self).declared(),
                path@,
                match found {
                    Some(route) => Some(route@),
                    None => None,
                },
            ),
            final(self).declared() == old(self).declared(),
            final(self).spec_mode() == old(self).spec_mode(),
            final(self).cached_paths() == if found is Some {
                old(self).cached_paths().insert(path@)
            } else {
                old(self).cached_paths()
            },
    {
        proof {
            use_type_invariant(&*self);
        }
        let remembered = match self.pattern_cache.get(path) {
            Some(index) => Some(*index),
            None => None,
        };
        if let Some(index) = remembered {
            proof {
                lemma_first_hit_is_best(self.routes@, self.declared@, path@, index as int);
            }
            return Some(&self.routes[index].config);
        }
        let chars = chars_of(path);
        let mut index: usize = 0;
        while index < self.routes.len()
            invariant
                index <= self.routes.len(),
                chars@ == path@,
                *self == *old(self),
                forall|k: int|
                    0 <= k < index ==> !accepts((#[trigger] self.routes@[k]).matcher@, path@),
            decreases self.routes.len() - index,
        {
            if self.routes[index].matcher.matches(&chars) {
                proof {
                    use_type_invariant(&*self);
                    lemma_first_hit_is_best(self.routes@, self.declared@, path@, index as int);
                }
                // The memory is taken out while it grows, so that the router
                // is whole at every step.
                let mut cache: StringHashMap<usize> = StringHashMap::new();
                std::mem::swap(&mut self.pattern_cache, &mut cache);
                cache.insert(path.to_owned(), index);
                std::mem::swap(&mut self.pattern_cache, &mut cache);
                return Some(&self.routes[index].config);
            }
            index += 1;
        }
        proof {
            use_type_invariant(&*self);
            lemma_no_hit_no_match(self.routes@, self.declared@, path@);
        }
        None
    }

    /// Resolves a path and says how the router's mode serves the route:
    /// through the proxy in development, from static assets in production.
    pub fn route_handler(&mut self, path: &str) -> (handler: Option<RouteHandler>)
        ensures
            valid_table(old(self).declared()),
            resolves_to(
                old(self).declared(),
                path@,
                match handler {
                    Some(chosen) => Some(chosen.route()),
                    None => None,
                },
            ),
            handler matches Some(chosen) ==> (chosen is Proxy <==> old(self).spec_mode()
                == Mode::Development),
            final(self).declared() == old(self).declared(),
            final(self).spec_mode() == old(self).spec_mode(),
            final(self).cached_paths() == if handler is Some {
                old(self).cached_paths().insert(path@)
            } else {
                old(self).cached_paths()
            },
    {
        let mode = self.mode;
        match self.match_route(path) {
            Some(route) => match mode {
                Mode::Development => Some(RouteHandler::Proxy(route.clone())),
                Mode::Production => Some(RouteHandler::StaticFiles(route.clone())),
            },
            None => None,
        }
    }

    /// The mode the router was made for.
    pub fn mode(&self) -> (mode: Mode)
        ensures
            mode == self.spec_mode(),
    {
        self.mode
    }
}

} // verus!

//! Route configuration, the global settings and the builder that fills them.

use crate::error::HeisenbergError;
use crate::routing::mode::Mode;
use crate::text::clone_texts;
use crate::text::has_prefix;
use crate::timing::TimeSpan;
use crate::utils::package_json::default_inference;
use crate::utils::package_json::InferredConfig;
use crate::utils::package_json::InferredView;
use vstd::hash_map::StringHashMap;
use vstd::prelude::*;
use vstd::string::StringExecFns;

verus! {

/// Hint given with an empty route pattern.
pub const EMPTY_PATTERN_HINT: &'static str =
    "• Use '/*' to match all paths\n• Use '/app/*' to match paths starting with /app/\n• Patterns must start with '/' and can use '*' wildcards";

/// Hint given with an empty development command.
pub const EMPTY_COMMAND_HINT: &'static str =
    "• Common commands: ['npm', 'run', 'dev'] or ['yarn', 'dev']\n• Check your package.json scripts section\n• Use .dev_command() to specify a custom command";

/// Hint given with an empty development address.
pub const EMPTY_URL_HINT: &'static str =
    "• Common URLs: 'http://localhost:3000' (React/Next.js)\n• Or: 'http://localhost:5173' (Vite)\n• Use .dev_server() to specify the URL";

/// Hint given with a development address that names no HTTP scheme.
pub const URL_SCHEME_HINT: &'static str =
    "• Use 'http://localhost:3000' for local development\n• Use 'https://...' only if your dev server uses HTTPS\n• Check your frontend dev server configuration";

/// Hint given when a configuration holds one pattern twice.
pub const DUPLICATE_PATTERN_HINT: &'static str =
    "• Each route pattern must be unique\n• Use different patterns like '/app/*' and '/admin/*'\n• Remove duplicate .spa() calls with the same pattern";

/// Settings that hold for every route.
#[derive(Debug, Clone, Copy, PartialEq, Eq, Structural)]
pub struct GlobalSettings {
    /// Time between two health checks of a development server.
    pub health_check_interval: TimeSpan,
    /// Longest time a proxied request may take.
    pub proxy_timeout: TimeSpan,
    /// Longest time a development server may take to answer its first probe.
    pub process_startup_timeout: TimeSpan,
}

impl Default for GlobalSettings {
    fn default() -> (settings: Self)
        ensures
            settings.health_check_interval.total_nanos() == 5 * 1_000_000_000,
            settings.proxy_timeout.total_nanos() == 30 * 1_000_000_000,
            settings.process_startup_timeout.total_nanos() == 30 * 1_000_000_000,
    {
        GlobalSettings {
            health_check_interval: TimeSpan::from_secs(5),
            proxy_timeout: TimeSpan::from_secs(30),
            process_startup_timeout: TimeSpan::from_secs(30),
        }
    }
}

/// One route: a pattern, where its assets lie, and how its development
/// server is started and reached.
#[derive(Debug)]
pub struct SpaRouteConfig {
    /// Route pattern, such as `/*` or `/admin/*`.
    pub pattern: String,
    /// Directory that holds the built assets.
    pub embed_dir: String,
    /// Address of the development server.
    pub dev_proxy_url: String,
    /// Command that starts the development server, one argument per item.
    pub dev_command: Vec<String>,
    /// Directory in which the command runs.
    pub working_dir: String,
    /// File served where a requested asset is missing.
    pub fallback_file: Option<String>,
    /// Whether a browser is opened once the development server answers.
    pub open_browser: bool,
}

/// Mathematical form of a [`SpaRouteConfig`].
pub struct RouteView {
    /// The route pattern.
    pub pattern: Seq<char>,
    /// The directory of the built assets.
    pub embed_dir: Seq<char>,
    /// The address of the development server.
    pub dev_proxy_url: Seq<char>,
    /// The command that starts the development server.
    pub dev_command: Seq<Seq<char>>,
    /// The directory in which the command runs.
    pub working_dir: Seq<char>,
    /// The file served where an asset is missing.
    pub fallback_file: Option<Seq<char>>,
    /// Whether a browser is opened.
    pub open_browser: bool,
}

impl View for SpaRouteConfig {
    type V = RouteView;

    open spec fn view(&self) -> RouteView {
        RouteView {
            pattern: self.pattern@,
            embed_dir: self.embed_dir@,
            dev_proxy_url: self.dev_proxy_url@,
            dev_command: self.dev_command.deep_view(),
            working_dir: self.working_dir@,
            fallback_file: match self.fallback_file {
                Some(file) => Some(file@),
                None => None,
            },
            open_browser: self.open_browser,
        }
    }
}

impl Clone for SpaRouteConfig {
    fn clone(&self) -> (copy: Self)
        ensures
            copy@ == self@,
    {
        SpaRouteConfig {
            pattern: self.pattern.clone(),
            embed_dir: self.embed_dir.clone(),
            dev_proxy_url: self.dev_proxy_url.clone(),
            dev_command: clone_texts(&self.dev_command),
            working_dir: self.working_dir.clone(),
            fallback_file: match &self.fallback_file {
                Some(file) => Some(file.clone()),
                None => None,
            },
            open_browser: self.open_browser,
        }
    }
}

/// The routes of a list, each in its mathematical form.
pub open spec fn route_views(routes: Seq<SpaRouteConfig>) -> Seq<RouteView> {
    Seq::new(routes.len(), |i: int| routes[i]@)
}

/// The patterns of a list of routes, in order.
pub open spec fn patterns_of(routes: Seq<RouteView>) -> Seq<Seq<char>> {
    Seq::new(routes.len(), |i: int| routes[i].pattern)
}

/// Whether position `at` is the first that repeats an earlier pattern.
pub open spec fn first_repeat(patterns: Seq<Seq<char>>, at: int) -> bool {
    &&& 0 <= at < patterns.len()
    &&& patterns.take(at).no_duplicates()
    &&& patterns.take(at).contains(patterns[at])
}

/// What is wrong with a single route, as message and hint; nothing where the
/// route is acceptable. The pattern is looked at first, then the command,
/// then the address.
pub open spec fn route_problem(route: RouteView) -> Option<(Seq<char>, Seq<char>)> {
    if route.pattern.len() == 0 {
        Some(("Route pattern cannot be empty"@, EMPTY_PATTERN_HINT@))
    } else if route.dev_command.len() == 0 {
        Some(("Development command cannot be empty"@, EMPTY_COMMAND_HINT@))
    } else if route.dev_proxy_url.len() == 0 {
        Some(("Development proxy URL cannot be empty"@, EMPTY_URL_HINT@))
    } else if !"http://"@.is_prefix_of(route.dev_proxy_url) && !"https://"@.is_prefix_of(
        route.dev_proxy_url,
    ) {
        Some(
            (
                "Development proxy URL must start with http:// or https://: "@
                    + route.dev_proxy_url,
                URL_SCHEME_HINT@,
            ),
        )
    } else {
        None
    }
}

/// Whether `error` is the one owed for a list of routes that is not
/// acceptable: the first repeated pattern if there is one, else the problem
/// of the first route that has one. `duplicate_hint` is the hint given with a
/// repeated pattern.
pub open spec fn reports_problem(
    routes: Seq<RouteView>,
    error: HeisenbergError,
    duplicate_hint: Seq<char>,
) -> bool {
    ||| exists|at: int|
        first_repeat(patterns_of(routes), at) && error.is_config(
            "Duplicate route pattern: "@ + #[trigger] routes[at].pattern,
            duplicate_hint,
        )
    ||| {
        &&& patterns_of(routes).no_duplicates()
        &&& exists|at: int|
            {
                &&& 0 <= at < routes.len()
                &&& forall|k: int| 0 <= k < at ==> route_problem(#[trigger] routes[k]) is None
                &&& #[trigger] route_problem(routes[at]) matches Some(problem)
                &&& error.is_config(problem.0, problem.1)
            }
    }
}

/// Whether every route of the list is acceptable and no pattern occurs twice.
pub open spec fn acceptable(routes: Seq<RouteView>) -> bool {
    &&& patterns_of(routes).no_duplicates()
    &&& forall|k: int| 0 <= k < routes.len() ==> route_problem(#[trigger] routes[k]) is None
}

impl SpaRouteConfig {
    /// Checks this route: the pattern, the command and the address must not
    /// be empty, and the address must start with `http://` or `https://`.
    pub fn validate(&self) -> (outcome: Result<(), HeisenbergError>)
        ensures
            match outcome {
                Ok(_) => route_problem(self@) is None,
                Err(error) => route_problem(self@) matches Some(problem) && error.is_config(
                    problem.0,
                    problem.1,
                ),
            },
    {
        if self.pattern.as_str().unicode_len() == 0 {
            return Err(
                HeisenbergError::config("Route pattern cannot be empty", EMPTY_PATTERN_HINT),
            );
        }
        if self.dev_command.len() == 0 {
            return Err(
                HeisenbergError::config("Development command cannot be empty", EMPTY_COMMAND_HINT),
            );
        }
        if self.dev_proxy_url.as_str().unicode_len() == 0 {
            return Err(
                HeisenbergError::config("Development proxy URL cannot be empty", EMPTY_URL_HINT),
            );
        }
        if !has_prefix(self.dev_proxy_url.as_str(), "http://") && !has_prefix(
            self.dev_proxy_url.as_str(),
            "https://",
        ) {
            let message = String::from_str(
                "Development proxy URL must start with http:// or https://: ",
            ).concat(self.dev_proxy_url.as_str());
            return Err(HeisenbergError::config(message.as_str(), URL_SCHEME_HINT));
        }
        Ok(())
    }
}

/// The first position of `routes` whose pattern occurred before it.
pub fn first_repeated_pattern(routes: &Vec<SpaRouteConfig>) -> (found: Option<usize>)
    ensures
        match found {
            Some(at) => first_repeat(patterns_of(route_views(routes@)), at as int),
            None => patterns_of(route_views(routes@)).no_duplicates(),
        },
{
    let ghost patterns = patterns_of(route_views(routes@));
    let mut seen: StringHashMap<usize> = StringHashMap::new();
    let mut at: usize = 0;
    while at < routes.len()
        invariant
            at <= routes.len(),
            patterns == patterns_of(route_views(routes@)),
            patterns.take(at as int).no_duplicates(),
            forall|p: Seq<char>| seen@.contains_key(p) <==> patterns.take(at as int).contains(p),
        decreases routes.len() - at,
    {
        if seen.contains_key(routes[at].pattern.as_str()) {
            return Some(at);
        }
        seen.insert(routes[at].pattern.clone(), at);
        proof {
            let longer = patterns.take(at + 1);
            assert forall|p: Seq<char>| seen@.contains_key(p) <==> longer.contains(p) by {
                if p == patterns[at as int] {
                    assert(longer[at as int] == p);
                }
            }
        }
        at += 1;
    }
    assert(patterns.take(at as int) =~= patterns);
    None
}

/// The whole configuration: the routes in the order in which they were
/// declared, the global settings, and a mode that overrides detection.
#[derive(Debug)]
pub struct Heisenberg {
    /// Routes in declaration order.
    pub routes: Vec<SpaRouteConfig>,
    /// Settings that hold for every route.
    pub global_settings: GlobalSettings,
    /// Mode to use in place of the detected one.
    pub mode_override: Option<Mode>,
}

/// Mathematical form of a [`Heisenberg`] configuration.
pub struct HeisenbergView {
    /// The routes in declaration order.
    pub routes: Seq<RouteView>,
    /// The settings that hold for every route.
    pub global_settings: GlobalSettings,
    /// The mode used in place of the detected one.
    pub mode_override: Option<Mode>,
}

impl View for Heisenberg {
    type V = HeisenbergView;

    open spec fn view(&self) -> HeisenbergView {
        HeisenbergView {
            routes: route_views(self.routes@),
            global_settings: self.global_settings,
            mode_override: self.mode_override,
        }
    }
}

/// A copy of `routes`, route for route.
pub fn clone_routes(routes: &Vec<SpaRouteConfig>) -> (copy: Vec<SpaRouteConfig>)
    ensures
        route_views(copy@) == route_views(routes@),
{
    let mut copy: Vec<SpaRouteConfig> = Vec::new();
    let mut i: usize = 0;
    while i < routes.len()
        invariant
            i <= routes.len(),
            copy.len() == i,
            forall|k: int| 0 <= k < i ==> copy@[k]@ == routes@[k]@,
        decreases routes.len() - i,
    {
        copy.push(routes[i].clone());
        i += 1;
    }
    copy
}

impl Clone for Heisenberg {
    fn clone(&self) -> (copy: Self)
        ensures
            copy@ == self@,
    {
        Heisenberg {
            routes: clone_routes(&self.routes),
            global_settings: self.global_settings,
            mode_override: self.mode_override,
        }
    }
}

impl Default for Heisenberg {
    fn default() -> (config: Self)
        ensures
            config@.routes.len() == 0,
            config@.mode_override is None,
            config@.global_settings.health_check_interval.total_nanos() == 5 * 1_000_000_000,
            config@.global_settings.proxy_timeout.total_nanos() == 30 * 1_000_000_000,
            config@.global_settings.process_startup_timeout.total_nanos() == 30 * 1_000_000_000,
    {
        Heisenberg::new()
    }
}

/// The route that a new asset directory starts with: the catch-all pattern,
/// the inferred command, address and working directory, `index.html` as
/// fallback, and no browser.
pub open spec fn initial_route(embed_dir: Seq<char>, inferred: InferredView) -> RouteView {
    RouteView {
        pattern: "/*"@,
        embed_dir,
        dev_proxy_url: inferred.dev_url,
        dev_command: inferred.dev_command,
        working_dir: inferred.working_dir,
        fallback_file: Some("index.html"@),
        open_browser: false,
    }
}

impl Heisenberg {
    /// A configuration without routes, with the default settings: a health
    /// check every 5 seconds, 30 seconds for a proxied request and 30 seconds
    /// for a development server to start.
    pub fn new() -> (config: Self)
        ensures
            config@.routes.len() == 0,
            config@.mode_override is None,
            config@.global_settings.health_check_interval.total_nanos() == 5 * 1_000_000_000,
            config@.global_settings.proxy_timeout.total_nanos() == 30 * 1_000_000_000,
            config@.global_settings.process_startup_timeout.total_nanos() == 30 * 1_000_000_000,
    {
        Heisenberg {
            routes: Vec::new(),
            global_settings: GlobalSettings::default(),
            mode_override: None,
        }
    }

    /// Adds a route for the assets in `embed_dir`, with what was inferred for
    /// that directory as its defaults, and hands back a builder for it.
    pub fn spa_with(self, embed_dir: &str, inferred: InferredConfig) -> (builder: SpaRouteBuilder)
        ensures
            builder.index() == self@.routes.len(),
            builder.target() == (HeisenbergView {
                routes: self@.routes.push(initial_route(embed_dir@, inferred@)),
                ..self@
            }),
    {
        let route = SpaRouteConfig {
            pattern: String::from_str("/*"),
            embed_dir: embed_dir.to_owned(),
            dev_proxy_url: inferred.dev_url,
            dev_command: inferred.dev_command,
            working_dir: inferred.working_dir,
            fallback_file: Some(String::from_str("index.html")),
            open_browser: false,
        };
        let mut config = self;
        let route_index = config.routes.len();
        config.routes.push(route);
        assert(route_views(config.routes@) =~= self@.routes.push(
            initial_route(embed_dir@, inferred@),
        ));
        SpaRouteBuilder { heisenberg: config, route_index }
    }

    /// Adds a route for the assets in `embed_dir` with the defaults that hold
    /// where no manifest was read: `npm run dev` on port 5173, run in the
    /// parent directory of `embed_dir`.
    pub fn spa(self, embed_dir: &str) -> (builder: SpaRouteBuilder)
        ensures
            builder.index() == self@.routes.len(),
            exists|parent: Option<Seq<char>>|
                builder.target() == (HeisenbergView {
                    routes: self@.routes.push(
                        initial_route(embed_dir@, #[trigger] default_inference(embed_dir@, parent)),
                    ),
                    ..self@
                }),
    {
        let inferred = InferredConfig::default_for_dir(embed_dir);
        self.spa_with(embed_dir, inferred)
    }

    /// The routes in declaration order.
    pub fn routes(&self) -> (routes: &Vec<SpaRouteConfig>)
        ensures
            route_views(routes@) == self@.routes,
    {
        &self.routes
    }

    /// Sets the time between two health checks.
    pub fn health_check_interval(self, interval: TimeSpan) -> (config: Self)
        ensures
            config@ == (HeisenbergView {
                global_settings: GlobalSettings {
                    health_check_interval: interval,
                    ..self@.global_settings
                },
                ..self@
            }),
    {
        let mut config = self;
        config.global_settings.health_check_interval = interval;
        config
    }

    /// Sets the longest time a proxied request may take.
    pub fn proxy_timeout(self, timeout: TimeSpan) -> (config: Self)
        ensures
            config@ == (HeisenbergView {
                global_settings: GlobalSettings { proxy_timeout: timeout, ..self@.global_settings },
                ..self@
            }),
    {
        let mut config = self;
        config.global_settings.proxy_timeout = timeout;
        config
    }

    /// Sets the longest time a development server may take to start.
    pub fn process_startup_timeout(self, timeout: TimeSpan) -> (config: Self)
        ensures
            config@ == (HeisenbergView {
                global_settings: GlobalSettings {
                    process_startup_timeout: timeout,
                    ..self@.global_settings
                },
                ..self@
            }),
    {
        let mut config = self;
        config.global_settings.process_startup_timeout = timeout;
        config
    }

    /// Fixes the mode, in place of detection.
    pub fn mode_override(self, mode: Mode) -> (config: Self)
        ensures
            config@ == (HeisenbergView { mode_override: Some(mode), ..self@ }),
    {
        let mut config = self;
        config.mode_override = Some(mode);
        config
    }

    /// The mode to run in: the override where one is set, and the detected
    /// mode otherwise.
    pub fn mode_or(&self, detected: Mode) -> (mode: Mode)
        ensures
            mode == match self@.mode_override {
                Some(fixed) => fixed,
                None => detected,
            },
    {
        match self.mode_override {
            Some(fixed) => fixed,
            None => detected,
        }
    }

    /// The settings that hold for every route.
    pub fn global_settings(&self) -> (settings: &GlobalSettings)
        ensures
            *settings == self@.global_settings,
    {
        &self.global_settings
    }

    /// Checks the whole configuration: no pattern may occur twice, and every
    /// route must be acceptable by itself. A repeated pattern is reported
    /// before any other problem.
    pub fn validate(&self) -> (outcome: Result<(), HeisenbergError>)
        ensures
            match outcome {
                Ok(_) => acceptable(self@.routes),
                Err(error) => reports_problem(self@.routes, error, DUPLICATE_PATTERN_HINT@),
            },
    {
        let ghost routes = self@.routes;
        if let Some(at) = first_repeated_pattern(&self.routes) {
            let message = String::from_str("Duplicate route pattern: ").concat(
                self.routes[at].pattern.as_str(),
            );
            return Err(HeisenbergError::config(message.as_str(), DUPLICATE_PATTERN_HINT));
        }
        let mut at: usize = 0;
        while at < self.routes.len()
            invariant
                at <= self.routes.len(),
                routes == route_views(self.routes@),
                patterns_of(routes).no_duplicates(),
                forall|k: int| 0 <= k < at ==> route_problem(#[trigger] routes[k]) is None,
            decreases self.routes.len() - at,
        {
            assert(routes[at as int] == self.routes@[at as int]@);
            if let Err(error) = self.routes[at].validate() {
                return Err(error);
            }
            at += 1;
        }
        Ok(())
    }
}

/// A configuration under construction together with the route that the next
/// setting applies to.
#[derive(Debug)]
pub struct SpaRouteBuilder {
    heisenberg: Heisenberg,
    route_index: usize,
}

impl SpaRouteBuilder {
    #[verifier::type_invariant]
    spec fn route_exists(self) -> bool {
        self.route_index < self.heisenberg.routes.len()
    }

    /// The configuration built so far.
    pub closed spec fn target(self) -> HeisenbergView {
        self.heisenberg@
    }

    /// Position of the route that the settings apply to.
    pub closed spec fn index(self) -> int {
        self.route_index as int
    }

    /// The configuration built so far with its current route replaced.
    pub open spec fn with_route(self, route: RouteView) -> HeisenbergView {
        HeisenbergView { routes: self.target().routes.update(self.index(), route), ..self.target() }
    }

    /// The route that the settings apply to.
    pub open spec fn current(self) -> RouteView {
        self.target().routes[self.index()]
    }

    /// Sets whether a browser is opened once the development server answers.
    pub fn open_browser(self, open: bool) -> (builder: Self)
        ensures
            builder.index() == self.index(),
            builder.target() == self.with_route(
                RouteView { open_browser: open, ..self.current() },
            ),
    {
        proof {
            use_type_invariant(&self);
        }
        let mut builder = self;
        let at = builder.route_index;
        builder.heisenberg.routes[at].open_browser = open;
        assert(builder.heisenberg@.routes =~= self.heisenberg@.routes.update(
            at as int,
            RouteView { open_browser: open, ..self.heisenberg@.routes[at as int] },
        ));
        builder
    }

    /// Sets the address of the development server.
    pub fn dev_server(self, url: &str) -> (builder: Self)
        ensures
            builder.index() == self.index(),
            builder.target() == self.with_route(
                RouteView { dev_proxy_url: url@, ..self.current() },
            ),
    {
        proof {
            use_type_invariant(&self);
        }
        let mut builder = self;
        let at = builder.route_index;
        builder.heisenberg.routes[at].dev_proxy_url = url.to_owned();
        assert(builder.heisenberg@.routes =~= self.heisenberg@.routes.update(
            at as int,
            RouteView { dev_proxy_url: url@, ..self.heisenberg@.routes[at as int] },
        ));
        builder
    }

    /// Sets the command that starts the development server.
    pub fn dev_command(self, command: &[&str]) -> (builder: Self)
        ensures
            builder.index() == self.index(),
            builder.target() == self.with_route(
                RouteView {
                    dev_command: Seq::new(command@.len(), |i: int| command@[i]@),
                    ..self.current()
                },
            ),
    {
        proof {
            use_type_invariant(&self);
        }
        let mut arguments: Vec<String> = Vec::new();
        let mut i: usize = 0;
        while i < command.len()
            invariant
                i <= command.len(),
                arguments.len() == i,
                forall|k: int| 0 <= k < i ==> arguments@[k]@ == command@[k]@,
            decreases command.len() - i,
        {
            arguments.push(command[i].to_owned());
            i += 1;
        }
        assert(arguments.deep_view() =~= Seq::new(command@.len(), |i: int| command@[i]@));
        let mut builder = self;
        let at = builder.route_index;
        builder.heisenberg.routes[at].dev_command = arguments;
        assert(builder.heisenberg@.routes =~= self.heisenberg@.routes.update(
            at as int,
            RouteView {
                dev_command: Seq::new(command@.len(), |i: int| command@[i]@),
                ..self.heisenberg@.routes[at as int]
            },
        ));
        builder
    }

    /// Sets the directory in which the development command runs.
    pub fn working_dir(self, dir: &str) -> (builder: Self)
        ensures
            builder.index() == self.index(),
            builder.target() == self.with_route(RouteView { working_dir: dir@, ..self.current() }),
    {
        proof {
            use_type_invariant(&self);
        }
        let mut builder = self;
        let at = builder.route_index;
        builder.heisenberg.routes[at].working_dir = dir.to_owned();
        assert(builder.heisenberg@.routes =~= self.heisenberg@.routes.update(
            at as int,
            RouteView { working_dir: dir@, ..self.heisenberg@.routes[at as int] },
        ));
        builder
    }

    /// Sets the file served where a requested asset is missing.
    pub fn fallback_file(self, file: &str) -> (builder: Self)
        ensures
            builder.index() == self.index(),
            builder.target() == self.with_route(
                RouteView { fallback_file: Some(file@), ..self.current() },
            ),
    {
        proof {
            use_type_invariant(&self);
        }
        let mut builder = self;
        let at = builder.route_index;
        builder.heisenberg.routes[at].fallback_file = Some(file.to_owned());
        assert(builder.heisenberg@.routes =~= self.heisenberg@.routes.update(
            at as int,
            RouteView { fallback_file: Some(file@), ..self.heisenberg@.routes[at as int] },
        ));
        builder
    }

    /// Sets the route pattern.
    pub fn pattern(self, pattern: &str) -> (builder: Self)
        ensures
            builder.index() == self.index(),
            builder.target() == self.with_route(RouteView { pattern: pattern@, ..self.current() }),
    {
        proof {
            use_type_invariant(&self);
        }
        let mut builder = self;
        let at = builder.route_index;
        builder.heisenberg.routes[at].pattern = pattern.to_owned();
        assert(builder.heisenberg@.routes =~= self.heisenberg@.routes.update(
            at as int,
            RouteView { pattern: pattern@, ..self.heisenberg@.routes[at as int] },
        ));
        builder
    }

    /// Adds another route, for the assets in `embed_dir`, with the defaults
    /// that hold where no manifest was read.
    pub fn spa(self, embed_dir: &str) -> (builder: SpaRouteBuilder)
        ensures
            builder.index() == self.target().routes.len(),
            exists|parent: Option<Seq<char>>|
                builder.target() == (HeisenbergView {
                    routes: self.target().routes.push(
                        initial_route(embed_dir@, #[trigger] default_inference(embed_dir@, parent)),
                    ),
                    ..self.target()
                }),
    {
        self.heisenberg.spa(embed_dir)
    }

    /// Adds another route, for the assets in `embed_dir`, with what was
    /// inferred for that directory as its defaults.
    pub fn spa_with(self, embed_dir: &str, inferred: InferredConfig) -> (builder: SpaRouteBuilder)
        ensures
            builder.index() == self.target().routes.len(),
            builder.target() == (HeisenbergView {
                routes: self.target().routes.push(initial_route(embed_dir@, inferred@)),
                ..self.target()
            }),
    {
        self.heisenberg.spa_with(embed_dir, inferred)
    }

    /// Ends the construction. Nothing is checked here: see
    /// [`Heisenberg::validate`].
    pub fn build(self) -> (config: Heisenberg)
        ensures
            config@ == self.target(),
    {
        self.heisenberg
    }
}

} // verus!

//! The registry of development server processes and the decisions taken
//! while one is started.
//!
//! Processes are spawned, polled and terminated by the caller, who knows each
//! child by a number of its own choosing. The registry records which child
//! serves which route and since when, and tells the caller which children to
//! terminate.

use crate::error::HeisenbergError;
use crate::text::clone_texts;
use crate::text::same_text;
use crate::timing::TimeSpan;
use vstd::prelude::*;
use vstd::string::StringExecFns;

verus! {

/// Hint given when a process is to be started without a command.
pub const EMPTY_START_HINT: &'static str =
    "• Specify a dev command like ['npm', 'run', 'dev']\n• Check your package.json scripts section\n• Use .dev_command() to set a custom command";

/// Hint given when the operating system could not start the command.
pub const SPAWN_FAILED_HINT: &'static str =
    "• Ensure the command exists (npm, yarn, pnpm)\n• Check if package.json exists in the working directory\n• Verify the working directory path is correct\n• Try running the command manually to test it";

/// One tracked child process.
#[derive(Debug)]
pub struct ProcessRecord {
    /// The route that the process serves.
    pub route_id: String,
    /// The number by which the caller knows the child process.
    pub child: u64,
    /// When the process was started, on the caller's clock.
    pub started_at: TimeSpan,
}

/// What the registry holds for a route.
pub struct ProcessInfo {
    /// The number by which the caller knows the child process.
    pub child: u64,
    /// When the process was started, on the caller's clock.
    pub started_at: TimeSpan,
}

impl ProcessRecord {
    /// What the record says of its process.
    pub open spec fn info(self) -> ProcessInfo {
        ProcessInfo { child: self.child, started_at: self.started_at }
    }
}

/// What the caller found when it polled a child process.
#[derive(Debug, Clone, Copy, PartialEq, Eq, Structural)]
pub enum ChildStatus {
    /// The process is still running.
    Running,
    /// The process has exited.
    Exited,
    /// The state of the process could not be read.
    Unknown,
}

/// Some record is kept for the route.
spec fn holds(records: Seq<ProcessRecord>, id: Seq<char>) -> bool {
    exists|i: int| 0 <= i < records.len() && (#[trigger] records[i]).route_id@ == id
}

/// The records and the registry say the same, and no route is recorded
/// twice.
spec fn consistent(records: Seq<ProcessRecord>, registry: Map<Seq<char>, ProcessInfo>) -> bool {
    &&& forall|i: int, j: int|
        0 <= i < j < records.len() ==> (#[trigger] records[i]).route_id@ != (
        #[trigger] records[j]).route_id@
    &&& forall|i: int|
        0 <= i < records.len() ==> registry.contains_key((#[trigger] records[i]).route_id@)
            && registry[records[i].route_id@] == records[i].info()
    &&& forall|id: Seq<char>| #[trigger] registry.contains_key(id) ==> holds(records, id)
}

/// Taking a record out takes its route out of the registry.
proof fn lemma_remove_keeps_consistent(
    before: Seq<ProcessRecord>,
    registry: Map<Seq<char>, ProcessInfo>,
    at: int,
)
    requires
        consistent(before, registry),
        0 <= at < before.len(),
    ensures
        consistent(before.remove(at), registry.remove(before[at].route_id@)),
{
    let after = before.remove(at);
    let left = registry.remove(before[at].route_id@);
    assert forall|id: Seq<char>| #[trigger] left.contains_key(id) implies holds(after, id) by {
        let k = choose|k: int| 0 <= k < before.len() && (#[trigger] before[k]).route_id@ == id;
        if k < at {
            assert(after[k].route_id@ == id);
        } else {
            assert(after[k - 1] == before[k]);
        }
    }
}

/// Adding a record for a route that has none adds the route to the
/// registry.
proof fn lemma_push_keeps_consistent(
    before: Seq<ProcessRecord>,
    registry: Map<Seq<char>, ProcessInfo>,
    record: ProcessRecord,
)
    requires
        consistent(before, registry),
        !registry.contains_key(record.route_id@),
    ensures
        consistent(before.push(record), registry.insert(record.route_id@, record.info())),
{
    let after = before.push(record);
    let grown = registry.insert(record.route_id@, record.info());
    assert forall|id: Seq<char>| #[trigger] grown.contains_key(id) implies holds(after, id) by {
        if id == record.route_id@ {
            assert(after[before.len() as int].route_id@ == id);
        } else {
            let k = choose|k: int| 0 <= k < before.len() && (#[trigger] before[k]).route_id@ == id;
            assert(after[k] == before[k]);
        }
    }
}

/// The registry of tracked child processes, at most one per route.
pub struct ProcessManager {
    processes: Vec<ProcessRecord>,
    model: Ghost<Map<Seq<char>, ProcessInfo>>,
}

impl ProcessManager {
    #[verifier::type_invariant]
    spec fn wf(self) -> bool {
        consistent(self.processes@, self.model@)
    }

    /// The tracked processes by route.
    pub closed spec fn registry(self) -> Map<Seq<char>, ProcessInfo> {
        self.model@
    }

    /// A registry that tracks nothing.
    pub fn new() -> (manager: Self)
        ensures
            manager.registry() == Map::<Seq<char>, ProcessInfo>::empty(),
    {
        ProcessManager { processes: Vec::new(), model: Ghost(Map::empty()) }
    }

    /// Where the record of a route is kept.
    fn position(&self, route_id: &str) -> (found: Option<usize>)
        ensures
            match found {
                Some(at) => at < self.processes.len() && self.processes[at as int].route_id@
                    == route_id@ && self.registry().contains_key(route_id@),
                None => !self.registry().contains_key(route_id@),
            },
    {
        proof {
            use_type_invariant(self);
        }
        let mut at: usize = 0;
        while at < self.processes.len()
            invariant
                consistent(self.processes@, self.model@),
                at <= self.processes.len(),
                forall|k: int| 0 <= k < at ==> (#[trigger] self.processes[k]).route_id@ != route_id@,
            decreases self.processes.len() - at,
        {
            if same_text(self.processes[at].route_id.as_str(), route_id) {
                return Some(at);
            }
            at += 1;
        }
        None
    }

    /// The child that serves a route, if one is tracked.
    pub fn tracked_child(&self, route_id: &str) -> (child: Option<u64>)
        ensures
            match child {
                Some(number) => self.registry().contains_key(route_id@) && self.registry()[route_id@].child
                    == number,
                None => !self.registry().contains_key(route_id@),
            },
    {
        proof {
            use_type_invariant(self);
        }
        match self.position(route_id) {
            Some(at) => Some(self.processes[at].child),
            None => None,
        }
    }

    /// Removes the record of a route and hands it back.
    fn take(&mut self, route_id: &str) -> (record: Option<ProcessRecord>)
        ensures
            final(self).registry() == old(self).registry().remove(route_id@),
            match record {
                Some(removed) => old(self).registry().contains_key(route_id@) && removed.route_id@
                    == route_id@ && removed.info() == old(self).registry()[route_id@],
                None => !old(self).registry().contains_key(route_id@),
            },
    {
        proof {
            use_type_invariant(&*self);
        }
        match self.position(route_id) {
            Some(at) => {
                // The registry is taken apart and put together again, so
                // that it is whole at every step.
                let mut whole = ProcessManager::new();
                std::mem::swap(self, &mut whole);
                let ProcessManager { mut processes, model } = whole;
                proof {
                    lemma_remove_keeps_consistent(processes@, model@, at as int);
                }
                let removed = processes.remove(at);
                *self = ProcessManager { processes, model: Ghost(model@.remove(route_id@)) };
                Some(removed)
            },
            None => None,
        }
    }

    /// Records that `child`, started at `now`, serves the route. A record
    /// that the route had before is replaced and handed back, so that the
    /// caller can terminate the child it names.
    pub fn track(&mut self, route_id: &str, child: u64, now: TimeSpan) -> (replaced: Option<
        ProcessRecord,
    >)
        ensures
            final(self).registry() == old(self).registry().insert(
                route_id@,
                ProcessInfo { child, started_at: now },
            ),
            match replaced {
                Some(record) => old(self).registry().contains_key(route_id@) && record.route_id@
                    == route_id@ && record.info() == old(self).registry()[route_id@],
                None => !old(self).registry().contains_key(route_id@),
            },
    {
        let replaced = self.take(route_id);
        proof {
            use_type_invariant(&*self);
        }
        let record = ProcessRecord { route_id: route_id.to_owned(), child, started_at: now };
        let mut whole = ProcessManager::new();
        std::mem::swap(self, &mut whole);
        let ProcessManager { mut processes, model } = whole;
        proof {
            lemma_push_keeps_consistent(processes@, model@, record);
        }
        let ghost grown = model@.insert(route_id@, record.info());
        processes.push(record);
        *self = ProcessManager { processes, model: Ghost(grown) };
        replaced
    }

    /// Whether the process of a route is running, given what a poll of the
    /// tracked child found. A process that is not running is forgotten. For
    /// a route without a tracked process the answer is no, whatever the
    /// status says.
    pub fn is_process_running(&mut self, route_id: &str, status: ChildStatus) -> (running: bool)
        ensures
            running == (old(self).registry().contains_key(route_id@) && status
                == ChildStatus::Running),
            final(self).registry() == if running {
                old(self).registry()
            } else {
                old(self).registry().remove(route_id@)
            },
    {
        match status {
            ChildStatus::Running => self.position(route_id).is_some(),
            _ => {
                let _ = self.take(route_id);
                false
            },
        }
    }

    /// Forgets the process of a route and hands its record back, so that
    /// the caller can terminate the child. Nothing happens for a route
    /// without a tracked process.
    pub fn stop_process(&mut self, route_id: &str) -> (stopped: Option<ProcessRecord>)
        ensures
            final(self).registry() == old(self).registry().remove(route_id@),
            match stopped {
                Some(record) => old(self).registry().contains_key(route_id@) && record.route_id@
                    == route_id@ && record.info() == old(self).registry()[route_id@],
                None => !old(self).registry().contains_key(route_id@),
            },
    {
        self.take(route_id)
    }

    /// Forgets every process and hands the records back, so that the caller
    /// can terminate each child. The registry is empty afterwards, and the
    /// records name each process that was tracked exactly once.
    pub fn stop_all_processes(&mut self) -> (stopped: Vec<ProcessRecord>)
        ensures
            final(self).registry() == Map::<Seq<char>, ProcessInfo>::empty(),
            forall|i: int|
                0 <= i < stopped.len() ==> old(self).registry().contains_key(
                    (#[trigger] stopped[i]).route_id@,
                ) && old(self).registry()[stopped[i].route_id@] == stopped[i].info(),
            forall|id: Seq<char>| #[trigger]
                old(self).registry().contains_key(id) ==> exists|i: int|
                    0 <= i < stopped.len() && (#[trigger] stopped[i]).route_id@ == id,
            forall|i: int, j: int|
                0 <= i < j < stopped.len() ==> (#[trigger] stopped[i]).route_id@ != (
                #[trigger] stopped[j]).route_id@,
    {
        proof {
            use_type_invariant(&*self);
        }
        let mut whole = ProcessManager::new();
        std::mem::swap(self, &mut whole);
        whole.processes
    }

    /// For how long the process of a route has run at `now`, on the clock
    /// that its start was recorded on.
    pub fn get_process_uptime(&self, route_id: &str, now: TimeSpan) -> (uptime: Option<TimeSpan>)
        ensures
            match uptime {
                Some(span) => self.registry().contains_key(route_id@) && span.total_nanos() == if now.total_nanos()
                    >= self.registry()[route_id@].started_at.total_nanos() {
                    now.total_nanos() - self.registry()[route_id@].started_at.total_nanos()
                } else {
                    0
                },
                None => !self.registry().contains_key(route_id@),
            },
    {
        proof {
            use_type_invariant(self);
        }
        match self.position(route_id) {
            Some(at) => Some(now.saturating_sub(&self.processes[at].started_at)),
            None => None,
        }
    }
}

impl Default for ProcessManager {
    fn default() -> (manager: Self)
        ensures
            manager.registry() == Map::<Seq<char>, ProcessInfo>::empty(),
    {
        ProcessManager::new()
    }
}

/// The texts of `parts` in order, with one space between neighbours.
pub open spec fn spaced(parts: Seq<Seq<char>>) -> Seq<char>
    decreases parts.len(),
{
    if parts.len() == 0 {
        Seq::empty()
    } else if parts.len() == 1 {
        parts[0]
    } else {
        spaced(parts.drop_last()) + " "@ + parts.last()
    }
}

/// Joins the texts with single spaces.
pub fn join_with_spaces(parts: &Vec<String>) -> (line: String)
    ensures
        line@ == spaced(parts.deep_view()),
{
    let ghost texts = parts.deep_view();
    let mut line = String::new();
    let mut at: usize = 0;
    while at < parts.len()
        invariant
            at <= parts.len(),
            texts == parts.deep_view(),
            line@ == spaced(texts.take(at as int)),
        decreases parts.len() - at,
    {
        assert(texts.take(at + 1).drop_last() =~= texts.take(at as int));
        if at > 0 {
            line = line.concat(" ");
        }
        line = line.concat(parts[at].as_str());
        at += 1;
    }
    assert(texts.take(at as int) =~= texts);
    line
}

/// Where the start of a development server stands.
#[derive(Debug, Clone, Copy, PartialEq, Eq, Structural)]
pub enum StartPhase {
    /// The command is being spawned.
    Spawning,
    /// The process runs and the first healthy probe is awaited.
    AwaitingHealth,
    /// The server is healthy and a browser is being opened.
    OpeningBrowser,
    /// The server is healthy: the start succeeded.
    Ready,
    /// The start failed.
    Failed,
}

/// What the caller reports while a server is started.
#[derive(Debug)]
pub enum StartEvent {
    /// The command was spawned as `child` at `now`.
    Spawned {
        /// The number by which the caller knows the child process.
        child: u64,
        /// The time of the spawn, on the caller's clock.
        now: TimeSpan,
    },
    /// The operating system refused the command; the text says why.
    SpawnFailed(String),
    /// The wait for a healthy server ended with this result.
    HealthResult(Result<(), HeisenbergError>),
    /// The attempt to open a browser is over, well or not.
    BrowserDone,
}

/// What the start of a server asks of the caller next.
#[derive(Debug)]
pub enum StartAction {
    /// Spawn the program with the arguments in the working directory, with
    /// its output captured, and report how that went.
    Spawn {
        /// The program to run.
        program: String,
        /// Its arguments.
        arguments: Vec<String>,
        /// The directory to run it in.
        working_dir: String,
    },
    /// Wait for the server at `url` to become healthy, at most `max_wait`,
    /// and report the result. Where `displaced` names a child, the route had
    /// a process before, which is no longer tracked.
    AwaitHealth {
        /// The address to probe.
        url: String,
        /// The limit of the wait.
        max_wait: TimeSpan,
        /// The record that the new process replaced.
        displaced: Option<ProcessRecord>,
    },
    /// Open a browser at `url` and report when that is over. A failure is
    /// for the caller's log only.
    OpenBrowser {
        /// The address to open.
        url: String,
    },
    /// The start is over, with this result.
    Finish(Result<(), HeisenbergError>),
    /// The report was not awaited: go on with what was asked before.
    Continue,
}

/// The start of one development server, from the spawn of its command to
/// the first healthy probe.
#[derive(Debug)]
pub struct ProcessStart {
    route_id: String,
    command: Vec<String>,
    working_dir: String,
    dev_server_url: String,
    open_browser: bool,
    phase: StartPhase,
}

/// The message for a command that the operating system refused.
pub open spec fn spawn_failure_message(command: Seq<Seq<char>>, detail: Seq<char>) -> Seq<char> {
    "Failed to start process '"@ + spaced(command) + "': "@ + detail
}

impl ProcessStart {
    /// Where the start stands.
    pub closed spec fn phase(self) -> StartPhase {
        self.phase
    }

    /// The route that the server is started for.
    pub closed spec fn route(self) -> Seq<char> {
        self.route_id@
    }

    /// The command that starts the server.
    pub closed spec fn command(self) -> Seq<Seq<char>> {
        self.command.deep_view()
    }

    /// The directory in which the command runs.
    pub closed spec fn directory(self) -> Seq<char> {
        self.working_dir@
    }

    /// The address of the server.
    pub closed spec fn url(self) -> Seq<char> {
        self.dev_server_url@
    }

    /// Whether a browser is opened once the server is healthy.
    pub closed spec fn opens_browser(self) -> bool {
        self.open_browser
    }

    /// The start asks for the same route, command, directory and address
    /// as `other`.
    pub open spec fn same_request(self, other: ProcessStart) -> bool {
        &&& self.route() == other.route()
        &&& self.command() == other.command()
        &&& self.directory() == other.directory()
        &&& self.url() == other.url()
        &&& self.opens_browser() == other.opens_browser()
    }

    /// The phase that follows on an event. A spawned command is awaited to
    /// become healthy; a healthy server is ready, after a browser was opened
    /// where one was asked for; a refused command and a failed wait end the
    /// start. An event that the phase does not wait for changes nothing.
    pub open spec fn next_phase(self, event: StartEvent) -> StartPhase {
        match (self.phase(), event) {
            (StartPhase::Spawning, StartEvent::Spawned { .. }) => StartPhase::AwaitingHealth,
            (StartPhase::Spawning, StartEvent::SpawnFailed(_)) => StartPhase::Failed,
            (StartPhase::AwaitingHealth, StartEvent::HealthResult(Ok(_))) => if self.opens_browser() {
                StartPhase::OpeningBrowser
            } else {
                StartPhase::Ready
            },
            (StartPhase::AwaitingHealth, StartEvent::HealthResult(Err(_))) => StartPhase::Failed,
            (StartPhase::OpeningBrowser, StartEvent::BrowserDone) => StartPhase::Ready,
            _ => self.phase(),
        }
    }

    /// The registry after an event: a spawned command is recorded under its
    /// route, in place of what the route had; nothing else touches the
    /// registry. In particular a process whose server did not become healthy
    /// stays recorded and running.
    pub open spec fn next_registry(
        self,
        registry: Map<Seq<char>, ProcessInfo>,
        event: StartEvent,
    ) -> Map<Seq<char>, ProcessInfo> {
        match (self.phase(), event) {
            (StartPhase::Spawning, StartEvent::Spawned { child, now }) => registry.insert(
                self.route(),
                ProcessInfo { child, started_at: now },
            ),
            _ => registry,
        }
    }

    /// Whether `action` is what the start asks of the caller on an event.
    pub open spec fn asked_on(
        self,
        registry: Map<Seq<char>, ProcessInfo>,
        event: StartEvent,
        action: StartAction,
    ) -> bool {
        match (self.phase(), event) {
            (StartPhase::Spawning, StartEvent::Spawned { .. }) => {
                &&& action matches StartAction::AwaitHealth { url, max_wait, displaced }
                &&& url@ == self.url()
                &&& max_wait.total_nanos() == 30 * 1_000_000_000
                &&& match displaced {
                    Some(record) => registry.contains_key(self.route()) && record.route_id@
                        == self.route() && record.info() == registry[self.route()],
                    None => !registry.contains_key(self.route()),
                }
            },
            (StartPhase::Spawning, StartEvent::SpawnFailed(detail)) => {
                &&& action matches StartAction::Finish(Err(error))
                &&& error.is_process(
                    spawn_failure_message(self.command(), detail@),
                    SPAWN_FAILED_HINT@,
                )
            },
            (StartPhase::AwaitingHealth, StartEvent::HealthResult(Ok(_))) => if self.opens_browser() {
                action matches StartAction::OpenBrowser { url } && url@ == self.url()
            } else {
                action matches StartAction::Finish(Ok(_))
            },
            (StartPhase::AwaitingHealth, StartEvent::HealthResult(Err(cause))) => {
                action matches StartAction::Finish(Err(error)) && error == cause
            },
            (StartPhase::OpeningBrowser, StartEvent::BrowserDone) => {
                action matches StartAction::Finish(Ok(_))
            },
            _ => action is Continue,
        }
    }

    /// Takes in what the caller reports, updates the registry and says what
    /// to do next.
    pub fn step(&mut self, manager: &mut ProcessManager, event: StartEvent) -> (action: StartAction)
        ensures
            final(self).same_request(*old(self)),
            final(self).phase() == old(self).next_phase(event),
            final(manager).registry() == old(self).next_registry(old(manager).registry(), event),
            old(self).asked_on(old(manager).registry(), event, action),
    {
        match (self.phase, event) {
            (StartPhase::Spawning, StartEvent::Spawned { child, now }) => {
                let displaced = manager.track(self.route_id.as_str(), child, now);
                self.phase = StartPhase::AwaitingHealth;
                StartAction::AwaitHealth {
                    url: self.dev_server_url.clone(),
                    max_wait: TimeSpan::from_secs(30),
                    displaced,
                }
            },
            (StartPhase::Spawning, StartEvent::SpawnFailed(detail)) => {
                self.phase = StartPhase::Failed;
                let message = String::from_str("Failed to start process '").concat(
                    join_with_spaces(&self.command).as_str(),
                ).concat("': ").concat(detail.as_str());
                StartAction::Finish(
                    Err(HeisenbergError::process(message.as_str(), SPAWN_FAILED_HINT)),
                )
            },
            (StartPhase::AwaitingHealth, StartEvent::HealthResult(Ok(_))) => {
                if self.open_browser {
                    self.phase = StartPhase::OpeningBrowser;
                    StartAction::OpenBrowser { url: self.dev_server_url.clone() }
                } else {
                    self.phase = StartPhase::Ready;
                    StartAction::Finish(Ok(()))
                }
            },
            (StartPhase::AwaitingHealth, StartEvent::HealthResult(Err(cause))) => {
                self.phase = StartPhase::Failed;
                StartAction::Finish(Err(cause))
            },
            (StartPhase::OpeningBrowser, StartEvent::BrowserDone) => {
                self.phase = StartPhase::Ready;
                StartAction::Finish(Ok(()))
            },
            _ => StartAction::Continue,
        }
    }
}

impl ProcessManager {
    /// Begins the start of a development server for a route.
    ///
    /// Fails at once where the command is empty. Otherwise the start stands
    /// at the spawn, and the first thing asked of the caller is to spawn the
    /// first item of the command with the rest as its arguments, in the
    /// working directory.
    pub fn start_process(
        &self,
        route_id: &str,
        command: &Vec<String>,
        working_dir: &str,
        dev_server_url: &str,
        open_browser_flag: bool,
    ) -> (outcome: Result<(ProcessStart, StartAction), HeisenbergError>)
        ensures
            match outcome {
                Ok((start, action)) => {
                    &&& command.len() > 0
                    &&& start.phase() == StartPhase::Spawning
                    &&& start.route() == route_id@
                    &&& start.command() == command.deep_view()
                    &&& start.directory() == working_dir@
                    &&& start.url() == dev_server_url@
                    &&& start.opens_browser() == open_browser_flag
                    &&& action matches StartAction::Spawn { program, arguments, working_dir: dir }
                    &&& program@ == command[0]@
                    &&& arguments.deep_view() == command.deep_view().subrange(
                        1,
                        command.len() as int,
                    )
                    &&& dir@ == working_dir@
                },
                Err(error) => command.len() == 0 && error.is_process(
                    "Empty command provided"@,
                    EMPTY_START_HINT@,
                ),
            },
    {
        if command.len() == 0 {
            return Err(HeisenbergError::process("Empty command provided", EMPTY_START_HINT));
        }
        let mut arguments: Vec<String> = Vec::new();
        let mut at: usize = 1;
        while at < command.len()
            invariant
                1 <= at <= command.len(),
                arguments.len() == at - 1,
                forall|k: int| 0 <= k < at - 1 ==> arguments@[k]@ == command@[k + 1]@,
            decreases command.len() - at,
        {
            arguments.push(command[at].clone());
            at += 1;
        }
        let start = ProcessStart {
            route_id: route_id.to_owned(),
            command: clone_texts(command),
            working_dir: working_dir.to_owned(),
            dev_server_url: dev_server_url.to_owned(),
            open_browser: open_browser_flag,
            phase: StartPhase::Spawning,
        };
        let action = StartAction::Spawn {
            program: command[0].clone(),
            arguments,
            working_dir: working_dir.to_owned(),
        };
        Ok((start, action))
    }
}

} // verus!

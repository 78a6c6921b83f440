//! Health of a development server: what one probe says, and how long to
//! wait for the first good one.
//!
//! The probe itself is a request over the network and is made by the caller.
//! This module judges what came back and decides, step by step, what the
//! caller does next while it waits.

use crate::error::HeisenbergError;
use crate::timing::TimeSpan;
use vstd::prelude::*;
use vstd::string::StringExecFns;

verus! {

/// Hint given when the server answered a probe with a failure status.
pub const BAD_STATUS_HINT: &'static str =
    "• The dev server is running but returned an error\n• Check the dev server logs for issues\n• Verify the dev server URL is correct\n• Some servers return 404 for the root path - this is usually fine";

/// Hint given when a probe got no answer.
pub const NO_ANSWER_HINT: &'static str =
    "• The dev server may be starting up slowly\n• Check if the dev server process is running\n• Verify the dev server URL and port\n• Some servers take longer to start - consider increasing timeout";

/// Hint given when the wait for a healthy server ran out.
pub const WAIT_EXPIRED_HINT: &'static str =
    "• The dev server is taking too long to start\n• Check if the dev command is correct\n• Verify dependencies are installed (npm install)\n• Look at the process logs for startup errors\n• Some servers need more time - try increasing the timeout";

/// What a single probe of the server's address brought back.
#[derive(Debug)]
pub enum ProbeOutcome {
    /// The server answered with this status code.
    Status(u16),
    /// No answer came within the time allowed for one probe.
    TimedOut,
    /// The request failed in transport; the text describes the failure.
    Unreachable(String),
}

/// The text that `http::StatusCode` shows for a status code: the number and
/// the reason phrase.
pub uninterp spec fn status_label_of(code: u16) -> Seq<char>;

/// The text that `std::time::Duration` shows in its debug form for a span of
/// `secs` seconds and `nanos` nanoseconds.
pub uninterp spec fn span_text_of(secs: int, nanos: int) -> Seq<char>;

/// Calls `hyper::StatusCode::from_u16` and the `Display` of the status code.
/// The first accepts exactly the codes from 100 to 999; the second writes the
/// number and the reason phrase, which the contract names and does not spell
/// out.
#[verifier::external_body]
fn status_label(code: u16) -> (label: Option<String>)
    ensures
        label is Some <==> 100 <= code <= 999,
        label matches Some(text) ==> text@ == status_label_of(code),
{
    match hyper::StatusCode::from_u16(code) {
        Ok(status) => Some(status.to_string()),
        Err(_) => None,
    }
}

/// Calls the `Debug` form of `std::time::Duration`, which depends on the
/// span alone. The contract names the text and claims nothing else of it.
#[verifier::external_body]
fn span_text(secs: u64, nanos: u32) -> (text: String)
    requires
        nanos < 1_000_000_000,
    ensures
        text@ == span_text_of(secs as int, nanos as int),
{
    format!("{:?}", std::time::Duration::new(secs, nanos))
}

/// Whether a status code shows that the server is up: any success and any
/// client error, since even "not found" is an answer.
pub open spec fn status_is_reachable(code: u16) -> bool {
    200 <= code < 300 || 400 <= code < 500
}

/// Whether a probe shows that the server is up.
pub open spec fn outcome_is_healthy(outcome: ProbeOutcome) -> bool {
    outcome matches ProbeOutcome::Status(code) && status_is_reachable(code)
}

/// How a status code is named in a message.
pub open spec fn status_name(code: u16) -> Seq<char> {
    if 100 <= code <= 999 {
        status_label_of(code)
    } else {
        "<invalid status code>"@
    }
}

/// The message for a probe that does not show a healthy server.
pub open spec fn failure_message(outcome: ProbeOutcome) -> Seq<char> {
    match outcome {
        ProbeOutcome::Status(code) => "Health check failed with status: "@ + status_name(code),
        ProbeOutcome::TimedOut => "Health check timed out"@,
        ProbeOutcome::Unreachable(detail) => "Health check request failed: "@ + detail@,
    }
}

/// The hint for a probe that does not show a healthy server.
pub open spec fn failure_hint(outcome: ProbeOutcome) -> Seq<char> {
    match outcome {
        ProbeOutcome::Status(_) => BAD_STATUS_HINT@,
        _ => NO_ANSWER_HINT@,
    }
}

/// The message for a wait that ran out after `max_wait`.
pub open spec fn expiry_message(max_wait: TimeSpan) -> Seq<char> {
    "Server did not become healthy within "@ + span_text_of(
        max_wait.spec_secs(),
        max_wait.spec_nanos(),
    )
}

/// Where a wait for a healthy server stands.
#[derive(Debug, Clone, Copy, PartialEq, Eq, Structural)]
pub enum WaitPhase {
    /// The clock is to be read against the limit.
    Timing,
    /// A probe is under way.
    Probing,
    /// The pause between two probes is under way.
    Pausing,
    /// A probe showed a healthy server: the wait succeeded.
    Healthy,
    /// The limit was reached: the wait failed.
    Expired,
}

/// What happened while waiting, as far as the decisions depend on it.
pub enum WaitSignal {
    /// The clock was read: so many nanoseconds have gone by since the start.
    Clock(int),
    /// A probe came back, healthy or not.
    Probed(bool),
    /// The pause is over.
    Paused,
}

/// What the caller reports to a wait.
#[derive(Debug)]
pub enum WaitEvent {
    /// The clock was read: this much time has gone by since the start.
    Clock(TimeSpan),
    /// A probe came back.
    Probed(ProbeOutcome),
    /// The pause is over.
    Paused,
}

impl WaitEvent {
    /// The signal that the event carries.
    pub open spec fn signal(self) -> WaitSignal {
        match self {
            WaitEvent::Clock(elapsed) => WaitSignal::Clock(elapsed.total_nanos()),
            WaitEvent::Probed(outcome) => WaitSignal::Probed(outcome_is_healthy(outcome)),
            WaitEvent::Paused => WaitSignal::Paused,
        }
    }
}

/// What a wait asks of the caller next.
#[derive(Debug)]
pub enum WaitAction {
    /// Read the clock and report the time gone by.
    ReadClock,
    /// Probe the server's address once and report what came back.
    Probe,
    /// Pause for the given time and report when it is over.
    Pause(TimeSpan),
    /// Stop waiting, with this result.
    Finish(Result<(), HeisenbergError>),
}

/// The phase that follows `phase` on a signal. The clock is read before
/// every probe: below the limit a probe follows, at the limit the wait has
/// run out. A healthy probe ends the wait, any other is followed by a pause.
/// A signal that the phase does not wait for changes nothing.
pub open spec fn next_phase(phase: WaitPhase, max_wait: int, signal: WaitSignal) -> WaitPhase {
    match (phase, signal) {
        (WaitPhase::Timing, WaitSignal::Clock(elapsed)) => if elapsed < max_wait {
            WaitPhase::Probing
        } else {
            WaitPhase::Expired
        },
        (WaitPhase::Probing, WaitSignal::Probed(healthy)) => if healthy {
            WaitPhase::Healthy
        } else {
            WaitPhase::Pausing
        },
        (WaitPhase::Pausing, WaitSignal::Paused) => WaitPhase::Timing,
        _ => phase,
    }
}

/// Whether `action` is what a wait in `phase` asks of the caller.
pub open spec fn asked_in(phase: WaitPhase, max_wait: TimeSpan, action: WaitAction) -> bool {
    match phase {
        WaitPhase::Timing => action is ReadClock,
        WaitPhase::Probing => action is Probe,
        WaitPhase::Pausing => action matches WaitAction::Pause(pause) && pause.total_nanos()
            == 500 * 1_000_000,
        WaitPhase::Healthy => action matches WaitAction::Finish(Ok(_)),
        WaitPhase::Expired => action matches WaitAction::Finish(Err(error))
            && error.is_health_check(expiry_message(max_wait), WAIT_EXPIRED_HINT@),
    }
}

/// A wait for a server to become healthy, bounded by a limit.
#[derive(Debug)]
pub struct HealthWait {
    max_wait: TimeSpan,
    phase: WaitPhase,
}

impl HealthWait {
    /// The limit of the wait.
    pub closed spec fn max_wait(self) -> TimeSpan {
        self.max_wait
    }

    /// Where the wait stands.
    pub closed spec fn phase(self) -> WaitPhase {
        self.phase
    }

    /// What the wait asks of the caller in its present phase.
    pub fn action(&self) -> (action: WaitAction)
        ensures
            asked_in(self.phase(), self.max_wait(), action),
    {
        match self.phase {
            WaitPhase::Timing => WaitAction::ReadClock,
            WaitPhase::Probing => WaitAction::Probe,
            WaitPhase::Pausing => WaitAction::Pause(TimeSpan::from_millis(500)),
            WaitPhase::Healthy => WaitAction::Finish(Ok(())),
            WaitPhase::Expired => {
                let limit = span_text(self.max_wait.as_secs(), self.max_wait.subsec_nanos());
                WaitAction::Finish(Err(expiry_failure(limit.as_str())))
            },
        }
    }

    /// Takes in what the caller reports and says what to do next.
    pub fn step(&mut self, event: WaitEvent) -> (action: WaitAction)
        ensures
            final(self).max_wait() == old(self).max_wait(),
            final(self).phase() == next_phase(
                old(self).phase(),
                old(self).max_wait().total_nanos(),
                event.signal(),
            ),
            asked_in(final(self).phase(), final(self).max_wait(), action),
    {
        match (self.phase, event) {
            (WaitPhase::Timing, WaitEvent::Clock(elapsed)) => {
                if elapsed.is_shorter_than(&self.max_wait) {
                    self.phase = WaitPhase::Probing;
                } else {
                    self.phase = WaitPhase::Expired;
                }
            },
            (WaitPhase::Probing, WaitEvent::Probed(outcome)) => {
                if probe_is_healthy(&outcome) {
                    self.phase = WaitPhase::Healthy;
                } else {
                    self.phase = WaitPhase::Pausing;
                }
            },
            (WaitPhase::Pausing, WaitEvent::Paused) => {
                self.phase = WaitPhase::Timing;
            },
            _ => {},
        }
        self.action()
    }
}

/// The error for a server that answered with a failure status, named by
/// `label`.
pub fn status_failure(label: &str) -> (error: HeisenbergError)
    ensures
        error.is_health_check("Health check failed with status: "@ + label@, BAD_STATUS_HINT@),
{
    let message = String::from_str("Health check failed with status: ").concat(label);
    HeisenbergError::health_check(message.as_str(), BAD_STATUS_HINT)
}

/// The error for a wait that ran out after the limit that `limit` names.
pub fn expiry_failure(limit: &str) -> (error: HeisenbergError)
    ensures
        error.is_health_check(
            "Server did not become healthy within "@ + limit@,
            WAIT_EXPIRED_HINT@,
        ),
{
    let message = String::from_str("Server did not become healthy within ").concat(limit);
    HeisenbergError::health_check(message.as_str(), WAIT_EXPIRED_HINT)
}

/// Whether a probe shows that the server is up.
pub fn probe_is_healthy(outcome: &ProbeOutcome) -> (healthy: bool)
    ensures
        healthy == outcome_is_healthy(*outcome),
{
    match outcome {
        ProbeOutcome::Status(code) => (200 <= *code && *code < 300) || (400 <= *code && *code
            < 500),
        _ => false,
    }
}

/// Judges the probes of one development server.
#[derive(Debug)]
pub struct HealthChecker {
    target_url: String,
}

impl HealthChecker {
    /// A checker for the server at `target_url`.
    pub fn new(target_url: String) -> (checker: Self)
        ensures
            checker.target() == target_url@,
    {
        HealthChecker { target_url }
    }

    /// The address that is probed.
    pub closed spec fn target(self) -> Seq<char> {
        self.target_url@
    }

    /// The address that is probed.
    pub fn target_url(&self) -> (url: &str)
        ensures
            url@ == self.target(),
    {
        self.target_url.as_str()
    }

    /// The time allowed for a single probe: 3 seconds.
    pub fn probe_timeout(&self) -> (limit: TimeSpan)
        ensures
            limit.total_nanos() == 3 * 1_000_000_000,
    {
        TimeSpan::from_secs(3)
    }

    /// Whether a probe shows that the server is up.
    pub fn is_healthy(&self, outcome: &ProbeOutcome) -> (healthy: bool)
        ensures
            healthy == outcome_is_healthy(*outcome),
    {
        probe_is_healthy(outcome)
    }

    /// Judges one probe: fine where the server answered with a success or a
    /// client error, and a health-check error otherwise, for a failure
    /// status, a probe without answer and a failure in transport alike.
    pub fn check_health(&self, outcome: &ProbeOutcome) -> (verdict: Result<(), HeisenbergError>)
        ensures
            match verdict {
                Ok(_) => outcome_is_healthy(*outcome),
                Err(error) => !outcome_is_healthy(*outcome) && error.is_health_check(
                    failure_message(*outcome),
                    failure_hint(*outcome),
                ),
            },
    {
        match outcome {
            ProbeOutcome::Status(code) => {
                if probe_is_healthy(outcome) {
                    Ok(())
                } else {
                    let label = match status_label(*code) {
                        Some(text) => text,
                        None => String::from_str("<invalid status code>"),
                    };
                    Err(status_failure(label.as_str()))
                }
            },
            ProbeOutcome::TimedOut => Err(
                HeisenbergError::health_check("Health check timed out", NO_ANSWER_HINT),
            ),
            ProbeOutcome::Unreachable(detail) => {
                let message = String::from_str("Health check request failed: ").concat(
                    detail.as_str(),
                );
                Err(HeisenbergError::health_check(message.as_str(), NO_ANSWER_HINT))
            },
        }
    }

    /// Begins a wait of at most `max_wait` for the server to become healthy.
    /// The wait starts by asking for the clock.
    pub fn wait_for_healthy(&self, max_wait: TimeSpan) -> (wait: HealthWait)
        ensures
            wait.max_wait() == max_wait,
            wait.phase() == WaitPhase::Timing,
    {
        HealthWait { max_wait, phase: WaitPhase::Timing }
    }
}

/// One turn of a wait: the time gone by when the clock was read, and whether
/// the probe that followed showed a healthy server.
pub struct Round {
    /// Nanoseconds gone by when the clock was read.
    pub elapsed: int,
    /// Whether the probe showed a healthy server.
    pub healthy: bool,
}

/// The phase of a wait after one turn in which the clock reading, the probe
/// and the end of the pause were reported in that order.
pub open spec fn after_round(phase: WaitPhase, max_wait: int, round: Round) -> WaitPhase {
    next_phase(
        next_phase(
            next_phase(phase, max_wait, WaitSignal::Clock(round.elapsed)),
            max_wait,
            WaitSignal::Probed(round.healthy),
        ),
        max_wait,
        WaitSignal::Paused,
    )
}

/// The phase of a wait, begun afresh, after the given turns.
pub open spec fn after_rounds(max_wait: int, rounds: Seq<Round>) -> WaitPhase
    decreases rounds.len(),
{
    if rounds.len() == 0 {
        WaitPhase::Timing
    } else {
        after_round(after_rounds(max_wait, rounds.drop_last()), max_wait, rounds.last())
    }
}

/// Turn `at` found the server healthy, and the limit was not reached in it
/// nor in any turn before it.
pub open spec fn healthy_in_time(max_wait: int, rounds: Seq<Round>, at: int) -> bool {
    &&& 0 <= at < rounds.len()
    &&& rounds[at].healthy
    &&& forall|k: int| 0 <= k <= at ==> (#[trigger] rounds[k]).elapsed < max_wait
}

/// Turn `at` read the clock at or past the limit, and no turn before it
/// reached the limit or found the server healthy.
pub open spec fn expired_first(max_wait: int, rounds: Seq<Round>, at: int) -> bool {
    &&& 0 <= at < rounds.len()
    &&& rounds[at].elapsed >= max_wait
    &&& forall|k: int|
        0 <= k < at ==> (#[trigger] rounds[k]).elapsed < max_wait && !rounds[k].healthy
}

/// A wait succeeds exactly if the server is found healthy before the limit
/// is reached, fails with the expiry error exactly if the limit is reached
/// first, and otherwise goes on.
pub proof fn lemma_wait_outcome(max_wait: int, rounds: Seq<Round>)
    ensures
        after_rounds(max_wait, rounds) == WaitPhase::Healthy <==> exists|at: int|
            healthy_in_time(max_wait, rounds, at),
        after_rounds(max_wait, rounds) == WaitPhase::Expired <==> exists|at: int|
            expired_first(max_wait, rounds, at),
        after_rounds(max_wait, rounds) == WaitPhase::Timing <==> forall|k: int|
            0 <= k < rounds.len() ==> (#[trigger] rounds[k]).elapsed < max_wait
                && !rounds[k].healthy,
        after_rounds(max_wait, rounds) != WaitPhase::Probing,
        after_rounds(max_wait, rounds) != WaitPhase::Pausing,
    decreases rounds.len(),
{
    if rounds.len() > 0 {
        let earlier = rounds.drop_last();
        let last = rounds.len() - 1;
        lemma_wait_outcome(max_wait, earlier);
        assert forall|k: int| 0 <= k < earlier.len() implies earlier[k] == rounds[k] by {}
        if exists|at: int| healthy_in_time(max_wait, earlier, at) {
            let at = choose|at: int| healthy_in_time(max_wait, earlier, at);
            assert(healthy_in_time(max_wait, rounds, at));
        } else if exists|at: int| expired_first(max_wait, earlier, at) {
            let at = choose|at: int| expired_first(max_wait, earlier, at);
            assert(expired_first(max_wait, rounds, at));
        } else if rounds[last].elapsed >= max_wait {
            assert(expired_first(max_wait, rounds, last));
        } else if rounds[last].healthy {
            assert(healthy_in_time(max_wait, rounds, last));
        }
    }
}

} // verus!

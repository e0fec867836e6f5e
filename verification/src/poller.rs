//! Readiness detection: the decision rules of the loop that races health
//! checks against premature process exit under a bounded timeout, and the
//! diagnostic messages of every failure path.
//!
//! The host application performs the HTTP requests, the non-blocking exit
//! check and the sleeps; each iteration it reduces what it saw to one
//! [`PollObservation`] and asks [`poll_decide`] what to do next.

use crate::numfmt::{dec_digits, dec_int, i32_to_string, u64_to_string};
use crate::textutil::opt_text_view;
use vstd::prelude::*;

verus! {

/// How long the backend may take to become ready, in seconds.
pub const HEALTH_CHECK_TIMEOUT_SECS: u64 = 180;

/// How long to sleep between poll iterations, in milliseconds.
pub const HEALTH_CHECK_INTERVAL_MS: u64 = 500;

/// Bound on each single health request, in seconds.
pub const HEALTH_REQUEST_TIMEOUT_SECS: u64 = 5;

/// Whether an HTTP status code counts as readiness: any 2xx answer.
pub fn is_success_status(status: u16) -> (r: bool)
    ensures
        r == (200 <= status < 300),
{
    200 <= status && status < 300
}

/// What one poll iteration observed.
pub enum PollObservation {
    /// The supervised process was seen to have exited, with its exit
    /// code, or none if a signal ended it.
    Exited { code: Option<i32> },
    /// Asking the OS for the process's status failed.
    QueryFailed { detail: String },
    /// A health request got a 2xx answer.
    HealthSuccess,
    /// Neither check concluded: keep polling.
    NoProgress,
}

/// The wording for how the process ended.
pub open spec fn spec_exit_code_text(code: Option<i32>) -> Seq<char> {
    match code {
        Some(c) => "exit code "@ + dec_int(c as int),
        None => "terminated by signal"@,
    }
}

/// Renders how the process ended: its exit code, or that a signal ended
/// it.
pub fn exit_code_text(code: Option<i32>) -> (r: String)
    ensures
        r@ == spec_exit_code_text(code),
{
    match code {
        Some(c) => {
            let mut r = String::from_str("exit code ");
            r.append(i32_to_string(c).as_str());
            r
        },
        None => String::from_str("terminated by signal"),
    }
}

/// The message reported when the process ends before readiness.
pub open spec fn spec_premature_exit_message(code: Option<i32>, tail: Option<Seq<char>>) -> Seq<
    char,
> {
    let head = "Backend process exited before ready ("@ + spec_exit_code_text(code) + ")"@;
    match tail {
        Some(t) => head + "\n"@ + t,
        None => head,
    }
}

/// Builds the premature-exit report: how the process ended, and the log
/// tail when one is known.
pub fn premature_exit_message(code: Option<i32>, log_tail: &Option<String>) -> (r: String)
    ensures
        r@ == spec_premature_exit_message(code, opt_text_view(*log_tail)),
{
    let mut r = String::from_str("Backend process exited before ready (");
    r.append(exit_code_text(code).as_str());
    r.append(")");
    match log_tail {
        Some(t) => {
            r.append("\n");
            r.append(t.as_str());
        },
        None => {},
    }
    proof {
        assert(r@ =~= spec_premature_exit_message(code, opt_text_view(*log_tail)));
    }
    r
}

/// The message reported when the process's status cannot be queried.
pub open spec fn spec_query_failed_message(detail: Seq<char>) -> Seq<char> {
    "Failed to query backend process status: "@ + detail
}

/// Builds the report for a failed process-status query.
pub fn query_failed_message(detail: &str) -> (r: String)
    ensures
        r@ == spec_query_failed_message(detail@),
{
    let mut r = String::from_str("Failed to query backend process status: ");
    r.append(detail);
    r
}

/// The message reported when the timeout elapses without readiness.
pub open spec fn spec_timeout_message(timeout_secs: int, tail: Option<Seq<char>>) -> Seq<char> {
    let head = "Backend failed to start within "@ + dec_digits(timeout_secs as nat) + " seconds"@;
    match tail {
        Some(t) => head + "\n"@ + t,
        None => head,
    }
}

/// Builds the timeout report: the bound that elapsed, and the log tail
/// when one is known.
pub fn timeout_message(timeout_secs: u64, log_tail: &Option<String>) -> (r: String)
    ensures
        r@ == spec_timeout_message(timeout_secs as int, opt_text_view(*log_tail)),
{
    let mut r = String::from_str("Backend failed to start within ");
    r.append(u64_to_string(timeout_secs).as_str());
    r.append(" seconds");
    match log_tail {
        Some(t) => {
            r.append("\n");
            r.append(t.as_str());
        },
        None => {},
    }
    proof {
        assert(r@ =~= spec_timeout_message(timeout_secs as int, opt_text_view(*log_tail)));
    }
    r
}

/// What the readiness loop does after one iteration's observation.
pub enum PollStep {
    /// Keep polling: sleep one interval and look again.
    Proceed,
    /// The backend is ready.
    Ready,
    /// The process ended, or could not be queried: stop with this report.
    Abort { message: String },
    /// The timeout elapsed: stop with this report.
    TimedOut { message: String },
}

/// One decision of the readiness loop. The timeout is checked first, as
/// the loop's own condition; then a detected exit ends the wait at once;
/// then a 2xx health answer means ready; anything else polls on.
pub fn poll_decide(
    elapsed_ms: u64,
    timeout_secs: u64,
    obs: &PollObservation,
    log_tail: &Option<String>,
) -> (r: PollStep)
    requires
        timeout_secs as int * 1000 <= u64::MAX as int,
    ensures
        (elapsed_ms as int) >= timeout_secs as int * 1000 ==> (r matches PollStep::TimedOut {
            message,
        } && message@ == spec_timeout_message(timeout_secs as int, opt_text_view(*log_tail))),
        (elapsed_ms as int) < timeout_secs as int * 1000 ==> (match *obs {
            PollObservation::Exited { code } => r matches PollStep::Abort { message }
                && message@ == spec_premature_exit_message(code, opt_text_view(*log_tail)),
            PollObservation::QueryFailed { detail } => r matches PollStep::Abort { message }
                && message@ == spec_query_failed_message(detail@),
            PollObservation::HealthSuccess => r is Ready,
            PollObservation::NoProgress => r is Proceed,
        }),
{
    if elapsed_ms >= timeout_secs * 1000 {
        PollStep::TimedOut { message: timeout_message(timeout_secs, log_tail) }
    } else {
        match obs {
            PollObservation::Exited { code } => PollStep::Abort {
                message: premature_exit_message(*code, log_tail),
            },
            PollObservation::QueryFailed { detail } => PollStep::Abort {
                message: query_failed_message(detail.as_str()),
            },
            PollObservation::HealthSuccess => PollStep::Ready,
            PollObservation::NoProgress => PollStep::Proceed,
        }
    }
}

/// How a whole readiness wait ends.
pub enum PollOutcome {
    /// The backend answered a health check in time.
    Ready { elapsed_ms: u64 },
    /// The process ended, or could not be queried, before readiness.
    Aborted { message: String, elapsed_ms: u64 },
    /// The timeout elapsed without readiness.
    TimedOut { message: String },
}

/// The spec-level account of how a readiness wait ends.
pub enum PollVerdict {
    Ready { elapsed_ms: int },
    Aborted { message: Seq<char>, elapsed_ms: int },
    TimedOut { message: Seq<char> },
}

/// How the readiness wait ends, given the observations of each
/// iteration in turn: at iteration `i` the elapsed time is `i`
/// intervals; the wait ends at the first iteration whose observation
/// concludes, or with a timeout once the bound is reached (also when the
/// given observations run out: a backend that never concludes runs the
/// wait into its timeout).
pub open spec fn spec_poll_run(
    obs: Seq<PollObservation>,
    timeout_secs: int,
    interval_ms: int,
    tail: Option<Seq<char>>,
    i: int,
) -> PollVerdict
    decreases obs.len() - i,
{
    let elapsed = i * interval_ms;
    if elapsed >= timeout_secs * 1000 || i < 0 || i >= obs.len() {
        PollVerdict::TimedOut { message: spec_timeout_message(timeout_secs, tail) }
    } else {
        match obs[i] {
            PollObservation::Exited { code } => PollVerdict::Aborted {
                message: spec_premature_exit_message(code, tail),
                elapsed_ms: elapsed,
            },
            PollObservation::QueryFailed { detail } => PollVerdict::Aborted {
                message: spec_query_failed_message(detail@),
                elapsed_ms: elapsed,
            },
            PollObservation::HealthSuccess => PollVerdict::Ready { elapsed_ms: elapsed },
            PollObservation::NoProgress => spec_poll_run(
                obs,
                timeout_secs,
                interval_ms,
                tail,
                i + 1,
            ),
        }
    }
}

/// Whether an executable outcome is the one the spec-level account gives.
pub open spec fn outcome_matches(r: PollOutcome, v: PollVerdict) -> bool {
    match r {
        PollOutcome::Ready { elapsed_ms } => v matches PollVerdict::Ready { elapsed_ms: e }
            && e == elapsed_ms as int,
        PollOutcome::Aborted { message, elapsed_ms } => v matches PollVerdict::Aborted {
            message: m,
            elapsed_ms: e,
        } && m == message@ && e == elapsed_ms as int,
        PollOutcome::TimedOut { message } => v matches PollVerdict::TimedOut { message: m }
            && m == message@,
    }
}

/// Runs the readiness wait over the observations of each iteration in
/// turn, exactly as the spec-level account says.
pub fn run_poll(
    observations: &Vec<PollObservation>,
    timeout_secs: u64,
    interval_ms: u64,
    log_tail: &Option<String>,
) -> (r: PollOutcome)
    requires
        timeout_secs as int * 1000 <= u64::MAX as int,
        observations@.len() * interval_ms as int <= u64::MAX as int,
    ensures
        outcome_matches(
            r,
            spec_poll_run(
                observations@,
                timeout_secs as int,
                interval_ms as int,
                opt_text_view(*log_tail),
                0,
            ),
        ),
{
    let mut i: usize = 0;
    while i < observations.len()
        invariant
            i <= observations@.len(),
            timeout_secs as int * 1000 <= u64::MAX as int,
            observations@.len() * interval_ms as int <= u64::MAX as int,
            spec_poll_run(
                observations@,
                timeout_secs as int,
                interval_ms as int,
                opt_text_view(*log_tail),
                0,
            ) == spec_poll_run(
                observations@,
                timeout_secs as int,
                interval_ms as int,
                opt_text_view(*log_tail),
                i as int,
            ),
        decreases observations@.len() - i,
    {
        proof {
            assert(i as int * interval_ms as int <= observations@.len() * interval_ms as int)
                by (nonlinear_arith)
                requires
                    i as int <= observations@.len(),
                    interval_ms as int >= 0,
            ;
        }
        let elapsed_ms: u64 = (i as u64) * interval_ms;
        match poll_decide(elapsed_ms, timeout_secs, &observations[i], log_tail) {
            PollStep::Proceed => {
                i = i + 1;
            },
            PollStep::Ready => {
                return PollOutcome::Ready { elapsed_ms };
            },
            PollStep::Abort { message } => {
                return PollOutcome::Aborted { message, elapsed_ms };
            },
            PollStep::TimedOut { message } => {
                return PollOutcome::TimedOut { message };
            },
        }
    }
    timeout_message_outcome(timeout_secs, log_tail)
}

fn timeout_message_outcome(timeout_secs: u64, log_tail: &Option<String>) -> (r: PollOutcome)
    ensures
        r matches PollOutcome::TimedOut { message } && message@ == spec_timeout_message(
            timeout_secs as int,
            opt_text_view(*log_tail),
        ),
{
    PollOutcome::TimedOut { message: timeout_message(timeout_secs, log_tail) }
}

proof fn lemma_poll_run_skips_quiet(
    obs: Seq<PollObservation>,
    timeout_secs: int,
    interval_ms: int,
    tail: Option<Seq<char>>,
    k: int,
    i: int,
)
    requires
        0 <= k <= i < obs.len(),
        forall|j: int| k <= j < i ==> obs[j] is NoProgress,
        i * interval_ms < timeout_secs * 1000,
        interval_ms >= 0,
    ensures
        spec_poll_run(obs, timeout_secs, interval_ms, tail, k) == spec_poll_run(
            obs,
            timeout_secs,
            interval_ms,
            tail,
            i,
        ),
    decreases i - k,
{
    if k < i {
        assert(k * interval_ms <= i * interval_ms) by (nonlinear_arith)
            requires
                k <= i,
                interval_ms >= 0,
        ;
        assert(obs[k] is NoProgress);
        lemma_poll_run_skips_quiet(obs, timeout_secs, interval_ms, tail, k + 1, i);
    }
}

/// If the supervised process is seen to have exited at an iteration
/// before any health success and before the timeout, the wait ends at
/// that very iteration — after `i` poll intervals, not only at the full
/// timeout — with the report naming the exit code, or that a signal
/// ended the process.
pub proof fn lemma_exit_detected_promptly(
    obs: Seq<PollObservation>,
    timeout_secs: int,
    interval_ms: int,
    tail: Option<Seq<char>>,
    i: int,
    code: Option<i32>,
)
    requires
        0 <= i < obs.len(),
        obs[i] == (PollObservation::Exited { code }),
        forall|j: int| 0 <= j < i ==> obs[j] is NoProgress,
        i * interval_ms < timeout_secs * 1000,
        interval_ms >= 0,
    ensures
        spec_poll_run(obs, timeout_secs, interval_ms, tail, 0) == (PollVerdict::Aborted {
            message: spec_premature_exit_message(code, tail),
            elapsed_ms: i * interval_ms,
        }),
{
    if i > 0 {
        lemma_poll_run_skips_quiet(obs, timeout_secs, interval_ms, tail, 0, i);
    }
}

/// If a health check answers success at an iteration before the timeout,
/// the wait ends ready at that very iteration, before the timeout
/// elapses.
pub proof fn lemma_success_before_timeout(
    obs: Seq<PollObservation>,
    timeout_secs: int,
    interval_ms: int,
    tail: Option<Seq<char>>,
    i: int,
)
    requires
        0 <= i < obs.len(),
        obs[i] is HealthSuccess,
        forall|j: int| 0 <= j < i ==> obs[j] is NoProgress,
        i * interval_ms < timeout_secs * 1000,
        interval_ms >= 0,
    ensures
        spec_poll_run(obs, timeout_secs, interval_ms, tail, 0) == (PollVerdict::Ready {
            elapsed_ms: i * interval_ms,
        }),
        i * interval_ms < timeout_secs * 1000,
{
    if i > 0 {
        lemma_poll_run_skips_quiet(obs, timeout_secs, interval_ms, tail, 0, i);
    }
}

/// The message reported when the on-demand health query gets a non-2xx
/// answer.
pub fn health_status_error_message(status: u16) -> (r: String)
    ensures
        r@ == "Health check failed with status: "@ + dec_digits(status as nat),
{
    let mut r = String::from_str("Health check failed with status: ");
    r.append(u64_to_string(status as u64).as_str());
    r
}

} // verus!

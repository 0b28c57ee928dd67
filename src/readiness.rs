//! Readiness polling and the window hand-off that follows it, as a state
//! machine: the caller performs each action and reports what came of it.
use vstd::prelude::*;

verus! {

/// Most health requests made before giving up.
pub const MAX_ATTEMPTS: u32 = 60;

/// Pause between a reply that was not ready and the next request.
pub const RETRY_INTERVAL_MS: u64 = 500;

/// Ceiling on readiness polling: no request starts this long or later after
/// polling began.
pub const READY_DEADLINE_MS: u64 = 30_000;

/// Shortest time the splash window stays up once polling has started.
pub const MIN_SPLASH_MS: u64 = 2000;

/// What one health request came back with.
#[derive(Clone, Copy, Debug, PartialEq, Eq, Structural)]
pub enum HealthReply {
    /// No response: connection refused, timed out, or any transport error.
    Unreachable,
    /// A response with a status outside the success range.
    Rejected { status: u16 },
    /// A successful response whose body is not `{"ready": <bool>}`.
    Malformed,
    /// A well-formed body with its `ready` flag.
    Reported { ready: bool },
}

pub open spec fn reply_is_ready(reply: HealthReply) -> bool {
    reply == (HealthReply::Reported { ready: true })
}

/// A reply counts as ready only when it was received, well formed, and true.
pub fn is_ready(reply: &HealthReply) -> (r: bool)
    ensures
        r == reply_is_ready(*reply),
{
    match reply {
        HealthReply::Reported { ready } => *ready,
        _ => false,
    }
}

pub open spec fn reply_spec(status: u16, ready_field: Option<bool>) -> HealthReply {
    if 200 <= status && status < 300 {
        match ready_field {
            Some(ready) => HealthReply::Reported { ready },
            None => HealthReply::Malformed,
        }
    } else {
        HealthReply::Rejected { status }
    }
}

/// Classifies a response from its HTTP status and the `ready` field read
/// from its body (`None` where the body did not have the expected shape).
pub fn reply_from_response(status: u16, ready_field: Option<bool>) -> (r: HealthReply)
    ensures
        r == reply_spec(status, ready_field),
        reply_is_ready(r) <==> (200 <= status < 300 && ready_field == Some(true)),
{
    if 200 <= status && status < 300 {
        match ready_field {
            Some(ready) => HealthReply::Reported { ready },
            None => HealthReply::Malformed,
        }
    } else {
        HealthReply::Rejected { status }
    }
}

pub open spec fn splash_hold_spec(elapsed_ms: u64) -> u64 {
    if elapsed_ms < MIN_SPLASH_MS {
        (MIN_SPLASH_MS - elapsed_ms) as u64
    } else {
        0
    }
}

/// How long the splash must still stay up after `elapsed_ms` of polling.
pub fn splash_hold_ms(elapsed_ms: u64) -> (r: u64)
    ensures
        r == splash_hold_spec(elapsed_ms),
        elapsed_ms < MIN_SPLASH_MS ==> elapsed_ms + r == MIN_SPLASH_MS,
        elapsed_ms >= MIN_SPLASH_MS ==> r == 0,
{
    if elapsed_ms < MIN_SPLASH_MS {
        MIN_SPLASH_MS - elapsed_ms
    } else {
        0
    }
}

/// Where the hand-off from splash to main window stands.
#[derive(Clone, Copy, Debug, PartialEq, Eq, Structural)]
pub enum Phase {
    /// Nothing sent yet.
    Idle,
    /// A health request is out.
    AwaitingReply,
    /// Pausing before the next request.
    Retrying,
    /// Ready; keeping the splash up for its minimum time.
    HoldingSplash,
    /// Ready; the main window is being created.
    OpeningMain,
    /// The main window is up and the splash is closed.
    Running,
    /// The main window could not be created; the splash is closed and the
    /// failure reported.
    MainFailed,
    /// The server never reported ready; the splash is closed and the server
    /// runs on without a window.
    TimedOut,
}

/// What the caller reports back.
#[derive(Clone, Copy, Debug, PartialEq, Eq, Structural)]
pub enum Event {
    /// Polling begins.
    Start,
    /// A health request came back, `elapsed_ms` after polling began.
    Reply { reply: HealthReply, elapsed_ms: u64 },
    /// The requested pause is over.
    Waited,
    /// The main window was created, or creating it failed.
    MainWindow { opened: bool },
}

/// What the caller is to do next.
#[derive(Clone, Copy, Debug, PartialEq, Eq, Structural)]
pub enum Action {
    /// Send one health request.
    SendRequest,
    /// Sleep for `ms` milliseconds, then report `Waited`.
    Wait { ms: u64 },
    /// Create the main window, then report `MainWindow`.
    OpenMainWindow,
    /// Close the splash window and focus the main window.
    CloseSplashAndFocusMain,
    /// Close the splash window and report that creating the main window
    /// failed.
    CloseSplashAndReportFailure,
    /// Report that the server never became ready, and close the splash.
    GiveUp,
    /// The event does not apply in this phase; nothing changes.
    Ignore,
}

/// The poller's state: its phase, the requests sent, and the retry pauses
/// asked for.
#[derive(Clone, Copy, Debug, PartialEq, Eq, Structural)]
pub struct Poller {
    pub phase: Phase,
    pub requests: u32,
    pub pauses: u32,
}

impl Poller {
    /// Counts agree with the phase: every request after the first follows a
    /// retry pause, and no more than the budget of requests is ever sent.
    pub open spec fn wf(self) -> bool {
        &&& self.requests <= MAX_ATTEMPTS
        &&& match self.phase {
            Phase::Idle => self.requests == 0 && self.pauses == 0,
            Phase::Retrying => self.requests >= 1 && self.pauses == self.requests
                && self.requests < MAX_ATTEMPTS,
            _ => self.requests >= 1 && self.pauses + 1 == self.requests,
        }
    }
}

/// After a reply that was not ready, polling stops when the request budget
/// is spent or when a pause would end at or past the deadline.
pub open spec fn out_of_budget(requests: u32, elapsed_ms: u64) -> bool {
    requests >= MAX_ATTEMPTS || elapsed_ms >= READY_DEADLINE_MS - RETRY_INTERVAL_MS
}

pub open spec fn with_phase(s: Poller, phase: Phase) -> Poller {
    Poller { phase, ..s }
}

/// The transition table: the next state and the action for one event.
pub open spec fn next(s: Poller, e: Event) -> (Poller, Action) {
    match (s.phase, e) {
        (Phase::Idle, Event::Start) => (
            Poller { phase: Phase::AwaitingReply, requests: 1, pauses: 0 },
            Action::SendRequest,
        ),
        (Phase::AwaitingReply, Event::Reply { reply, elapsed_ms }) => {
            if reply_is_ready(reply) {
                if splash_hold_spec(elapsed_ms) > 0 {
                    (
                        with_phase(s, Phase::HoldingSplash),
                        Action::Wait { ms: splash_hold_spec(elapsed_ms) },
                    )
                } else {
                    (with_phase(s, Phase::OpeningMain), Action::OpenMainWindow)
                }
            } else if out_of_budget(s.requests, elapsed_ms) {
                (with_phase(s, Phase::TimedOut), Action::GiveUp)
            } else {
                (
                    Poller { phase: Phase::Retrying, pauses: (s.pauses + 1) as u32, ..s },
                    Action::Wait { ms: RETRY_INTERVAL_MS },
                )
            }
        },
        (Phase::Retrying, Event::Waited) => (
            Poller { phase: Phase::AwaitingReply, requests: (s.requests + 1) as u32, ..s },
            Action::SendRequest,
        ),
        (Phase::HoldingSplash, Event::Waited) => (
            with_phase(s, Phase::OpeningMain),
            Action::OpenMainWindow,
        ),
        (Phase::OpeningMain, Event::MainWindow { opened }) => {
            if opened {
                (with_phase(s, Phase::Running), Action::CloseSplashAndFocusMain)
            } else {
                (with_phase(s, Phase::MainFailed), Action::CloseSplashAndReportFailure)
            }
        },
        _ => (s, Action::Ignore),
    }
}

impl Poller {
    pub fn new() -> (r: Poller)
        ensures
            r.wf(),
            r.phase == Phase::Idle,
            r.requests == 0,
            r.pauses == 0,
    {
        Poller { phase: Phase::Idle, requests: 0, pauses: 0 }
    }

    /// Takes one event and returns the action it calls for.
    pub fn step(&mut self, e: Event) -> (r: Action)
        requires
            old(self).wf(),
        ensures
            (*final(self), r) == next(*old(self), e),
            final(self).wf(),
    {
        match (self.phase, e) {
            (Phase::Idle, Event::Start) => {
                self.phase = Phase::AwaitingReply;
                self.requests = 1;
                Action::SendRequest
            },
            (Phase::AwaitingReply, Event::Reply { reply, elapsed_ms }) => {
                if is_ready(&reply) {
                    let hold = splash_hold_ms(elapsed_ms);
                    if hold > 0 {
                        self.phase = Phase::HoldingSplash;
                        Action::Wait { ms: hold }
                    } else {
                        self.phase = Phase::OpeningMain;
                        Action::OpenMainWindow
                    }
                } else if self.requests >= MAX_ATTEMPTS || elapsed_ms >= READY_DEADLINE_MS
                    - RETRY_INTERVAL_MS {
                    self.phase = Phase::TimedOut;
                    Action::GiveUp
                } else {
                    self.phase = Phase::Retrying;
                    self.pauses = self.pauses + 1;
                    Action::Wait { ms: RETRY_INTERVAL_MS }
                }
            },
            (Phase::Retrying, Event::Waited) => {
                self.phase = Phase::AwaitingReply;
                self.requests = self.requests + 1;
                Action::SendRequest
            },
            (Phase::HoldingSplash, Event::Waited) => {
                self.phase = Phase::OpeningMain;
                Action::OpenMainWindow
            },
            (Phase::OpeningMain, Event::MainWindow { opened }) => {
                if opened {
                    self.phase = Phase::Running;
                    Action::CloseSplashAndFocusMain
                } else {
                    self.phase = Phase::MainFailed;
                    Action::CloseSplashAndReportFailure
                }
            },
            _ => Action::Ignore,
        }
    }
}

/// Phases in which the server has not yet been seen ready.
pub open spec fn is_polling(phase: Phase) -> bool {
    phase == Phase::Idle || phase == Phase::AwaitingReply || phase == Phase::Retrying
}

/// Phases after which no event changes anything.
pub open spec fn is_terminal(phase: Phase) -> bool {
    phase == Phase::Running || phase == Phase::MainFailed || phase == Phase::TimedOut
}

/// The event is a health reply that says ready.
pub open spec fn is_ready_event(e: Event) -> bool {
    match e {
        Event::Reply { reply, .. } => reply_is_ready(reply),
        _ => false,
    }
}

/// The time since polling began that a reply event carries, or 0.
pub open spec fn event_elapsed(e: Event) -> u64 {
    match e {
        Event::Reply { elapsed_ms, .. } => elapsed_ms,
        _ => 0,
    }
}

/// The poller leaves polling for the main window only on a reply that was
/// received, well formed and ready: an unreachable server, a malformed body
/// or `ready: false` never counts as success.
pub proof fn lemma_success_needs_ready_reply(s: Poller, e: Event)
    requires
        s.wf(),
    ensures
        is_polling(s.phase) && !is_polling(next(s, e).0.phase) && next(s, e).0.phase
            != Phase::TimedOut ==> is_ready_event(e),
        s.phase == Phase::AwaitingReply && !is_ready_event(e) ==> is_polling(next(s, e).0.phase)
            || next(s, e).0.phase == Phase::TimedOut,
{
}

/// The request budget: at most `MAX_ATTEMPTS` requests are ever sent; every
/// request but the first comes at the end of a pause of `RETRY_INTERVAL_MS`;
/// a retry pause is asked for only when it ends before `READY_DEADLINE_MS`,
/// so no request starts at or after the deadline; the retry pauses add up to
/// less than 30 seconds; and the poller gives up only on a reply that is not
/// ready, once the budget of requests is spent or the deadline is near.
pub proof fn lemma_request_budget(s: Poller, e: Event)
    requires
        s.wf(),
    ensures
        next(s, e).0.wf(),
        next(s, e).0.requests <= MAX_ATTEMPTS,
        next(s, e).0.requests != s.requests ==> next(s, e).1 == Action::SendRequest
            && next(s, e).0.requests == s.requests + 1,
        next(s, e).1 == Action::SendRequest ==> (s.phase == Phase::Idle && s.requests == 0) || (
        s.phase == Phase::Retrying && e == Event::Waited),
        next(s, e).0.phase == Phase::Retrying && s.phase != Phase::Retrying ==> next(s, e).1
            == (Action::Wait { ms: RETRY_INTERVAL_MS }),
        next(s, e).0.phase == Phase::Retrying && s.phase != Phase::Retrying ==> event_elapsed(e)
            + RETRY_INTERVAL_MS < READY_DEADLINE_MS,
        next(s, e).0.pauses * RETRY_INTERVAL_MS < READY_DEADLINE_MS,
        next(s, e).1 == Action::GiveUp ==> !is_ready_event(e) && s.phase == Phase::AwaitingReply
            && (s.requests == MAX_ATTEMPTS || event_elapsed(e) + RETRY_INTERVAL_MS
            >= READY_DEADLINE_MS),
{
}

/// The splash stays up for at least `MIN_SPLASH_MS` after polling began: a
/// ready reply leads straight to the main window only when that much time
/// has passed, and otherwise to a pause that makes up the difference.
pub proof fn lemma_minimum_splash(s: Poller, e: Event)
    requires
        s.wf(),
        s.phase == Phase::AwaitingReply,
        is_ready_event(e),
    ensures
        next(s, e).1 == Action::OpenMainWindow ==> event_elapsed(e) >= MIN_SPLASH_MS,
        next(s, e).1 != Action::OpenMainWindow ==> next(s, e).0.phase == Phase::HoldingSplash
            && next(s, e).1 == (Action::Wait {
            ms: (MIN_SPLASH_MS - event_elapsed(e)) as u64,
        }),
{
}

/// Once the main window is up, has failed, or the poller has given up,
/// nothing further happens: in particular no main window is opened after a
/// timeout.
pub proof fn lemma_terminal_phases(s: Poller, e: Event)
    requires
        is_terminal(s.phase),
    ensures
        next(s, e) == (s, Action::Ignore),
{
}

} // verus!

//! The reconnect controller: the connector's state machine. It owns the
//! attempt counter and every decision of the run — connect, subscribe,
//! classify, forward, answer pings, retry or terminate — while the actual
//! transport work is performed by the surrounding I/O loop, which feeds
//! each outcome back in and carries out the returned action.

use vstd::prelude::*;
use crate::classify::abrupt_reset_text;
use crate::classify::classify;
use crate::classify::is_abrupt_reset;
use crate::classify::is_ack_text;
use crate::classify::json_parses;
use crate::classify::Classified;
use vstd::string::StringExecFns;

verus! {

/// Where the connector stands in its life cycle. `Terminated` is
/// absorbing: the run is over and the caller observes the terminal error.
pub enum Phase {
    Idle,
    Connecting,
    Subscribed,
    Reading,
    Terminated,
}

/// Why a run ended for good.
pub enum TerminalError {
    /// The transport could not be opened and no retry budget was left.
    ConnectFailed,
    /// The subscribe request could not be sent; terminates at once,
    /// consuming no retry attempt.
    SubscribeSendFailed,
    /// A read error other than the abrupt peer reset; terminates at once,
    /// consuming no retry attempt.
    FatalRead,
    /// A session ended or was reset abruptly and no retry budget was left.
    MaxAttemptsReached,
}

impl TerminalError {
    /// A human-readable description of the terminal error.
    pub fn describe(&self) -> (s: String)
        ensures
            *self is ConnectFailed ==> s@ == "Failed to connect"@,
            *self is SubscribeSendFailed ==> s@ == "Failed to send message"@,
            *self is FatalRead ==> s@ == "Error reading message"@,
            *self is MaxAttemptsReached ==> s@ == "Max reconnection attempts reached"@,
    {
        match self {
            TerminalError::ConnectFailed => String::from_str("Failed to connect"),
            TerminalError::SubscribeSendFailed => String::from_str("Failed to send message"),
            TerminalError::FatalRead => String::from_str("Error reading message"),
            TerminalError::MaxAttemptsReached => String::from_str("Max reconnection attempts reached"),
        }
    }
}

/// One inbound transport frame, as the read loop sees it.
pub enum Frame {
    Text(String),
    Ping(Vec<u8>),
    Pong(Vec<u8>),
    Other,
}

/// What one receive call on the transport produced: a frame, the orderly
/// end of the stream, or a read error carried as its description text.
pub enum ReadOutcome {
    Got(Frame),
    Ended,
    Failed(String),
}

/// What the I/O loop must do next. After `SendPong` or `Forward` it goes
/// on reading; delivery failures there are logged and never fatal.
pub enum Action {
    /// Open (or reopen) the transport and report back.
    Connect,
    /// Send the subscribe request on the fresh session and report back.
    SendSubscribe,
    /// Receive the next frame and feed it back.
    ReadNext,
    /// Answer a ping with exactly this payload, then read on.
    SendPong(Vec<u8>),
    /// Hand this event notification to the consumer channel, then read on.
    Forward(serde_json::Value),
    /// Stop for good with this error.
    Fail(TerminalError),
}

/// The state the controller carries across events: the fixed retry budget
/// and the attempt counter, which only ever grows — it is never reset for
/// the life of the run.
pub struct ReconnectController {
    pub max_attempts: u32,
    pub attempts: u32,
    pub phase: Phase,
}

impl ReconnectController {
    /// The state after a retryable failure (a failed open, an exhausted
    /// session, an abrupt reset): one more attempt if budget is left,
    /// termination otherwise.
    pub open spec fn spec_retry(self) -> ReconnectController {
        if self.attempts < self.max_attempts {
            ReconnectController {
                max_attempts: self.max_attempts,
                attempts: (self.attempts + 1) as u32,
                phase: Phase::Connecting,
            }
        } else {
            ReconnectController {
                max_attempts: self.max_attempts,
                attempts: self.attempts,
                phase: Phase::Terminated,
            }
        }
    }

    /// The action that goes with `spec_retry`: reconnect, or fail with the
    /// terminal error of the failure point.
    pub open spec fn spec_retry_action(self, e: TerminalError) -> Action {
        if self.attempts < self.max_attempts {
            Action::Connect
        } else {
            Action::Fail(e)
        }
    }

    /// The state after a successful transport open: the attempt counter is
    /// kept, not reset.
    pub open spec fn spec_open_ok(self) -> ReconnectController {
        ReconnectController {
            max_attempts: self.max_attempts,
            attempts: self.attempts,
            phase: Phase::Subscribed,
        }
    }

    pub fn new(max_attempts: u32) -> (c: ReconnectController)
        ensures
            c == (ReconnectController {
                max_attempts: max_attempts,
                attempts: 0,
                phase: Phase::Idle,
            }),
    {
        ReconnectController { max_attempts, attempts: 0, phase: Phase::Idle }
    }

    /// Starts the run: the first connection attempt is owed.
    pub fn start(&mut self) -> (a: Action)
        requires
            old(self).phase is Idle,
        ensures
            final(self).max_attempts == old(self).max_attempts,
            final(self).attempts == old(self).attempts,
            final(self).phase is Connecting,
            a == Action::Connect,
    {
        self.phase = Phase::Connecting;
        Action::Connect
    }

    /// Takes the outcome of one transport open. Success moves on to the
    /// subscribe handshake; failure consumes one retry attempt if any is
    /// left and otherwise terminates the run.
    pub fn on_connect_result(&mut self, ok: bool) -> (a: Action)
        requires
            old(self).phase is Connecting,
        ensures
            final(self).attempts >= old(self).attempts,
            ok ==> *final(self) == old(self).spec_open_ok() && a == Action::SendSubscribe,
            !ok ==> *final(self) == old(self).spec_retry() && a == old(self).spec_retry_action(
                TerminalError::ConnectFailed,
            ),
    {
        if ok {
            self.phase = Phase::Subscribed;
            Action::SendSubscribe
        } else {
            self.retry_or_fail(TerminalError::ConnectFailed)
        }
    }

    /// Takes the outcome of sending the subscribe request. Success enters
    /// the read loop; failure terminates at once, consuming no retry
    /// attempt.
    pub fn on_subscribe_result(&mut self, ok: bool) -> (a: Action)
        requires
            old(self).phase is Subscribed,
        ensures
            final(self).max_attempts == old(self).max_attempts,
            final(self).attempts == old(self).attempts,
            ok ==> final(self).phase is Reading && a == Action::ReadNext,
            !ok ==> final(self).phase is Terminated && a == Action::Fail(
                TerminalError::SubscribeSendFailed,
            ),
    {
        if ok {
            self.phase = Phase::Reading;
            Action::ReadNext
        } else {
            self.phase = Phase::Terminated;
            Action::Fail(TerminalError::SubscribeSendFailed)
        }
    }

    /// Takes what one receive call produced. Frames keep the session: an
    /// acknowledgement is consumed, an event is forwarded, malformed text
    /// is dropped, a ping is answered with its own payload, a pong and any
    /// other frame are ignored. The end of the stream and an abrupt reset
    /// consume one retry attempt if any is left; any other read error
    /// terminates at once.
    pub fn on_read(&mut self, outcome: ReadOutcome) -> (a: Action)
        requires
            old(self).phase is Reading,
        ensures
            final(self).attempts >= old(self).attempts,
            outcome is Got ==> *final(self) == *old(self),
            outcome matches ReadOutcome::Got(Frame::Text(t)) ==> {
                &&& !json_parses(t@) ==> a == Action::ReadNext
                &&& is_ack_text(t@) ==> a == Action::ReadNext
                &&& json_parses(t@) && !is_ack_text(t@) ==> a is Forward
            },
            outcome matches ReadOutcome::Got(Frame::Ping(d)) ==> (a matches Action::SendPong(p)
                && p@ == d@),
            outcome matches ReadOutcome::Got(Frame::Pong(d)) ==> a == Action::ReadNext,
            outcome matches ReadOutcome::Got(Frame::Other) ==> a == Action::ReadNext,
            outcome is Ended ==> *final(self) == old(self).spec_retry() && a == old(
                self,
            ).spec_retry_action(TerminalError::MaxAttemptsReached),
            outcome matches ReadOutcome::Failed(m) ==> {
                if m@ == abrupt_reset_text() {
                    &&& *final(self) == old(self).spec_retry()
                    &&& a == old(self).spec_retry_action(TerminalError::MaxAttemptsReached)
                } else {
                    &&& final(self).max_attempts == old(self).max_attempts
                    &&& final(self).attempts == old(self).attempts
                    &&& final(self).phase is Terminated
                    &&& a == Action::Fail(TerminalError::FatalRead)
                }
            },
    {
        match outcome {
            ReadOutcome::Got(frame) => match frame {
                Frame::Text(text) => match classify(text.as_str()) {
                    Classified::Acknowledgement => Action::ReadNext,
                    Classified::Event(value) => Action::Forward(value),
                    Classified::Malformed => Action::ReadNext,
                },
                Frame::Ping(data) => Action::SendPong(data),
                Frame::Pong(_) => Action::ReadNext,
                Frame::Other => Action::ReadNext,
            },
            ReadOutcome::Ended => self.retry_or_fail(TerminalError::MaxAttemptsReached),
            ReadOutcome::Failed(message) => {
                if is_abrupt_reset(message.as_str()) {
                    self.retry_or_fail(TerminalError::MaxAttemptsReached)
                } else {
                    self.phase = Phase::Terminated;
                    Action::Fail(TerminalError::FatalRead)
                }
            },
        }
    }

    /// One retryable failure: consume a retry attempt if budget is left,
    /// terminate with `e` otherwise.
    fn retry_or_fail(&mut self, e: TerminalError) -> (a: Action)
        ensures
            *final(self) == old(self).spec_retry(),
            a == old(self).spec_retry_action(e),
    {
        if self.attempts < self.max_attempts {
            self.attempts = self.attempts + 1;
            self.phase = Phase::Connecting;
            Action::Connect
        } else {
            self.phase = Phase::Terminated;
            Action::Fail(e)
        }
    }
}

/// The controller after `n` consecutive retryable failures.
pub open spec fn after_failures(c: ReconnectController, n: nat) -> ReconnectController
    decreases n,
{
    if n == 0 {
        c
    } else {
        after_failures(c, (n - 1) as nat).spec_retry()
    }
}

/// Bounded reconnection: from a fresh counter, the first `n <= max`
/// consecutive connect failures each consume exactly one attempt and leave
/// the connector still connecting — the subscribed phase is never reached —
/// and once the counter stands at the budget, one more failure terminates
/// the run with the counter exactly at the budget.
pub proof fn lemma_connect_failures_bounded(c: ReconnectController, n: nat)
    requires
        c.phase is Connecting,
        c.attempts == 0,
        n <= c.max_attempts,
    ensures
        after_failures(c, n).max_attempts == c.max_attempts,
        after_failures(c, n).attempts == n,
        forall|k: nat| k <= n ==> (#[trigger] after_failures(c, k)).phase is Connecting,
        n == c.max_attempts ==> after_failures(c, n + 1).phase is Terminated
            && after_failures(c, n + 1).attempts == c.max_attempts,
    decreases n,
{
    if n > 0 {
        lemma_connect_failures_bounded(c, (n - 1) as nat);
        assert(forall|k: nat|
            k <= n ==> (#[trigger] after_failures(c, k)).phase is Connecting) by {
            assert(after_failures(c, n).phase is Connecting);
        }
    }
}

/// The attempt counter survives success and is never reset: a failed open
/// followed by a successful one leaves the counter exactly one higher, and
/// no transition of the controller ever lowers it.
pub proof fn lemma_failure_then_success_keeps_counter(c: ReconnectController)
    requires
        c.phase is Connecting,
        c.attempts < c.max_attempts,
    ensures
        c.spec_retry().phase is Connecting,
        c.spec_retry().spec_open_ok().attempts == c.attempts + 1,
        c.spec_retry().spec_open_ok().phase is Subscribed,
{
}

/// No transition lowers the attempt counter, and none but a retryable
/// failure with budget left changes it at all.
pub proof fn lemma_attempts_never_reset(c: ReconnectController)
    ensures
        c.spec_retry().attempts >= c.attempts,
        c.spec_retry().attempts <= c.attempts + 1,
        c.spec_open_ok().attempts == c.attempts,
{
}

} // verus!

//! The resilient session manager: a connection/subscription state machine
//! that keeps a long-lived broker session alive across network failures
//! without losing or duplicating subscriptions.
//!
//! The machine owns no transport.  Its driver performs each outside
//! operation (connect, subscribe-many over the whole registry, await the
//! stream) and reports the outcome back as a [`SessionEvent`]; every call of
//! [`SessionManager::handle`] returns the [`Directives`] the driver must
//! perform next.  Connectivity errors never escape the machine: failed
//! connects are retried indefinitely, and an interrupted stream folds back
//! into a reconnect, so a caller polling for messages never observes a
//! permanent end of stream.

use vstd::prelude::*;

use crate::config::MqttClientConfig;

verus! {

/// The session's place in the connect → subscribe → steady-state cycle.
#[derive(Debug, Clone, Copy, PartialEq, Eq, Structural)]
pub enum SessionState {
    Disconnected,
    Connecting,
    Subscribing,
    Ready,
    Reconnecting,
}

/// One message received from the broker, consumed exactly once.
#[derive(Debug, Clone, PartialEq, Eq)]
pub struct InboundMessage {
    pub topic: String,
    pub payload: Vec<u8>,
    pub retained: bool,
    pub qos: i32,
}

/// What the driver reports back to the machine.
#[derive(Debug, Clone, PartialEq, Eq)]
pub enum SessionEvent {
    /// The caller asked for the next message.
    PollRequested,
    /// A connect or reconnect attempt succeeded.
    ConnectSucceeded,
    /// A connect or reconnect attempt failed.
    ConnectFailed,
    /// The broker acknowledged the subscribe-many request.
    SubscribeAcked,
    /// The subscribe-many request failed.
    SubscribeFailed,
    /// The stream yielded a message.
    MessageArrived(InboundMessage),
    /// The transport reported disconnection, or the stream yielded its
    /// end-of-stream sentinel.
    StreamInterrupted,
}

/// What the driver must do after a step.  At most one connection-shaped
/// action is requested per step; `issue_subscribe` always means one
/// subscribe-many request covering the whole registry, in registry order.
#[derive(Debug, Clone, PartialEq, Eq)]
pub struct Directives {
    /// Attempt the broker connect (or reconnect) operation.
    pub attempt_connect: bool,
    /// Issue one subscribe-many request over the entire topic registry.
    pub issue_subscribe: bool,
    /// Emit the single "lost connection, reconnecting" notification of the
    /// current disconnection episode.
    pub emit_notice: bool,
    /// Hand this message to the caller.
    pub deliver: Option<InboundMessage>,
}

/// The directives of a step that asks nothing of the driver.
pub open spec fn no_directives() -> Directives {
    Directives { attempt_connect: false, issue_subscribe: false, emit_notice: false, deliver: None }
}

/// The outcome of one step: the next state, the notification bookkeeping,
/// and what the driver must do.
pub ghost struct StepModel {
    pub state: SessionState,
    pub notice_outstanding: bool,
    pub directives: Directives,
}

/// The transition function of the session machine.
///
/// Connect failures retry without bound; a successful connect always leads
/// to one subscribe-many request; a subscribe failure (or a drop while
/// subscribing) is treated as equivalent to connecting again and retries
/// the full batch; a drop out of the steady state opens a disconnection
/// episode, emitting its notification only if none is outstanding.  The
/// outstanding flag clears the instant a reconnect succeeds.  Events that a
/// state does not expect change nothing.
pub open spec fn spec_step(state: SessionState, outstanding: bool, ev: SessionEvent) -> StepModel {
    match (state, ev) {
        (SessionState::Disconnected, SessionEvent::PollRequested) => StepModel {
            state: SessionState::Connecting,
            notice_outstanding: outstanding,
            directives: Directives {
                attempt_connect: true,
                issue_subscribe: false,
                emit_notice: false,
                deliver: None,
            },
        },
        (SessionState::Connecting, SessionEvent::ConnectSucceeded) => StepModel {
            state: SessionState::Subscribing,
            notice_outstanding: false,
            directives: Directives {
                attempt_connect: false,
                issue_subscribe: true,
                emit_notice: false,
                deliver: None,
            },
        },
        (SessionState::Connecting, SessionEvent::ConnectFailed) => StepModel {
            state: SessionState::Connecting,
            notice_outstanding: outstanding,
            directives: Directives {
                attempt_connect: true,
                issue_subscribe: false,
                emit_notice: false,
                deliver: None,
            },
        },
        (SessionState::Subscribing, SessionEvent::SubscribeAcked) => StepModel {
            state: SessionState::Ready,
            notice_outstanding: false,
            directives: no_directives(),
        },
        (SessionState::Subscribing, SessionEvent::SubscribeFailed) => StepModel {
            state: SessionState::Connecting,
            notice_outstanding: outstanding,
            directives: Directives {
                attempt_connect: true,
                issue_subscribe: false,
                emit_notice: false,
                deliver: None,
            },
        },
        (SessionState::Subscribing, SessionEvent::StreamInterrupted) => StepModel {
            state: SessionState::Connecting,
            notice_outstanding: outstanding,
            directives: Directives {
                attempt_connect: true,
                issue_subscribe: false,
                emit_notice: false,
                deliver: None,
            },
        },
        (SessionState::Ready, SessionEvent::MessageArrived(m)) => StepModel {
            state: SessionState::Ready,
            notice_outstanding: outstanding,
            directives: Directives {
                attempt_connect: false,
                issue_subscribe: false,
                emit_notice: false,
                deliver: Some(m),
            },
        },
        (SessionState::Ready, SessionEvent::StreamInterrupted) => StepModel {
            state: SessionState::Reconnecting,
            notice_outstanding: true,
            directives: Directives {
                attempt_connect: true,
                issue_subscribe: false,
                emit_notice: !outstanding,
                deliver: None,
            },
        },
        (SessionState::Reconnecting, SessionEvent::ConnectSucceeded) => StepModel {
            state: SessionState::Subscribing,
            notice_outstanding: false,
            directives: Directives {
                attempt_connect: false,
                issue_subscribe: true,
                emit_notice: false,
                deliver: None,
            },
        },
        (SessionState::Reconnecting, SessionEvent::ConnectFailed) => StepModel {
            state: SessionState::Reconnecting,
            notice_outstanding: outstanding,
            directives: Directives {
                attempt_connect: true,
                issue_subscribe: false,
                emit_notice: false,
                deliver: None,
            },
        },
        (s, _) => StepModel {
            state: s,
            notice_outstanding: outstanding,
            directives: no_directives(),
        },
    }
}

/// The state and notification flag after a whole event sequence.
pub open spec fn run_state(state: SessionState, outstanding: bool, evs: Seq<SessionEvent>) -> (
    SessionState,
    bool,
)
    decreases evs.len(),
{
    if evs.len() == 0 {
        (state, outstanding)
    } else {
        let m = spec_step(state, outstanding, evs[0]);
        run_state(m.state, m.notice_outstanding, evs.drop_first())
    }
}

/// How many steps of the run request a subscribe-many call.
pub open spec fn count_subscribes(
    state: SessionState,
    outstanding: bool,
    evs: Seq<SessionEvent>,
) -> nat
    decreases evs.len(),
{
    if evs.len() == 0 {
        0
    } else {
        let m = spec_step(state, outstanding, evs[0]);
        (if m.directives.issue_subscribe {
            1nat
        } else {
            0nat
        }) + count_subscribes(m.state, m.notice_outstanding, evs.drop_first())
    }
}

/// How many steps of the run emit the reconnecting notification.
pub open spec fn count_notices(
    state: SessionState,
    outstanding: bool,
    evs: Seq<SessionEvent>,
) -> nat
    decreases evs.len(),
{
    if evs.len() == 0 {
        0
    } else {
        let m = spec_step(state, outstanding, evs[0]);
        (if m.directives.emit_notice {
            1nat
        } else {
            0nat
        }) + count_notices(m.state, m.notice_outstanding, evs.drop_first())
    }
}

/// How many steps of the run enter the steady state.
pub open spec fn count_ready_entries(
    state: SessionState,
    outstanding: bool,
    evs: Seq<SessionEvent>,
) -> nat
    decreases evs.len(),
{
    if evs.len() == 0 {
        0
    } else {
        let m = spec_step(state, outstanding, evs[0]);
        (if !(state is Ready) && m.state is Ready {
            1nat
        } else {
            0nat
        }) + count_ready_entries(m.state, m.notice_outstanding, evs.drop_first())
    }
}

/// Whether the run never reaches the steady state.
pub open spec fn run_avoids_ready(
    state: SessionState,
    outstanding: bool,
    evs: Seq<SessionEvent>,
) -> bool
    decreases evs.len(),
{
    if evs.len() == 0 {
        true
    } else {
        let m = spec_step(state, outstanding, evs[0]);
        !(m.state is Ready) && run_avoids_ready(m.state, m.notice_outstanding, evs.drop_first())
    }
}

/// Runs and counts decompose over concatenation of event sequences.
proof fn lemma_run_append(
    state: SessionState,
    outstanding: bool,
    evs1: Seq<SessionEvent>,
    evs2: Seq<SessionEvent>,
)
    ensures
        ({
            let mid = run_state(state, outstanding, evs1);
            &&& run_state(state, outstanding, evs1 + evs2) == run_state(mid.0, mid.1, evs2)
            &&& count_subscribes(state, outstanding, evs1 + evs2) == count_subscribes(
                state,
                outstanding,
                evs1,
            ) + count_subscribes(mid.0, mid.1, evs2)
            &&& count_notices(state, outstanding, evs1 + evs2) == count_notices(
                state,
                outstanding,
                evs1,
            ) + count_notices(mid.0, mid.1, evs2)
            &&& count_ready_entries(state, outstanding, evs1 + evs2) == count_ready_entries(
                state,
                outstanding,
                evs1,
            ) + count_ready_entries(mid.0, mid.1, evs2)
        }),
    decreases evs1.len(),
{
    if evs1.len() == 0 {
        assert(evs1 + evs2 =~= evs2);
    } else {
        let m = spec_step(state, outstanding, evs1[0]);
        assert((evs1 + evs2)[0] == evs1[0]);
        assert((evs1 + evs2).drop_first() =~= evs1.drop_first() + evs2);
        lemma_run_append(m.state, m.notice_outstanding, evs1.drop_first(), evs2);
    }
}

/// While connecting, failed attempts change nothing: the machine stays in
/// Connecting, requests no subscribe, emits no notification and never
/// reaches the steady state.
proof fn lemma_connecting_absorbs_failures(outstanding: bool, evs: Seq<SessionEvent>)
    requires
        forall|i: int| 0 <= i < evs.len() ==> evs[i] == SessionEvent::ConnectFailed,
    ensures
        run_state(SessionState::Connecting, outstanding, evs) == (
            SessionState::Connecting,
            outstanding,
        ),
        count_subscribes(SessionState::Connecting, outstanding, evs) == 0,
        count_notices(SessionState::Connecting, outstanding, evs) == 0,
        count_ready_entries(SessionState::Connecting, outstanding, evs) == 0,
    decreases evs.len(),
{
    if evs.len() > 0 {
        assert(evs[0] == SessionEvent::ConnectFailed);
        lemma_connecting_absorbs_failures(outstanding, evs.drop_first());
    }
}

/// For all valid configurations: after any number of connect failures
/// followed by one successful connect and the subscribe acknowledgment,
/// the machine reaches Ready exactly once and requests exactly one
/// subscribe-many call.  That one call covers all registered topics in
/// registry order, since a subscribe directive always means one
/// subscribe-many request over the whole registry and [`SessionManager::handle`]
/// never changes the configuration.
pub proof fn lemma_retry_until_ready(failures: Seq<SessionEvent>, evs: Seq<SessionEvent>)
    requires
        forall|i: int| 0 <= i < failures.len() ==> failures[i] == SessionEvent::ConnectFailed,
        evs == seq![SessionEvent::PollRequested] + failures + seq![
            SessionEvent::ConnectSucceeded,
            SessionEvent::SubscribeAcked,
        ],
    ensures
        run_state(SessionState::Disconnected, false, evs).0 == SessionState::Ready,
        count_subscribes(SessionState::Disconnected, false, evs) == 1,
        count_ready_entries(SessionState::Disconnected, false, evs) == 1,
        count_notices(SessionState::Disconnected, false, evs) == 0,
{
    reveal_with_fuel(run_state, 4);
    reveal_with_fuel(count_subscribes, 4);
    reveal_with_fuel(count_notices, 4);
    reveal_with_fuel(count_ready_entries, 4);
    let head = seq![SessionEvent::PollRequested];
    let tail = seq![SessionEvent::ConnectSucceeded, SessionEvent::SubscribeAcked];
    assert(evs =~= head + (failures + tail));
    lemma_run_append(SessionState::Disconnected, false, head, failures + tail);
    assert(head.drop_first() =~= Seq::<SessionEvent>::empty());
    assert(run_state(SessionState::Disconnected, false, head) == (
        SessionState::Connecting,
        false,
    ));
    lemma_run_append(SessionState::Connecting, false, failures, tail);
    lemma_connecting_absorbs_failures(false, failures);
    assert(tail.drop_first() =~= seq![SessionEvent::SubscribeAcked]);
    assert(tail.drop_first().drop_first() =~= Seq::<SessionEvent>::empty());
    assert(run_state(SessionState::Connecting, false, tail).0 == SessionState::Ready);
    assert(count_subscribes(SessionState::Connecting, false, tail) == 1);
    assert(count_ready_entries(SessionState::Connecting, false, tail) == 1);
    assert(count_notices(SessionState::Connecting, false, tail) == 0);
}

/// Away from the steady state nothing emits the reconnecting notification:
/// a run that starts outside Ready and never re-enters it emits none.
proof fn lemma_no_notice_off_ready(
    state: SessionState,
    outstanding: bool,
    evs: Seq<SessionEvent>,
)
    requires
        !(state is Ready),
        run_avoids_ready(state, outstanding, evs),
    ensures
        count_notices(state, outstanding, evs) == 0,
    decreases evs.len(),
{
    if evs.len() > 0 {
        let m = spec_step(state, outstanding, evs[0]);
        assert(!m.directives.emit_notice);
        lemma_no_notice_off_ready(m.state, m.notice_outstanding, evs.drop_first());
    }
}

/// For all disconnection episodes: from the step that leaves the steady
/// state until the episode ends, at most one reconnecting notification is
/// emitted, however many retry attempts the episode holds.  `rest` is the
/// remainder of the episode: every event after the drop and before the
/// steady state is re-entered.
pub proof fn lemma_at_most_one_notice_per_episode(outstanding: bool, rest: Seq<SessionEvent>)
    requires
        run_avoids_ready(SessionState::Reconnecting, true, rest),
    ensures
        count_notices(SessionState::Ready, outstanding, seq![SessionEvent::StreamInterrupted]
            + rest) <= 1,
{
    reveal_with_fuel(run_state, 3);
    reveal_with_fuel(count_notices, 3);
    let drop_step = seq![SessionEvent::StreamInterrupted];
    lemma_run_append(SessionState::Ready, outstanding, drop_step, rest);
    assert(drop_step.drop_first() =~= Seq::<SessionEvent>::empty());
    assert(run_state(SessionState::Ready, outstanding, drop_step) == (
        SessionState::Reconnecting,
        true,
    ));
    assert(count_notices(SessionState::Ready, outstanding, drop_step) <= 1);
    lemma_no_notice_off_ready(SessionState::Reconnecting, true, rest);
}

/// A step never asks the driver to deliver a message and do anything else:
/// delivery happens only in the steady state, with no connect, subscribe or
/// notification request alongside it.
pub proof fn lemma_delivery_is_exclusive(
    state: SessionState,
    outstanding: bool,
    ev: SessionEvent,
)
    ensures
        ({
            let d = spec_step(state, outstanding, ev).directives;
            d.deliver is Some ==> !d.attempt_connect && !d.issue_subscribe && !d.emit_notice
        }),
{
}

/// The steady state is entered only from Subscribing, on the subscribe
/// acknowledgment: a session is never Ready without its whole registry
/// freshly subscribed, so a reconnect can neither lose nor duplicate
/// subscriptions.
pub proof fn lemma_ready_only_after_subscribe_ack(
    state: SessionState,
    outstanding: bool,
    ev: SessionEvent,
)
    ensures
        spec_step(state, outstanding, ev).state is Ready && !(state is Ready) ==> state
            is Subscribing && ev == SessionEvent::SubscribeAcked,
{
}

/// The session manager: the machine's state, the notification bookkeeping,
/// and the immutable configuration the session runs with.
#[derive(Debug)]
pub struct SessionManager {
    state: SessionState,
    notice_outstanding: bool,
    config: MqttClientConfig,
}

impl SessionManager {
    pub closed spec fn spec_state(&self) -> SessionState {
        self.state
    }

    pub closed spec fn spec_notice_outstanding(&self) -> bool {
        self.notice_outstanding
    }

    pub closed spec fn spec_config(&self) -> MqttClientConfig {
        self.config
    }

    /// A fresh session: disconnected, no notification outstanding.
    pub fn new(config: MqttClientConfig) -> (r: SessionManager)
        ensures
            r.spec_state() == SessionState::Disconnected,
            !r.spec_notice_outstanding(),
            r.spec_config() == config,
    {
        SessionManager { state: SessionState::Disconnected, notice_outstanding: false, config }
    }

    /// The current state of the machine.
    pub fn state(&self) -> (r: SessionState)
        ensures
            r == self.spec_state(),
    {
        self.state
    }

    /// The configuration the session runs with; never changed by the
    /// machine.
    pub fn config(&self) -> (r: &MqttClientConfig)
        ensures
            *r == self.spec_config(),
    {
        &self.config
    }

    /// Feeds one event to the machine and returns what the driver must do
    /// next: exactly one step of [`spec_step`].  The configuration is
    /// untouched.
    pub fn handle(&mut self, ev: SessionEvent) -> (d: Directives)
        ensures
            ({
                let m = spec_step(old(self).spec_state(), old(self).spec_notice_outstanding(), ev);
                &&& final(self).spec_state() == m.state
                &&& final(self).spec_notice_outstanding() == m.notice_outstanding
                &&& d == m.directives
            }),
            final(self).spec_config() == old(self).spec_config(),
    {
        let outstanding = self.notice_outstanding;
        match (self.state, ev) {
            (SessionState::Disconnected, SessionEvent::PollRequested) => {
                self.state = SessionState::Connecting;
                Directives {
                    attempt_connect: true,
                    issue_subscribe: false,
                    emit_notice: false,
                    deliver: None,
                }
            },
            (SessionState::Connecting, SessionEvent::ConnectSucceeded) => {
                self.state = SessionState::Subscribing;
                self.notice_outstanding = false;
                Directives {
                    attempt_connect: false,
                    issue_subscribe: true,
                    emit_notice: false,
                    deliver: None,
                }
            },
            (SessionState::Connecting, SessionEvent::ConnectFailed) => {
                Directives {
                    attempt_connect: true,
                    issue_subscribe: false,
                    emit_notice: false,
                    deliver: None,
                }
            },
            (SessionState::Subscribing, SessionEvent::SubscribeAcked) => {
                self.state = SessionState::Ready;
                self.notice_outstanding = false;
                Directives {
                    attempt_connect: false,
                    issue_subscribe: false,
                    emit_notice: false,
                    deliver: None,
                }
            },
            (SessionState::Subscribing, SessionEvent::SubscribeFailed) => {
                self.state = SessionState::Connecting;
                Directives {
                    attempt_connect: true,
                    issue_subscribe: false,
                    emit_notice: false,
                    deliver: None,
                }
            },
            (SessionState::Subscribing, SessionEvent::StreamInterrupted) => {
                self.state = SessionState::Connecting;
                Directives {
                    attempt_connect: true,
                    issue_subscribe: false,
                    emit_notice: false,
                    deliver: None,
                }
            },
            (SessionState::Ready, SessionEvent::MessageArrived(m)) => {
                Directives {
                    attempt_connect: false,
                    issue_subscribe: false,
                    emit_notice: false,
                    deliver: Some(m),
                }
            },
            (SessionState::Ready, SessionEvent::StreamInterrupted) => {
                self.state = SessionState::Reconnecting;
                self.notice_outstanding = true;
                Directives {
                    attempt_connect: true,
                    issue_subscribe: false,
                    emit_notice: !outstanding,
                    deliver: None,
                }
            },
            (SessionState::Reconnecting, SessionEvent::ConnectSucceeded) => {
                self.state = SessionState::Subscribing;
                self.notice_outstanding = false;
                Directives {
                    attempt_connect: false,
                    issue_subscribe: true,
                    emit_notice: false,
                    deliver: None,
                }
            },
            (SessionState::Reconnecting, SessionEvent::ConnectFailed) => {
                Directives {
                    attempt_connect: true,
                    issue_subscribe: false,
                    emit_notice: false,
                    deliver: None,
                }
            },
            (_, _) => {
                Directives {
                    attempt_connect: false,
                    issue_subscribe: false,
                    emit_notice: false,
                    deliver: None,
                }
            },
        }
    }
}

} // verus!

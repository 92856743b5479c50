//! The reconnect supervisor: what the consumer does with what the serial
//! worker tells it, and how a lost connection is brought back.
//!
//! While connected, snapshots are shown. A `Reconnect` message, an error, a
//! closed channel or a request of the caller starts the reconnection:
//! attempts to find and open the device, with a growing delay after every
//! failure and no limit on their number. A success goes back to connected
//! and resets the delay.

use crate::b0xx_state::{B0xxReport, B0xxState};
use crate::backoff::{
    lemma_delays_never_shrink, lemma_failures_keep_settings, Backoff, BackoffView,
};
use crate::serial_probe::{B0xxMessage, MessageView};
use vstd::prelude::*;

verus! {

#[derive(Clone, Copy, Debug, PartialEq, Eq, Structural)]
pub enum SupervisorState {
    /// A frame reader is at work.
    Connected,
    /// The device is being looked for.
    Reconnecting,
}

/// What the supervisor is told.
#[derive(Clone, Copy, Debug, PartialEq, Eq)]
pub enum SupervisorEvent {
    /// The freshest message of the worker.
    Message(B0xxMessage),
    /// The worker has closed its end of the channel.
    Disconnected,
    /// The caller asks for a new connection.
    ReconnectRequested,
    /// The device was not found, or its port could not be set up.
    AttemptFailed,
    /// A new connection stands, with its own worker, buffer and channel.
    AttemptSucceeded,
}

/// An event, with its message as a view.
pub enum SupervisorEventView {
    Message(MessageView),
    Disconnected,
    ReconnectRequested,
    AttemptFailed,
    AttemptSucceeded,
}

impl View for SupervisorEvent {
    type V = SupervisorEventView;

    open spec fn view(&self) -> SupervisorEventView {
        match *self {
            SupervisorEvent::Message(message) => SupervisorEventView::Message(message@),
            SupervisorEvent::Disconnected => SupervisorEventView::Disconnected,
            SupervisorEvent::ReconnectRequested => SupervisorEventView::ReconnectRequested,
            SupervisorEvent::AttemptFailed => SupervisorEventView::AttemptFailed,
            SupervisorEvent::AttemptSucceeded => SupervisorEventView::AttemptSucceeded,
        }
    }
}

/// What the consumer does next.
#[derive(Clone, Copy, Debug, PartialEq, Eq)]
pub enum SupervisorAction {
    /// Show the snapshot.
    Show(B0xxState),
    /// Nothing changes.
    Idle,
    /// Drop the channel, then look for the device and open it.
    Attempt,
    /// Sleep for so many milliseconds, then look for the device again.
    RetryAfter(u64),
    /// Go back to forwarding, on the channel of the new connection.
    Resume,
    /// The connection failed for good: end.
    Quit,
}

/// An action, with its snapshot as a view.
pub enum SupervisorActionView {
    Show(Seq<B0xxReport>),
    Idle,
    Attempt,
    RetryAfter(nat),
    Resume,
    Quit,
}

impl View for SupervisorAction {
    type V = SupervisorActionView;

    open spec fn view(&self) -> SupervisorActionView {
        match *self {
            SupervisorAction::Show(state) => SupervisorActionView::Show(state@),
            SupervisorAction::Idle => SupervisorActionView::Idle,
            SupervisorAction::Attempt => SupervisorActionView::Attempt,
            SupervisorAction::RetryAfter(delay) => SupervisorActionView::RetryAfter(delay as nat),
            SupervisorAction::Resume => SupervisorActionView::Resume,
            SupervisorAction::Quit => SupervisorActionView::Quit,
        }
    }
}

/// The supervisor as a value.
pub struct SupervisorView {
    pub state: SupervisorState,
    pub backoff: BackoffView,
}

/// Whether an event ends a connection that stands.
pub open spec fn loses_connection(event: SupervisorEventView) -> bool {
    match event {
        SupervisorEventView::Message(MessageView::Reconnect) => true,
        SupervisorEventView::Message(MessageView::Error(_)) => true,
        SupervisorEventView::Disconnected => true,
        SupervisorEventView::ReconnectRequested => true,
        _ => false,
    }
}

/// One decision of the supervisor.
pub open spec fn supervisor_step(pre: SupervisorView, event: SupervisorEventView) -> (
    SupervisorView,
    SupervisorActionView,
) {
    match pre.state {
        SupervisorState::Connected => match event {
            SupervisorEventView::Message(MessageView::State(snapshot)) => (
                pre,
                SupervisorActionView::Show(snapshot),
            ),
            SupervisorEventView::Message(MessageView::Quit) => (pre, SupervisorActionView::Quit),
            _ => if loses_connection(event) {
                (
                    SupervisorView { state: SupervisorState::Reconnecting, backoff: pre.backoff },
                    SupervisorActionView::Attempt,
                )
            } else {
                (pre, SupervisorActionView::Idle)
            },
        },
        SupervisorState::Reconnecting => match event {
            SupervisorEventView::AttemptFailed => (
                SupervisorView {
                    state: SupervisorState::Reconnecting,
                    backoff: pre.backoff.advanced(),
                },
                SupervisorActionView::RetryAfter(pre.backoff.current),
            ),
            SupervisorEventView::AttemptSucceeded => (
                SupervisorView {
                    state: SupervisorState::Connected,
                    backoff: pre.backoff.restarted(),
                },
                SupervisorActionView::Resume,
            ),
            _ => (pre, SupervisorActionView::Idle),
        },
    }
}

/// The supervisor after a number of failed attempts in a row.
pub open spec fn after_failures(pre: SupervisorView, failures: nat) -> SupervisorView
    decreases failures,
{
    if failures == 0 {
        pre
    } else {
        supervisor_step(
            after_failures(pre, (failures - 1) as nat),
            SupervisorEventView::AttemptFailed,
        ).0
    }
}

/// The supervisor of one consumer. It owns the backoff policy.
#[derive(Clone, Copy, Debug, PartialEq, Eq)]
pub struct Supervisor {
    state: SupervisorState,
    backoff: Backoff,
}

impl View for Supervisor {
    type V = SupervisorView;

    closed spec fn view(&self) -> SupervisorView {
        SupervisorView { state: self.state, backoff: self.backoff@ }
    }
}

impl Supervisor {
    /// A supervisor that has no connection yet: the first connection is
    /// made like every later one.
    pub fn new(backoff: Backoff) -> (supervisor: Supervisor)
        ensures
            supervisor@ == (SupervisorView {
                state: SupervisorState::Reconnecting,
                backoff: backoff@,
            }),
    {
        Supervisor { state: SupervisorState::Reconnecting, backoff }
    }

    pub fn state(&self) -> (state: SupervisorState)
        ensures
            state == self@.state,
    {
        self.state
    }

    /// The delay that the next failed attempt will get, in milliseconds.
    pub fn upcoming_delay(&self) -> (delay: u64)
        ensures
            delay == self@.backoff.current,
            self@.backoff.wf(),
    {
        self.backoff.current_interval()
    }

    /// Takes an event and answers with what to do next.
    pub fn step(&mut self, event: SupervisorEvent) -> (action: SupervisorAction)
        ensures
            (final(self)@, action@) == supervisor_step(old(self)@, event@),
            old(self)@.backoff.wf(),
            final(self)@.backoff.wf(),
    {
        let _ = self.backoff.max_interval();
        match self.state {
            SupervisorState::Connected => match event {
                SupervisorEvent::Message(B0xxMessage::State(state)) => SupervisorAction::Show(
                    state,
                ),
                SupervisorEvent::Message(B0xxMessage::Quit) => SupervisorAction::Quit,
                SupervisorEvent::Message(B0xxMessage::Reconnect)
                | SupervisorEvent::Message(B0xxMessage::Error(_))
                | SupervisorEvent::Disconnected
                | SupervisorEvent::ReconnectRequested => {
                    self.state = SupervisorState::Reconnecting;
                    SupervisorAction::Attempt
                },
                SupervisorEvent::AttemptFailed | SupervisorEvent::AttemptSucceeded => {
                    SupervisorAction::Idle
                },
            },
            SupervisorState::Reconnecting => match event {
                SupervisorEvent::AttemptFailed => {
                    let delay = self.backoff.next_delay();
                    SupervisorAction::RetryAfter(delay)
                },
                SupervisorEvent::AttemptSucceeded => {
                    self.backoff.reset();
                    self.state = SupervisorState::Connected;
                    SupervisorAction::Resume
                },
                _ => SupervisorAction::Idle,
            },
        }
    }
}

/// While the attempts fail, the supervisor keeps trying: after any number
/// of failures in a row it is still reconnecting, and the delay that it
/// grants before the next attempt is at least the delay before, and at most
/// the maximum of its policy.
pub proof fn lemma_retry_delays_never_shrink(pre: SupervisorView, failures: nat)
    requires
        pre.state == SupervisorState::Reconnecting,
        pre.backoff.wf(),
    ensures
        after_failures(pre, failures) == (SupervisorView {
            state: SupervisorState::Reconnecting,
            backoff: pre.backoff.after(failures),
        }),
        supervisor_step(after_failures(pre, failures), SupervisorEventView::AttemptFailed).1
            == SupervisorActionView::RetryAfter(pre.backoff.delay(failures)),
        supervisor_step(after_failures(pre, failures + 1), SupervisorEventView::AttemptFailed).1
            == SupervisorActionView::RetryAfter(pre.backoff.delay(failures + 1)),
        pre.backoff.delay(failures) <= pre.backoff.delay(failures + 1) <= pre.backoff.max,
    decreases failures,
{
    if failures > 0 {
        lemma_retry_delays_never_shrink(pre, (failures - 1) as nat);
    }
    lemma_delays_never_shrink(pre.backoff, failures);
    assert(pre.backoff.after(failures + 1) == pre.backoff.after(failures).advanced());
    assert(after_failures(pre, failures + 1) == supervisor_step(
        after_failures(pre, failures),
        SupervisorEventView::AttemptFailed,
    ).0);
}

/// A successful attempt, after any number of failures, connects and resets
/// the policy: the first failure of the next reconnection gets the initial
/// delay again.
pub proof fn lemma_success_resets_delay(pre: SupervisorView, failures: nat)
    requires
        pre.state == SupervisorState::Reconnecting,
        pre.backoff.wf(),
    ensures
        ({
            let connected = supervisor_step(
                after_failures(pre, failures),
                SupervisorEventView::AttemptSucceeded,
            );
            let lost = supervisor_step(
                connected.0,
                SupervisorEventView::Message(MessageView::Reconnect),
            );
            &&& connected.1 == SupervisorActionView::Resume
            &&& connected.0 == (SupervisorView {
                state: SupervisorState::Connected,
                backoff: pre.backoff.restarted(),
            })
            &&& lost.1 == SupervisorActionView::Attempt
            &&& supervisor_step(lost.0, SupervisorEventView::AttemptFailed).1
                == SupervisorActionView::RetryAfter(pre.backoff.initial)
        }),
{
    lemma_retry_delays_never_shrink(pre, failures);
    lemma_failures_keep_settings(pre.backoff, failures);
}

/// Every message but a snapshot or `Quit`, a closed channel and a request of
/// the caller all start the reconnection of a connected supervisor.
pub proof fn lemma_lost_connection_reconnects(pre: SupervisorView, event: SupervisorEventView)
    requires
        pre.state == SupervisorState::Connected,
        loses_connection(event),
    ensures
        supervisor_step(pre, event) == (
            SupervisorView { state: SupervisorState::Reconnecting, backoff: pre.backoff },
            SupervisorActionView::Attempt,
        ),
{
}

} // verus!

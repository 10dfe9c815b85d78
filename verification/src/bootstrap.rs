//! The handshake that makes the wake-up pair of a reactor: a listener on an
//! ephemeral port, a socket that connects to it, and the accepted peer. The
//! handshake ends when both sides are there, or fails when its time is up.

use vstd::prelude::*;
use crate::event::Event;
use crate::event::EventKind;
use crate::event::Token;
use crate::event::ERROR;
use crate::event::READABLE;
use crate::event::WRITABLE;
use crate::socket::Socket;
use crate::stream::Registration;

verus! {

/// Index of the token under which the listener of the handshake is registered.
pub const LISTEN_INDEX: usize = 0;

/// Index of the token under which the connecting socket is registered.
pub const CONN1_INDEX: usize = 1;

/// Longest wait of one turn of the handshake, in milliseconds.
pub const BOOTSTRAP_TURN_MS: u64 = 500;

/// Time after which a handshake that is not complete fails, in milliseconds.
pub const BOOTSTRAP_TIMEOUT_MS: u64 = 5000;

/// What the caller must do for one event of the handshake.
#[derive(Copy, Clone, Debug, PartialEq, Eq, Structural)]
pub enum Step {
    /// Accept the connection that waits at the listener; a failure of the
    /// accept fails the handshake.
    Accept,
    /// Nothing.
    Nothing,
}

/// Where the handshake stands at the end of a turn.
#[derive(Copy, Clone, Debug, PartialEq, Eq, Structural)]
pub enum Progress {
    /// Both sides are there: the pair is made.
    Ready,
    /// A side is missing: wait for events again, for at most this many
    /// milliseconds.
    Again(u64),
    /// A side is missing and the time is up: the handshake failed.
    TimedOut,
}

/// The state of a handshake.
#[derive(Copy, Clone, Debug, PartialEq, Eq, Structural)]
pub struct Bootstrap {
    pub accepted: bool,
    pub connected: bool,
    pub deadline_ms: u64,
}

/// The time at which a handshake begun at `now_ms` fails: the time-out later,
/// or the end of the clock where that comes first.
pub open spec fn deadline_from(now_ms: u64) -> u64 {
    if now_ms + BOOTSTRAP_TIMEOUT_MS > u64::MAX {
        u64::MAX
    } else {
        (now_ms + BOOTSTRAP_TIMEOUT_MS) as u64
    }
}

/// The state after an event: an event for the listener calls for an accept,
/// which gives the accepted side; an event for the connecting socket, of
/// any kind, gives the connected side; any other event changes nothing.
pub open spec fn after_event(state: Bootstrap, event: Event) -> Bootstrap {
    if event.token.0 == LISTEN_INDEX {
        Bootstrap { accepted: true, ..state }
    } else if event.token.0 == CONN1_INDEX {
        Bootstrap { connected: true, ..state }
    } else {
        state
    }
}

/// The state after a turn: after each of its events, in order.
pub open spec fn after_turn(state: Bootstrap, events: Seq<Event>) -> Bootstrap
    decreases events.len(),
{
    if events.len() == 0 {
        state
    } else {
        after_event(after_turn(state, events.drop_last()), events.last())
    }
}

/// Where a handshake in this state stands at the time `now_ms`.
pub open spec fn progress_at(state: Bootstrap, now_ms: u64) -> Progress {
    if state.accepted && state.connected {
        Progress::Ready
    } else if now_ms >= state.deadline_ms {
        Progress::TimedOut
    } else if state.deadline_ms - now_ms < BOOTSTRAP_TURN_MS {
        Progress::Again((state.deadline_ms - now_ms) as u64)
    } else {
        Progress::Again(BOOTSTRAP_TURN_MS)
    }
}

impl Bootstrap {
    /// Begins a handshake at the time `now_ms` of a clock that counts
    /// milliseconds and never goes back.
    pub fn new(now_ms: u64) -> (state: Bootstrap)
        ensures
            state == (Bootstrap {
                accepted: false,
                connected: false,
                deadline_ms: deadline_from(now_ms),
            }),
    {
        Bootstrap {
            accepted: false,
            connected: false,
            deadline_ms: now_ms.saturating_add(BOOTSTRAP_TIMEOUT_MS),
        }
    }

    /// The registration of the listener.
    pub fn listener_registration(listener: Socket) -> (reg: Registration)
        ensures
            reg == (Registration {
                sock: listener,
                token: Token(LISTEN_INDEX),
                interest: EventKind(READABLE | ERROR),
            }),
    {
        Registration {
            sock: listener,
            token: Token(LISTEN_INDEX),
            interest: EventKind::readable() | EventKind::error(),
        }
    }

    /// The registration of the connecting socket.
    pub fn connection_registration(conn: Socket) -> (reg: Registration)
        ensures
            reg == (Registration {
                sock: conn,
                token: Token(CONN1_INDEX),
                interest: EventKind(WRITABLE | ERROR),
            }),
    {
        Registration {
            sock: conn,
            token: Token(CONN1_INDEX),
            interest: EventKind::writable() | EventKind::error(),
        }
    }

    /// Takes one event of a turn and says what it asks of the caller.
    pub fn on_event(&mut self, event: Event) -> (step: Step)
        ensures
            *final(self) == after_event(*old(self), event),
            step == if event.token.0 == LISTEN_INDEX {
                Step::Accept
            } else {
                Step::Nothing
            },
    {
        let index = event.token().0;
        if index == LISTEN_INDEX {
            self.accepted = true;
            Step::Accept
        } else if index == CONN1_INDEX {
            self.connected = true;
            Step::Nothing
        } else {
            Step::Nothing
        }
    }

    /// Says where the handshake stands at the end of a turn, at the time
    /// `now_ms` of the clock.
    pub fn progress(&self, now_ms: u64) -> (p: Progress)
        ensures
            p == progress_at(*self, now_ms),
    {
        if self.accepted && self.connected {
            Progress::Ready
        } else if now_ms >= self.deadline_ms {
            Progress::TimedOut
        } else if self.deadline_ms - now_ms < BOOTSTRAP_TURN_MS {
            Progress::Again(self.deadline_ms - now_ms)
        } else {
            Progress::Again(BOOTSTRAP_TURN_MS)
        }
    }
}

/// A handshake never waits past its deadline: from the deadline on it is
/// complete or has failed, whatever events came, and before the deadline no
/// wait that it asks for is longer than a turn or ends after the deadline.
pub proof fn lemma_bootstrap_is_bounded(state: Bootstrap, events: Seq<Event>, now_ms: u64)
    ensures
        after_turn(state, events).deadline_ms == state.deadline_ms,
        now_ms >= state.deadline_ms ==> progress_at(after_turn(state, events), now_ms)
            == Progress::Ready || progress_at(after_turn(state, events), now_ms)
            == Progress::TimedOut,
        forall|wait: u64|
            progress_at(after_turn(state, events), now_ms) == Progress::Again(wait) ==> 0 < wait
                <= BOOTSTRAP_TURN_MS && now_ms + wait <= state.deadline_ms,
    decreases events.len(),
{
    if events.len() > 0 {
        lemma_bootstrap_is_bounded(state, events.drop_last(), now_ms);
    }
}

/// A handshake begun at `start_ms` has ended by the time that lies the
/// time-out after its begin.
pub proof fn lemma_bootstrap_ends_in_time(start_ms: u64, events: Seq<Event>, now_ms: u64)
    requires
        now_ms >= start_ms + BOOTSTRAP_TIMEOUT_MS,
    ensures
        ({
            let state = Bootstrap {
                accepted: false,
                connected: false,
                deadline_ms: deadline_from(start_ms),
            };
            progress_at(after_turn(state, events), now_ms) == Progress::Ready || progress_at(
                after_turn(state, events),
                now_ms,
            ) == Progress::TimedOut
        }),
{
    let state = Bootstrap {
        accepted: false,
        connected: false,
        deadline_ms: deadline_from(start_ms),
    };
    lemma_bootstrap_is_bounded(state, events, now_ms);
}

/// Once both sides are there they stay: more events do not undo a complete
/// handshake.
pub proof fn lemma_bootstrap_stays_ready(state: Bootstrap, events: Seq<Event>)
    requires
        state.accepted && state.connected,
    ensures
        after_turn(state, events).accepted && after_turn(state, events).connected,
    decreases events.len(),
{
    if events.len() > 0 {
        lemma_bootstrap_stays_ready(state, events.drop_last());
    }
}

} // verus!

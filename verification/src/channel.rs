//! The wake-up channel of a reactor: a pair of connected sockets that carries
//! one byte per wake-up, and the flag that lets many wake-ups share a byte.
//! Messages travel in a queue of their own; the channel only tells the
//! reactor to look at it.

use vstd::prelude::*;
use crate::error::Error;
use crate::error::ErrorKind;
use crate::error::error_kind_of;

verus! {

/// The sending side's view of the wake-up channel: whether a wake-up is under
/// way that the reactor has not answered yet.
#[derive(Debug)]
pub struct Channel {
    notified: bool,
}

/// What the reactor does next while it reads the wake-up socket dry.
#[derive(Debug)]
pub enum DrainStep {
    /// Bytes were read: read again.
    Again,
    /// Nothing is left to read.
    Dry,
    /// The read failed for good.
    Failed(Error),
}

impl Channel {
    /// Whether a wake-up is under way.
    pub closed spec fn pending(&self) -> bool {
        self.notified
    }

    /// A channel on which no wake-up is under way.
    pub fn new() -> (channel: Channel)
        ensures
            !channel.pending(),
    {
        Channel { notified: false }
    }

    /// Asks for a wake-up after a message was queued. Returns whether a byte
    /// must be written: it must where no wake-up was under way, and need not
    /// where one was, since the reactor will look at the queue for that one.
    pub fn notify(&mut self) -> (write: bool)
        ensures
            write == !old(self).pending(),
            final(self).pending(),
    {
        let write = !self.notified;
        self.notified = true;
        write
    }

    /// Gives up the wake-up that is under way because its byte could not be
    /// written: the next message asks for a wake-up again.
    pub fn lost(&mut self)
        ensures
            !final(self).pending(),
    {
        self.notified = false;
    }

    /// Answers the wake-up that is under way. The reactor does so after it
    /// has read the socket dry and before it takes messages off the queue, so
    /// that a message queued from now on asks for a wake-up of its own.
    pub fn acknowledge(&mut self)
        ensures
            !final(self).pending(),
    {
        self.notified = false;
    }
}

/// What follows from one read of the wake-up socket: more reading after
/// bytes, the end once the socket would block, failure on any other error.
pub open spec fn drain_step_of(read: Result<usize, Error>) -> DrainStep {
    match read {
        Ok(_) => DrainStep::Again,
        Err(e) => if error_kind_of(e.code() as int) == ErrorKind::WouldBlock {
            DrainStep::Dry
        } else {
            DrainStep::Failed(e)
        },
    }
}

/// Decides what follows from one read of the wake-up socket.
pub fn drain_step(read: Result<usize, Error>) -> (step: DrainStep)
    ensures
        step == drain_step_of(read),
{
    match read {
        Ok(_) => DrainStep::Again,
        Err(e) => {
            if e.kind() == ErrorKind::WouldBlock {
                DrainStep::Dry
            } else {
                DrainStep::Failed(e)
            }
        },
    }
}

/// Where the reactor stands in answering a wake-up.
pub enum Phase {
    /// It waits for readiness.
    Idle,
    /// It has read the wake-up socket dry.
    Dry,
    /// It has answered the wake-up and takes messages off the queue.
    Open,
}

/// The channel and the queue seen together.
pub struct Wire {
    /// Messages sent so far.
    pub sent: nat,
    /// Messages that the reactor has taken off the queue.
    pub taken: nat,
    /// Bytes that wait in the wake-up socket.
    pub bytes: nat,
    /// Whether a wake-up is under way.
    pub pending: bool,
    /// Where the reactor stands.
    pub phase: Phase,
}

/// What can happen to the channel and the queue.
pub enum Move {
    /// A sender queues a message and asks for a wake-up.
    Send,
    /// The reactor, woken by a byte, reads the socket dry.
    ReadDry,
    /// The reactor answers the wake-up.
    Acknowledge,
    /// The reactor takes every queued message and waits again.
    TakeAll,
}

/// The channel and the queue before anything happened.
pub open spec fn wire_start() -> Wire {
    Wire { sent: 0, taken: 0, bytes: 0, pending: false, phase: Phase::Idle }
}

/// Whether the move can happen in this state. The reactor wakes only for a
/// byte, and takes its three steps in order.
pub open spec fn can_move(w: Wire, m: Move) -> bool {
    match m {
        Move::Send => true,
        Move::ReadDry => w.phase == Phase::Idle && w.bytes > 0,
        Move::Acknowledge => w.phase == Phase::Dry,
        Move::TakeAll => w.phase == Phase::Open,
    }
}

/// The state after the move.
pub open spec fn after_move(w: Wire, m: Move) -> Wire {
    match m {
        Move::Send => Wire {
            sent: w.sent + 1,
            bytes: if w.pending {
                w.bytes
            } else {
                w.bytes + 1
            },
            pending: true,
            ..w
        },
        Move::ReadDry => Wire { bytes: 0, phase: Phase::Dry, ..w },
        Move::Acknowledge => Wire { pending: false, phase: Phase::Open, ..w },
        Move::TakeAll => Wire { taken: w.sent, phase: Phase::Idle, ..w },
    }
}

/// Whether a sequence of moves can happen one after the other from `w`.
pub open spec fn can_run(w: Wire, moves: Seq<Move>) -> bool
    decreases moves.len(),
{
    moves.len() == 0 || (can_run(w, moves.drop_last()) && can_move(
        after_run(w, moves.drop_last()),
        moves.last(),
    ))
}

/// The state after a sequence of moves.
pub open spec fn after_run(w: Wire, moves: Seq<Move>) -> Wire
    decreases moves.len(),
{
    if moves.len() == 0 {
        w
    } else {
        after_move(after_run(w, moves.drop_last()), moves.last())
    }
}

/// What holds of the channel and the queue at every time: never more than
/// one byte waits; no message is taken that was not sent; and while the
/// reactor waits, a message in the queue has a byte that will wake it.
pub open spec fn wire_ok(w: Wire) -> bool {
    &&& w.bytes <= 1
    &&& w.taken <= w.sent
    &&& match w.phase {
        Phase::Idle => (w.pending <==> w.bytes == 1) && (w.taken < w.sent ==> w.bytes == 1),
        Phase::Dry => w.pending && w.bytes == 0,
        Phase::Open => w.pending <==> w.bytes == 1,
    }
}

/// Wake-ups are shared and messages are not lost: whatever the senders and
/// the reactor do, in whatever order, at most one byte waits in the socket,
/// and a message that is still queued while the reactor waits has a byte
/// waiting that wakes it.
pub proof fn lemma_wakeups_coalesce_and_messages_arrive(moves: Seq<Move>)
    requires
        can_run(wire_start(), moves),
    ensures
        wire_ok(after_run(wire_start(), moves)),
    decreases moves.len(),
{
    if moves.len() > 0 {
        lemma_wakeups_coalesce_and_messages_arrive(moves.drop_last());
    }
}

/// When the reactor has taken the messages and waits again, it has taken
/// every message that was sent before it answered the wake-up; what was sent
/// since then has asked for a wake-up of its own.
pub proof fn lemma_take_all_empties_queue(w: Wire)
    requires
        wire_ok(w),
        can_move(w, Move::TakeAll),
    ensures
        after_move(w, Move::TakeAll).taken == w.sent,
        wire_ok(after_move(w, Move::TakeAll)),
{
}

} // verus!

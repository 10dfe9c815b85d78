//! The task arena of a reactor: a slab whose keys serve as the tokens of the
//! registrations.

use slab::Slab;
use vstd::prelude::*;
use crate::event::EventKind;
use crate::event::ERROR;
use crate::event::READABLE;
use crate::event::WRITABLE;
use crate::socket::Socket;

verus! {

/// What a slot of the task arena holds.
#[derive(Copy, Clone, Debug, PartialEq, Eq, Structural)]
pub enum Task {
    /// The slot of the wake-up socket: there is one, made with the reactor.
    Message,
    /// A connection that has not answered yet, with its socket.
    Connecting(Socket),
    /// A listener, with its socket; it stays until the reactor is torn down.
    Listening(Socket),
}

/// The interest with which the socket of a task is registered: the wake-up
/// socket is watched for bytes, a connection for the end of its handshake, a
/// listener for peers that wait, and each of them for errors.
pub open spec fn task_interest(task: Task) -> EventKind {
    match task {
        Task::Message => EventKind(READABLE | ERROR),
        Task::Connecting(_) => EventKind(WRITABLE | ERROR),
        Task::Listening(_) => EventKind(READABLE | ERROR),
    }
}

/// Computes the interest with which the socket of a task is registered.
pub fn interest_of(task: Task) -> (interest: EventKind)
    ensures
        interest == task_interest(task),
{
    match task {
        Task::Message => EventKind::readable() | EventKind::error(),
        Task::Connecting(_) => EventKind::writable() | EventKind::error(),
        Task::Listening(_) => EventKind::readable() | EventKind::error(),
    }
}

/// `slab::Slab`, carried as it is: what it holds is known through
/// `slab_tasks` and `slab_vacant_key`.
#[verifier::external_type_specification]
#[verifier::external_body]
#[verifier::reject_recursive_types(T)]
pub struct ExSlab<T>(Slab<T>);

/// The tasks that a slab holds, by key.
pub uninterp spec fn slab_tasks(arena: Slab<Task>) -> Map<usize, Task>;

/// The key under which a slab stores the next value, as `Slab::vacant_key`
/// returns it.
pub uninterp spec fn slab_vacant_key(arena: Slab<Task>) -> usize;

/// `Slab::with_capacity`: a slab that holds no value and stores its first
/// value under the key zero. The capacity asked for is kept small, since the
/// allocation behind it panics where its size in bytes passes `isize::MAX`.
#[verifier::external_body]
pub(crate) fn slab_with_capacity(capacity: usize) -> (arena: Slab<Task>)
    requires
        capacity <= 65536,
    ensures
        slab_tasks(arena) == (Map::<usize, Task>::empty()),
        slab_vacant_key(arena) == 0,
{
    Slab::with_capacity(capacity)
}

/// `Slab::insert`: stores the value under the vacant key, which held none,
/// and returns that key; the other keys keep their values. Like `Vec::push`
/// it can only fail where memory runs out.
#[verifier::external_body]
pub(crate) fn slab_insert(arena: &mut Slab<Task>, task: Task) -> (key: usize)
    ensures
        key == slab_vacant_key(*old(arena)),
        !slab_tasks(*old(arena)).contains_key(key),
        slab_tasks(*final(arena)) == slab_tasks(*old(arena)).insert(key, task),
{
    arena.insert(task)
}

/// `Slab::get`: the value stored under the key, if there is one.
#[verifier::external_body]
pub(crate) fn slab_get(arena: &Slab<Task>, key: usize) -> (task: Option<Task>)
    ensures
        task == if slab_tasks(*arena).contains_key(key) {
            Some(slab_tasks(*arena)[key])
        } else {
            None
        },
{
    arena.get(key).copied()
}

/// `Slab::remove`: takes the value stored under the key out and returns it;
/// the other keys keep their values, and the key is the next to be used.
/// The key must hold a value.
#[verifier::external_body]
pub(crate) fn slab_remove(arena: &mut Slab<Task>, key: usize) -> (task: Task)
    requires
        slab_tasks(*old(arena)).contains_key(key),
    ensures
        task == slab_tasks(*old(arena))[key],
        slab_tasks(*final(arena)) == slab_tasks(*old(arena)).remove(key),
        slab_vacant_key(*final(arena)) == key,
{
    arena.remove(key)
}

/// `Slab::len`: the number of stored values.
#[verifier::external_body]
pub(crate) fn slab_len(arena: &Slab<Task>) -> (len: usize)
    ensures
        len == slab_tasks(*arena).dom().len(),
{
    arena.len()
}

} // verus!

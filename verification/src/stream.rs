//! The reactor engine: the multiplexer's registry and the task arena held
//! together, the rules by which messages become tasks and readiness events
//! become actions, and the end of the loop.

use slab::Slab;
use vstd::prelude::*;
use crate::arena::interest_of;
use crate::arena::slab_get;
use crate::arena::slab_insert;
use crate::arena::slab_len;
use crate::arena::slab_remove;
use crate::arena::slab_tasks;
use crate::arena::slab_vacant_key;
use crate::arena::slab_with_capacity;
use crate::arena::task_interest;
use crate::arena::Task;
use crate::error::Error;
use crate::event::Event;
use crate::event::EventKind;
use crate::event::Events;
use crate::event::Token;
use crate::ffi::SRTSOCKET;
use crate::poll::lemma_events_come_from_registered_sockets;
use crate::poll::reports;
use crate::poll::Poll;
use crate::poll::Wait;
use crate::socket::Socket;

verus! {

/// Payload size of the sockets that carry wake-up bytes.
pub const MSG_PLSIZE: usize = 32;

/// Room that the reactor makes for tasks before its loop starts.
pub const TASK_CAPACITY: usize = 1000;

/// Room that the reactor makes for events before its loop starts.
pub const EVENT_CAPACITY: usize = 1000;

/// Number of accepted streams that the channel of a listener buffers.
pub const INCOMING_CAPACITY: usize = 1000;

/// Longest wait of one turn of the reactor loop, in milliseconds.
pub const TURN_TIMEOUT_MS: u64 = 1000;

/// What the reactor is asked on behalf of a caller.
#[derive(Copy, Clone, Debug, PartialEq, Eq, Structural)]
pub enum Message {
    /// Watch this socket, on which a connection was started, and hand its
    /// stream to the caller once the transport answers.
    Connecting(Socket),
    /// Serve this listener and feed the caller's stream of accepted
    /// connections.
    Listening(Socket),
    /// The last handle to the reactor is gone.
    Done,
}

/// A registration that the loop must make with the native multiplexer.
#[derive(Copy, Clone, Debug, PartialEq, Eq, Structural)]
pub struct Registration {
    pub sock: Socket,
    pub token: Token,
    pub interest: EventKind,
}

/// What the loop must do for one readiness event.
#[derive(Copy, Clone, Debug, PartialEq, Eq, Structural)]
pub enum Action {
    /// Nothing: the event is for no task, or asks nothing of its task.
    Ignore,
    /// Read the wake-up socket dry, then hand every queued message to
    /// [`Reactor::enqueue`].
    Drain,
    /// Deregister the wake-up socket, which is this one, from the native
    /// multiplexer: it is broken. From now on the loop looks at the queue at
    /// the end of every turn.
    Unplug(Socket),
    /// Deregister this socket from the native multiplexer and deliver its
    /// stream to the caller; the task that had this token is gone from the
    /// arena.
    Complete(Token, Socket),
    /// Accept connections from this listener, the one of the task with this
    /// token, until none is waiting.
    Accept(Token, Socket),
}

/// The task that a message becomes, if it becomes one.
pub open spec fn task_of(msg: Message) -> Option<Task> {
    match msg {
        Message::Connecting(sock) => Some(Task::Connecting(sock)),
        Message::Listening(sock) => Some(Task::Listening(sock)),
        Message::Done => None,
    }
}

/// The socket of a task, where `pipe` is the wake-up socket.
pub open spec fn socket_of(task: Task, pipe: Socket) -> Socket {
    match task {
        Task::Message => pipe,
        Task::Connecting(sock) => sock,
        Task::Listening(sock) => sock,
    }
}

/// What the loop must do for an event of the given kinds that is for the
/// given task: the wake-up slot is drained when it is readable and unplugged
/// when it only reports an error; a connection is complete on any event; a
/// listener is served when it is readable.
pub open spec fn action_for(task: Task, pipe: Socket, token: Token, kind: EventKind) -> Action {
    match task {
        Task::Message => if kind.has_readable() {
            Action::Drain
        } else if kind.has_error() {
            Action::Unplug(pipe)
        } else {
            Action::Ignore
        },
        Task::Connecting(sock) => Action::Complete(token, sock),
        Task::Listening(sock) => if kind.has_readable() {
            Action::Accept(token, sock)
        } else {
            Action::Ignore
        },
    }
}

/// The arena after an event for the task under `key`: a connection leaves,
/// every other task stays.
pub open spec fn tasks_after(tasks: Map<usize, Task>, key: usize) -> Map<usize, Task> {
    if tasks.contains_key(key) && tasks[key] is Connecting {
        tasks.remove(key)
    } else {
        tasks
    }
}

/// The arena after events for the tasks under `keys`, one after the other.
pub open spec fn tasks_after_all(tasks: Map<usize, Task>, keys: Seq<usize>) -> Map<usize, Task>
    decreases keys.len(),
{
    if keys.len() == 0 {
        tasks
    } else {
        tasks_after(tasks_after_all(tasks, keys.drop_last()), keys.last())
    }
}

/// Events only take connections out of the arena: what is left after events
/// for the tasks under `keys` is what was there before, less the connections
/// whose keys are among `keys`.
pub proof fn lemma_tasks_after_all(tasks: Map<usize, Task>, keys: Seq<usize>)
    ensures
        forall|k: usize| #[trigger]
            tasks_after_all(tasks, keys).contains_key(k) <==> tasks.contains_key(k) && !(
            tasks[k] is Connecting && keys.contains(k)),
        forall|k: usize| #[trigger]
            tasks_after_all(tasks, keys).contains_key(k) ==> tasks_after_all(tasks, keys)[k]
                == tasks[k],
    decreases keys.len(),
{
    if keys.len() > 0 {
        let front = keys.drop_last();
        let key = keys.last();
        let before = tasks_after_all(tasks, front);
        let after = tasks_after_all(tasks, keys);
        lemma_tasks_after_all(tasks, front);
        assert(after == tasks_after(before, key));
        assert forall|k: usize| keys.contains(k) <==> front.contains(k) || k == key by {
            if keys.contains(k) {
                let i = choose|i: int| 0 <= i < keys.len() && keys[i] == k;
                if i < keys.len() - 1 {
                    assert(front[i] == k);
                }
            }
            if front.contains(k) {
                let i = choose|i: int| 0 <= i < front.len() && front[i] == k;
                assert(keys[i] == k);
            }
            if k == key {
                assert(keys[keys.len() - 1] == k);
            }
        }
        assert forall|k: usize| #[trigger]
            after.contains_key(k) <==> tasks.contains_key(k) && !(tasks[k] is Connecting
                && keys.contains(k)) by {
            assert(before.contains_key(k) ==> before[k] == tasks[k]);
        }
        assert forall|k: usize| #[trigger] after.contains_key(k) implies after[k] == tasks[k] by {
            assert(before.contains_key(k));
        }
    } else {
        assert forall|k: usize| !keys.contains(k) by {}
    }
}

/// The loop ends once every outstanding task is complete: where all tasks
/// but the wake-up slot are connections, and an event has come for each of
/// them, no task but the wake-up slot is left, so that a draining reactor is
/// finished.
pub proof fn lemma_loop_ends_when_connections_complete(
    tasks: Map<usize, Task>,
    message_index: usize,
    keys: Seq<usize>,
)
    requires
        forall|k: usize| #[trigger]
            tasks.contains_key(k) && k != message_index ==> tasks[k] is Connecting
                && keys.contains(k),
    ensures
        tasks_after_all(tasks, keys).remove(message_index) == Map::<usize, Task>::empty(),
        tasks_after_all(tasks, keys).remove(message_index).len() == 0,
{
    lemma_tasks_after_all(tasks, keys);
    assert(tasks_after_all(tasks, keys).remove(message_index) =~= Map::<usize, Task>::empty());
}

/// The registry after an event of the given kinds for the task under `key`:
/// the socket of a connection is forgotten, and so is the wake-up socket
/// once it only reports an error.
pub open spec fn registry_after(
    registry: Map<SRTSOCKET, Token>,
    tasks: Map<usize, Task>,
    pipe: Socket,
    key: usize,
    kind: EventKind,
) -> Map<SRTSOCKET, Token> {
    if !tasks.contains_key(key) {
        registry
    } else {
        match tasks[key] {
            Task::Message => if !kind.has_readable() && kind.has_error() {
                registry.remove(pipe@)
            } else {
                registry
            },
            Task::Connecting(sock) => registry.remove(sock@),
            Task::Listening(_) => registry,
        }
    }
}

/// Whether registry and arena agree: the token of every registered socket is
/// the key of a task, and that task is the one of this socket.
pub open spec fn agree(
    registry: Map<SRTSOCKET, Token>,
    tasks: Map<usize, Task>,
    pipe: Socket,
) -> bool {
    forall|sock: SRTSOCKET| #[trigger]
        registry.contains_key(sock) ==> tasks.contains_key(registry[sock].0) && socket_of(
            tasks[registry[sock].0],
            pipe,
        )@ == sock
}

/// Registry and arena still agree after a task was stored under a key that
/// was free and its socket was registered with that key as its token.
pub proof fn lemma_agree_after_enqueue(
    registry: Map<SRTSOCKET, Token>,
    tasks: Map<usize, Task>,
    pipe: Socket,
    key: usize,
    task: Task,
)
    requires
        agree(registry, tasks, pipe),
        !tasks.contains_key(key),
    ensures
        agree(
            registry.insert(socket_of(task, pipe)@, Token(key)),
            tasks.insert(key, task),
            pipe,
        ),
{
    let sock = socket_of(task, pipe)@;
    let registry2 = registry.insert(sock, Token(key));
    let tasks2 = tasks.insert(key, task);
    assert forall|s: SRTSOCKET| #[trigger] registry2.contains_key(s) implies tasks2.contains_key(
        registry2[s].0,
    ) && socket_of(tasks2[registry2[s].0], pipe)@ == s by {
        if s != sock {
            assert(registry.contains_key(s));
        }
    }
}

/// Registry and arena still agree after a socket was forgotten.
pub proof fn lemma_agree_after_forget(
    registry: Map<SRTSOCKET, Token>,
    tasks: Map<usize, Task>,
    pipe: Socket,
    sock: SRTSOCKET,
)
    requires
        agree(registry, tasks, pipe),
    ensures
        agree(registry.remove(sock), tasks, pipe),
{
    let registry2 = registry.remove(sock);
    assert forall|s: SRTSOCKET| #[trigger] registry2.contains_key(s) implies tasks.contains_key(
        registry2[s].0,
    ) && socket_of(tasks[registry2[s].0], pipe)@ == s by {
        assert(registry.contains_key(s));
    }
}

/// Registry and arena still agree after a task left the arena and its socket
/// was forgotten: no other socket had the key of that task as its token.
pub proof fn lemma_agree_after_complete(
    registry: Map<SRTSOCKET, Token>,
    tasks: Map<usize, Task>,
    pipe: Socket,
    key: usize,
)
    requires
        agree(registry, tasks, pipe),
        tasks.contains_key(key),
    ensures
        agree(registry.remove(socket_of(tasks[key], pipe)@), tasks.remove(key), pipe),
{
    let registry2 = registry.remove(socket_of(tasks[key], pipe)@);
    let tasks2 = tasks.remove(key);
    assert forall|s: SRTSOCKET| #[trigger] registry2.contains_key(s) implies tasks2.contains_key(
        registry2[s].0,
    ) && socket_of(tasks2[registry2[s].0], pipe)@ == s by {
        assert(registry.contains_key(s));
    }
}

/// The state of a reactor loop: the registry of its multiplexer, the task
/// arena, the wake-up socket and the draining flag.
pub struct Reactor {
    poll: Poll,
    tasks: Slab<Task>,
    pipe: Socket,
    msg_index: usize,
    rx_done: bool,
    unplugged: bool,
}

impl Reactor {
    /// The registry: the token of each registered socket.
    pub closed spec fn registry(&self) -> Map<SRTSOCKET, Token> {
        self.poll@
    }

    /// The native handle of the multiplexer.
    pub closed spec fn id(&self) -> i32 {
        self.poll.id()
    }

    /// The task arena: the tasks by their keys.
    pub closed spec fn tasks(&self) -> Map<usize, Task> {
        slab_tasks(self.tasks)
    }

    /// The key under which the arena stores the next task.
    pub closed spec fn next_key(&self) -> usize {
        slab_vacant_key(self.tasks)
    }

    /// The wake-up socket.
    pub closed spec fn pipe(&self) -> Socket {
        self.pipe
    }

    /// The key of the wake-up slot.
    pub closed spec fn message_index(&self) -> usize {
        self.msg_index
    }

    /// Whether the last handle is gone and the loop only finishes what is
    /// under way.
    pub closed spec fn draining(&self) -> bool {
        self.rx_done
    }

    /// Whether the wake-up socket broke and was deregistered, so that no
    /// wake-up can come any more.
    pub closed spec fn unplugged(&self) -> bool {
        self.unplugged
    }

    /// The tasks that stand between the loop and its end: all but the
    /// wake-up slot.
    pub open spec fn outstanding(&self) -> Map<usize, Task> {
        self.tasks().remove(self.message_index())
    }

    /// What holds of every reactor: the arena is finite; its one wake-up
    /// slot is the one at the wake-up key; and tokens are arena keys, that
    /// is, registry and arena agree.
    pub open spec fn sound(&self) -> bool {
        &&& self.tasks().dom().finite()
        &&& self.tasks().contains_key(self.message_index())
        &&& forall|k: usize| #[trigger]
            self.tasks().contains_key(k) ==> (self.tasks()[k] == Task::Message <==> k
                == self.message_index())
        &&& agree(self.registry(), self.tasks(), self.pipe())
    }

    /// Makes the state with which a loop starts. `ret` is what the native
    /// call that creates the multiplexer returned, `last` the error recorded
    /// for it, and `pipe` the receiving end of the wake-up channel. Where the
    /// call failed its error is handed on. Else the arena holds the wake-up
    /// slot under the key zero and nothing else, the wake-up socket is
    /// registered under that key, and the registration says what the loop
    /// must ask of the native multiplexer.
    pub fn new(ret: i32, last: Error, pipe: Socket) -> (made: Result<
        (Reactor, Registration),
        Error,
    >)
        ensures
            ret == -1 ==> made == (Err::<(Reactor, Registration), Error>(last)),
            ret != -1 ==> (made matches Ok((reactor, reg)) && {
                &&& reactor.sound()
                &&& reactor.id() == ret
                &&& reactor.pipe() == pipe
                &&& reactor.message_index() == 0
                &&& !reactor.draining()
                &&& !reactor.unplugged()
                &&& reactor.tasks() == (Map::<usize, Task>::empty()).insert(0, Task::Message)
                &&& reactor.registry() == (Map::<SRTSOCKET, Token>::empty()).insert(pipe@, Token(0))
                &&& reg == (Registration {
                    sock: pipe,
                    token: Token(0),
                    interest: task_interest(Task::Message),
                })
            }),
    {
        match Poll::new(ret, last) {
            Err(e) => Err(e),
            Ok(mut poll) => {
                let mut tasks = slab_with_capacity(TASK_CAPACITY);
                let msg_index = slab_insert(&mut tasks, Task::Message);
                poll.record(&pipe, Token(msg_index));
                let reg = Registration {
                    sock: pipe,
                    token: Token(msg_index),
                    interest: interest_of(Task::Message),
                };
                let reactor = Reactor {
                    poll,
                    tasks,
                    pipe,
                    msg_index,
                    rx_done: false,
                    unplugged: false,
                };
                Ok((reactor, reg))
            },
        }
    }

    /// The native handle of the multiplexer.
    pub fn epid(&self) -> (epid: i32)
        ensures
            epid == self.id(),
    {
        self.poll.epid()
    }

    /// The number of registered sockets.
    pub fn registered(&self) -> (n: usize)
        ensures
            n == self.registry().len(),
    {
        self.poll.len()
    }

    /// The token under which the wake-up socket was registered.
    pub fn message_token(&self) -> (token: Token)
        ensures
            token == Token(self.message_index()),
    {
        Token(self.msg_index)
    }

    /// Whether the last handle is gone.
    pub fn is_draining(&self) -> (b: bool)
        ensures
            b == self.draining(),
    {
        self.rx_done
    }

    /// Whether a request for a connection or a listener would become a task:
    /// it would unless the reactor is draining.
    pub fn admits(&self) -> (b: bool)
        ensures
            b == !self.draining(),
    {
        !self.rx_done
    }

    /// The task stored under `token`, if there is one.
    pub fn task(&self, token: Token) -> (task: Option<Task>)
        ensures
            task == if self.tasks().contains_key(token.0) {
                Some(self.tasks()[token.0])
            } else {
                None
            },
    {
        slab_get(&self.tasks, token.0)
    }

    /// The token under which `sock` is registered, if it is.
    pub fn token(&self, sock: &Socket) -> (token: Option<Token>)
        ensures
            token == if self.registry().contains_key(sock@) {
                Some(self.registry()[sock@])
            } else {
                None
            },
    {
        self.poll.token(sock)
    }

    /// The number of tasks in the arena, the wake-up slot among them.
    pub fn len(&self) -> (n: usize)
        ensures
            n == self.tasks().len(),
    {
        slab_len(&self.tasks)
    }

    /// Takes one message off the queue. `Done` starts the draining. A
    /// request for a connection or a listener becomes a task, stored under
    /// the next key of the arena, and its socket is registered with that key
    /// as its token; the registration says what the loop must ask of the
    /// native multiplexer. Once the reactor is draining such a request is
    /// turned down and nothing changes.
    pub fn enqueue(&mut self, msg: Message) -> (reg: Option<Registration>)
        ensures
            old(self).sound() ==> final(self).sound(),
            final(self).id() == old(self).id(),
            final(self).pipe() == old(self).pipe(),
            final(self).message_index() == old(self).message_index(),
            final(self).unplugged() == old(self).unplugged(),
            final(self).draining() == (old(self).draining() || msg == Message::Done),
            match task_of(msg) {
                Some(task) if !old(self).draining() => {
                    let key = old(self).next_key();
                    &&& reg == Some(
                        Registration {
                            sock: socket_of(task, old(self).pipe()),
                            token: Token(key),
                            interest: task_interest(task),
                        },
                    )
                    &&& !old(self).tasks().contains_key(key)
                    &&& final(self).tasks() == old(self).tasks().insert(key, task)
                    &&& final(self).registry() == old(self).registry().insert(
                        socket_of(task, old(self).pipe())@,
                        Token(key),
                    )
                },
                _ => {
                    &&& reg.is_none()
                    &&& final(self).tasks() == old(self).tasks()
                    &&& final(self).registry() == old(self).registry()
                    &&& final(self).next_key() == old(self).next_key()
                },
            },
    {
        let task = match msg {
            Message::Done => {
                self.rx_done = true;
                return None;
            },
            Message::Connecting(sock) => Task::Connecting(sock),
            Message::Listening(sock) => Task::Listening(sock),
        };
        if self.rx_done {
            return None;
        }
        let sock = match task {
            Task::Connecting(sock) => sock,
            Task::Listening(sock) => sock,
            Task::Message => self.pipe,
        };
        let ghost registry = self.poll@;
        let ghost tasks = slab_tasks(self.tasks);
        let index = slab_insert(&mut self.tasks, task);
        self.poll.record(&sock, Token(index));
        proof {
            if agree(registry, tasks, self.pipe) {
                lemma_agree_after_enqueue(registry, tasks, self.pipe, index, task);
            }
        }
        Some(Registration { sock, token: Token(index), interest: interest_of(task) })
    }

    /// Decides what one readiness event asks of the loop. An event whose
    /// token is the key of no task asks nothing. A connection is complete on
    /// any event: its task leaves the arena, its key is the next to be used,
    /// and its socket is forgotten by the registry. The wake-up socket is
    /// forgotten when it is unplugged. Every other task stays.
    pub fn dispatch(&mut self, event: Event) -> (action: Action)
        ensures
            old(self).sound() ==> final(self).sound(),
            final(self).id() == old(self).id(),
            final(self).pipe() == old(self).pipe(),
            final(self).message_index() == old(self).message_index(),
            final(self).draining() == old(self).draining(),
            final(self).unplugged() == (old(self).unplugged() || action is Unplug),
            action == if old(self).tasks().contains_key(event.token.0) {
                action_for(
                    old(self).tasks()[event.token.0],
                    old(self).pipe(),
                    event.token,
                    event.kind,
                )
            } else {
                Action::Ignore
            },
            final(self).tasks() == tasks_after(old(self).tasks(), event.token.0),
            final(self).registry() == registry_after(
                old(self).registry(),
                old(self).tasks(),
                old(self).pipe(),
                event.token.0,
                event.kind,
            ),
            final(self).next_key() == if action is Complete {
                event.token.0
            } else {
                old(self).next_key()
            },
    {
        let index = event.token().0;
        let kind = event.kind();
        let ghost registry = self.poll@;
        let ghost tasks = slab_tasks(self.tasks);
        match slab_get(&self.tasks, index) {
            None => Action::Ignore,
            Some(Task::Message) => {
                if kind.is_readable() {
                    Action::Drain
                } else if kind.is_error() {
                    self.unplugged = true;
                    self.poll.forget(&self.pipe);
                    proof {
                        if agree(registry, tasks, self.pipe) {
                            lemma_agree_after_forget(registry, tasks, self.pipe, self.pipe@);
                        }
                    }
                    Action::Unplug(self.pipe)
                } else {
                    Action::Ignore
                }
            },
            Some(Task::Connecting(sock)) => {
                let _ = slab_remove(&mut self.tasks, index);
                self.poll.forget(&sock);
                proof {
                    if agree(registry, tasks, self.pipe) {
                        lemma_agree_after_complete(registry, tasks, self.pipe, index);
                    }
                }
                Action::Complete(Token(index), sock)
            },
            Some(Task::Listening(sock)) => {
                if kind.is_readable() {
                    Action::Accept(Token(index), sock)
                } else {
                    Action::Ignore
                }
            },
        }
    }

    /// Takes what one native wait call returned and appends the events that
    /// it gives to `events`, as the registry alone does.
    pub fn poll(&self, events: &mut Events, wait: Wait) -> (r: Result<usize, Error>)
        ensures
            wait.failed() ==> r == (Err::<usize, Error>(wait.error)) && final(events)@ == old(
                events,
            )@,
            !wait.failed() ==> r == (Ok::<usize, Error>(self.events_for(wait).len() as usize))
                && final(events)@ == old(events)@ + self.events_for(wait),
    {
        self.poll.poll(events, wait)
    }

    /// The events that `wait` gives under the registry of this reactor.
    pub closed spec fn events_for(&self, wait: Wait) -> Seq<Event> {
        self.poll.events_for(wait)
    }

    /// The events of a wait are those that the registry gives for its lists.
    pub proof fn lemma_events_for(&self, wait: Wait)
        ensures
            self.events_for(wait) == crate::poll::events_from(
                self.registry(),
                wait.readable_list(),
                wait.writable_list(),
            ),
    {
    }

    /// Tokens are arena keys: in a sound reactor every event of a wait is
    /// for a task, and the socket of that task is the one that was found
    /// ready.
    pub proof fn lemma_events_reach_tasks(&self, wait: Wait)
        ensures
            self.sound() ==> forall|k: int|
                0 <= k < self.events_for(wait).len() ==> {
                    let token = (#[trigger] self.events_for(wait)[k]).token;
                    let sock = reports(
                        self.registry().dom(),
                        wait.readable_list(),
                        wait.writable_list(),
                    )[k].sock;
                    &&& self.tasks().contains_key(token.0)
                    &&& socket_of(self.tasks()[token.0], self.pipe())@ == sock
                },
    {
        lemma_events_come_from_registered_sockets(
            self.registry(),
            wait.readable_list(),
            wait.writable_list(),
        );
    }

    /// Whether the loop must look at the queue at the end of a turn that no
    /// wake-up began: it must once the wake-up socket is unplugged, when the
    /// time-out of the wait is all that lets it notice a message.
    pub fn must_collect(&self) -> (b: bool)
        ensures
            b == self.unplugged(),
    {
        self.unplugged
    }

    /// Whether the loop is over: the last handle is gone and no task but the
    /// wake-up slot is left.
    pub fn finished(&self) -> (b: bool)
        ensures
            self.sound() ==> b == (self.draining() && self.outstanding().len() == 0),
    {
        proof {
            assert(self.outstanding().dom() =~= self.tasks().dom().remove(self.msg_index));
        }
        self.rx_done && slab_len(&self.tasks) == 1
    }
}

/// What the loop does next while it accepts from a listener.
#[derive(Debug, PartialEq, Eq, Structural)]
pub enum AcceptStep {
    /// Offer the accepted stream to the consumer without waiting for room,
    /// and accept again whether the offer was taken or not: a stream that is
    /// not taken is dropped.
    Offer(Socket),
    /// End the pass: no peer is waiting, or the accept failed. The listener
    /// stays.
    Stop,
}

/// Decides what follows from one accept on a listener.
pub fn accept_step(accepted: Result<Socket, Error>) -> (step: AcceptStep)
    ensures
        step == match accepted {
            Ok(sock) => AcceptStep::Offer(sock),
            Err(_) => AcceptStep::Stop,
        },
{
    match accepted {
        Ok(sock) => AcceptStep::Offer(sock),
        Err(_) => AcceptStep::Stop,
    }
}

/// Error code of a request that the reactor gave up.
pub const CANCELED_CODE: i32 = -1;

/// What a caller finds when it looks for the stream of its connection.
pub enum Handoff<T> {
    /// The reactor still holds the request.
    Waiting,
    /// The reactor handed the stream over.
    Delivered(T),
    /// The reactor dropped the request without an answer.
    Dropped,
}

/// Resolves a connection request: not yet while the reactor holds it, with
/// the stream once that is handed over, and with the error `canceled` where
/// the reactor dropped the request.
pub fn resolve<T>(handoff: Handoff<T>) -> (r: Option<Result<T, Error>>)
    ensures
        match handoff {
            Handoff::Waiting => r.is_none(),
            Handoff::Delivered(t) => r == Some(Ok::<T, Error>(t)),
            Handoff::Dropped => r matches Some(Err(e)) && e.code() == CANCELED_CODE && e.text()
                == "canceled"@,
        },
{
    match handoff {
        Handoff::Waiting => None,
        Handoff::Delivered(t) => Some(Ok(t)),
        Handoff::Dropped => Some(Err(Error::new(CANCELED_CODE, String::from_str("canceled")))),
    }
}

} // verus!

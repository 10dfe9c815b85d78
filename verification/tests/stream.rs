use futures::channel::mpsc;
use libsrt_rs::arena::{interest_of, Task};
use libsrt_rs::error::{Error, ErrorKind};
use libsrt_rs::event::{Event, EventKind, Events, Token};
use libsrt_rs::ffi::SRT_SOCKSTATUS;
use libsrt_rs::poll::{Ready, Wait};
use libsrt_rs::socket::Socket;
use libsrt_rs::stream::{
    accept_step, resolve, AcceptStep, Action, Handoff, Message, Reactor, Registration,
    CANCELED_CODE, EVENT_CAPACITY, INCOMING_CAPACITY, MSG_PLSIZE, TASK_CAPACITY, TURN_TIMEOUT_MS,
};

const PIPE: Socket = Socket(900);

fn unset() -> Error {
    Error::new(0, String::from("Success"))
}

fn start() -> (Reactor, Registration) {
    Reactor::new(5, unset(), PIPE).unwrap()
}

fn event(token: Token, kind: EventKind) -> Event {
    Event::new(token, kind)
}

fn found_ready(readable: Vec<i32>, writable: Vec<i32>) -> Wait {
    let list = |socks: Vec<i32>| {
        socks
            .into_iter()
            .map(|sock| Ready { sock, status: SRT_SOCKSTATUS::SRTS_CONNECTED })
            .collect::<Vec<Ready>>()
    };
    Wait { ret: 1, readable: list(readable), writable: list(writable), error: unset() }
}

#[test]
fn reactor_constants() {
    assert_eq!(MSG_PLSIZE, 32);
    assert_eq!(TASK_CAPACITY, 1000);
    assert_eq!(EVENT_CAPACITY, 1000);
    assert_eq!(INCOMING_CAPACITY, 1000);
    assert_eq!(TURN_TIMEOUT_MS, 1000);
}

#[test]
fn task_interests() {
    assert_eq!(interest_of(Task::Message), EventKind::readable() | EventKind::error());
    assert_eq!(
        interest_of(Task::Connecting(Socket(1))),
        EventKind::writable() | EventKind::error()
    );
    assert_eq!(
        interest_of(Task::Listening(Socket(1))),
        EventKind::readable() | EventKind::error()
    );
}

#[test]
fn reactor_fails_with_the_multiplexer() {
    let made = Reactor::new(-1, Error::new(3002, String::from("out of memory")), PIPE);
    let e = made.err().unwrap();
    assert_eq!(e.errcode(), 3002);
    assert_eq!(e.message(), "out of memory");
}

#[test]
fn reactor_starts_with_the_wake_up_slot() {
    let (reactor, reg) = start();
    assert_eq!(reactor.epid(), 5);
    assert_eq!(reactor.len(), 1);
    assert_eq!(reactor.registered(), 1);
    assert_eq!(reg.sock, PIPE);
    assert_eq!(reg.token, Token(0));
    assert_eq!(reg.token, reactor.message_token());
    assert_eq!(reg.interest, EventKind::readable() | EventKind::error());
    assert_eq!(reactor.task(reg.token), Some(Task::Message));
    assert_eq!(reactor.token(&PIPE), Some(Token(0)));
    assert_eq!(reactor.task(Token(1)), None);
    assert!(!reactor.is_draining());
    assert!(reactor.admits());
    assert!(!reactor.must_collect());
    assert!(!reactor.finished());
}

#[test]
fn connecting_message_becomes_a_task() {
    let (mut reactor, wake) = start();
    let reg = reactor.enqueue(Message::Connecting(Socket(60))).unwrap();
    assert_ne!(reg.token, wake.token);
    assert_eq!(reg.token, Token(1));
    assert_eq!(reg.sock, Socket(60));
    assert_eq!(reg.interest, EventKind::writable() | EventKind::error());
    assert_eq!(reg.interest.as_int(), 12);
    assert_eq!(reactor.task(reg.token), Some(Task::Connecting(Socket(60))));
    assert_eq!(reactor.token(&Socket(60)), Some(reg.token));
    assert_eq!(reactor.task(wake.token), Some(Task::Message));
    assert_eq!(reactor.len(), 2);
    assert_eq!(reactor.registered(), 2);
}

#[test]
fn listening_message_becomes_a_task() {
    let (mut reactor, wake) = start();
    let reg = reactor.enqueue(Message::Listening(Socket(70))).unwrap();
    assert_ne!(reg.token, wake.token);
    assert_eq!(reg.sock, Socket(70));
    assert_eq!(reg.interest, EventKind::readable() | EventKind::error());
    assert_eq!(reg.interest.as_int(), 9);
    assert_eq!(reactor.task(reg.token), Some(Task::Listening(Socket(70))));
    assert_eq!(reactor.token(&Socket(70)), Some(reg.token));
    assert_eq!(reactor.len(), 2);
}

#[test]
fn tokens_are_arena_keys() {
    let (mut reactor, wake) = start();
    let mut seen = vec![wake.token];
    for i in 0..50 {
        let sock = Socket(100 + i);
        let msg = if i % 2 == 0 { Message::Connecting(sock) } else { Message::Listening(sock) };
        let reg = reactor.enqueue(msg).unwrap();
        assert!(!seen.contains(&reg.token));
        assert_eq!(reactor.token(&sock), Some(reg.token));
        assert!(reactor.task(reg.token).is_some());
        seen.push(reg.token);
    }
    assert_eq!(reactor.len(), 51);
    assert_eq!(reactor.registered(), 51);
}

#[test]
fn events_of_a_wait_reach_their_tasks() {
    let (mut reactor, _wake) = start();
    let conn = reactor.enqueue(Message::Connecting(Socket(60))).unwrap();
    let listener = reactor.enqueue(Message::Listening(Socket(70))).unwrap();

    let mut events = Events::with_capacity(4);
    let n = reactor.poll(&mut events, found_ready(vec![70, 900], vec![60, 33])).unwrap();
    assert_eq!(n, 3);
    assert_eq!(events.get(0), Some(event(listener.token, EventKind::readable())));
    assert_eq!(events.get(1), Some(event(Token(0), EventKind::readable())));
    assert_eq!(events.get(2), Some(event(conn.token, EventKind::writable())));

    assert_eq!(
        reactor.dispatch(events.get(0).unwrap()),
        Action::Accept(listener.token, Socket(70))
    );
    assert_eq!(reactor.dispatch(events.get(1).unwrap()), Action::Drain);
    assert_eq!(
        reactor.dispatch(events.get(2).unwrap()),
        Action::Complete(conn.token, Socket(60))
    );
}

#[test]
fn completed_connection_is_not_reported_again() {
    let (mut reactor, _wake) = start();
    let conn = reactor.enqueue(Message::Connecting(Socket(60))).unwrap();
    reactor.dispatch(event(conn.token, EventKind::writable()));
    assert_eq!(reactor.token(&Socket(60)), None);
    assert_eq!(reactor.registered(), 1);

    let mut events = Events::with_capacity(4);
    let n = reactor.poll(&mut events, found_ready(vec![60], vec![60])).unwrap();
    assert_eq!(n, 0);
    assert!(events.is_empty());
}

#[test]
fn reactor_poll_hands_failures_on() {
    let (reactor, _wake) = start();
    let mut events = Events::with_capacity(4);
    let failed = Wait {
        ret: -1,
        readable: vec![],
        writable: vec![],
        error: Error::new(5013, String::from("Invalid epoll ID")),
    };
    assert_eq!(reactor.poll(&mut events, failed).unwrap_err().errcode(), 5013);
    let elapsed = Wait {
        ret: -1,
        readable: vec![],
        writable: vec![],
        error: Error::new(6003, String::from("Operation timeout")),
    };
    assert_eq!(reactor.poll(&mut events, elapsed).unwrap(), 0);
}

#[test]
fn wake_up_slot_drains_on_readable() {
    let (mut reactor, wake) = start();
    assert_eq!(reactor.dispatch(event(wake.token, EventKind::readable())), Action::Drain);
    assert_eq!(
        reactor.dispatch(event(wake.token, EventKind::readable() | EventKind::writable())),
        Action::Drain
    );
    assert_eq!(reactor.dispatch(event(wake.token, EventKind::all())), Action::Drain);
    assert_eq!(reactor.task(wake.token), Some(Task::Message));
    assert_eq!(reactor.token(&PIPE), Some(wake.token));
    assert!(!reactor.must_collect());
}

#[test]
fn wake_up_slot_unplugs_on_error() {
    let (mut reactor, wake) = start();
    assert_eq!(reactor.dispatch(event(wake.token, EventKind::writable())), Action::Ignore);
    assert_eq!(reactor.dispatch(event(wake.token, EventKind::empty())), Action::Ignore);
    assert!(!reactor.must_collect());
    assert_eq!(reactor.dispatch(event(wake.token, EventKind::error())), Action::Unplug(PIPE));
    assert!(reactor.must_collect());
    assert_eq!(reactor.task(wake.token), Some(Task::Message));
    assert_eq!(reactor.token(&PIPE), None);
    assert_eq!(reactor.len(), 1);
    assert_eq!(reactor.registered(), 0);
}

#[test]
fn unplugged_reactor_still_takes_messages() {
    let (mut reactor, wake) = start();
    reactor.dispatch(event(wake.token, EventKind::error()));
    let reg = reactor.enqueue(Message::Connecting(Socket(60))).unwrap();
    assert_eq!(reactor.task(reg.token), Some(Task::Connecting(Socket(60))));
    assert!(reactor.must_collect());
    reactor.enqueue(Message::Done);
    assert!(!reactor.finished());
    reactor.dispatch(event(reg.token, EventKind::writable()));
    assert!(reactor.finished());
}

#[test]
fn connection_completes_on_any_event() {
    for kind in [EventKind::writable(), EventKind::error(), EventKind::readable(), EventKind::empty()] {
        let (mut reactor, _wake) = start();
        let reg = reactor.enqueue(Message::Connecting(Socket(60))).unwrap();
        assert_eq!(
            reactor.dispatch(event(reg.token, kind)),
            Action::Complete(reg.token, Socket(60))
        );
        assert_eq!(reactor.task(reg.token), None);
        assert_eq!(reactor.token(&Socket(60)), None);
        assert_eq!(reactor.len(), 1);
        assert_eq!(reactor.dispatch(event(reg.token, kind)), Action::Ignore);
    }
}

#[test]
fn listener_accepts_on_readable_and_stays() {
    let (mut reactor, _wake) = start();
    let reg = reactor.enqueue(Message::Listening(Socket(70))).unwrap();
    for _ in 0..3 {
        assert_eq!(
            reactor.dispatch(event(reg.token, EventKind::readable())),
            Action::Accept(reg.token, Socket(70))
        );
        assert_eq!(reactor.task(reg.token), Some(Task::Listening(Socket(70))));
    }
    assert_eq!(reactor.dispatch(event(reg.token, EventKind::error())), Action::Ignore);
    assert_eq!(reactor.dispatch(event(reg.token, EventKind::writable())), Action::Ignore);
    assert_eq!(reactor.task(reg.token), Some(Task::Listening(Socket(70))));
    assert_eq!(reactor.token(&Socket(70)), Some(reg.token));
    assert_eq!(reactor.len(), 2);
}

#[test]
fn event_for_no_task_is_ignored() {
    let (mut reactor, _wake) = start();
    assert_eq!(reactor.dispatch(event(Token(17), EventKind::all())), Action::Ignore);
    assert_eq!(reactor.len(), 1);
    assert_eq!(reactor.registered(), 1);
}

#[test]
fn arena_key_is_reused() {
    let (mut reactor, _wake) = start();
    let first = reactor.enqueue(Message::Connecting(Socket(60))).unwrap();
    let second = reactor.enqueue(Message::Connecting(Socket(61))).unwrap();
    assert_eq!(first.token, Token(1));
    assert_eq!(second.token, Token(2));
    assert_eq!(
        reactor.dispatch(event(first.token, EventKind::writable())),
        Action::Complete(first.token, Socket(60))
    );
    let third = reactor.enqueue(Message::Listening(Socket(70))).unwrap();
    assert_eq!(third.token, first.token);
    assert_eq!(reactor.task(third.token), Some(Task::Listening(Socket(70))));
    assert_eq!(reactor.task(second.token), Some(Task::Connecting(Socket(61))));
    assert_eq!(reactor.token(&Socket(70)), Some(third.token));
    assert_eq!(reactor.token(&Socket(60)), None);
}

#[test]
fn done_starts_the_draining() {
    let (mut reactor, _wake) = start();
    assert_eq!(reactor.enqueue(Message::Done), None);
    assert!(reactor.is_draining());
    assert!(!reactor.admits());
    assert!(reactor.finished());
    assert_eq!(reactor.enqueue(Message::Done), None);
    assert!(reactor.is_draining());
}

#[test]
fn draining_reactor_turns_requests_down() {
    let (mut reactor, _wake) = start();
    reactor.enqueue(Message::Done);
    assert_eq!(reactor.enqueue(Message::Connecting(Socket(60))), None);
    assert_eq!(reactor.enqueue(Message::Listening(Socket(70))), None);
    assert_eq!(reactor.len(), 1);
    assert_eq!(reactor.registered(), 1);
    assert_eq!(reactor.token(&Socket(60)), None);
    assert!(reactor.finished());
}

#[test]
fn loop_ends_when_connections_are_complete() {
    let (mut reactor, _wake) = start();
    let a = reactor.enqueue(Message::Connecting(Socket(60))).unwrap();
    let b = reactor.enqueue(Message::Connecting(Socket(61))).unwrap();
    assert!(!reactor.finished());
    reactor.enqueue(Message::Done);
    assert!(!reactor.finished());
    reactor.dispatch(event(a.token, EventKind::writable()));
    assert!(!reactor.finished());
    reactor.dispatch(event(b.token, EventKind::error()));
    assert!(reactor.finished());
}

#[test]
fn loop_does_not_end_without_done() {
    let (mut reactor, _wake) = start();
    let a = reactor.enqueue(Message::Connecting(Socket(60))).unwrap();
    reactor.dispatch(event(a.token, EventKind::writable()));
    assert_eq!(reactor.len(), 1);
    assert!(!reactor.finished());
}

#[test]
fn listener_holds_the_loop_open() {
    let (mut reactor, _wake) = start();
    let l = reactor.enqueue(Message::Listening(Socket(70))).unwrap();
    reactor.enqueue(Message::Done);
    for _ in 0..5 {
        reactor.dispatch(event(l.token, EventKind::readable()));
        assert!(!reactor.finished());
    }
}

#[test]
fn accept_offers_each_stream_and_stops_on_any_error() {
    assert_eq!(accept_step(Ok(Socket(31))), AcceptStep::Offer(Socket(31)));
    assert_eq!(
        accept_step(Err(Error::new(6002, String::from("no connection waiting")))),
        AcceptStep::Stop
    );
    assert_eq!(
        accept_step(Err(Error::new(5006, String::from("not listening")))),
        AcceptStep::Stop
    );
}

#[test]
fn consumer_that_stops_polling_loses_streams_and_nothing_else() {
    let buffer = 4;
    let (mut sink, mut incoming) = mpsc::channel::<Socket>(buffer);
    let (mut reactor, _wake) = start();
    let listener = reactor.enqueue(Message::Listening(Socket(70))).unwrap();

    let mut taken = 0;
    let mut dropped = 0;
    for turn in 0..10 {
        assert_eq!(
            reactor.dispatch(event(listener.token, EventKind::readable())),
            Action::Accept(listener.token, Socket(70))
        );
        let mut waiting: Vec<Result<Socket, Error>> = Vec::new();
        for i in 0..5 {
            waiting.push(Ok(Socket(1000 + turn * 5 + i)));
        }
        waiting.push(Err(Error::new(6002, String::from("no connection waiting"))));
        for accepted in waiting {
            match accept_step(accepted) {
                AcceptStep::Offer(sock) => match sink.try_send(sock) {
                    Ok(()) => taken += 1,
                    Err(e) => {
                        assert!(e.is_full());
                        dropped += 1;
                    }
                },
                AcceptStep::Stop => break,
            }
        }
        assert_eq!(reactor.task(listener.token), Some(Task::Listening(Socket(70))));
    }
    assert_eq!(taken + dropped, 50);
    assert!(taken <= buffer + 1);
    assert!(dropped >= 50 - (buffer + 1));

    let mut got = Vec::new();
    while let Ok(sock) = incoming.try_recv() {
        got.push(sock.as_raw());
    }
    assert_eq!(got.len(), taken);
    for (i, raw) in got.iter().enumerate() {
        assert_eq!(*raw, 1000 + i as i32);
    }
}

#[test]
fn consumer_that_went_away_is_noticed_at_the_next_offer() {
    let (mut sink, incoming) = mpsc::channel::<Socket>(4);
    drop(incoming);
    match accept_step(Ok(Socket(31))) {
        AcceptStep::Offer(sock) => {
            let refused = sink.try_send(sock).unwrap_err();
            assert!(refused.is_disconnected());
            assert_eq!(refused.into_inner(), Socket(31));
        }
        AcceptStep::Stop => panic!("an accepted stream must be offered"),
    }
}

#[test]
fn request_resolves_with_the_stream() {
    let r = resolve(Handoff::Delivered(Socket(9)));
    assert_eq!(r.unwrap().unwrap(), Socket(9));
}

#[test]
fn request_waits_while_the_reactor_holds_it() {
    let r = resolve(Handoff::<Socket>::Waiting);
    assert!(r.is_none());
}

#[test]
fn dropped_request_is_canceled() {
    let r = resolve(Handoff::<Socket>::Dropped);
    let e = r.unwrap().unwrap_err();
    assert_eq!(e.message(), "canceled");
    assert_eq!(e.errcode(), CANCELED_CODE);
    assert_eq!(e.kind(), ErrorKind::Other);
}

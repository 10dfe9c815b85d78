use libsrt_rs::error::Error;
use libsrt_rs::event::{Event, EventKind, Events, Token};
use libsrt_rs::ffi::SRT_SOCKSTATUS;
use libsrt_rs::poll::{
    clamp_timeout, filled_len, srt_is_closed, timeout_ms, Poll, Ready, Wait, MAX_TIMEOUT_MS,
};
use libsrt_rs::socket::Socket;
use std::time::Duration;

fn none() -> Error {
    Error::new(0, String::from("Success"))
}

fn timed_out() -> Error {
    Error::new(6003, String::from("Operation timeout"))
}

fn ready(sock: i32) -> Ready {
    Ready { sock, status: SRT_SOCKSTATUS::SRTS_CONNECTED }
}

fn gone(sock: i32, status: SRT_SOCKSTATUS) -> Ready {
    Ready { sock, status }
}

fn woke(ret: i32, readable: Vec<Ready>, writable: Vec<Ready>) -> Wait {
    Wait { ret, readable, writable, error: none() }
}

fn elapsed() -> Wait {
    Wait { ret: -1, readable: Vec::new(), writable: Vec::new(), error: timed_out() }
}

#[test]
fn wait_no_sockets_in_poll() {
    let poll = Poll::new(1, none()).unwrap();
    let mut events = Events::with_capacity(2);
    assert_eq!(timeout_ms(Some(Duration::from_millis(1))), 1);
    let n = poll.poll(&mut events, elapsed()).unwrap();
    assert_eq!(n, 0);
}

#[test]
fn wait_empty_call() {
    let sock = Socket::new(100, none()).unwrap();

    let mut poll = Poll::new(1, none()).unwrap();

    const TOKEN: Token = Token(0);
    let interest = EventKind::writable() | EventKind::error();
    assert_eq!(interest.as_int(), 12);
    poll.register(&sock, TOKEN, 0, none()).unwrap();

    let mut events = Events::with_capacity(2);
    let n = poll.poll(&mut events, elapsed()).unwrap();
    assert_eq!(n, 0);
}

#[test]
fn wait_all_sockets_in_poll_released() {
    let sock = Socket::new(100, none()).unwrap();

    let mut poll = Poll::new(1, none()).unwrap();

    const TOKEN: Token = Token(0);
    poll.register(&sock, TOKEN, 0, none()).unwrap();
    poll.deregister(&sock, 0, none()).unwrap();

    let mut events = Events::with_capacity(2);
    let n = poll.poll(&mut events, elapsed()).unwrap();
    assert_eq!(n, 0);
}

#[test]
fn notify_connection_break() {
    let conn_sock = Socket::new(207, none()).unwrap();
    let mut conn_poll = Poll::new(3, none()).unwrap();
    const CONN_TOKEN: Token = Token(3);
    conn_poll.register(&conn_sock, CONN_TOKEN, 0, none()).unwrap();

    assert_eq!(timeout_ms(None), 2147483647);
    let mut events = Events::with_capacity(2);
    let wait = woke(1, vec![gone(207, SRT_SOCKSTATUS::SRTS_BROKEN)], vec![]);
    let n = conn_poll.poll(&mut events, wait).unwrap();
    assert_eq!(n, 1);
    assert_eq!(events.len(), 1);
    let event = events.iter().next().unwrap();
    assert_eq!(event.token(), CONN_TOKEN);
    assert_eq!(event.kind(), EventKind::error());

    assert!(
        conn_sock.is_broken(SRT_SOCKSTATUS::SRTS_BROKEN)
            || conn_sock.is_closing(SRT_SOCKSTATUS::SRTS_BROKEN)
            || conn_sock.is_closed(SRT_SOCKSTATUS::SRTS_BROKEN)
    );
}

#[test]
fn poll_with_nothing_registered_gives_nothing_whatever_is_listed() {
    let poll = Poll::new(1, none()).unwrap();
    assert_eq!(poll.len(), 0);
    let mut events = Events::with_capacity(2);
    let n = poll.poll(&mut events, woke(0, vec![], vec![])).unwrap();
    assert_eq!(n, 0);
    let n = poll.poll(&mut events, woke(2, vec![ready(4), ready(5)], vec![ready(4)])).unwrap();
    assert_eq!(n, 0);
    assert!(events.is_empty());
}

#[test]
fn poll_new_fails_with_the_native_error() {
    let r = Poll::new(-1, Error::new(3002, String::from("out of memory")));
    let e = r.err().unwrap();
    assert_eq!(e.errcode(), 3002);
    assert_eq!(e.message(), "out of memory");
}

#[test]
fn poll_keeps_the_native_handle() {
    let poll = Poll::new(42, none()).unwrap();
    assert_eq!(poll.epid(), 42);
    let poll = Poll::new(0, none()).unwrap();
    assert_eq!(poll.epid(), 0);
}

#[test]
fn register_records_the_token() {
    let mut poll = Poll::new(1, none()).unwrap();
    let a = Socket(10);
    let b = Socket(11);
    assert_eq!(poll.token(&a), None);
    poll.register(&a, Token(7), 0, none()).unwrap();
    poll.register(&b, Token(8), 0, none()).unwrap();
    assert_eq!(poll.len(), 2);
    assert_eq!(poll.token(&a), Some(Token(7)));
    assert_eq!(poll.token(&b), Some(Token(8)));
}

#[test]
fn register_failure_leaves_the_registry() {
    let mut poll = Poll::new(1, none()).unwrap();
    let a = Socket(10);
    let e = poll
        .register(&a, Token(7), -1, Error::new(5004, String::from("Invalid socket ID")))
        .unwrap_err();
    assert_eq!(e.errcode(), 5004);
    assert_eq!(poll.len(), 0);
    assert_eq!(poll.token(&a), None);
}

#[test]
fn reregister_overwrites_the_token() {
    let mut poll = Poll::new(1, none()).unwrap();
    let a = Socket(10);
    poll.register(&a, Token(7), 0, none()).unwrap();
    poll.reregister(&a, Token(9), 0, none()).unwrap();
    assert_eq!(poll.len(), 1);
    assert_eq!(poll.token(&a), Some(Token(9)));
    poll.register(&a, Token(2), 0, none()).unwrap();
    assert_eq!(poll.len(), 1);
    assert_eq!(poll.token(&a), Some(Token(2)));
    let e = poll
        .reregister(&a, Token(3), -1, Error::new(5004, String::from("Invalid socket ID")))
        .unwrap_err();
    assert_eq!(e.errcode(), 5004);
    assert_eq!(poll.token(&a), Some(Token(2)));

    let mut events = Events::with_capacity(2);
    let n = poll.poll(&mut events, woke(1, vec![ready(10)], vec![])).unwrap();
    assert_eq!(n, 1);
    assert_eq!(events.get(0), Some(Event::new(Token(2), EventKind::readable())));
}

#[test]
fn record_and_forget_change_the_registry_alone() {
    let mut poll = Poll::new(1, none()).unwrap();
    let a = Socket(10);
    poll.record(&a, Token(7));
    assert_eq!(poll.token(&a), Some(Token(7)));
    poll.record(&a, Token(8));
    assert_eq!(poll.token(&a), Some(Token(8)));
    assert_eq!(poll.len(), 1);
    poll.forget(&a);
    assert_eq!(poll.token(&a), None);
    poll.forget(&a);
    assert_eq!(poll.len(), 0);
}

#[test]
fn deregister_forgets_even_when_the_native_call_fails() {
    let mut poll = Poll::new(1, none()).unwrap();
    let a = Socket(10);
    poll.register(&a, Token(7), 0, none()).unwrap();
    let e = poll
        .deregister(&a, -1, Error::new(5004, String::from("Invalid socket ID")))
        .unwrap_err();
    assert_eq!(e.errcode(), 5004);
    assert_eq!(poll.token(&a), None);
    assert_eq!(poll.len(), 0);
}

#[test]
fn deregistered_socket_is_never_reported() {
    let mut poll = Poll::new(1, none()).unwrap();
    let a = Socket(10);
    let b = Socket(11);
    poll.register(&a, Token(7), 0, none()).unwrap();
    poll.register(&b, Token(8), 0, none()).unwrap();
    poll.deregister(&a, 0, none()).unwrap();

    let mut events = Events::with_capacity(2);
    let wait = woke(2, vec![ready(10), ready(11)], vec![ready(10)]);
    let n = poll.poll(&mut events, wait).unwrap();
    assert_eq!(n, 1);
    assert_eq!(events.len(), 1);
    assert_eq!(events.get(0), Some(Event::new(Token(8), EventKind::readable())));
}

#[test]
fn readable_and_writable_lists_are_joined() {
    let mut poll = Poll::new(1, none()).unwrap();
    poll.register(&Socket(10), Token(0), 0, none()).unwrap();
    poll.register(&Socket(11), Token(1), 0, none()).unwrap();
    poll.register(&Socket(12), Token(2), 0, none()).unwrap();

    let mut events = Events::with_capacity(4);
    let wait = woke(3, vec![ready(10), ready(11)], vec![ready(12), ready(11)]);
    let n = poll.poll(&mut events, wait).unwrap();
    assert_eq!(n, 3);
    assert_eq!(events.get(0), Some(Event::new(Token(0), EventKind::readable())));
    assert_eq!(
        events.get(1),
        Some(Event::new(Token(1), EventKind::readable() | EventKind::writable()))
    );
    assert_eq!(events.get(2), Some(Event::new(Token(2), EventKind::writable())));
}

#[test]
fn closed_states_give_error_alone() {
    let mut poll = Poll::new(1, none()).unwrap();
    poll.register(&Socket(10), Token(0), 0, none()).unwrap();
    poll.register(&Socket(11), Token(1), 0, none()).unwrap();
    poll.register(&Socket(12), Token(2), 0, none()).unwrap();
    poll.register(&Socket(13), Token(3), 0, none()).unwrap();

    let mut events = Events::with_capacity(4);
    let wait = woke(
        4,
        vec![
            gone(10, SRT_SOCKSTATUS::SRTS_BROKEN),
            gone(11, SRT_SOCKSTATUS::SRTS_CLOSED),
            gone(13, SRT_SOCKSTATUS::SRTS_CLOSING),
        ],
        vec![
            gone(11, SRT_SOCKSTATUS::SRTS_CLOSED),
            gone(12, SRT_SOCKSTATUS::SRTS_NONEXIST),
        ],
    );
    let n = poll.poll(&mut events, wait).unwrap();
    assert_eq!(n, 4);
    assert_eq!(events.get(0), Some(Event::new(Token(0), EventKind::error())));
    assert_eq!(events.get(1), Some(Event::new(Token(1), EventKind::error())));
    assert_eq!(events.get(2), Some(Event::new(Token(3), EventKind::readable())));
    assert_eq!(events.get(3), Some(Event::new(Token(2), EventKind::error())));
    for i in 0..2 {
        let kind = events.get(i).unwrap().kind();
        assert!(kind.is_error() && !kind.is_readable() && !kind.is_writable());
    }
}

#[test]
fn invalid_handles_are_skipped() {
    let mut poll = Poll::new(1, none()).unwrap();
    poll.register(&Socket(10), Token(0), 0, none()).unwrap();
    let mut events = Events::with_capacity(4);
    let wait = woke(1, vec![ready(-1), ready(10)], vec![ready(-1)]);
    let n = poll.poll(&mut events, wait).unwrap();
    assert_eq!(n, 1);
    assert_eq!(events.get(0), Some(Event::new(Token(0), EventKind::readable())));
}

#[test]
fn repeated_handle_is_paired_once() {
    let mut poll = Poll::new(1, none()).unwrap();
    poll.register(&Socket(10), Token(5), 0, none()).unwrap();
    let mut events = Events::with_capacity(4);
    let wait = woke(2, vec![ready(10), ready(10)], vec![ready(10)]);
    let n = poll.poll(&mut events, wait).unwrap();
    assert_eq!(n, 2);
    assert_eq!(
        events.get(0),
        Some(Event::new(Token(5), EventKind::readable() | EventKind::writable()))
    );
    assert_eq!(events.get(1), Some(Event::new(Token(5), EventKind::readable())));

    let mut events = Events::with_capacity(4);
    let wait = woke(2, vec![], vec![ready(10), ready(10)]);
    let n = poll.poll(&mut events, wait).unwrap();
    assert_eq!(n, 2);
    assert_eq!(events.get(0), Some(Event::new(Token(5), EventKind::writable())));
    assert_eq!(events.get(1), Some(Event::new(Token(5), EventKind::writable())));
}

#[test]
fn poll_appends_to_what_the_buffer_holds() {
    let mut poll = Poll::new(1, none()).unwrap();
    poll.register(&Socket(10), Token(5), 0, none()).unwrap();
    let mut events = Events::with_capacity(4);
    events.push(Event::new(Token(99), EventKind::error()));
    let n = poll.poll(&mut events, woke(1, vec![], vec![ready(10)])).unwrap();
    assert_eq!(n, 1);
    assert_eq!(events.len(), 2);
    assert_eq!(events.get(0), Some(Event::new(Token(99), EventKind::error())));
    assert_eq!(events.get(1), Some(Event::new(Token(5), EventKind::writable())));
}

#[test]
fn lists_count_only_when_the_wait_reported_sockets() {
    let mut poll = Poll::new(1, none()).unwrap();
    poll.register(&Socket(10), Token(5), 0, none()).unwrap();
    let mut events = Events::with_capacity(4);
    let n = poll.poll(&mut events, woke(0, vec![ready(10)], vec![ready(10)])).unwrap();
    assert_eq!(n, 0);
    let stale = Wait {
        ret: -1,
        readable: vec![ready(10)],
        writable: vec![],
        error: timed_out(),
    };
    let n = poll.poll(&mut events, stale).unwrap();
    assert_eq!(n, 0);
    assert!(events.is_empty());
}

#[test]
fn other_wait_errors_are_handed_on() {
    let mut poll = Poll::new(1, none()).unwrap();
    poll.register(&Socket(10), Token(5), 0, none()).unwrap();
    let mut events = Events::with_capacity(4);
    events.push(Event::new(Token(99), EventKind::error()));
    let failed = Wait {
        ret: -1,
        readable: vec![ready(10)],
        writable: vec![],
        error: Error::new(5013, String::from("Invalid epoll ID")),
    };
    let e = poll.poll(&mut events, failed).unwrap_err();
    assert_eq!(e.errcode(), 5013);
    assert_eq!(e.message(), "Invalid epoll ID");
    assert_eq!(events.len(), 1);
    let failed = Wait {
        ret: -7,
        readable: vec![],
        writable: vec![],
        error: Error::new(1001, String::from("Connection setup failure: connection time out")),
    };
    let e = poll.poll(&mut events, failed).unwrap_err();
    assert_eq!(e.errcode(), 1001);
}

#[test]
fn lists_are_filled_as_far_as_the_wait_says() {
    assert_eq!(filled_len(2, 2, 8), 2);
    assert_eq!(filled_len(1, 0, 8), 0);
    assert_eq!(filled_len(3, 8, 8), 8);
    assert_eq!(filled_len(3, 9, 8), 8);
    assert_eq!(filled_len(0, 2, 8), 0);
    assert_eq!(filled_len(-1, 8, 8), 0);
    assert_eq!(filled_len(1, -1, 8), 0);
    assert_eq!(filled_len(1, 1, 0), 0);
}

#[test]
fn closed_means_broken_closed_or_unknown() {
    assert!(srt_is_closed(SRT_SOCKSTATUS::SRTS_BROKEN));
    assert!(srt_is_closed(SRT_SOCKSTATUS::SRTS_CLOSED));
    assert!(srt_is_closed(SRT_SOCKSTATUS::SRTS_NONEXIST));
    assert!(!srt_is_closed(SRT_SOCKSTATUS::SRTS_CLOSING));
    assert!(!srt_is_closed(SRT_SOCKSTATUS::SRTS_CONNECTED));
    assert!(!srt_is_closed(SRT_SOCKSTATUS::SRTS_CONNECTING));
    assert!(!srt_is_closed(SRT_SOCKSTATUS::SRTS_LISTENING));
    assert!(!srt_is_closed(SRT_SOCKSTATUS::SRTS_OPENED));
    assert!(!srt_is_closed(SRT_SOCKSTATUS::SRTS_INIT));
}

#[test]
fn timeout_in_whole_milliseconds() {
    assert_eq!(clamp_timeout(0, 0), 0);
    assert_eq!(clamp_timeout(0, 999_999), 0);
    assert_eq!(clamp_timeout(0, 1_000_000), 1);
    assert_eq!(clamp_timeout(2, 500_000_000), 2500);
    assert_eq!(clamp_timeout(1, 999_999_999), 1999);
    assert_eq!(timeout_ms(Some(Duration::from_millis(500))), 500);
    assert_eq!(timeout_ms(Some(Duration::from_millis(5000))), 5000);
    assert_eq!(timeout_ms(Some(Duration::new(2, 500_000_000))), 2500);
    assert_eq!(timeout_ms(Some(Duration::from_micros(1500))), 1);
    assert_eq!(timeout_ms(Some(Duration::from_secs(0))), 0);
}

#[test]
fn timeout_is_clamped_to_the_longest_wait() {
    assert_eq!(MAX_TIMEOUT_MS, 2147483647);
    assert_eq!(timeout_ms(None), 2147483647);
    assert_eq!(clamp_timeout(2147483, 0), 2147483000);
    assert_eq!(clamp_timeout(2147483, 647_000_000), 2147483647);
    assert_eq!(clamp_timeout(2147483, 648_000_000), 2147483647);
    assert_eq!(clamp_timeout(2147483, 999_999_999), 2147483647);
    assert_eq!(clamp_timeout(2147484, 0), 2147483647);
    assert_eq!(clamp_timeout(u64::MAX, 0), 2147483647);
    assert_eq!(timeout_ms(Some(Duration::from_secs(2147484))), 2147483647);
    assert_eq!(timeout_ms(Some(Duration::new(u64::MAX, 999_999_999))), 2147483647);
    assert_eq!(timeout_ms(Some(Duration::from_secs(2147483))), 2147483000);
}

#[test]
fn gather_gives_the_events_of_two_lists() {
    let mut poll = Poll::new(1, none()).unwrap();
    poll.register(&Socket(10), Token(0), 0, none()).unwrap();
    let events = poll.gather(&vec![ready(10)], &vec![ready(10)]);
    assert_eq!(events.len(), 1);
    assert_eq!(
        events.get(0),
        Some(Event::new(Token(0), EventKind::readable() | EventKind::writable()))
    );
    let events = poll.gather(&vec![], &vec![]);
    assert!(events.is_empty());
}

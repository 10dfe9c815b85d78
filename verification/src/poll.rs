//! The readiness multiplexer: the registry of sockets and tokens, and the
//! events that follow from what the native wait call returned.

use std::collections::HashMap;
use std::collections::HashSet;
use std::time::Duration;
use vstd::prelude::*;
use crate::error::cvt;
use crate::error::Error;
use crate::error::SRT_ETIMEOUT;
use crate::event::Event;
use crate::event::EventKind;
use crate::event::Events;
use crate::event::Token;
use crate::event::ERROR;
use crate::event::READABLE;
use crate::event::WRITABLE;
use crate::ffi::SRTSOCKET;
use crate::ffi::SRT_INVALID_SOCK;
use crate::ffi::SRT_SOCKSTATUS;
use crate::socket::Socket;

verus! {

broadcast use vstd::std_specs::hash::group_hash_axioms;

/// The longest wait, in milliseconds, that the native wait call takes.
pub const MAX_TIMEOUT_MS: i64 = 2147483647;

/// A socket that the wait call listed, with the connection state that the
/// transport gave for it afterwards.
#[derive(Copy, Clone, Debug, PartialEq, Eq, Structural)]
pub struct Ready {
    pub sock: SRTSOCKET,
    pub status: SRT_SOCKSTATUS,
}

/// What one native wait call returned.
#[derive(Debug)]
pub struct Wait {
    /// The call's return value.
    pub ret: i32,
    /// The sockets of the readable list.
    pub readable: Vec<Ready>,
    /// The sockets of the writable list.
    pub writable: Vec<Ready>,
    /// The error that the transport recorded for the call.
    pub error: Error,
}

/// A socket found ready, before its token is looked up.
pub struct Report {
    pub sock: SRTSOCKET,
    pub kind: EventKind,
}

/// Whether a socket in this state counts as closed: broken, closed, or
/// unknown to the transport.
pub open spec fn is_closed(status: SRT_SOCKSTATUS) -> bool {
    status == SRT_SOCKSTATUS::SRTS_BROKEN || status == SRT_SOCKSTATUS::SRTS_NONEXIST || status
        == SRT_SOCKSTATUS::SRTS_CLOSED
}

/// Whether a socket in this state counts as closed.
pub fn srt_is_closed(status: SRT_SOCKSTATUS) -> (b: bool)
    ensures
        b == is_closed(status),
{
    match status {
        SRT_SOCKSTATUS::SRTS_BROKEN => true,
        SRT_SOCKSTATUS::SRTS_NONEXIST => true,
        SRT_SOCKSTATUS::SRTS_CLOSED => true,
        _ => false,
    }
}

/// The number of entries of a list that the wait call filled: as many as it
/// says, but no more than the list has room for, and none where the call
/// reported no socket.
pub open spec fn filled(ret: i32, num: i32, room: usize) -> usize {
    if ret <= 0 || num <= 0 {
        0
    } else if num > room {
        room
    } else {
        num as usize
    }
}

/// Computes the number of entries of a list that the wait call filled, from
/// what the call returned, the count it left for the list, and the room that
/// the list had.
pub fn filled_len(ret: i32, num: i32, room: usize) -> (n: usize)
    ensures
        n == filled(ret, num, room),
{
    if ret <= 0 || num <= 0 {
        0
    } else if num as usize > room {
        room
    } else {
        num as usize
    }
}

/// Whether `sock` stands among the first `n` entries of `list`.
pub open spec fn listed(list: Seq<Ready>, n: int, sock: SRTSOCKET) -> bool {
    exists|k: int| 0 <= k < n && k < list.len() && (#[trigger] list[k]).sock == sock
}

/// Whether `sock` stands among the first `n + 1` entries of a list: among the
/// first `n`, or in entry `n`.
pub proof fn lemma_listed_next(list: Seq<Ready>, n: int, sock: SRTSOCKET)
    requires
        0 <= n < list.len(),
    ensures
        listed(list, n + 1, sock) <==> listed(list, n, sock) || list[n].sock == sock,
{
    if listed(list, n + 1, sock) {
        let k = choose|k: int|
            0 <= k < n + 1 && k < list.len() && (#[trigger] list[k]).sock == sock;
        if k < n {
            assert(listed(list, n, sock));
        }
    }
    if listed(list, n, sock) {
        let k = choose|k: int| 0 <= k < n && k < list.len() && (#[trigger] list[k]).sock == sock;
        assert(0 <= k < n + 1 && list[k].sock == sock);
    }
    if list[n].sock == sock {
        assert(0 <= n < n + 1 && list[n].sock == sock);
    }
}

/// Whether an entry for `sock` is reported at all: the handle is a real one
/// and is registered.
pub open spec fn reported(dom: Set<SRTSOCKET>, sock: SRTSOCKET) -> bool {
    sock != SRT_INVALID_SOCK && dom.contains(sock)
}

/// The kinds reported for entry `i` of the readable list: error alone where
/// the socket is closed; else readable, and writable too where the writable
/// list holds the socket and no earlier readable entry does.
pub open spec fn readable_kind(rd: Seq<Ready>, wr: Seq<Ready>, i: int) -> EventKind {
    if is_closed(rd[i].status) {
        EventKind(ERROR)
    } else if listed(wr, wr.len() as int, rd[i].sock) && !listed(rd, i, rd[i].sock) {
        EventKind(READABLE | WRITABLE)
    } else {
        EventKind(READABLE)
    }
}

/// The kinds reported for entry `j` of the writable list.
pub open spec fn writable_kind(wr: Seq<Ready>, j: int) -> EventKind {
    if is_closed(wr[j].status) {
        EventKind(ERROR)
    } else {
        EventKind(WRITABLE)
    }
}

/// The reports that the first `n` entries of the readable list give, in order.
pub open spec fn readable_reports(
    dom: Set<SRTSOCKET>,
    rd: Seq<Ready>,
    wr: Seq<Ready>,
    n: int,
) -> Seq<Report>
    decreases n,
{
    if n <= 0 {
        Seq::empty()
    } else {
        let before = readable_reports(dom, rd, wr, n - 1);
        if reported(dom, rd[n - 1].sock) {
            before.push(Report { sock: rd[n - 1].sock, kind: readable_kind(rd, wr, n - 1) })
        } else {
            before
        }
    }
}

/// The reports that the first `n` entries of the writable list give, in
/// order: one for each socket that the readable list does not hold.
pub open spec fn writable_reports(
    dom: Set<SRTSOCKET>,
    rd: Seq<Ready>,
    wr: Seq<Ready>,
    n: int,
) -> Seq<Report>
    decreases n,
{
    if n <= 0 {
        Seq::empty()
    } else {
        let before = writable_reports(dom, rd, wr, n - 1);
        if reported(dom, wr[n - 1].sock) && !listed(rd, rd.len() as int, wr[n - 1].sock) {
            before.push(Report { sock: wr[n - 1].sock, kind: writable_kind(wr, n - 1) })
        } else {
            before
        }
    }
}

/// All reports of one wait: those of the readable list, then those of the
/// writable list.
pub open spec fn reports(dom: Set<SRTSOCKET>, rd: Seq<Ready>, wr: Seq<Ready>) -> Seq<Report> {
    readable_reports(dom, rd, wr, rd.len() as int) + writable_reports(dom, rd, wr, wr.len() as int)
}

/// The events for a sequence of reports: each socket replaced by its token.
pub open spec fn events_of(map: Map<SRTSOCKET, Token>, reports: Seq<Report>) -> Seq<Event> {
    Seq::new(reports.len(), |k: int| Event { token: map[reports[k].sock], kind: reports[k].kind })
}

/// The events that one wait gives under the registry `map`.
pub open spec fn events_from(map: Map<SRTSOCKET, Token>, rd: Seq<Ready>, wr: Seq<Ready>) -> Seq<
    Event,
> {
    events_of(map, reports(map.dom(), rd, wr))
}

/// The time-out handed to the native wait call for a wait of `secs` seconds
/// and `nanos` nanoseconds: the whole milliseconds of it, or the longest wait
/// where that is less.
pub open spec fn clamped_ms(secs: u64, nanos: u32) -> int {
    let ms = secs * 1000 + nanos / 1_000_000;
    if ms > MAX_TIMEOUT_MS {
        MAX_TIMEOUT_MS as int
    } else {
        ms
    }
}

/// Computes the time-out handed to the native wait call for a wait of `secs`
/// seconds and `nanos` nanoseconds.
pub fn clamp_timeout(secs: u64, nanos: u32) -> (ms: i64)
    ensures
        ms == clamped_ms(secs, nanos),
        0 <= ms <= MAX_TIMEOUT_MS,
{
    if secs > 2147483 {
        MAX_TIMEOUT_MS
    } else {
        let whole: i64 = secs as i64 * 1000;
        let part: i64 = (nanos / 1_000_000) as i64;
        let ms: i64 = whole + part;
        if ms > MAX_TIMEOUT_MS {
            MAX_TIMEOUT_MS
        } else {
            ms
        }
    }
}

/// The whole seconds of a duration, as `Duration::as_secs` returns them.
pub uninterp spec fn duration_secs(d: Duration) -> u64;

/// The part of a duration below one second, in nanoseconds, as
/// `Duration::subsec_nanos` returns it.
pub uninterp spec fn duration_subsec_nanos(d: Duration) -> u32;

/// `Duration::as_secs`: the number of whole seconds that the duration holds.
pub assume_specification[ Duration::as_secs ](d: &Duration) -> (secs: u64)
    ensures
        secs == duration_secs(*d),
;

/// `Duration::subsec_nanos`: the fractional part of the duration in
/// nanoseconds, which is always less than one second.
pub assume_specification[ Duration::subsec_nanos ](d: &Duration) -> (nanos: u32)
    ensures
        nanos == duration_subsec_nanos(*d),
        nanos < 1_000_000_000,
;

/// Computes the time-out handed to the native wait call: that of the given
/// duration, or the longest wait where none is given.
pub fn timeout_ms(timeout: Option<Duration>) -> (ms: i64)
    ensures
        ms == match timeout {
            Some(d) => clamped_ms(duration_secs(d), duration_subsec_nanos(d)),
            None => MAX_TIMEOUT_MS as int,
        },
        0 <= ms <= MAX_TIMEOUT_MS,
{
    match timeout {
        Some(d) => clamp_timeout(d.as_secs(), d.subsec_nanos()),
        None => MAX_TIMEOUT_MS,
    }
}

/// Every report among those of the first `n` readable entries is for a
/// registered socket.
proof fn lemma_readable_reports_registered(
    dom: Set<SRTSOCKET>,
    rd: Seq<Ready>,
    wr: Seq<Ready>,
    n: int,
)
    ensures
        forall|k: int|
            0 <= k < readable_reports(dom, rd, wr, n).len() ==> reported(
                dom,
                (#[trigger] readable_reports(dom, rd, wr, n)[k]).sock,
            ),
    decreases n,
{
    if n > 0 {
        lemma_readable_reports_registered(dom, rd, wr, n - 1);
        let before = readable_reports(dom, rd, wr, n - 1);
        let all = readable_reports(dom, rd, wr, n);
        assert forall|k: int| 0 <= k < all.len() implies reported(
            dom,
            (#[trigger] all[k]).sock,
        ) by {
            if k < before.len() {
                assert(all[k] == before[k]);
            }
        }
    }
}

/// Every report among those of the first `n` writable entries is for a
/// registered socket.
proof fn lemma_writable_reports_registered(
    dom: Set<SRTSOCKET>,
    rd: Seq<Ready>,
    wr: Seq<Ready>,
    n: int,
)
    ensures
        forall|k: int|
            0 <= k < writable_reports(dom, rd, wr, n).len() ==> reported(
                dom,
                (#[trigger] writable_reports(dom, rd, wr, n)[k]).sock,
            ),
    decreases n,
{
    if n > 0 {
        lemma_writable_reports_registered(dom, rd, wr, n - 1);
        let before = writable_reports(dom, rd, wr, n - 1);
        let all = writable_reports(dom, rd, wr, n);
        assert forall|k: int| 0 <= k < all.len() implies reported(
            dom,
            (#[trigger] all[k]).sock,
        ) by {
            if k < before.len() {
                assert(all[k] == before[k]);
            }
        }
    }
}

/// The reports of the first `i + 1` readable entries open those of the first
/// `n`, for `i < n`.
proof fn lemma_readable_reports_grow(
    dom: Set<SRTSOCKET>,
    rd: Seq<Ready>,
    wr: Seq<Ready>,
    i: int,
    n: int,
)
    requires
        0 <= i < n,
    ensures
        readable_reports(dom, rd, wr, i + 1).is_prefix_of(readable_reports(dom, rd, wr, n)),
    decreases n,
{
    if i + 1 < n {
        lemma_readable_reports_grow(dom, rd, wr, i, n - 1);
    }
}

/// The reports of the first `j + 1` writable entries open those of the first
/// `n`, for `j < n`.
proof fn lemma_writable_reports_grow(
    dom: Set<SRTSOCKET>,
    rd: Seq<Ready>,
    wr: Seq<Ready>,
    j: int,
    n: int,
)
    requires
        0 <= j < n,
    ensures
        writable_reports(dom, rd, wr, j + 1).is_prefix_of(writable_reports(dom, rd, wr, n)),
    decreases n,
{
    if j + 1 < n {
        lemma_writable_reports_grow(dom, rd, wr, j, n - 1);
    }
}

/// Every event of a wait is owed to a socket that is registered at the time:
/// the event at each position carries the token of the socket reported there,
/// and that socket is in the registry.
pub proof fn lemma_events_come_from_registered_sockets(
    map: Map<SRTSOCKET, Token>,
    rd: Seq<Ready>,
    wr: Seq<Ready>,
)
    ensures
        events_from(map, rd, wr).len() == reports(map.dom(), rd, wr).len(),
        forall|k: int|
            0 <= k < events_from(map, rd, wr).len() ==> {
                let sock = reports(map.dom(), rd, wr)[k].sock;
                &&& sock != SRT_INVALID_SOCK
                &&& map.contains_key(sock)
                &&& (#[trigger] events_from(map, rd, wr)[k]).token == map[sock]
                &&& events_from(map, rd, wr)[k].kind == reports(map.dom(), rd, wr)[k].kind
            },
{
    lemma_readable_reports_registered(map.dom(), rd, wr, rd.len() as int);
    lemma_writable_reports_registered(map.dom(), rd, wr, wr.len() as int);
}

/// With no socket registered, a wait gives no event, whatever the native
/// call listed.
pub proof fn lemma_empty_registry_gives_no_event(
    map: Map<SRTSOCKET, Token>,
    rd: Seq<Ready>,
    wr: Seq<Ready>,
)
    requires
        forall|sock: SRTSOCKET| !map.contains_key(sock),
    ensures
        events_from(map, rd, wr) == Seq::<Event>::empty(),
{
    lemma_events_come_from_registered_sockets(map, rd, wr);
    let events = events_from(map, rd, wr);
    if events.len() > 0 {
        let sock = reports(map.dom(), rd, wr)[0].sock;
        assert(events[0].token == map[sock]);
        assert(map.contains_key(sock));
    }
    assert(events =~= Seq::<Event>::empty());
}

/// A socket that is not registered is never reported, even where the native
/// call lists it: no report of the wait is for it. This holds in particular
/// of a socket that was deregistered before the wait.
pub proof fn lemma_deregistered_socket_is_not_reported(
    map: Map<SRTSOCKET, Token>,
    sock: SRTSOCKET,
    rd: Seq<Ready>,
    wr: Seq<Ready>,
)
    ensures
        forall|k: int|
            0 <= k < reports(map.remove(sock).dom(), rd, wr).len() ==> (#[trigger] reports(
                map.remove(sock).dom(),
                rd,
                wr,
            )[k]).sock != sock,
{
    let dom = map.remove(sock).dom();
    lemma_readable_reports_registered(dom, rd, wr, rd.len() as int);
    lemma_writable_reports_registered(dom, rd, wr, wr.len() as int);
}

/// A registered socket that the readable list holds in a closed state yields
/// an event whose kind is error and nothing else, at the place of that entry
/// among the events; such an event is neither readable nor writable.
pub proof fn lemma_closed_readable_socket_yields_error(
    map: Map<SRTSOCKET, Token>,
    rd: Seq<Ready>,
    wr: Seq<Ready>,
    i: int,
)
    requires
        0 <= i < rd.len(),
        reported(map.dom(), rd[i].sock),
        is_closed(rd[i].status),
    ensures
        ({
            let k = readable_reports(map.dom(), rd, wr, i).len() as int;
            &&& k < events_from(map, rd, wr).len()
            &&& events_from(map, rd, wr)[k] == Event {
                token: map[rd[i].sock],
                kind: EventKind(ERROR),
            }
        }),
        EventKind(ERROR).has_error(),
        !EventKind(ERROR).has_readable(),
        !EventKind(ERROR).has_writable(),
{
    let dom = map.dom();
    let k = readable_reports(dom, rd, wr, i).len() as int;
    let own = readable_reports(dom, rd, wr, i + 1);
    let all = readable_reports(dom, rd, wr, rd.len() as int);
    lemma_readable_reports_grow(dom, rd, wr, i, rd.len() as int);
    assert(own[k] == Report { sock: rd[i].sock, kind: EventKind(ERROR) });
    assert(all[k] == own[k]);
    assert(reports(dom, rd, wr)[k] == all[k]);
    assert(0x8i32 & 0x8i32 != 0 && 0x8i32 & 0x1i32 == 0 && 0x8i32 & 0x4i32 == 0) by (bit_vector);
}

/// A registered socket that only the writable list holds, in a closed state,
/// yields an event whose kind is error and nothing else, at the place of that
/// entry among the events.
pub proof fn lemma_closed_writable_socket_yields_error(
    map: Map<SRTSOCKET, Token>,
    rd: Seq<Ready>,
    wr: Seq<Ready>,
    j: int,
)
    requires
        0 <= j < wr.len(),
        reported(map.dom(), wr[j].sock),
        !listed(rd, rd.len() as int, wr[j].sock),
        is_closed(wr[j].status),
    ensures
        ({
            let k = (readable_reports(map.dom(), rd, wr, rd.len() as int).len()
                + writable_reports(map.dom(), rd, wr, j).len()) as int;
            &&& k < events_from(map, rd, wr).len()
            &&& events_from(map, rd, wr)[k] == Event {
                token: map[wr[j].sock],
                kind: EventKind(ERROR),
            }
        }),
{
    let dom = map.dom();
    let first = readable_reports(dom, rd, wr, rd.len() as int);
    let k = writable_reports(dom, rd, wr, j).len() as int;
    let own = writable_reports(dom, rd, wr, j + 1);
    let all = writable_reports(dom, rd, wr, wr.len() as int);
    lemma_writable_reports_grow(dom, rd, wr, j, wr.len() as int);
    assert(own[k] == Report { sock: wr[j].sock, kind: EventKind(ERROR) });
    assert(all[k] == own[k]);
    assert(reports(dom, rd, wr)[first.len() + k] == all[k]);
}

impl Wait {
    /// Whether the wait failed: the call returned an error, and the error is
    /// not the one that stands for an elapsed time-out.
    pub open spec fn failed(&self) -> bool {
        self.ret < 0 && self.error.code() != SRT_ETIMEOUT
    }

    /// The readable list as far as it counts: all of it where the call
    /// reported sockets, none of it otherwise.
    pub open spec fn readable_list(&self) -> Seq<Ready> {
        if self.ret > 0 {
            self.readable@
        } else {
            Seq::empty()
        }
    }

    /// The writable list as far as it counts.
    pub open spec fn writable_list(&self) -> Seq<Ready> {
        if self.ret > 0 {
            self.writable@
        } else {
            Seq::empty()
        }
    }
}

/// The registry of a multiplexer: the native handle of the multiplexer and,
/// for each registered socket, its token.
pub struct Poll {
    epid: i32,
    socks: HashMap<SRTSOCKET, Token>,
}

impl View for Poll {
    type V = Map<SRTSOCKET, Token>;

    closed spec fn view(&self) -> Map<SRTSOCKET, Token> {
        self.socks@
    }
}

impl Poll {
    /// The native handle of the multiplexer.
    pub closed spec fn id(&self) -> i32 {
        self.epid
    }

    /// The events that `wait` gives under this registry.
    pub open spec fn events_for(&self, wait: Wait) -> Seq<Event> {
        events_from(self@, wait.readable_list(), wait.writable_list())
    }

    /// Takes what the native call that creates a multiplexer returned: a
    /// registry with no socket, or the error `last` where the call failed.
    pub fn new(ret: i32, last: Error) -> (r: Result<Poll, Error>)
        ensures
            ret == -1 ==> r == (Err::<Poll, Error>(last)),
            ret != -1 ==> (r matches Ok(poll) && poll.id() == ret && poll@ == (Map::<
                SRTSOCKET,
                Token,
            >::empty())),
    {
        match cvt(ret, last) {
            Ok(epid) => Ok(Poll { epid, socks: HashMap::new() }),
            Err(e) => Err(e),
        }
    }

    /// The native handle of the multiplexer.
    pub fn epid(&self) -> (epid: i32)
        ensures
            epid == self.id(),
    {
        self.epid
    }

    /// Polling with nothing registered gives no event: whatever the native
    /// call returned, no event follows from it, so that a wait that elapsed
    /// or came back empty-handed adds nothing to the buffer and counts zero.
    pub proof fn lemma_nothing_registered(&self, wait: Wait)
        requires
            forall|sock: SRTSOCKET| !self@.contains_key(sock),
        ensures
            self.events_for(wait) == Seq::<Event>::empty(),
    {
        lemma_empty_registry_gives_no_event(self@, wait.readable_list(), wait.writable_list());
    }

    /// A socket that is not registered when the wait is taken, such as one
    /// that was deregistered before, is in none of the reports behind the
    /// events, even where the native call still lists it.
    pub proof fn lemma_unregistered_is_silent(&self, wait: Wait, sock: SRTSOCKET)
        requires
            !self@.contains_key(sock),
        ensures
            self.events_for(wait).len() == reports(
                self@.dom(),
                wait.readable_list(),
                wait.writable_list(),
            ).len(),
            forall|k: int|
                0 <= k < self.events_for(wait).len() ==> (#[trigger] reports(
                    self@.dom(),
                    wait.readable_list(),
                    wait.writable_list(),
                )[k]).sock != sock,
    {
        assert(self@.remove(sock) =~= self@);
        lemma_deregistered_socket_is_not_reported(
            self@,
            sock,
            wait.readable_list(),
            wait.writable_list(),
        );
    }

    /// The registry holds finitely many sockets.
    pub proof fn lemma_registry_is_finite(&self)
        ensures
            self@.dom().finite(),
    {
    }

    /// The number of registered sockets.
    pub fn len(&self) -> (n: usize)
        ensures
            n == self@.len(),
    {
        self.socks.len()
    }

    /// The token under which `sock` is registered, if it is.
    pub fn token(&self, sock: &Socket) -> (token: Option<Token>)
        ensures
            token == if self@.contains_key(sock@) {
                Some(self@[sock@])
            } else {
                None
            },
    {
        match self.socks.get(&sock.0) {
            Some(t) => Some(*t),
            None => None,
        }
    }

    /// Records a registration that the native call has made: `sock` gets
    /// `token`, whether it had one or not.
    pub fn record(&mut self, sock: &Socket, token: Token)
        ensures
            final(self).id() == old(self).id(),
            final(self)@ == old(self)@.insert(sock@, token),
    {
        self.socks.insert(sock.0, token);
    }

    /// Forgets the registration of `sock`, if it has one.
    pub fn forget(&mut self, sock: &Socket)
        ensures
            final(self).id() == old(self).id(),
            final(self)@ == old(self)@.remove(sock@),
    {
        self.socks.remove(&sock.0);
    }

    /// Records a registration. `ret` is what the native call that adds the
    /// socket returned and `last` the error recorded for it: where the call
    /// failed, the registry stays as it is and the error is handed on.
    pub fn register(&mut self, sock: &Socket, token: Token, ret: i32, last: Error) -> (r:
        Result<(), Error>)
        ensures
            final(self).id() == old(self).id(),
            ret == -1 ==> r == (Err::<(), Error>(last)) && final(self)@ == old(self)@,
            ret != -1 ==> r == (Ok::<(), Error>(())) && final(self)@ == old(self)@.insert(
                sock@,
                token,
            ),
    {
        match cvt(ret, last) {
            Ok(_) => {
                self.record(sock, token);
                Ok(())
            },
            Err(e) => Err(e),
        }
    }

    /// Records a changed registration. `ret` is what the native call that
    /// updates the socket returned. A socket that is registered already gets
    /// the new token; one that is not is registered.
    pub fn reregister(&mut self, sock: &Socket, token: Token, ret: i32, last: Error) -> (r:
        Result<(), Error>)
        ensures
            final(self).id() == old(self).id(),
            ret == -1 ==> r == (Err::<(), Error>(last)) && final(self)@ == old(self)@,
            ret != -1 ==> r == (Ok::<(), Error>(())) && final(self)@ == old(self)@.insert(
                sock@,
                token,
            ),
    {
        match cvt(ret, last) {
            Ok(_) => {
                self.record(sock, token);
                Ok(())
            },
            Err(e) => Err(e),
        }
    }

    /// Forgets a registration, whatever the native call that removes the
    /// socket returned; where that call failed, its error is handed on.
    pub fn deregister(&mut self, sock: &Socket, ret: i32, last: Error) -> (r: Result<(), Error>)
        ensures
            final(self).id() == old(self).id(),
            final(self)@ == old(self)@.remove(sock@),
            ret == -1 ==> r == (Err::<(), Error>(last)),
            ret != -1 ==> r == (Ok::<(), Error>(())),
    {
        self.forget(sock);
        match cvt(ret, last) {
            Ok(_) => Ok(()),
            Err(e) => Err(e),
        }
    }

    /// Gathers the events of the two lists of a wait, in the order of the
    /// lists, the readable one first.
    pub fn gather(&self, rd: &Vec<Ready>, wr: &Vec<Ready>) -> (events: Events)
        ensures
            events@ == events_from(self@, rd@, wr@),
    {
        let mut events = Events::with_capacity(if rd.len() > wr.len() {
            rd.len()
        } else {
            wr.len()
        });
        let ghost dom = self@.dom();
        let mut pending: HashSet<SRTSOCKET> = HashSet::new();
        let mut j: usize = 0;
        while j < wr.len()
            invariant
                j <= wr.len(),
                forall|h: SRTSOCKET| #[trigger] pending@.contains(h) <==> listed(wr@, j as int, h),
            decreases wr.len() - j,
        {
            proof {
                assert forall|h: SRTSOCKET|
                    #[trigger] pending@.insert(wr@[j as int].sock).contains(h) <==> listed(
                        wr@,
                        j + 1,
                        h,
                    ) by {
                    lemma_listed_next(wr@, j as int, h);
                }
            }
            pending.insert(wr[j].sock);
            j = j + 1;
        }
        let mut i: usize = 0;
        while i < rd.len()
            invariant
                i <= rd.len(),
                dom == self@.dom(),
                forall|h: SRTSOCKET| #[trigger]
                    pending@.contains(h) <==> listed(wr@, wr@.len() as int, h) && !(reported(dom, h)
                        && listed(rd@, i as int, h)),
                events@ == events_of(self@, readable_reports(dom, rd@, wr@, i as int)),
            decreases rd.len() - i,
        {
            let entry = rd[i];
            let ghost before = readable_reports(dom, rd@, wr@, i as int);
            let ghost waiting = pending@;
            if entry.sock != SRT_INVALID_SOCK {
                match self.socks.get(&entry.sock) {
                    Some(token) => {
                        assert(reported(dom, entry.sock));
                        let paired = pending.remove(&entry.sock);
                        assert(pending@ == waiting.remove(entry.sock));
                        assert(paired == (listed(wr@, wr@.len() as int, entry.sock) && !listed(
                            rd@,
                            i as int,
                            entry.sock,
                        )));
                        let kind = if srt_is_closed(entry.status) {
                            EventKind::error()
                        } else if paired {
                            EventKind::readable() | EventKind::writable()
                        } else {
                            EventKind::readable()
                        };
                        events.push(Event::new(*token, kind));
                        proof {
                            let report = Report { sock: entry.sock, kind };
                            assert(0x1i32 | 0x4i32 == 5i32) by (bit_vector);
                            assert(kind == readable_kind(rd@, wr@, i as int));
                            assert(readable_reports(dom, rd@, wr@, i + 1) == before.push(report));
                            assert(events@ =~= events_of(self@, before.push(report)));
                        }
                    },
                    None => {},
                }
            }
            proof {
                assert forall|h: SRTSOCKET| #[trigger]
                    pending@.contains(h) <==> listed(wr@, wr@.len() as int, h) && !(reported(dom, h)
                        && listed(rd@, i + 1, h)) by {
                    lemma_listed_next(rd@, i as int, h);
                    assert(waiting.contains(h) <==> listed(wr@, wr@.len() as int, h) && !(reported(
                        dom,
                        h,
                    ) && listed(rd@, i as int, h)));
                }
            }
            i = i + 1;
        }
        let ghost first = readable_reports(dom, rd@, wr@, rd@.len() as int);
        assert(first + writable_reports(dom, rd@, wr@, 0) =~= first);
        let mut j: usize = 0;
        while j < wr.len()
            invariant
                j <= wr.len(),
                dom == self@.dom(),
                first == readable_reports(dom, rd@, wr@, rd@.len() as int),
                forall|h: SRTSOCKET| #[trigger]
                    pending@.contains(h) <==> listed(wr@, wr@.len() as int, h) && !(reported(dom, h)
                        && listed(rd@, rd@.len() as int, h)),
                events@ == events_of(self@, first + writable_reports(dom, rd@, wr@, j as int)),
            decreases wr.len() - j,
        {
            let entry = wr[j];
            let ghost before = writable_reports(dom, rd@, wr@, j as int);
            assert(listed(wr@, wr@.len() as int, entry.sock)) by {
                assert(wr@[j as int].sock == entry.sock);
            }
            if entry.sock != SRT_INVALID_SOCK {
                match self.socks.get(&entry.sock) {
                    Some(token) => {
                        assert(reported(dom, entry.sock));
                        if pending.contains(&entry.sock) {
                            let kind = if srt_is_closed(entry.status) {
                                EventKind::error()
                            } else {
                                EventKind::writable()
                            };
                            events.push(Event::new(*token, kind));
                            proof {
                                let report = Report { sock: entry.sock, kind };
                                assert(writable_reports(dom, rd@, wr@, j + 1) == before.push(
                                    report,
                                ));
                                assert(first + before.push(report) =~= (first + before).push(
                                    report,
                                ));
                                assert(events@ =~= events_of(self@, (first + before).push(report)));
                            }
                        }
                    },
                    None => {},
                }
            }
            j = j + 1;
        }
        events
    }

    /// Takes what one native wait call returned and appends the events that
    /// it gives to `events`. An elapsed time-out is no failure: it gives no
    /// event. Any other error of the call is handed on, and `events` is left
    /// as it was.
    pub fn poll(&self, events: &mut Events, wait: Wait) -> (r: Result<usize, Error>)
        ensures
            wait.failed() ==> r == (Err::<usize, Error>(wait.error)) && final(events)@ == old(
                events,
            )@,
            !wait.failed() ==> r == (Ok::<usize, Error>(self.events_for(wait).len() as usize))
                && final(events)@ == old(events)@ + self.events_for(wait),
    {
        let Wait { ret, readable, writable, error } = wait;
        let mut new_evts = if ret > 0 {
            self.gather(&readable, &writable)
        } else if ret == 0 || error.errcode() == SRT_ETIMEOUT {
            self.gather(&Vec::new(), &Vec::new())
        } else {
            return Err(error);
        };
        let n = new_evts.len();
        events.append(&mut new_evts);
        Ok(n)
    }
}

} // verus!

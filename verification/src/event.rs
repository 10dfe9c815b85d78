//! Readiness value types: tokens, event kinds, events and event buffers.

use vstd::prelude::*;

verus! {

/// Bit of an `EventKind` that reports readable readiness.
pub const READABLE: i32 = 0x1;

/// Bit of an `EventKind` that reports writable readiness.
pub const WRITABLE: i32 = 0x4;

/// Bit of an `EventKind` that reports a closed or broken socket.
pub const ERROR: i32 = 0x8;

/// Caller-chosen number that identifies one registration.
#[derive(Copy, Clone, Debug, PartialEq, Eq, Structural, PartialOrd, Ord, Hash)]
pub struct Token(pub usize);

/// A set of readiness event kinds, held as a bit mask.
#[derive(Copy, Clone, Debug, PartialEq, Eq, Structural, PartialOrd, Ord)]
pub struct EventKind(pub i32);

impl View for EventKind {
    type V = i32;

    open spec fn view(&self) -> i32 {
        self.0
    }
}

impl EventKind {
    /// Whether the readable bit is set.
    pub open spec fn has_readable(self) -> bool {
        self@ & READABLE != 0
    }

    /// Whether the writable bit is set.
    pub open spec fn has_writable(self) -> bool {
        self@ & WRITABLE != 0
    }

    /// Whether the error bit is set.
    pub open spec fn has_error(self) -> bool {
        self@ & ERROR != 0
    }

    /// Returns the empty `EventKind` set.
    pub fn empty() -> (kind: EventKind)
        ensures
            kind@ == 0,
    {
        EventKind(0)
    }

    /// Returns an `EventKind` representing readable readiness.
    pub fn readable() -> (kind: EventKind)
        ensures
            kind@ == READABLE,
    {
        EventKind(READABLE)
    }

    /// Returns an `EventKind` representing writable readiness.
    pub fn writable() -> (kind: EventKind)
        ensures
            kind@ == WRITABLE,
    {
        EventKind(WRITABLE)
    }

    /// Returns an `EventKind` representing error readiness.
    pub fn error() -> (kind: EventKind)
        ensures
            kind@ == ERROR,
    {
        EventKind(ERROR)
    }

    /// Returns an `EventKind` representing readiness for all operations.
    pub fn all() -> (kind: EventKind)
        ensures
            kind@ == READABLE | WRITABLE | ERROR,
            kind@ == 13,
    {
        assert(0x1i32 | 0x4i32 | 0x8i32 == 13i32) by (bit_vector);
        EventKind(READABLE | WRITABLE | ERROR)
    }

    /// Returns true if the set is empty.
    pub fn is_empty(&self) -> (b: bool)
        ensures
            b == (self@ == 0),
    {
        self.0 == 0
    }

    /// Returns true if the value includes readable readiness.
    pub fn is_readable(self) -> (b: bool)
        ensures
            b == self.has_readable(),
    {
        (self.0 & READABLE) != 0
    }

    /// Returns true if the value includes writable readiness.
    pub fn is_writable(self) -> (b: bool)
        ensures
            b == self.has_writable(),
    {
        (self.0 & WRITABLE) != 0
    }

    /// Returns true if the value includes error readiness.
    pub fn is_error(&self) -> (b: bool)
        ensures
            b == self.has_error(),
    {
        (self.0 & ERROR) != 0
    }

    /// Builds an `EventKind` from a raw bit mask, keeping every bit.
    pub fn from_int(val: i32) -> (kind: EventKind)
        ensures
            kind@ == val,
    {
        EventKind(val)
    }

    /// Returns the raw bit mask.
    pub fn as_int(&self) -> (val: i32)
        ensures
            val == self@,
    {
        self.0
    }

    /// The text that names the kinds in the set, joined by `" | "`, in the
    /// order readable, writable, error; empty for a set with none of them.
    pub open spec fn label_text(self) -> Seq<char> {
        let r = if self.has_readable() {
            "READABLE"@
        } else {
            Seq::<char>::empty()
        };
        let w = if self.has_writable() {
            if self.has_readable() {
                " | WRITABLE"@
            } else {
                "WRITABLE"@
            }
        } else {
            Seq::<char>::empty()
        };
        let e = if self.has_error() {
            if self.has_readable() || self.has_writable() {
                " | ERROR"@
            } else {
                "ERROR"@
            }
        } else {
            Seq::<char>::empty()
        };
        r + w + e
    }

    /// Names the kinds in the set, as `READABLE | WRITABLE | ERROR` does for
    /// the full set.
    pub fn label(&self) -> (s: String)
        ensures
            s@ == self.label_text(),
    {
        let mut s = String::new();
        let mut one = false;
        if self.is_readable() {
            s.append("READABLE");
            one = true;
        }
        if self.is_writable() {
            if one {
                s.append(" | ");
                s.append("WRITABLE");
                proof {
                    reveal_strlit(" | ");
                    reveal_strlit("WRITABLE");
                    reveal_strlit(" | WRITABLE");
                    assert(" | "@ + "WRITABLE"@ =~= " | WRITABLE"@);
                }
            } else {
                s.append("WRITABLE");
            }
            one = true;
        }
        if self.is_error() {
            if one {
                s.append(" | ");
                s.append("ERROR");
                proof {
                    reveal_strlit(" | ");
                    reveal_strlit("ERROR");
                    reveal_strlit(" | ERROR");
                    assert(" | "@ + "ERROR"@ =~= " | ERROR"@);
                }
            } else {
                s.append("ERROR");
            }
        }
        assert(s@ =~= self.label_text());
        s
    }
}

impl core::ops::BitOr for EventKind {
    type Output = Self;

    fn bitor(self, other: Self) -> (kind: Self) {
        EventKind(self.0 | other.0)
    }
}

impl vstd::std_specs::ops::BitOrSpecImpl for EventKind {
    open spec fn obeys_bitor_spec() -> bool {
        true
    }

    open spec fn bitor_req(self, other: Self) -> bool {
        true
    }

    open spec fn bitor_spec(self, other: Self) -> Self {
        EventKind(self.0 | other.0)
    }
}

impl core::ops::BitOrAssign for EventKind {
    fn bitor_assign(&mut self, other: Self)
        ensures
            *final(self) == EventKind(old(self).0 | other.0),
    {
        self.0 = self.0 | other.0;
    }
}

impl core::ops::BitAndAssign for EventKind {
    fn bitand_assign(&mut self, other: Self)
        ensures
            *final(self) == EventKind(old(self).0 & other.0),
    {
        self.0 = self.0 & other.0;
    }
}

impl core::ops::BitAnd for EventKind {
    type Output = Self;

    fn bitand(self, other: Self) -> (kind: Self) {
        EventKind(self.0 & other.0)
    }
}

impl vstd::std_specs::ops::BitAndSpecImpl for EventKind {
    open spec fn obeys_bitand_spec() -> bool {
        true
    }

    open spec fn bitand_req(self, other: Self) -> bool {
        true
    }

    open spec fn bitand_spec(self, other: Self) -> Self {
        EventKind(self.0 & other.0)
    }
}

/// An event that a poll reported: the token of the registration and the kinds
/// of readiness.
#[derive(Copy, Clone, Debug, PartialEq, Eq, Structural)]
pub struct Event {
    pub token: Token,
    pub kind: EventKind,
}

impl Event {
    /// Builds an event from its parts.
    pub fn new(token: Token, kind: EventKind) -> (event: Event)
        ensures
            event == (Event { token, kind }),
    {
        Event { token, kind }
    }

    /// The token of the registration that the event is for.
    pub fn token(&self) -> (token: Token)
        ensures
            token == self.token,
    {
        self.token
    }

    /// The kinds of readiness that the event reports.
    pub fn kind(&self) -> (kind: EventKind)
        ensures
            kind == self.kind,
    {
        self.kind
    }
}

/// An ordered, reusable buffer of readiness events, made to hold a given number of them.
pub struct Events {
    events: Vec<Event>,
    room: usize,
}

impl View for Events {
    type V = Seq<Event>;

    closed spec fn view(&self) -> Seq<Event> {
        self.events@
    }
}

/// `Vec::capacity`: the number of elements the vector can hold without
/// reallocating, which is never less than its length.
#[verifier::external_body]
fn vec_capacity(v: &Vec<Event>) -> (c: usize)
    ensures
        c >= v@.len(),
{
    v.capacity()
}

impl Events {
    /// Returns an empty buffer made to hold `u` events: its capacity is `u` or more.
    pub fn with_capacity(u: usize) -> (events: Events)
        ensures
            events@ == Seq::<Event>::empty(),
            events.room() == u,
    {
        Events { events: Vec::with_capacity(u), room: u }
    }

    /// Returns the number of events the buffer can hold without growing:
    /// what its vector reports, which is no less than the number of events in
    /// it, and in no case less than the room that the buffer was made with.
    pub fn capacity(&self) -> (c: usize)
        ensures
            c >= self@.len(),
            c >= self.room(),
    {
        let c = vec_capacity(&self.events);
        if c < self.room {
            self.room
        } else {
            c
        }
    }

    /// The number of events that the buffer was made to hold.
    pub closed spec fn room(&self) -> usize {
        self.room
    }

    /// Returns the number of events in the buffer.
    pub fn len(&self) -> (n: usize)
        ensures
            n == self@.len(),
    {
        self.events.len()
    }

    /// Returns `true` if the buffer holds no event.
    pub fn is_empty(&self) -> (b: bool)
        ensures
            b == (self@.len() == 0),
    {
        self.events.len() == 0
    }

    /// Returns a cursor over the events, first to last.
    pub fn iter(&self) -> (it: Iter<'_>)
        ensures
            it.remaining() == self@,
    {
        Iter { events: &self.events, pos: 0 }
    }

    /// Returns the event at `idx`, if there is one.
    pub fn get(&self, idx: usize) -> (event: Option<Event>)
        ensures
            idx < self@.len() ==> event == Some(self@[idx as int]),
            idx >= self@.len() ==> event.is_none(),
    {
        if idx < self.events.len() {
            Some(self.events[idx])
        } else {
            None
        }
    }

    /// Adds an event at the end.
    pub fn push(&mut self, event: Event)
        ensures
            final(self)@ == old(self)@.push(event),
            final(self).room() == old(self).room(),
    {
        self.events.push(event);
    }

    /// Moves every event of `events` to the end of this buffer, in order, and
    /// leaves `events` empty.
    pub fn append(&mut self, events: &mut Events)
        ensures
            final(self)@ == old(self)@ + old(events)@,
            final(events)@ == Seq::<Event>::empty(),
            final(self).room() == old(self).room(),
            final(events).room() == old(events).room(),
    {
        self.events.append(&mut events.events);
    }

    /// Removes every event.
    pub fn clear(&mut self)
        ensures
            final(self)@ == Seq::<Event>::empty(),
            final(self).room() == old(self).room(),
    {
        self.events.clear();
    }
}

/// A cursor over the events of an [`Events`] buffer.
#[derive(Debug, Clone)]
pub struct Iter<'a> {
    events: &'a Vec<Event>,
    pos: usize,
}

impl<'a> Iter<'a> {
    /// The events that the cursor has not handed out yet.
    pub closed spec fn remaining(&self) -> Seq<Event> {
        if self.pos <= self.events@.len() {
            self.events@.skip(self.pos as int)
        } else {
            Seq::empty()
        }
    }

    /// Hands out the next event, or `None` once all were handed out.
    pub fn next(&mut self) -> (event: Option<Event>)
        ensures
            old(self).remaining().len() > 0 ==> event == Some(old(self).remaining()[0])
                && final(self).remaining() == old(self).remaining().drop_first(),
            old(self).remaining().len() == 0 ==> event.is_none() && final(self).remaining()
                == old(self).remaining(),
    {
        if self.pos < self.events.len() {
            let event = self.events[self.pos];
            self.pos = self.pos + 1;
            assert(self.remaining() =~= old(self).remaining().drop_first());
            Some(event)
        } else {
            None
        }
    }
}

} // verus!

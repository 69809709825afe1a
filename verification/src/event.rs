//! The normalized event model: event kinds, the two-byte event payload, the
//! event record, and the FIFO queue that carries events from a native backend
//! to the application.

use std::collections::VecDeque;
use vstd::prelude::*;

verus! {

/// The closed set of normalized event kinds. `NoEvent` is the catch-all for
/// unrecognized native notifications; an event of kind `NoEvent` is never
/// enqueued.
#[derive(Clone, Copy, Debug, PartialEq, Eq, Structural)]
pub enum EventType {
    WinClose,
    WinShow,
    WinResize,
    KeyDown,
    KeyUp,
    MouseMove,
    MouseWheel,
    MouseLeftBtnDown,
    MouseMidBtnDown,
    MouseRightBtnDown,
    MouseLeftBtnUp,
    MouseMidBtnUp,
    MouseRightBtnUp,
    NoEvent,
}

/// The signed 16-bit reading of a payload's raw bits (two's complement).
pub open spec fn signed_view(bits: u16) -> int {
    if bits < 0x8000 {
        bits as int
    } else {
        bits as int - 0x10000
    }
}

/// The raw bits that hold a signed 16-bit value (two's complement).
pub open spec fn bits_of_signed(s: int) -> int {
    if s >= 0 {
        s
    } else {
        s + 0x10000
    }
}

/// A two-byte event payload, readable as either an unsigned or a signed
/// 16-bit value depending on the event kind. The default payload is zero.
#[derive(Clone, Copy, Debug, PartialEq, Eq, Structural)]
pub struct EventData {
    pub bits: u16,
}

impl EventData {
    /// The zero payload.
    pub fn zero() -> (r: EventData)
        ensures
            r.bits == 0,
    {
        EventData { bits: 0 }
    }

    /// A payload carrying an unsigned 16-bit value.
    pub fn from_unsigned(u: u16) -> (r: EventData)
        ensures
            r.bits == u,
    {
        EventData { bits: u }
    }

    /// A payload carrying a signed 16-bit value.
    pub fn from_signed(s: i16) -> (r: EventData)
        ensures
            r.bits == bits_of_signed(s as int),
            signed_view(r.bits) == s as int,
    {
        if s >= 0 {
            EventData { bits: s as u16 }
        } else {
            EventData { bits: ((s as i32) + 0x10000) as u16 }
        }
    }

    /// The unsigned 16-bit reading of the payload.
    pub fn unsigned(&self) -> (r: u16)
        ensures
            r == self.bits,
    {
        self.bits
    }

    /// The signed 16-bit reading of the payload.
    pub fn signed(&self) -> (r: i16)
        ensures
            r as int == signed_view(self.bits),
    {
        if self.bits < 0x8000 {
            self.bits as i16
        } else {
            ((self.bits as i32) - 0x10000) as i16
        }
    }
}

impl Default for EventData {
    /// The default payload is the zero value.
    fn default() -> (r: EventData)
        ensures
            r.bits == 0,
    {
        EventData { bits: 0 }
    }
}

/// One normalized event: a kind and two small payload slots.
#[derive(Clone, Copy, Debug, PartialEq, Eq, Structural)]
pub struct Event {
    pub e_type: EventType,
    pub data0: EventData,
    pub data1: EventData,
}

impl Event {
    /// An event of the given kind with the default (zero) payload.
    pub fn plain(e_type: EventType) -> (r: Event)
        ensures
            r == (Event { e_type, data0: EventData { bits: 0 }, data1: EventData { bits: 0 } }),
    {
        Event { e_type, data0: EventData { bits: 0 }, data1: EventData { bits: 0 } }
    }
}

/// The FIFO event queue: the backend appends at the back during a pump, the
/// application drains from the front afterwards, in arrival order.
pub struct EventDeque {
    items: VecDeque<Event>,
}

impl View for EventDeque {
    type V = Seq<Event>;

    closed spec fn view(&self) -> Seq<Event> {
        self.items@
    }
}

impl EventDeque {
    /// An empty queue.
    pub fn new() -> (r: EventDeque)
        ensures
            r@ == Seq::<Event>::empty(),
    {
        EventDeque { items: VecDeque::new() }
    }

    /// The number of queued events.
    pub fn len(&self) -> (r: usize)
        ensures
            r == self@.len(),
    {
        self.items.len()
    }

    /// Whether the queue holds no event.
    pub fn is_empty(&self) -> (r: bool)
        ensures
            r == (self@.len() == 0),
    {
        self.items.len() == 0
    }

    /// Appends one event at the back of the queue.
    pub fn push_back(&mut self, e: Event)
        ensures
            final(self)@ == old(self)@.push(e),
    {
        self.items.push_back(e);
    }

    /// Removes and returns the event at the front of the queue, if any:
    /// the oldest one still queued.
    pub fn pop_front(&mut self) -> (r: Option<Event>)
        ensures
            match r {
                Some(e) => {
                    &&& old(self)@.len() > 0
                    &&& e == old(self)@[0]
                    &&& final(self)@ == old(self)@.subrange(1, old(self)@.len() as int)
                },
                None => {
                    &&& old(self)@.len() == 0
                    &&& final(self)@ == old(self)@
                },
            },
    {
        self.items.pop_front()
    }
}

impl Default for EventDeque {
    /// The default queue is empty.
    fn default() -> (r: EventDeque)
        ensures
            r@ == Seq::<Event>::empty(),
    {
        EventDeque { items: VecDeque::new() }
    }
}

/// The queue is first-in, first-out: appending events onto any queue state
/// puts them at the back in order, and draining a queue that holds exactly
/// those events returns them in the order they were pushed, leaving the
/// queue empty.
pub proof fn lemma_fifo_order(s: Seq<Event>, e1: Event, e2: Event, e3: Event)
    ensures
        s.push(e1).push(e2).push(e3) =~= s + seq![e1, e2, e3],
        ({
            let t = seq![e1, e2, e3];
            &&& t[0] == e1
            &&& t.subrange(1, 3)[0] == e2
            &&& t.subrange(1, 3).subrange(1, 2)[0] == e3
            &&& t.subrange(1, 3).subrange(1, 2).subrange(1, 1) =~= Seq::<Event>::empty()
        }),
{
    assert(seq![e1, e2, e3].subrange(1, 3) =~= seq![e2, e3]);
    assert(seq![e2, e3].subrange(1, 2) =~= seq![e3]);
}

} // verus!

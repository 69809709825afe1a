//! Translation logic of the connection/poll backend: the dispatch table over
//! the polled notification's type code (its low 7 bits), the recognized
//! button indices, the close-protocol client-message check against the
//! interned delete-window atom, and the pump that appends zero or one event
//! per pending notification in arrival order. The non-blocking poll itself
//! and the release of each notification's backing memory live outside this
//! crate; they hand the plain fields of each notification to the functions
//! here.

use crate::event::{Event, EventData, EventDeque, EventType, bits_of_signed};
use vstd::prelude::*;

verus! {

/// Notification type code: a key went down.
pub const CONN_KEY_PRESS: u8 = 2;

/// Notification type code: a key went up.
pub const CONN_KEY_RELEASE: u8 = 3;

/// Notification type code: a pointer button went down.
pub const CONN_BUTTON_PRESS: u8 = 4;

/// Notification type code: a pointer button went up.
pub const CONN_BUTTON_RELEASE: u8 = 5;

/// Notification type code: the pointer moved.
pub const CONN_MOTION_NOTIFY: u8 = 6;

/// Notification type code: a client message arrived (the close protocol
/// comes this way).
pub const CONN_CLIENT_MESSAGE: u8 = 33;

/// Button index of the left pointer button.
pub const CONN_BUTTON_LEFT: u8 = 1;

/// Button index of the middle pointer button.
pub const CONN_BUTTON_MIDDLE: u8 = 2;

/// Button index of the right pointer button.
pub const CONN_BUTTON_RIGHT: u8 = 3;

/// Event-mask bit: key press.
pub const CONN_MASK_KEY_PRESS: u32 = 0x1;

/// Event-mask bit: key release.
pub const CONN_MASK_KEY_RELEASE: u32 = 0x2;

/// Event-mask bit: button press.
pub const CONN_MASK_BUTTON_PRESS: u32 = 0x4;

/// Event-mask bit: button release.
pub const CONN_MASK_BUTTON_RELEASE: u32 = 0x8;

/// Event-mask bit: pointer motion.
pub const CONN_MASK_POINTER_MOTION: u32 = 0x40;

/// Event-mask bit: exposure.
pub const CONN_MASK_EXPOSURE: u32 = 0x8000;

/// Event-mask bit: structure notify.
pub const CONN_MASK_STRUCTURE_NOTIFY: u32 = 0x20000;

/// The event mask a window is created with: only notifications under these
/// bits are ever observed.
pub const CONN_EVENT_MASK: u32 = CONN_MASK_KEY_PRESS | CONN_MASK_KEY_RELEASE
    | CONN_MASK_BUTTON_PRESS | CONN_MASK_BUTTON_RELEASE | CONN_MASK_POINTER_MOTION
    | CONN_MASK_EXPOSURE | CONN_MASK_STRUCTURE_NOTIFY;

/// The plain fields of one polled native notification, by its type code.
/// Key notifications carry the symbol already looked up from the
/// device-dependent detail code (the lookup is the display's, outside this
/// crate); motion carries the root-relative coordinates; button
/// notifications carry the button index; a client message carries its first
/// data word. `Unrecognized` stands for every type code outside the
/// dispatch table.
#[derive(Clone, Copy, Debug, PartialEq, Eq, Structural)]
pub enum ConnNotification {
    KeyPress { keysym: u16 },
    KeyRelease { keysym: u16 },
    Motion { root_x: i16, root_y: i16 },
    ButtonPress { button: u8 },
    ButtonRelease { button: u8 },
    ClientMessage { word0: u32 },
    Unrecognized,
}

/// Masks a notification's raw response-type field down to its type code:
/// the low 7 bits select the translation case.
pub fn conn_event_code(response_type: u8) -> (r: u8)
    ensures
        r == response_type % 128,
{
    proof {
        assert(response_type & 0x7F == response_type % 128) by (bit_vector);
    }
    response_type & 0x7F
}

/// The translation of one notification, given the interned delete-window
/// atom: which event, if any, it amounts to. A client message closes the
/// window exactly when its first data word equals the delete-window atom;
/// only the left, middle and right button indices are recognized.
pub open spec fn spec_translate_conn(ev: ConnNotification, wm_delete_win: u32) -> Option<Event> {
    match ev {
        ConnNotification::KeyPress { keysym } => Some(
            Event {
                e_type: EventType::KeyDown,
                data0: EventData { bits: keysym },
                data1: EventData { bits: 0 },
            },
        ),
        ConnNotification::KeyRelease { keysym } => Some(
            Event {
                e_type: EventType::KeyUp,
                data0: EventData { bits: keysym },
                data1: EventData { bits: 0 },
            },
        ),
        ConnNotification::Motion { root_x, root_y } => Some(
            Event {
                e_type: EventType::MouseMove,
                data0: EventData { bits: bits_of_signed(root_x as int) as u16 },
                data1: EventData { bits: bits_of_signed(root_y as int) as u16 },
            },
        ),
        ConnNotification::ButtonPress { button } => {
            if button == CONN_BUTTON_LEFT {
                Some(
                    Event {
                        e_type: EventType::MouseLeftBtnDown,
                        data0: EventData { bits: 0 },
                        data1: EventData { bits: 0 },
                    },
                )
            } else if button == CONN_BUTTON_MIDDLE {
                Some(
                    Event {
                        e_type: EventType::MouseMidBtnDown,
                        data0: EventData { bits: 0 },
                        data1: EventData { bits: 0 },
                    },
                )
            } else if button == CONN_BUTTON_RIGHT {
                Some(
                    Event {
                        e_type: EventType::MouseRightBtnDown,
                        data0: EventData { bits: 0 },
                        data1: EventData { bits: 0 },
                    },
                )
            } else {
                None
            }
        },
        ConnNotification::ButtonRelease { button } => {
            if button == CONN_BUTTON_LEFT {
                Some(
                    Event {
                        e_type: EventType::MouseLeftBtnUp,
                        data0: EventData { bits: 0 },
                        data1: EventData { bits: 0 },
                    },
                )
            } else if button == CONN_BUTTON_MIDDLE {
                Some(
                    Event {
                        e_type: EventType::MouseMidBtnUp,
                        data0: EventData { bits: 0 },
                        data1: EventData { bits: 0 },
                    },
                )
            } else if button == CONN_BUTTON_RIGHT {
                Some(
                    Event {
                        e_type: EventType::MouseRightBtnUp,
                        data0: EventData { bits: 0 },
                        data1: EventData { bits: 0 },
                    },
                )
            } else {
                None
            }
        },
        ConnNotification::ClientMessage { word0 } => {
            if word0 == wm_delete_win {
                Some(
                    Event {
                        e_type: EventType::WinClose,
                        data0: EventData { bits: 0 },
                        data1: EventData { bits: 0 },
                    },
                )
            } else {
                None
            }
        },
        ConnNotification::Unrecognized => None,
    }
}

/// Translates one polled notification into zero or one event.
pub fn translate_conn_event(ev: &ConnNotification, wm_delete_win: u32) -> (r: Option<Event>)
    ensures
        r == spec_translate_conn(*ev, wm_delete_win),
{
    match *ev {
        ConnNotification::KeyPress { keysym } => Some(
            Event {
                e_type: EventType::KeyDown,
                data0: EventData::from_unsigned(keysym),
                data1: EventData::zero(),
            },
        ),
        ConnNotification::KeyRelease { keysym } => Some(
            Event {
                e_type: EventType::KeyUp,
                data0: EventData::from_unsigned(keysym),
                data1: EventData::zero(),
            },
        ),
        ConnNotification::Motion { root_x, root_y } => Some(
            Event {
                e_type: EventType::MouseMove,
                data0: EventData::from_signed(root_x),
                data1: EventData::from_signed(root_y),
            },
        ),
        ConnNotification::ButtonPress { button } => {
            if button == CONN_BUTTON_LEFT {
                Some(Event::plain(EventType::MouseLeftBtnDown))
            } else if button == CONN_BUTTON_MIDDLE {
                Some(Event::plain(EventType::MouseMidBtnDown))
            } else if button == CONN_BUTTON_RIGHT {
                Some(Event::plain(EventType::MouseRightBtnDown))
            } else {
                None
            }
        },
        ConnNotification::ButtonRelease { button } => {
            if button == CONN_BUTTON_LEFT {
                Some(Event::plain(EventType::MouseLeftBtnUp))
            } else if button == CONN_BUTTON_MIDDLE {
                Some(Event::plain(EventType::MouseMidBtnUp))
            } else if button == CONN_BUTTON_RIGHT {
                Some(Event::plain(EventType::MouseRightBtnUp))
            } else {
                None
            }
        },
        ConnNotification::ClientMessage { word0 } => {
            if word0 == wm_delete_win {
                Some(Event::plain(EventType::WinClose))
            } else {
                None
            }
        },
        ConnNotification::Unrecognized => None,
    }
}

/// The events one translation emits: one or none.
pub open spec fn emitted(r: Option<Event>) -> Seq<Event> {
    match r {
        Some(e) => seq![e],
        None => Seq::empty(),
    }
}

/// The queue contents after pumping a run of pending notifications, in
/// arrival order, onto a starting queue state.
pub open spec fn spec_pump(
    q: Seq<Event>,
    evs: Seq<ConnNotification>,
    wm_delete_win: u32,
) -> Seq<Event>
    decreases evs.len(),
{
    if evs.len() == 0 {
        q
    } else {
        spec_pump(
            q + emitted(spec_translate_conn(evs[0], wm_delete_win)),
            evs.subrange(1, evs.len() as int),
            wm_delete_win,
        )
    }
}

/// Handles one polled notification against the queue: appends its
/// translation, if it has one.
pub fn process_notification(q: &mut EventDeque, ev: &ConnNotification, wm_delete_win: u32)
    ensures
        final(q)@ == old(q)@ + emitted(spec_translate_conn(*ev, wm_delete_win)),
{
    match translate_conn_event(ev, wm_delete_win) {
        Some(e) => {
            q.push_back(e);
            proof {
                assert(old(q)@.push(e) =~= old(q)@ + seq![e]);
            }
        },
        None => {
            proof {
                assert(old(q)@ =~= old(q)@ + Seq::<Event>::empty());
            }
        },
    }
}

/// Pumps a run of pending notifications: appends zero or one event per
/// notification, preserving arrival order. With no pending notification the
/// queue is left unchanged.
pub fn pump_conn_events(q: &mut EventDeque, evs: &Vec<ConnNotification>, wm_delete_win: u32)
    ensures
        final(q)@ == spec_pump(old(q)@, evs@, wm_delete_win),
        evs@.len() == 0 ==> final(q)@ == old(q)@,
{
    let n = evs.len();
    let mut i: usize = 0;
    proof {
        assert(evs@.subrange(0, n as int) =~= evs@);
    }
    while i < n
        invariant
            i <= n,
            n == evs@.len(),
            spec_pump(old(q)@, evs@, wm_delete_win) == spec_pump(
                q@,
                evs@.subrange(i as int, n as int),
                wm_delete_win,
            ),
        decreases n - i,
    {
        proof {
            let rest = evs@.subrange(i as int, n as int);
            assert(rest[0] == evs@[i as int]);
            assert(rest.subrange(1, rest.len() as int) =~= evs@.subrange(i as int + 1, n as int));
        }
        process_notification(q, &evs[i], wm_delete_win);
        i += 1;
    }
    proof {
        assert(evs@.subrange(n as int, n as int) =~= Seq::<ConnNotification>::empty());
    }
}

/// The close protocol: a client message closes the window exactly when its
/// first data word equals the interned delete-window atom, and the one event
/// it then produces is a close event with the default (zero) payload; any
/// other first word produces no event.
pub proof fn lemma_client_message_close(word0: u32, wm_delete_win: u32)
    ensures
        (word0 == wm_delete_win ==> spec_translate_conn(
            ConnNotification::ClientMessage { word0 },
            wm_delete_win,
        ) == Some(
            (Event {
                e_type: EventType::WinClose,
                data0: EventData { bits: 0 },
                data1: EventData { bits: 0 },
            }),
        )),
        (word0 != wm_delete_win ==> spec_translate_conn(
            ConnNotification::ClientMessage { word0 },
            wm_delete_win,
        ) is None),
{
}

} // verus!

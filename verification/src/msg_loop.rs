//! Translation logic of the message-loop backend: the table from native
//! message codes to event kinds, the payload unpacking (packed coordinates,
//! wheel delta), and the per-message decision the native callback carries
//! out. The callback itself has a fixed native signature and lives outside
//! this crate; it hands the plain message words to `handle_message` and
//! performs the action that comes back.

use crate::event::{Event, EventData, EventDeque, EventType, signed_view};
use vstd::prelude::*;

verus! {

/// Native message code: a window is asked to close.
pub const MSG_CLOSE: u32 = 0x0010;

/// Native message code: a window is shown or hidden.
pub const MSG_SHOW_WINDOW: u32 = 0x0018;

/// Native message code: a window's size changed.
pub const MSG_SIZE: u32 = 0x0005;

/// Native message code: a key went down.
pub const MSG_KEY_DOWN: u32 = 0x0100;

/// Native message code: a key went up.
pub const MSG_KEY_UP: u32 = 0x0101;

/// Native message code: a key went down while the system menu was active.
pub const MSG_SYS_KEY_DOWN: u32 = 0x0104;

/// Native message code: a key went up while the system menu was active.
pub const MSG_SYS_KEY_UP: u32 = 0x0105;

/// Native message code: the mouse moved.
pub const MSG_MOUSE_MOVE: u32 = 0x0200;

/// Native message code: the mouse wheel turned.
pub const MSG_MOUSE_WHEEL: u32 = 0x020A;

/// Native message code: the left mouse button went down.
pub const MSG_LBUTTON_DOWN: u32 = 0x0201;

/// Native message code: the left mouse button went up.
pub const MSG_LBUTTON_UP: u32 = 0x0202;

/// Native message code: the middle mouse button went down.
pub const MSG_MBUTTON_DOWN: u32 = 0x0207;

/// Native message code: the middle mouse button went up.
pub const MSG_MBUTTON_UP: u32 = 0x0208;

/// Native message code: the right mouse button went down.
pub const MSG_RBUTTON_DOWN: u32 = 0x0204;

/// Native message code: the right mouse button went up.
pub const MSG_RBUTTON_UP: u32 = 0x0205;

/// Native message code: a window was just created.
pub const MSG_CREATE: u32 = 0x0001;

/// Native message code: a window is being destroyed.
pub const MSG_DESTROY: u32 = 0x0002;

/// Native message code: a window's background should be erased.
pub const MSG_ERASE_BACKGROUND: u32 = 0x0014;

/// The translation table from a native message code to an event kind.
/// Every code outside the table yields `EventType::NoEvent`.
pub open spec fn event_type_of_msg(msg: u32) -> EventType {
    if msg == MSG_CLOSE {
        EventType::WinClose
    } else if msg == MSG_SHOW_WINDOW {
        EventType::WinShow
    } else if msg == MSG_SIZE {
        EventType::WinResize
    } else if msg == MSG_KEY_DOWN || msg == MSG_SYS_KEY_DOWN {
        EventType::KeyDown
    } else if msg == MSG_KEY_UP || msg == MSG_SYS_KEY_UP {
        EventType::KeyUp
    } else if msg == MSG_MOUSE_MOVE {
        EventType::MouseMove
    } else if msg == MSG_MOUSE_WHEEL {
        EventType::MouseWheel
    } else if msg == MSG_LBUTTON_DOWN {
        EventType::MouseLeftBtnDown
    } else if msg == MSG_MBUTTON_DOWN {
        EventType::MouseMidBtnDown
    } else if msg == MSG_RBUTTON_DOWN {
        EventType::MouseRightBtnDown
    } else if msg == MSG_LBUTTON_UP {
        EventType::MouseLeftBtnUp
    } else if msg == MSG_MBUTTON_UP {
        EventType::MouseMidBtnUp
    } else if msg == MSG_RBUTTON_UP {
        EventType::MouseRightBtnUp
    } else {
        EventType::NoEvent
    }
}

impl core::convert::From<u32> for EventType {
    /// Translates a native message code through the translation table.
    fn from(msg: u32) -> (r: EventType)
        ensures
            r == event_type_of_msg(msg),
    {
        if msg == MSG_CLOSE {
            EventType::WinClose
        } else if msg == MSG_SHOW_WINDOW {
            EventType::WinShow
        } else if msg == MSG_SIZE {
            EventType::WinResize
        } else if msg == MSG_KEY_DOWN || msg == MSG_SYS_KEY_DOWN {
            EventType::KeyDown
        } else if msg == MSG_KEY_UP || msg == MSG_SYS_KEY_UP {
            EventType::KeyUp
        } else if msg == MSG_MOUSE_MOVE {
            EventType::MouseMove
        } else if msg == MSG_MOUSE_WHEEL {
            EventType::MouseWheel
        } else if msg == MSG_LBUTTON_DOWN {
            EventType::MouseLeftBtnDown
        } else if msg == MSG_MBUTTON_DOWN {
            EventType::MouseMidBtnDown
        } else if msg == MSG_RBUTTON_DOWN {
            EventType::MouseRightBtnDown
        } else if msg == MSG_LBUTTON_UP {
            EventType::MouseLeftBtnUp
        } else if msg == MSG_MBUTTON_UP {
            EventType::MouseMidBtnUp
        } else if msg == MSG_RBUTTON_UP {
            EventType::MouseRightBtnUp
        } else {
            EventType::NoEvent
        }
    }
}

impl vstd::std_specs::convert::FromSpecImpl<u32> for EventType {
    open spec fn obeys_from_spec() -> bool {
        true
    }

    open spec fn from_spec(v: u32) -> EventType {
        event_type_of_msg(v)
    }
}

/// The low 16 bits of a native message word.
pub open spec fn low16(w: u32) -> u16 {
    (w % 0x10000) as u16
}

/// The high 16 bits of a native message word.
pub open spec fn high16(w: u32) -> u16 {
    (w / 0x10000) as u16
}

/// The wheel translation: a nonzero delta becomes a mouse-wheel event whose
/// first payload slot holds exactly the sign (+1 or -1, the magnitude is
/// discarded); a zero delta becomes no event.
pub open spec fn wheel_normalized(delta: int) -> Option<Event> {
    if delta > 0 {
        Some(
            Event {
                e_type: EventType::MouseWheel,
                data0: EventData { bits: 1 },
                data1: EventData { bits: 0 },
            },
        )
    } else if delta < 0 {
        Some(
            Event {
                e_type: EventType::MouseWheel,
                data0: EventData { bits: 0xFFFF },
                data1: EventData { bits: 0 },
            },
        )
    } else {
        None
    }
}

/// Normalizes a wheel delta: any positive magnitude maps to +1, any negative
/// magnitude maps to -1, and a zero delta produces no event.
pub fn wheel_event(delta: i16) -> (r: Option<Event>)
    ensures
        r == wheel_normalized(delta as int),
        (delta > 0 ==> (r matches Some(e) && e.e_type == EventType::MouseWheel && signed_view(
            e.data0.bits,
        ) == 1)),
        (delta < 0 ==> (r matches Some(e) && e.e_type == EventType::MouseWheel && signed_view(
            e.data0.bits,
        ) == -1)),
        (delta == 0 ==> r is None),
{
    if delta > 0 {
        Some(
            Event {
                e_type: EventType::MouseWheel,
                data0: EventData { bits: 1 },
                data1: EventData { bits: 0 },
            },
        )
    } else if delta < 0 {
        Some(
            Event {
                e_type: EventType::MouseWheel,
                data0: EventData { bits: 0xFFFF },
                data1: EventData { bits: 0 },
            },
        )
    } else {
        None
    }
}

/// What the native callback must do with one message, beyond enqueueing.
#[derive(Clone, Copy, Debug, PartialEq, Eq, Structural)]
pub enum ProcAction {
    /// Hand the message to the native default handler.
    RunDefault,
    /// Report the message handled with a nonzero result and skip the default
    /// handler: suppresses the default background erase.
    SuppressErase,
    /// Report the message handled with a zero result and skip the default
    /// handler: the close request was turned into an event.
    CloseHandled,
    /// Post the native quit signal, then report the message handled with a
    /// zero result.
    PostQuit,
}

/// The complete decision for one native message: the event to enqueue, if
/// any, and the action the callback must take.
#[derive(Clone, Copy, Debug, PartialEq, Eq)]
pub struct ProcDecision {
    pub event: Option<Event>,
    pub action: ProcAction,
}

/// The per-message decision of the native callback, over the plain message
/// words. `wparam` and `lparam` are the low 32 bits of the native arguments;
/// all payloads drawn from them sit in those bits.
pub open spec fn spec_proc_decision(msg: u32, wparam: u32, lparam: u32) -> ProcDecision {
    if msg == MSG_CREATE {
        ProcDecision { event: None, action: ProcAction::RunDefault }
    } else if msg == MSG_ERASE_BACKGROUND {
        ProcDecision { event: None, action: ProcAction::SuppressErase }
    } else if msg == MSG_CLOSE {
        ProcDecision {
            event: Some(
                Event {
                    e_type: EventType::WinClose,
                    data0: EventData { bits: 0 },
                    data1: EventData { bits: 0 },
                },
            ),
            action: ProcAction::CloseHandled,
        }
    } else if msg == MSG_DESTROY {
        ProcDecision { event: None, action: ProcAction::PostQuit }
    } else if msg == MSG_KEY_DOWN || msg == MSG_SYS_KEY_DOWN {
        ProcDecision {
            event: Some(
                Event {
                    e_type: EventType::KeyDown,
                    data0: EventData { bits: low16(wparam) },
                    data1: EventData { bits: 0 },
                },
            ),
            action: ProcAction::RunDefault,
        }
    } else if msg == MSG_KEY_UP || msg == MSG_SYS_KEY_UP {
        ProcDecision {
            event: Some(
                Event {
                    e_type: EventType::KeyUp,
                    data0: EventData { bits: low16(wparam) },
                    data1: EventData { bits: 0 },
                },
            ),
            action: ProcAction::RunDefault,
        }
    } else if msg == MSG_MOUSE_MOVE {
        ProcDecision {
            event: Some(
                Event {
                    e_type: EventType::MouseMove,
                    data0: EventData { bits: low16(lparam) },
                    data1: EventData { bits: high16(lparam) },
                },
            ),
            action: ProcAction::RunDefault,
        }
    } else if msg == MSG_MOUSE_WHEEL {
        ProcDecision {
            event: wheel_normalized(signed_view(high16(wparam))),
            action: ProcAction::RunDefault,
        }
    } else if msg == MSG_LBUTTON_DOWN {
        ProcDecision {
            event: Some(
                Event {
                    e_type: EventType::MouseLeftBtnDown,
                    data0: EventData { bits: 0 },
                    data1: EventData { bits: 0 },
                },
            ),
            action: ProcAction::RunDefault,
        }
    } else if msg == MSG_MBUTTON_DOWN {
        ProcDecision {
            event: Some(
                Event {
                    e_type: EventType::MouseMidBtnDown,
                    data0: EventData { bits: 0 },
                    data1: EventData { bits: 0 },
                },
            ),
            action: ProcAction::RunDefault,
        }
    } else if msg == MSG_RBUTTON_DOWN {
        ProcDecision {
            event: Some(
                Event {
                    e_type: EventType::MouseRightBtnDown,
                    data0: EventData { bits: 0 },
                    data1: EventData { bits: 0 },
                },
            ),
            action: ProcAction::RunDefault,
        }
    } else if msg == MSG_LBUTTON_UP {
        ProcDecision {
            event: Some(
                Event {
                    e_type: EventType::MouseLeftBtnUp,
                    data0: EventData { bits: 0 },
                    data1: EventData { bits: 0 },
                },
            ),
            action: ProcAction::RunDefault,
        }
    } else if msg == MSG_MBUTTON_UP {
        ProcDecision {
            event: Some(
                Event {
                    e_type: EventType::MouseMidBtnUp,
                    data0: EventData { bits: 0 },
                    data1: EventData { bits: 0 },
                },
            ),
            action: ProcAction::RunDefault,
        }
    } else if msg == MSG_RBUTTON_UP {
        ProcDecision {
            event: Some(
                Event {
                    e_type: EventType::MouseRightBtnUp,
                    data0: EventData { bits: 0 },
                    data1: EventData { bits: 0 },
                },
            ),
            action: ProcAction::RunDefault,
        }
    } else {
        ProcDecision { event: None, action: ProcAction::RunDefault }
    }
}

/// Splits off the low 16 bits of a message word.
pub fn split_low16(w: u32) -> (r: u16)
    ensures
        r == low16(w),
{
    (w % 0x10000) as u16
}

/// Splits off the high 16 bits of a message word.
pub fn split_high16(w: u32) -> (r: u16)
    ensures
        r == high16(w),
{
    (w / 0x10000) as u16
}

/// Decides what one native message amounts to: the event to enqueue, if
/// any, and the action the callback must take.
pub fn window_proc_decision(msg: u32, wparam: u32, lparam: u32) -> (r: ProcDecision)
    ensures
        r == spec_proc_decision(msg, wparam, lparam),
{
    if msg == MSG_CREATE {
        ProcDecision { event: None, action: ProcAction::RunDefault }
    } else if msg == MSG_ERASE_BACKGROUND {
        ProcDecision { event: None, action: ProcAction::SuppressErase }
    } else if msg == MSG_CLOSE {
        ProcDecision {
            event: Some(Event::plain(EventType::WinClose)),
            action: ProcAction::CloseHandled,
        }
    } else if msg == MSG_DESTROY {
        ProcDecision { event: None, action: ProcAction::PostQuit }
    } else if msg == MSG_KEY_DOWN || msg == MSG_SYS_KEY_DOWN {
        ProcDecision {
            event: Some(
                Event {
                    e_type: EventType::KeyDown,
                    data0: EventData::from_unsigned(split_low16(wparam)),
                    data1: EventData::zero(),
                },
            ),
            action: ProcAction::RunDefault,
        }
    } else if msg == MSG_KEY_UP || msg == MSG_SYS_KEY_UP {
        ProcDecision {
            event: Some(
                Event {
                    e_type: EventType::KeyUp,
                    data0: EventData::from_unsigned(split_low16(wparam)),
                    data1: EventData::zero(),
                },
            ),
            action: ProcAction::RunDefault,
        }
    } else if msg == MSG_MOUSE_MOVE {
        ProcDecision {
            event: Some(
                Event {
                    e_type: EventType::MouseMove,
                    data0: EventData::from_unsigned(split_low16(lparam)),
                    data1: EventData::from_unsigned(split_high16(lparam)),
                },
            ),
            action: ProcAction::RunDefault,
        }
    } else if msg == MSG_MOUSE_WHEEL {
        let delta = EventData::from_unsigned(split_high16(wparam)).signed();
        ProcDecision { event: wheel_event(delta), action: ProcAction::RunDefault }
    } else if msg == MSG_LBUTTON_DOWN {
        ProcDecision {
            event: Some(Event::plain(EventType::MouseLeftBtnDown)),
            action: ProcAction::RunDefault,
        }
    } else if msg == MSG_MBUTTON_DOWN {
        ProcDecision {
            event: Some(Event::plain(EventType::MouseMidBtnDown)),
            action: ProcAction::RunDefault,
        }
    } else if msg == MSG_RBUTTON_DOWN {
        ProcDecision {
            event: Some(Event::plain(EventType::MouseRightBtnDown)),
            action: ProcAction::RunDefault,
        }
    } else if msg == MSG_LBUTTON_UP {
        ProcDecision {
            event: Some(Event::plain(EventType::MouseLeftBtnUp)),
            action: ProcAction::RunDefault,
        }
    } else if msg == MSG_MBUTTON_UP {
        ProcDecision {
            event: Some(Event::plain(EventType::MouseMidBtnUp)),
            action: ProcAction::RunDefault,
        }
    } else if msg == MSG_RBUTTON_UP {
        ProcDecision {
            event: Some(Event::plain(EventType::MouseRightBtnUp)),
            action: ProcAction::RunDefault,
        }
    } else {
        ProcDecision { event: None, action: ProcAction::RunDefault }
    }
}

/// Handles one native message against the queue: enqueues the decided event,
/// if there is one, and returns the action the callback must take. An event
/// of kind `NoEvent` is never enqueued, and the queue only ever grows at the
/// back.
pub fn handle_message(q: &mut EventDeque, msg: u32, wparam: u32, lparam: u32) -> (action:
    ProcAction)
    ensures
        action == spec_proc_decision(msg, wparam, lparam).action,
        final(q)@ == (match spec_proc_decision(msg, wparam, lparam).event {
            Some(e) => old(q)@.push(e),
            None => old(q)@,
        }),
{
    let d = window_proc_decision(msg, wparam, lparam);
    match d.event {
        Some(e) => q.push_back(e),
        None => (),
    }
    d.action
}

/// Whatever one message decides, the event it enqueues (if any) has exactly
/// the kind the translation table gives its code, and a code outside the
/// table enqueues nothing.
pub proof fn lemma_decision_follows_table(msg: u32, wparam: u32, lparam: u32)
    ensures
        (spec_proc_decision(msg, wparam, lparam).event matches Some(e) ==> e.e_type
            == event_type_of_msg(msg) && e.e_type != EventType::NoEvent),
        (event_type_of_msg(msg) == EventType::NoEvent ==> spec_proc_decision(
            msg,
            wparam,
            lparam,
        ).event is None),
{
}

} // verus!

use rovella_platform::conn_poll::{
    conn_event_code, pump_conn_events, translate_conn_event, ConnNotification, CONN_BUTTON_PRESS,
    CONN_BUTTON_RELEASE, CONN_CLIENT_MESSAGE, CONN_EVENT_MASK, CONN_KEY_PRESS, CONN_KEY_RELEASE,
    CONN_MOTION_NOTIFY,
};
use rovella_platform::event::{EventDeque, EventType};
use rovella_platform::keys::Key;

const DELETE_ATOM: u32 = 0x01C3;

#[test]
fn type_code_is_low_seven_bits() {
    assert_eq!(conn_event_code(CONN_KEY_PRESS), 2);
    assert_eq!(conn_event_code(0x80 | CONN_KEY_PRESS), 2);
    assert_eq!(conn_event_code(CONN_CLIENT_MESSAGE), 33);
    assert_eq!(conn_event_code(0x80 | CONN_CLIENT_MESSAGE), 33);
    assert_eq!(conn_event_code(0xFF), 0x7F);
    assert_eq!(conn_event_code(CONN_KEY_RELEASE), 3);
    assert_eq!(conn_event_code(CONN_BUTTON_PRESS), 4);
    assert_eq!(conn_event_code(CONN_BUTTON_RELEASE), 5);
    assert_eq!(conn_event_code(CONN_MOTION_NOTIFY), 6);
}

#[test]
fn key_press_and_release_carry_the_symbol() {
    let e = translate_conn_event(&ConnNotification::KeyPress { keysym: 0xFF1B }, DELETE_ATOM)
        .unwrap();
    assert_eq!(e.e_type, EventType::KeyDown);
    assert_eq!(e.data0.unsigned(), 0xFF1B);
    assert_eq!(e.data1.bits, 0);
    assert_eq!(Key::from_keysym(e.data0.unsigned()), Key::Escape);

    let e = translate_conn_event(&ConnNotification::KeyRelease { keysym: 0x61 }, DELETE_ATOM)
        .unwrap();
    assert_eq!(e.e_type, EventType::KeyUp);
    assert_eq!(e.data0.unsigned(), 0x61);
}

#[test]
fn motion_copies_root_relative_coordinates() {
    let e = translate_conn_event(
        &ConnNotification::Motion {
            root_x: -100,
            root_y: 250,
        },
        DELETE_ATOM,
    )
    .unwrap();
    assert_eq!(e.e_type, EventType::MouseMove);
    assert_eq!(e.data0.signed(), -100);
    assert_eq!(e.data1.signed(), 250);
}

#[test]
fn only_buttons_one_two_three_are_recognized() {
    let down = [
        (1u8, EventType::MouseLeftBtnDown),
        (2, EventType::MouseMidBtnDown),
        (3, EventType::MouseRightBtnDown),
    ];
    for (button, kind) in down {
        let e = translate_conn_event(&ConnNotification::ButtonPress { button }, DELETE_ATOM)
            .unwrap();
        assert_eq!(e.e_type, kind);
        assert_eq!(e.data0.bits, 0);
        assert_eq!(e.data1.bits, 0);
    }
    let up = [
        (1u8, EventType::MouseLeftBtnUp),
        (2, EventType::MouseMidBtnUp),
        (3, EventType::MouseRightBtnUp),
    ];
    for (button, kind) in up {
        let e = translate_conn_event(&ConnNotification::ButtonRelease { button }, DELETE_ATOM)
            .unwrap();
        assert_eq!(e.e_type, kind);
    }
    for button in [0u8, 4, 5, 255] {
        assert_eq!(
            translate_conn_event(&ConnNotification::ButtonPress { button }, DELETE_ATOM),
            None
        );
        assert_eq!(
            translate_conn_event(&ConnNotification::ButtonRelease { button }, DELETE_ATOM),
            None
        );
    }
}

#[test]
fn client_message_with_delete_atom_closes() {
    let mut q = EventDeque::new();
    pump_conn_events(
        &mut q,
        &vec![ConnNotification::ClientMessage { word0: DELETE_ATOM }],
        DELETE_ATOM,
    );
    assert_eq!(q.len(), 1);
    let e = q.pop_front().unwrap();
    assert_eq!(e.e_type, EventType::WinClose);
    assert_eq!(e.data0.bits, 0);
    assert_eq!(e.data1.bits, 0);
    assert!(q.is_empty());
}

#[test]
fn client_message_with_other_word_produces_no_event() {
    assert_eq!(
        translate_conn_event(
            &ConnNotification::ClientMessage { word0: DELETE_ATOM + 1 },
            DELETE_ATOM
        ),
        None
    );
    let mut q = EventDeque::new();
    pump_conn_events(
        &mut q,
        &vec![ConnNotification::ClientMessage { word0: 7 }],
        DELETE_ATOM,
    );
    assert!(q.is_empty());
}

#[test]
fn unrecognized_notification_produces_no_event() {
    assert_eq!(
        translate_conn_event(&ConnNotification::Unrecognized, DELETE_ATOM),
        None
    );
}

#[test]
fn pump_with_no_pending_notifications_leaves_queue_unchanged() {
    let mut q = EventDeque::new();
    q.push_back(rovella_platform::event::Event::plain(EventType::WinShow));
    pump_conn_events(&mut q, &Vec::new(), DELETE_ATOM);
    assert_eq!(q.len(), 1);
    let e = q.pop_front().unwrap();
    assert_eq!(e.e_type, EventType::WinShow);
}

#[test]
fn pump_preserves_arrival_order_and_skips_untranslated() {
    let mut q = EventDeque::new();
    pump_conn_events(
        &mut q,
        &vec![
            ConnNotification::KeyPress { keysym: 0xFF1B },
            ConnNotification::ButtonPress { button: 9 },
            ConnNotification::Motion { root_x: 3, root_y: -4 },
            ConnNotification::Unrecognized,
            ConnNotification::ClientMessage { word0: DELETE_ATOM },
        ],
        DELETE_ATOM,
    );
    assert_eq!(q.len(), 3);
    assert_eq!(q.pop_front().unwrap().e_type, EventType::KeyDown);
    let m = q.pop_front().unwrap();
    assert_eq!(m.e_type, EventType::MouseMove);
    assert_eq!(m.data0.signed(), 3);
    assert_eq!(m.data1.signed(), -4);
    assert_eq!(q.pop_front().unwrap().e_type, EventType::WinClose);
}

#[test]
fn event_mask_covers_exactly_the_observed_notifications() {
    assert_eq!(CONN_EVENT_MASK, 0x1 | 0x2 | 0x4 | 0x8 | 0x40 | 0x8000 | 0x20000);
}

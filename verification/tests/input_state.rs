use std::collections::HashSet;

use ironrdp::pdu::input::fast_path::{FastPathInputEvent, KeyboardFlags};
use ironrdp::pdu::input::mouse::PointerFlags;
use ironrdp_input::Database;
use rustrdp::input::{
    key_pressed, key_released, mouse_move, translate_events, InputEvent, Key, Modifiers,
    MouseButton, Operation, PointerFocus, WheelRotations,
};
use rustrdp::input_state::{apply, apply_operation};

#[test]
fn keys_go_down_and_up() {
    let mut db = Database::new();
    let ops = vec![key_pressed(0xE048), key_released(0xE048), key_released(0xE048)];
    let events = apply(&mut db, &ops);
    assert_eq!(
        events,
        vec![
            FastPathInputEvent::KeyboardEvent(KeyboardFlags::EXTENDED, 0x48),
            FastPathInputEvent::KeyboardEvent(KeyboardFlags::EXTENDED | KeyboardFlags::RELEASE, 0x48),
        ]
    );
}

#[test]
fn repeated_keys_are_sent_again() {
    let mut db = Database::new();
    assert!(!apply_operation(&mut db, key_pressed(0x1E)).is_empty());
    assert!(!apply_operation(&mut db, key_pressed(0x1E)).is_empty());
}

#[test]
fn buttons_are_sent_once() {
    let mut db = Database::new();
    for button in [MouseButton::Left, MouseButton::Middle, MouseButton::Right, MouseButton::X1, MouseButton::X2] {
        assert!(apply_operation(&mut db, Operation::MouseButtonReleased(button)).is_empty());
        assert_eq!(apply_operation(&mut db, Operation::MouseButtonPressed(button)).len(), 1);
        assert!(apply_operation(&mut db, Operation::MouseButtonPressed(button)).is_empty());
        assert_eq!(apply_operation(&mut db, Operation::MouseButtonReleased(button)).len(), 1);
    }
}

#[test]
fn pointer_moves_are_sent_where_it_moves() {
    let mut db = Database::new();
    assert!(apply_operation(&mut db, mouse_move(0, 0)).is_empty());
    let events = apply_operation(&mut db, mouse_move(3, 4));
    match &events[0] {
        FastPathInputEvent::MouseEvent(pdu) => {
            assert_eq!((pdu.x_position, pdu.y_position), (3, 4));
            assert_eq!(pdu.flags, PointerFlags::MOVE);
        }
        other => panic!("{other:?}"),
    }
    assert!(apply_operation(&mut db, mouse_move(3, 4)).is_empty());
}

#[test]
fn wheel_turns_are_always_sent() {
    let mut db = Database::new();
    for is_vertical in [true, false] {
        let turn = Operation::WheelRotations(WheelRotations { is_vertical, rotation_units: -120 });
        assert_eq!(apply_operation(&mut db, turn).len(), 1);
        assert_eq!(apply_operation(&mut db, turn).len(), 1);
    }
}

#[test]
fn characters_go_down_and_up() {
    let mut db = Database::new();
    assert!(apply_operation(&mut db, Operation::UnicodeKeyReleased('ä')).is_empty());
    assert_eq!(
        apply_operation(&mut db, Operation::UnicodeKeyPressed('ä')),
        vec![FastPathInputEvent::UnicodeKeyboardEvent(KeyboardFlags::empty(), 0xE4)]
    );
    assert_eq!(
        apply_operation(&mut db, Operation::UnicodeKeyReleased('ä')),
        vec![FastPathInputEvent::UnicodeKeyboardEvent(KeyboardFlags::RELEASE, 0xE4)]
    );
}

#[test]
fn window_and_server_agree_on_the_keys_that_are_down() {
    let mut db = Database::new();
    let mut held = HashSet::new();
    let focus = PointerFocus { hovered: true, button_down: false };
    let modifiers = Modifiers { alt: true, ctrl: false, shift: true, command: false };
    let events = vec![
        InputEvent::Key { key: Key::A, pressed: true, modifiers },
        InputEvent::Text("A".into()),
        InputEvent::Key { key: Key::ArrowUp, pressed: true, modifiers },
        InputEvent::Key { key: Key::A, pressed: false, modifiers },
    ];
    let ops = translate_events(&events, focus, &mut held);
    apply(&mut db, &ops);
    for raw in (0..0x100u16).chain(0xE000..0xE100) {
        let scancode = ironrdp_input::Scancode::from_u16(raw);
        assert_eq!(db.is_key_pressed(scancode), held.contains(&raw), "{raw:x}");
    }
}

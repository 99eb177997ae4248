use std::collections::HashSet;

use rustrdp::input::{
    key_pressed, key_released, key_scancode, modifier_scancodes, mouse_button, mouse_move, scancode,
    translate_event, translate_events, wheel, InputEvent, Key, Modifiers, MouseButton,
    MousePosition, Operation, PointerButton, PointerFocus, Scancode, WheelRotations,
};

const HOVERED: PointerFocus = PointerFocus { hovered: true, button_down: false };
const AWAY: PointerFocus = PointerFocus { hovered: false, button_down: false };
const DRAGGED: PointerFocus = PointerFocus { hovered: false, button_down: true };
const NONE: Modifiers = Modifiers { alt: false, ctrl: false, shift: false, command: false };
const CTRL_SHIFT: Modifiers = Modifiers { alt: false, ctrl: true, shift: true, command: false };

fn key(key: Key, pressed: bool, modifiers: Modifiers) -> InputEvent {
    InputEvent::Key { key, pressed, modifiers }
}

fn down(code: u8) -> Operation {
    Operation::KeyPressed(Scancode { code, extended: false })
}

fn up(code: u8) -> Operation {
    Operation::KeyReleased(Scancode { code, extended: false })
}

#[test]
fn mouse_buttons_are_mapped() {
    assert_eq!(mouse_button(PointerButton::Primary), Some(MouseButton::Left));
    assert_eq!(mouse_button(PointerButton::Secondary), Some(MouseButton::Right));
    assert_eq!(mouse_button(PointerButton::Middle), Some(MouseButton::Middle));
    assert_eq!(mouse_button(PointerButton::Extra1), Some(MouseButton::X1));
    assert_eq!(mouse_button(PointerButton::Extra2), Some(MouseButton::X2));
}

#[test]
fn pointer_moves_are_absolute() {
    assert_eq!(mouse_move(3, 4), Operation::MouseMove(MousePosition { x: 3, y: 4 }));
}

#[test]
fn wheel_turns_vertically_first() {
    assert_eq!(wheel(None, None), vec![]);
    assert_eq!(
        wheel(Some(-120), Some(240)),
        vec![
            Operation::WheelRotations(WheelRotations { is_vertical: true, rotation_units: 240 }),
            Operation::WheelRotations(WheelRotations { is_vertical: false, rotation_units: -120 }),
        ]
    );
}

#[test]
fn scancodes_of_some_keys() {
    assert_eq!(key_scancode(Key::Escape), Some(0x01));
    assert_eq!(key_scancode(Key::A), Some(0x1E));
    assert_eq!(key_scancode(Key::ArrowUp), Some(0xE048));
    assert_eq!(key_scancode(Key::Other), None);
}

#[test]
fn raw_scancodes_are_split() {
    assert_eq!(scancode(0xE048), Scancode { code: 0x48, extended: true });
    assert_eq!(scancode(0x001E), Scancode { code: 0x1E, extended: false });
    assert_eq!(scancode(0xDFFF), Scancode { code: 0xFF, extended: false });
    assert_eq!(key_pressed(0xE048), Operation::KeyPressed(Scancode { code: 0x48, extended: true }));
    assert_eq!(key_released(0x1E), up(0x1E));
}

#[test]
fn every_raw_scancode_is_split_alike() {
    for raw in 0..=u16::MAX {
        let expected = Scancode { code: (raw & 0xff) as u8, extended: raw & 0xE000 == 0xE000 };
        assert_eq!(scancode(raw), expected);
    }
}

#[test]
fn modifiers_come_in_a_fixed_order() {
    assert_eq!(modifier_scancodes(&NONE), Vec::<u16>::new());
    let all = Modifiers { alt: true, ctrl: true, shift: true, command: true };
    assert_eq!(modifier_scancodes(&all), vec![0x2A, 0x1D, 0x38]);
    let command = Modifiers { alt: false, ctrl: false, shift: false, command: true };
    assert_eq!(modifier_scancodes(&command), vec![0x1D]);
}

#[test]
fn tap_under_modifiers_is_balanced() {
    let mut held = HashSet::new();
    let events = vec![key(Key::A, true, CTRL_SHIFT), key(Key::A, false, CTRL_SHIFT)];
    let ops = translate_events(&events, AWAY, &mut held);
    assert_eq!(ops, vec![down(0x2A), down(0x1D), down(0x1E), up(0x1E), up(0x2A), up(0x1D)]);
    assert!(held.is_empty());
}

#[test]
fn tap_among_held_keys_is_balanced() {
    let mut held = HashSet::from([0x38, 0xE048]);
    let events = vec![key(Key::A, true, CTRL_SHIFT), key(Key::A, false, CTRL_SHIFT)];
    let ops = translate_events(&events, AWAY, &mut held);
    assert_eq!(ops, vec![down(0x2A), down(0x1D), down(0x1E), up(0x1E), up(0x2A), up(0x1D)]);
    assert_eq!(held, HashSet::from([0x38, 0xE048]));
}

#[test]
fn held_modifiers_are_pressed_once() {
    let mut held = HashSet::new();
    let events = vec![key(Key::A, true, CTRL_SHIFT), key(Key::A, true, CTRL_SHIFT)];
    let ops = translate_events(&events, AWAY, &mut held);
    assert_eq!(ops, vec![down(0x2A), down(0x1D), down(0x1E), down(0x1E)]);
    assert_eq!(held, HashSet::from([0x2A, 0x1D, 0x1E]));
}

#[test]
fn modifiers_that_are_not_held_are_not_released() {
    let mut held = HashSet::from([0x1E]);
    let ops = translate_events(&vec![key(Key::A, false, CTRL_SHIFT)], AWAY, &mut held);
    assert_eq!(ops, vec![up(0x1E)]);
    assert!(held.is_empty());
}

#[test]
fn unknown_keys_still_press_modifiers() {
    let mut held = HashSet::new();
    let ops = translate_events(&vec![key(Key::Other, true, CTRL_SHIFT)], AWAY, &mut held);
    assert_eq!(ops, vec![down(0x2A), down(0x1D)]);
}

#[test]
fn pointer_events_need_focus() {
    let press = || InputEvent::PointerButton { button: PointerButton::Primary, pressed: true };
    let turn = || InputEvent::MouseWheel { horizontal: None, vertical: Some(120) };
    let mut held = HashSet::new();
    assert_eq!(translate_events(&vec![press(), turn()], AWAY, &mut held), vec![]);
    assert_eq!(
        translate_events(&vec![press(), turn()], DRAGGED, &mut held),
        vec![Operation::MouseButtonPressed(MouseButton::Left)]
    );
    assert_eq!(translate_events(&vec![press(), turn()], HOVERED, &mut held).len(), 2);
}

#[test]
fn text_is_typed_character_by_character() {
    let mut held = HashSet::from([7]);
    let mut ops = vec![mouse_move(0, 0)];
    translate_event(&InputEvent::Text("a€".into()), AWAY, &mut held, &mut ops);
    translate_event(&InputEvent::Other, AWAY, &mut held, &mut ops);
    assert_eq!(
        ops,
        vec![
            mouse_move(0, 0),
            Operation::UnicodeKeyPressed('a'),
            Operation::UnicodeKeyReleased('a'),
            Operation::UnicodeKeyPressed('€'),
            Operation::UnicodeKeyReleased('€'),
        ]
    );
    assert_eq!(held, HashSet::from([7]));
}

//! The window and the server agree on which keys and buttons are down.
use vstd::prelude::*;

use crate::input::{
    event_held, event_operations, held_after, key_down_operations, key_up_operations,
    modifier_codes, operations_for, presses_of_unheld, releases_of_held, scancode_from, scancode_of,
    text_operations, wheel_operations, without_key, InputEvent, Key, Modifiers, MouseButton,
    Operation, PointerButton, PointerFocus,
};
use crate::input_state::InputState;

verus! {

/// Whether a raw value is a scancode: a byte, or a byte behind the mark of an extended key.
pub open spec fn is_scancode(raw: u16) -> bool {
    raw < 0x100 || 0xE000 <= raw < 0xE100
}

/// The key that the server knows by a raw value.
pub open spec fn server_key(raw: u16) -> (bool, u8) {
    (scancode_from(raw).extended, scancode_from(raw).code)
}

/// Whether the scancodes that the window holds are the keys that are down for the server.
pub open spec fn mirrors(held: Set<u16>, keys: Set<(bool, u8)>) -> bool {
    forall|raw: u16|
        is_scancode(raw) ==> (#[trigger] held.contains(raw) <==> keys.contains(server_key(raw)))
}

proof fn lemma_key_scancodes(key: Key, modifiers: Modifiers)
    ensures
        scancode_of(key) matches Some(code) ==> is_scancode(code),
        forall|i: int|
            0 <= i < modifier_codes(modifiers).len() ==> is_scancode(
                #[trigger] modifier_codes(modifiers)[i],
            ),
{
}

proof fn lemma_press(held: Set<u16>, keys: Set<(bool, u8)>, code: u16)
    requires
        mirrors(held, keys),
        is_scancode(code),
    ensures
        mirrors(held.insert(code), keys.insert(server_key(code))),
        held.contains(code) ==> mirrors(held.insert(code), keys),
{
    assert(held.contains(code) ==> held.insert(code) =~= held);
}

proof fn lemma_release(held: Set<u16>, keys: Set<(bool, u8)>, code: u16)
    requires
        mirrors(held, keys),
        is_scancode(code),
    ensures
        mirrors(held.remove(code), keys.remove(server_key(code))),
        !held.contains(code) ==> mirrors(held.remove(code), keys),
{
    assert(!held.contains(code) ==> held.remove(code) =~= held);
}

proof fn lemma_after_push(state: InputState, operations: Seq<Operation>, operation: Operation)
    ensures
        state.after_all(operations.push(operation)) == state.after_all(operations).after(operation),
{
    assert(operations.push(operation).drop_last() == operations);
}

proof fn lemma_after_concat(state: InputState, first: Seq<Operation>, second: Seq<Operation>)
    ensures
        state.after_all(first + second) == state.after_all(first).after_all(second),
    decreases second.len(),
{
    if second.len() == 0 {
        assert(first + second == first);
    } else {
        assert((first + second).drop_last() == first + second.drop_last());
        lemma_after_concat(state, first, second.drop_last());
    }
}

proof fn lemma_set_of_push(codes: Seq<u16>)
    requires
        codes.len() > 0,
    ensures
        codes.to_set() == codes.drop_last().to_set().insert(codes.last()),
{
    let front = codes.drop_last();
    assert forall|c: u16| codes.to_set().contains(c) == front.to_set().insert(
        codes.last(),
    ).contains(c) by {
        if front.contains(c) {
            let k = choose|k: int| 0 <= k < front.len() && front[k] == c;
            assert(codes[k] == c);
        }
        if codes.contains(c) && c != codes.last() {
            let k = choose|k: int| 0 <= k < codes.len() && codes[k] == c;
            assert(front[k] == c);
        }
    }
    assert(codes.to_set() =~= front.to_set().insert(codes.last()));
}

proof fn lemma_presses(state: InputState, codes: Seq<u16>, held: Set<u16>)
    requires
        mirrors(held, state.keys),
        forall|i: int| 0 <= i < codes.len() ==> is_scancode(#[trigger] codes[i]),
    ensures
        mirrors(
            held.union(codes.to_set()),
            state.after_all(presses_of_unheld(codes, held)).keys,
        ),
    decreases codes.len(),
{
    reveal(Seq::filter);
    if codes.len() == 0 {
        assert(presses_of_unheld(codes, held) =~= Seq::empty());
        assert(held.union(codes.to_set()) =~= held);
    } else {
        let front = codes.drop_last();
        let last = codes.last();
        lemma_presses(state, front, held);
        lemma_set_of_push(codes);
        let before = held.union(front.to_set());
        let keys = state.after_all(presses_of_unheld(front, held)).keys;
        assert(is_scancode(codes[codes.len() - 1]));
        lemma_press(before, keys, last);
        assert(before.insert(last) =~= held.union(codes.to_set()));
        let press = Operation::KeyPressed(scancode_from(last));
        if held.contains(last) {
            assert(presses_of_unheld(codes, held) =~= presses_of_unheld(front, held));
        } else {
            assert(presses_of_unheld(codes, held) =~= presses_of_unheld(front, held).push(press));
            lemma_after_push(state, presses_of_unheld(front, held), press);
        }
    }
}

proof fn lemma_releases(state: InputState, codes: Seq<u16>, held: Set<u16>)
    requires
        mirrors(held, state.keys),
        forall|i: int| 0 <= i < codes.len() ==> is_scancode(#[trigger] codes[i]),
    ensures
        mirrors(
            held.difference(codes.to_set()),
            state.after_all(releases_of_held(codes, held)).keys,
        ),
    decreases codes.len(),
{
    reveal(Seq::filter);
    if codes.len() == 0 {
        assert(releases_of_held(codes, held) =~= Seq::empty());
        assert(held.difference(codes.to_set()) =~= held);
    } else {
        let front = codes.drop_last();
        let last = codes.last();
        lemma_releases(state, front, held);
        lemma_set_of_push(codes);
        let before = held.difference(front.to_set());
        let keys = state.after_all(releases_of_held(front, held)).keys;
        assert(is_scancode(codes[codes.len() - 1]));
        lemma_release(before, keys, last);
        assert(before.remove(last) =~= held.difference(codes.to_set()));
        let release = Operation::KeyReleased(scancode_from(last));
        if held.contains(last) {
            assert(releases_of_held(codes, held) =~= releases_of_held(front, held).push(release));
            lemma_after_push(state, releases_of_held(front, held), release);
        } else {
            assert(releases_of_held(codes, held) =~= releases_of_held(front, held));
        }
    }
}

proof fn lemma_typed_character(state: InputState, text: Seq<char>, c: char)
    requires
        text.len() > 0,
        text.last() == c,
    ensures
        state.after_all(text_operations(text)).keys == state.after_all(
            text_operations(text.drop_last()),
        ).keys,
{
    let front = text_operations(text.drop_last());
    let press = Operation::UnicodeKeyPressed(c);
    let release = Operation::UnicodeKeyReleased(c);
    assert(text_operations(text) =~= front.push(press).push(release));
    lemma_after_push(state, front, press);
    lemma_after_push(state, front.push(press), release);
}

proof fn lemma_text(state: InputState, text: Seq<char>)
    ensures
        state.after_all(text_operations(text)).keys == state.keys,
    decreases text.len(),
{
    if text.len() > 0 {
        lemma_text(state, text.drop_last());
        lemma_typed_character(state, text, text.last());
    } else {
        assert(state.after_all(Seq::<Operation>::empty()) == state);
    }
}

proof fn lemma_single(state: InputState, operation: Operation)
    ensures
        state.after_all(seq![operation]) == state.after(operation),
{
    assert(seq![operation].drop_last() == Seq::<Operation>::empty());
    assert(state.after_all(Seq::<Operation>::empty()) == state);
}

proof fn lemma_wheel(state: InputState, vertical: Option<i16>, horizontal: Option<i16>)
    ensures
        state.after_all(wheel_operations(vertical, horizontal)).keys == state.keys,
{
    reveal_with_fuel(InputState::after_all, 3);
}

proof fn lemma_event(state: InputState, event: InputEvent, focus: PointerFocus, held: Set<u16>)
    requires
        mirrors(held, state.keys),
    ensures
        mirrors(
            event_held(event, held),
            state.after_all(event_operations(event, focus, held)).keys,
        ),
{
    assert(state.after_all(Seq::<Operation>::empty()) == state);
    match event {
        InputEvent::PointerButton { button, pressed } => {
            let operations = event_operations(event, focus, held);
            if operations.len() > 0 {
                assert(operations =~= seq![operations[0]]);
                lemma_single(state, operations[0]);
            } else {
                assert(operations =~= Seq::empty());
            }
        },
        InputEvent::MouseWheel { horizontal, vertical } => {
            lemma_wheel(state, vertical, horizontal);
        },
        InputEvent::Key { key, pressed, modifiers } => {
            let codes = modifier_codes(modifiers);
            lemma_key_scancodes(key, modifiers);
            if pressed {
                let presses = presses_of_unheld(codes, held);
                lemma_presses(state, codes, held);
                match scancode_of(key) {
                    Some(code) => {
                        let press = Operation::KeyPressed(scancode_from(code));
                        lemma_press(
                            held.union(codes.to_set()),
                            state.after_all(presses).keys,
                            code,
                        );
                        lemma_after_concat(state, presses, seq![press]);
                        lemma_single(state.after_all(presses), press);
                    },
                    None => {
                        assert(presses + seq![] =~= presses);
                    },
                }
            } else {
                let releases = releases_of_held(codes, without_key(held, key));
                match scancode_of(key) {
                    Some(code) => {
                        let release = Operation::KeyReleased(scancode_from(code));
                        lemma_single(state, release);
                        lemma_release(held, state.keys, code);
                        lemma_releases(state.after(release), codes, without_key(held, key));
                        lemma_after_concat(state, seq![release], releases);
                    },
                    None => {
                        lemma_releases(state, codes, held);
                        assert(seq![] + releases =~= releases);
                    },
                }
            }
        },
        InputEvent::Text(text) => {
            lemma_text(state, text@);
        },
        InputEvent::Other => {},
    }
}

/// The window and the server agree on which keys are down: where they do before a sequence of
/// events, they do after it, once the server has the operations for it.
pub proof fn law_held_keys_mirror_the_server(
    events: Seq<InputEvent>,
    focus: PointerFocus,
    held: Set<u16>,
    state: InputState,
)
    requires
        mirrors(held, state.keys),
    ensures
        mirrors(
            held_after(events, held),
            state.after_all(operations_for(events, focus, held)).keys,
        ),
    decreases events.len(),
{
    if events.len() == 0 {
        assert(state.after_all(Seq::<Operation>::empty()) == state);
    } else {
        let front = events.drop_last();
        law_held_keys_mirror_the_server(front, focus, held, state);
        let operations = operations_for(front, focus, held);
        let between = held_after(front, held);
        lemma_event(state.after_all(operations), events.last(), focus, between);
        lemma_after_concat(state, operations, event_operations(events.last(), focus, between));
    }
}

/// At the start of a session the window and the server agree: no key is down.
pub proof fn law_no_key_is_down_at_the_start()
    ensures
        mirrors(Set::empty(), InputState::initial().keys),
{
}

/// The remote button that a button of the local mouse stands for.
pub open spec fn remote_button(button: PointerButton) -> MouseButton {
    match button {
        PointerButton::Primary => MouseButton::Left,
        PointerButton::Secondary => MouseButton::Right,
        PointerButton::Middle => MouseButton::Middle,
        PointerButton::Extra1 => MouseButton::X1,
        PointerButton::Extra2 => MouseButton::X2,
    }
}

/// The remote buttons that are down after a sequence of events, by what the user did: a button goes
/// down and up with each press and release that is meant for the picture.
pub open spec fn buttons_down(
    events: Seq<InputEvent>,
    focus: PointerFocus,
    before: Set<MouseButton>,
) -> Set<MouseButton>
    decreases events.len(),
{
    if events.len() == 0 {
        before
    } else {
        let earlier = buttons_down(events.drop_last(), focus, before);
        match events.last() {
            InputEvent::PointerButton { button, pressed } => if !focus.hovered
                && !focus.button_down {
                earlier
            } else if pressed {
                earlier.insert(remote_button(button))
            } else {
                earlier.remove(remote_button(button))
            },
            _ => earlier,
        }
    }
}

/// A click that is meant for the picture is balanced: a press and a release of a button send
/// exactly a press and a release of the remote button. One that is not meant for it sends nothing.
pub proof fn law_click_is_balanced(button: PointerButton, focus: PointerFocus, held: Set<u16>)
    ensures
        ({
            let press = InputEvent::PointerButton { button, pressed: true };
            let release = InputEvent::PointerButton { button, pressed: false };
            operations_for(seq![press, release], focus, held) == if focus.hovered
                || focus.button_down {
                seq![
                    Operation::MouseButtonPressed(remote_button(button)),
                    Operation::MouseButtonReleased(remote_button(button)),
                ]
            } else {
                seq![]
            }
        }),
{
    let press = InputEvent::PointerButton { button, pressed: true };
    let release = InputEvent::PointerButton { button, pressed: false };
    let one = seq![press];
    let two = seq![press, release];
    assert(two.drop_last() == one);
    assert(one.drop_last() == Seq::<InputEvent>::empty());
    assert(operations_for(one.drop_last(), focus, held) == Seq::<Operation>::empty());
    assert(operations_for(one, focus, held) =~= event_operations(press, focus, held));
}

proof fn lemma_keys_leave_the_mouse_alone(state: InputState, operations: Seq<Operation>)
    requires
        forall|i: int|
            0 <= i < operations.len() ==> (#[trigger] operations[i] is KeyPressed || operations[i]
                is KeyReleased),
    ensures
        state.after_all(operations).buttons == state.buttons,
        state.after_all(operations).pointer == state.pointer,
        state.after_all(operations).characters == state.characters,
    decreases operations.len(),
{
    if operations.len() > 0 {
        assert(operations[operations.len() - 1] is KeyPressed || operations[operations.len() - 1]
            is KeyReleased);
        let front = operations.drop_last();
        assert forall|i: int| 0 <= i < front.len() implies (#[trigger] front[i] is KeyPressed
            || front[i] is KeyReleased) by {
            assert(operations[i] is KeyPressed || operations[i] is KeyReleased);
        }
        lemma_keys_leave_the_mouse_alone(state, front);
    }
}

proof fn lemma_key_operations_are_keys(key: Key, modifiers: Modifiers, held: Set<u16>)
    ensures
        forall|i: int|
            0 <= i < key_down_operations(key, modifiers, held).len() ==> (
            #[trigger] key_down_operations(key, modifiers, held)[i] is KeyPressed),
        forall|i: int|
            0 <= i < key_up_operations(key, modifiers, held).len() ==> (#[trigger] key_up_operations(
                key,
                modifiers,
                held,
            )[i] is KeyReleased),
{
}

proof fn lemma_typing_leaves_the_mouse_alone(state: InputState, text: Seq<char>, c: char)
    requires
        text.len() > 0,
        text.last() == c,
    ensures
        state.after_all(text_operations(text)).buttons == state.after_all(
            text_operations(text.drop_last()),
        ).buttons,
        state.after_all(text_operations(text)).pointer == state.after_all(
            text_operations(text.drop_last()),
        ).pointer,
{
    let front = text_operations(text.drop_last());
    let press = Operation::UnicodeKeyPressed(c);
    let release = Operation::UnicodeKeyReleased(c);
    assert(text_operations(text) =~= front.push(press).push(release));
    lemma_after_push(state, front, press);
    lemma_after_push(state, front.push(press), release);
}

proof fn lemma_text_leaves_the_mouse_alone(state: InputState, text: Seq<char>)
    ensures
        state.after_all(text_operations(text)).buttons == state.buttons,
        state.after_all(text_operations(text)).pointer == state.pointer,
    decreases text.len(),
{
    if text.len() > 0 {
        lemma_text_leaves_the_mouse_alone(state, text.drop_last());
        lemma_typing_leaves_the_mouse_alone(state, text, text.last());
    } else {
        assert(state.after_all(Seq::<Operation>::empty()) == state);
    }
}

proof fn lemma_wheel_leaves_the_mouse_alone(
    state: InputState,
    vertical: Option<i16>,
    horizontal: Option<i16>,
)
    ensures
        state.after_all(wheel_operations(vertical, horizontal)) == state,
{
    reveal_with_fuel(InputState::after_all, 3);
}

proof fn lemma_event_buttons(
    state: InputState,
    event: InputEvent,
    focus: PointerFocus,
    held: Set<u16>,
)
    ensures
        ({
            let after = state.after_all(event_operations(event, focus, held));
            &&& after.pointer == state.pointer
            &&& after.buttons == match event {
                InputEvent::PointerButton { button, pressed } => if !focus.hovered
                    && !focus.button_down {
                    state.buttons
                } else if pressed {
                    state.buttons.insert(remote_button(button))
                } else {
                    state.buttons.remove(remote_button(button))
                },
                _ => state.buttons,
            }
        }),
{
    assert(state.after_all(Seq::<Operation>::empty()) == state);
    match event {
        InputEvent::PointerButton { button, pressed } => {
            let operations = event_operations(event, focus, held);
            if operations.len() > 0 {
                assert(operations =~= seq![operations[0]]);
                lemma_single(state, operations[0]);
            } else {
                assert(operations =~= Seq::empty());
            }
        },
        InputEvent::MouseWheel { horizontal, vertical } => {
            lemma_wheel_leaves_the_mouse_alone(state, vertical, horizontal);
        },
        InputEvent::Key { key, pressed, modifiers } => {
            lemma_key_operations_are_keys(key, modifiers, held);
            lemma_keys_leave_the_mouse_alone(state, event_operations(event, focus, held));
        },
        InputEvent::Text(text) => {
            lemma_text_leaves_the_mouse_alone(state, text@);
        },
        InputEvent::Other => {},
    }
}

/// The buttons that are down for the server, once it has the operations for a sequence of events,
/// are those that the user has down on the picture; and no event moves the pointer.
pub proof fn law_buttons_follow_the_user(
    events: Seq<InputEvent>,
    focus: PointerFocus,
    held: Set<u16>,
    state: InputState,
)
    ensures
        state.after_all(operations_for(events, focus, held)).buttons == buttons_down(
            events,
            focus,
            state.buttons,
        ),
        state.after_all(operations_for(events, focus, held)).pointer == state.pointer,
    decreases events.len(),
{
    if events.len() == 0 {
        assert(state.after_all(Seq::<Operation>::empty()) == state);
    } else {
        let front = events.drop_last();
        law_buttons_follow_the_user(front, focus, held, state);
        let operations = operations_for(front, focus, held);
        let between = held_after(front, held);
        lemma_event_buttons(state.after_all(operations), events.last(), focus, between);
        lemma_after_concat(state, operations, event_operations(events.last(), focus, between));
    }
}

} // verus!

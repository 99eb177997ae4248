//! What each event of the window sends, and where the keys lie.
use vstd::prelude::*;

use crate::input::{
    event_held, event_operations, held_after, key_down_operations, key_up_operations,
    modifier_codes, operations_for, scancode_from, scancode_of, text_operations, without_key,
    InputEvent, Key, Modifiers, Operation, PointerFocus, Scancode,
};
use crate::input_state::InputState;

verus! {

/// The key to the right of a key in its row of the keyboard, with the rows one after the other as
/// far as they are numbered through.
pub open spec fn right_neighbour(key: Key) -> Option<Key> {
    match key {
        Key::Escape => Some(Key::Num1),
        Key::Num1 => Some(Key::Num2),
        Key::Num2 => Some(Key::Num3),
        Key::Num3 => Some(Key::Num4),
        Key::Num4 => Some(Key::Num5),
        Key::Num5 => Some(Key::Num6),
        Key::Num6 => Some(Key::Num7),
        Key::Num7 => Some(Key::Num8),
        Key::Num8 => Some(Key::Num9),
        Key::Num9 => Some(Key::Num0),
        Key::Num0 => Some(Key::Minus),
        Key::Minus => Some(Key::Equals),
        Key::Equals => Some(Key::Backspace),
        Key::Backspace => Some(Key::Tab),
        Key::Tab => Some(Key::Q),
        Key::Q => Some(Key::W),
        Key::W => Some(Key::E),
        Key::E => Some(Key::R),
        Key::R => Some(Key::T),
        Key::T => Some(Key::Y),
        Key::Y => Some(Key::U),
        Key::U => Some(Key::I),
        Key::I => Some(Key::O),
        Key::O => Some(Key::P),
        Key::P => Some(Key::OpenBracket),
        Key::OpenBracket => Some(Key::CloseBracket),
        Key::CloseBracket => Some(Key::Enter),
        Key::A => Some(Key::S),
        Key::S => Some(Key::D),
        Key::D => Some(Key::F),
        Key::F => Some(Key::G),
        Key::G => Some(Key::H),
        Key::H => Some(Key::J),
        Key::J => Some(Key::K),
        Key::K => Some(Key::L),
        Key::L => Some(Key::Semicolon),
        Key::Backslash => Some(Key::Z),
        Key::Z => Some(Key::X),
        Key::X => Some(Key::C),
        Key::C => Some(Key::V),
        Key::V => Some(Key::B),
        Key::B => Some(Key::N),
        Key::N => Some(Key::M),
        Key::M => Some(Key::Comma),
        Key::Comma => Some(Key::Period),
        Key::Period => Some(Key::Slash),
        Key::F1 => Some(Key::F2),
        Key::F2 => Some(Key::F3),
        Key::F3 => Some(Key::F4),
        Key::F4 => Some(Key::F5),
        Key::F5 => Some(Key::F6),
        Key::F6 => Some(Key::F7),
        Key::F7 => Some(Key::F8),
        Key::F8 => Some(Key::F9),
        Key::F9 => Some(Key::F10),
        Key::F11 => Some(Key::F12),
        Key::Home => Some(Key::ArrowUp),
        Key::ArrowUp => Some(Key::PageUp),
        Key::End => Some(Key::ArrowDown),
        Key::ArrowDown => Some(Key::PageDown),
        Key::PageDown => Some(Key::Insert),
        Key::Insert => Some(Key::Delete),
        _ => None,
    }
}

/// Scancodes count along the rows of the keyboard: the key to the right has the next one.
pub proof fn law_scancodes_count_along_the_rows(key: Key)
    requires
        right_neighbour(key) is Some,
    ensures
        scancode_of(key) is Some,
        scancode_of(right_neighbour(key)->0) is Some,
        scancode_of(right_neighbour(key)->0)->0 == scancode_of(key)->0 + 1,
{
}

/// Where the rows begin and the single keys lie. With the rows counted along, this fixes every
/// scancode; the keys between the letters and the keypad are extended ones.
pub proof fn law_rows_begin_where_they_do()
    ensures
        scancode_of(Key::Escape) == Some(0x01u16),
        scancode_of(Key::A) == Some(0x1Eu16),
        scancode_of(Key::Backtick) == Some(0x29u16),
        scancode_of(Key::Backslash) == Some(0x2Bu16),
        scancode_of(Key::Space) == Some(0x39u16),
        scancode_of(Key::F1) == Some(0x3Bu16),
        scancode_of(Key::F11) == Some(0x57u16),
        scancode_of(Key::Home) == Some(0xE047u16),
        scancode_of(Key::ArrowLeft) == Some(0xE04Bu16),
        scancode_of(Key::ArrowRight) == Some(0xE04Du16),
        scancode_of(Key::End) == Some(0xE04Fu16),
        scancode_of(Key::Other) is None,
{
}

/// A raw scancode is split into its low byte and whether it is an extended one.
pub proof fn law_raw_scancode_is_split(code: u8)
    ensures
        scancode_from(code as u16) == (Scancode { code, extended: false }),
        scancode_from((0xE000 + code) as u16) == (Scancode { code, extended: true }),
{
}

/// Shift, Ctrl and Alt come in this order, each exactly where it is down; the command key counts
/// as Ctrl.
pub proof fn law_modifiers_come_in_order(mods: Modifiers)
    ensures
        modifier_codes(mods).contains(0x2A) <==> mods.shift,
        modifier_codes(mods).contains(0x1D) <==> mods.ctrl || mods.command,
        modifier_codes(mods).contains(0x38) <==> mods.alt,
        mods.shift ==> modifier_codes(mods)[0] == 0x2A,
        mods.alt ==> modifier_codes(mods).last() == 0x38,
        modifier_codes(mods).no_duplicates(),
        forall|i: int|
            0 <= i < modifier_codes(mods).len() ==> (#[trigger] modifier_codes(mods)[i] == 0x2A
                || modifier_codes(mods)[i] == 0x1D || modifier_codes(mods)[i] == 0x38),
{
    let codes = modifier_codes(mods);
    if mods.shift {
        assert(codes[0] == 0x2A);
    }
    if mods.ctrl || mods.command {
        assert(codes[if mods.shift {
            1int
        } else {
            0int
        }] == 0x1D);
    }
    if mods.alt {
        assert(codes[codes.len() - 1] == 0x38);
    }
}

/// A key that goes down is always sent, and after its modifiers; one that goes up is always sent,
/// and before them.
pub proof fn law_keys_are_always_sent(key: Key, modifiers: Modifiers, held: Set<u16>)
    requires
        scancode_of(key) is Some,
    ensures
        ({
            let down = key_down_operations(key, modifiers, held);
            let up = key_up_operations(key, modifiers, held);
            &&& down.len() > 0
            &&& down.last() == Operation::KeyPressed(scancode_from(scancode_of(key)->0))
            &&& up.len() > 0
            &&& up[0] == Operation::KeyReleased(scancode_from(scancode_of(key)->0))
        }),
{
}

/// What is held after a key event: on a press also the key and its modifiers, on a release neither
/// of them. Any other event leaves it as it is.
pub proof fn law_held_codes_follow_the_keys(event: InputEvent, held: Set<u16>, code: u16)
    ensures
        event_held(event, held).contains(code) <==> match event {
            InputEvent::Key { key, pressed, modifiers } => {
                let touched = scancode_of(key) == Some(code) || (code == 0x2A && modifiers.shift)
                    || (code == 0x1D && (modifiers.ctrl || modifiers.command)) || (code == 0x38
                    && modifiers.alt);
                if pressed {
                    held.contains(code) || touched
                } else {
                    held.contains(code) && !touched
                }
            },
            _ => held.contains(code),
        },
{
    match event {
        InputEvent::Key { key, pressed, modifiers } => {
            law_modifiers_come_in_order(modifiers);
            let codes = modifier_codes(modifiers);
            assert(codes.to_set().contains(code) <==> codes.contains(code));
            assert(codes.contains(code) ==> code == 0x2A || code == 0x1D || code == 0x38);
        },
        _ => {},
    }
}

/// A turn of the wheel over the picture sends a rotation for each axis that moved, the vertical
/// one first and each by the units that were turned. Away from the picture it sends nothing.
pub proof fn law_wheel_turns_are_sent(
    horizontal: Option<i16>,
    vertical: Option<i16>,
    focus: PointerFocus,
    held: Set<u16>,
)
    ensures
        ({
            let turns = event_operations(
                InputEvent::MouseWheel { horizontal, vertical },
                focus,
                held,
            );
            if !focus.hovered {
                turns.len() == 0
            } else {
                &&& turns.len() == (if vertical is Some {
                    1int
                } else {
                    0int
                }) + (if horizontal is Some {
                    1int
                } else {
                    0int
                })
                &&& vertical matches Some(units) ==> {
                    &&& turns[0] matches Operation::WheelRotations(turn)
                    &&& turn.is_vertical
                    &&& turn.rotation_units == units
                }
                &&& horizontal matches Some(units) ==> {
                    &&& turns.last() matches Operation::WheelRotations(turn)
                    &&& !turn.is_vertical
                    &&& turn.rotation_units == units
                }
            }
        }),
{
}

/// The operations of a sequence of events are those of its parts, one after the other.
pub proof fn law_events_are_sent_in_order(
    first: Seq<InputEvent>,
    event: InputEvent,
    focus: PointerFocus,
    held: Set<u16>,
)
    ensures
        operations_for(first.push(event), focus, held) == operations_for(first, focus, held)
            + event_operations(event, focus, held_after(first, held)),
        held_after(first.push(event), held) == event_held(event, held_after(first, held)),
        operations_for(Seq::empty(), focus, held).len() == 0,
        held_after(Seq::empty(), held) == held,
{
    assert(first.push(event).drop_last() == first);
}

/// Typed text is sent character by character: the character at place `i` goes down and up as the
/// operations at `2 * i` and behind it.
pub proof fn law_text_is_typed_in_order(text: Seq<char>, i: int, c: char)
    requires
        0 <= i < text.len(),
        text[i] == c,
    ensures
        text_operations(text).len() == 2 * text.len(),
        text_operations(text)[2 * i] == Operation::UnicodeKeyPressed(c),
        text_operations(text)[2 * i + 1] == Operation::UnicodeKeyReleased(c),
    decreases text.len(),
{
    lemma_typed_last(text, text.last());
    if i == text.len() - 1 {
        lemma_text_length(text.drop_last());
    } else {
        law_text_is_typed_in_order(text.drop_last(), i, c);
    }
}

proof fn lemma_typed_last(text: Seq<char>, c: char)
    requires
        text.len() > 0,
        text.last() == c,
    ensures
        ({
            let front = text_operations(text.drop_last());
            let all = text_operations(text);
            &&& all.len() == front.len() + 2
            &&& forall|j: int| 0 <= j < front.len() ==> #[trigger] all[j] == front[j]
            &&& all[front.len() as int] == Operation::UnicodeKeyPressed(c)
            &&& all[front.len() as int + 1] == Operation::UnicodeKeyReleased(c)
        }),
{
    let front = text_operations(text.drop_last());
    assert(text_operations(text) =~= front.push(Operation::UnicodeKeyPressed(c)).push(
        Operation::UnicodeKeyReleased(c),
    ));
}

proof fn lemma_text_length(text: Seq<char>)
    ensures
        text_operations(text).len() == 2 * text.len(),
    decreases text.len(),
{
    if text.len() > 0 {
        lemma_typed_last(text, text.last());
        lemma_text_length(text.drop_last());
    }
}

/// An operation does what it says to what is down and to the pointer, and nothing else.
pub proof fn law_operations_do_what_they_say(state: InputState, operation: Operation)
    ensures
        ({
            let after = state.after(operation);
            match operation {
                Operation::MouseButtonPressed(button) => {
                    &&& after.buttons.contains(button)
                    &&& after.buttons.remove(button) =~= state.buttons.remove(button)
                    &&& (after.keys, after.characters, after.pointer) == (
                        state.keys,
                        state.characters,
                        state.pointer,
                    )
                },
                Operation::MouseButtonReleased(button) => {
                    &&& !after.buttons.contains(button)
                    &&& after.buttons.insert(button) =~= state.buttons.insert(button)
                    &&& (after.keys, after.characters, after.pointer) == (
                        state.keys,
                        state.characters,
                        state.pointer,
                    )
                },
                Operation::MouseMove(position) => {
                    &&& after.pointer == position
                    &&& (after.keys, after.characters, after.buttons) == (
                        state.keys,
                        state.characters,
                        state.buttons,
                    )
                },
                Operation::WheelRotations(_) => after == state,
                Operation::KeyPressed(key) => {
                    &&& after.keys.contains((key.extended, key.code))
                    &&& after.keys.remove((key.extended, key.code)) =~= state.keys.remove(
                        (key.extended, key.code),
                    )
                    &&& (after.characters, after.buttons, after.pointer) == (
                        state.characters,
                        state.buttons,
                        state.pointer,
                    )
                },
                Operation::KeyReleased(key) => {
                    &&& !after.keys.contains((key.extended, key.code))
                    &&& after.keys.insert((key.extended, key.code)) =~= state.keys.insert(
                        (key.extended, key.code),
                    )
                    &&& (after.characters, after.buttons, after.pointer) == (
                        state.characters,
                        state.buttons,
                        state.pointer,
                    )
                },
                Operation::UnicodeKeyPressed(c) => {
                    &&& after.characters.contains(c)
                    &&& after.characters.remove(c) =~= state.characters.remove(c)
                    &&& (after.keys, after.buttons, after.pointer) == (
                        state.keys,
                        state.buttons,
                        state.pointer,
                    )
                },
                Operation::UnicodeKeyReleased(c) => {
                    &&& !after.characters.contains(c)
                    &&& after.characters.insert(c) =~= state.characters.insert(c)
                    &&& (after.keys, after.buttons, after.pointer) == (
                        state.keys,
                        state.buttons,
                        state.pointer,
                    )
                },
            }
        }),
{
}

/// The server is left alone exactly by an operation that changes nothing and repeats nothing:
/// presses of keys and characters repeat, and so do turns of the wheel.
pub proof fn law_only_idle_operations_are_ignored(state: InputState, operation: Operation)
    ensures
        state.ignores(operation) <==> (state.after(operation) =~= state && !(operation is KeyPressed)
            && !(operation is UnicodeKeyPressed) && !(operation is WheelRotations)),
{
    match operation {
        Operation::MouseButtonPressed(button) => {
            assert(state.after(operation).buttons.contains(button));
        },
        Operation::MouseButtonReleased(button) => {
            assert(!state.after(operation).buttons.contains(button));
        },
        Operation::KeyReleased(key) => {
            assert(!state.after(operation).keys.contains((key.extended, key.code)));
        },
        Operation::UnicodeKeyReleased(c) => {
            assert(!state.after(operation).characters.contains(c));
        },
        _ => {},
    }
}

/// A sequence of operations is applied one by one: state, events and whether there is anything to
/// tell the server follow from the operations before and the last one.
pub proof fn law_operations_are_applied_in_order(
    state: InputState,
    operations: Seq<Operation>,
    operation: Operation,
)
    ensures
        ({
            let all = operations.push(operation);
            let before = state.after_all(operations);
            &&& state.after_all(all) == before.after(operation)
            &&& state.all_events(all) == state.all_events(operations) + before.events(operation)
            &&& state.ignores_all(all) <==> state.ignores_all(operations) && before.ignores(
                operation,
            )
        }),
        state.after_all(Seq::empty()) == state,
        state.all_events(Seq::empty()).len() == 0,
        state.ignores_all(Seq::empty()),
{
    assert(operations.push(operation).drop_last() == operations);
}

/// A modifier that is held is not pressed again, and one that is not held is not released: only
/// what has to change is sent along with a key.
pub proof fn law_modifiers_change_only_where_they_must(
    key: Key,
    modifiers: Modifiers,
    held: Set<u16>,
    i: int,
)
    ensures
        ({
            let down = key_down_operations(key, modifiers, held);
            let last = if scancode_of(key) is Some {
                down.len() - 1
            } else {
                down.len() as int
            };
            0 <= i < last ==> exists|code: u16|
                {
                    &&& modifier_codes(modifiers).contains(code)
                    &&& !held.contains(code)
                    &&& down[i] == Operation::KeyPressed(#[trigger] scancode_from(code))
                }
        }),
        ({
            let up = key_up_operations(key, modifiers, held);
            let first = if scancode_of(key) is Some {
                1int
            } else {
                0int
            };
            first <= i < up.len() ==> exists|code: u16|
                {
                    &&& modifier_codes(modifiers).contains(code)
                    &&& held.contains(code)
                    &&& up[i] == Operation::KeyReleased(#[trigger] scancode_from(code))
                }
        }),
{
    let codes = modifier_codes(modifiers);
    let down = key_down_operations(key, modifiers, held);
    let up = key_up_operations(key, modifiers, held);
    let pressed = codes.filter(|code: u16| !held.contains(code));
    let kept = without_key(held, key);
    let released = codes.filter(|code: u16| kept.contains(code));
    lemma_filtered(codes, |code: u16| !held.contains(code));
    lemma_filtered(codes, |code: u16| kept.contains(code));
    if 0 <= i < pressed.len() {
        assert(down[i] == Operation::KeyPressed(scancode_from(pressed[i])));
    }
    let first = if scancode_of(key) is Some {
        1int
    } else {
        0int
    };
    if first <= i < up.len() {
        assert(up[i] == Operation::KeyReleased(scancode_from(released[i - first])));
        assert(kept.contains(released[i - first]));
    }
}

proof fn lemma_filtered(codes: Seq<u16>, keep: spec_fn(u16) -> bool)
    ensures
        forall|i: int|
            0 <= i < codes.filter(keep).len() ==> codes.contains(#[trigger] codes.filter(keep)[i])
                && keep(codes.filter(keep)[i]),
    decreases codes.len(),
{
    reveal(Seq::filter);
    if codes.len() > 0 {
        let front = codes.drop_last();
        lemma_filtered(front, keep);
        assert forall|i: int| 0 <= i < codes.filter(keep).len() implies codes.contains(
            #[trigger] codes.filter(keep)[i],
        ) && keep(codes.filter(keep)[i]) by {
            if i < front.filter(keep).len() {
                assert(codes.filter(keep)[i] == front.filter(keep)[i]);
                let c = front.filter(keep)[i];
                assert(front.contains(c));
                let k = choose|k: int| 0 <= k < front.len() && front[k] == c;
                assert(codes[k] == c);
            } else {
                assert(codes[codes.len() - 1] == codes.last());
            }
        }
    }
}

} // verus!

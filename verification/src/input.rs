//! Maps window input events to the operations that are sent to the remote desktop.
use std::collections::HashSet;

use vstd::prelude::*;

use crate::text::characters;

verus! {

/// A button of the local pointing device.
#[derive(Debug, Clone, Copy, PartialEq, Eq, Structural)]
pub enum PointerButton {
    Primary,
    Secondary,
    Middle,
    Extra1,
    Extra2,
}

/// A mouse button of the remote desktop.
#[derive(Debug, Clone, Copy, PartialEq, Eq, Structural)]
pub enum MouseButton {
    Left,
    Middle,
    Right,
    X1,
    X2,
}

/// A position on the remote desktop, in pixels.
#[derive(Debug, Clone, Copy, PartialEq, Eq, Structural)]
pub struct MousePosition {
    pub x: u16,
    pub y: u16,
}

/// A turn of the mouse wheel.
#[derive(Debug, Clone, Copy, PartialEq, Eq, Structural)]
pub struct WheelRotations {
    pub is_vertical: bool,
    pub rotation_units: i16,
}

/// A set-1 scancode: one byte, possibly behind the extended prefix.
#[derive(Debug, Clone, Copy, PartialEq, Eq, Structural)]
pub struct Scancode {
    pub code: u8,
    pub extended: bool,
}

/// One thing the user did, in terms of the remote desktop.
#[derive(Debug, Clone, Copy, PartialEq, Eq, Structural)]
pub enum Operation {
    MouseButtonPressed(MouseButton),
    MouseButtonReleased(MouseButton),
    MouseMove(MousePosition),
    WheelRotations(WheelRotations),
    KeyPressed(Scancode),
    KeyReleased(Scancode),
    UnicodeKeyPressed(char),
    UnicodeKeyReleased(char),
}

/// A key of the local keyboard. `Other` is any key that has no scancode here.
#[derive(Debug, Clone, Copy, PartialEq, Eq, Structural)]
pub enum Key {
    Escape,
    Num0,
    Num1,
    Num2,
    Num3,
    Num4,
    Num5,
    Num6,
    Num7,
    Num8,
    Num9,
    Minus,
    Equals,
    Backspace,
    Tab,
    A,
    B,
    C,
    D,
    E,
    F,
    G,
    H,
    I,
    J,
    K,
    L,
    M,
    N,
    O,
    P,
    Q,
    R,
    S,
    T,
    U,
    V,
    W,
    X,
    Y,
    Z,
    OpenBracket,
    CloseBracket,
    Enter,
    Semicolon,
    Backtick,
    Backslash,
    Comma,
    Period,
    Slash,
    Space,
    F1,
    F2,
    F3,
    F4,
    F5,
    F6,
    F7,
    F8,
    F9,
    F10,
    F11,
    F12,
    Insert,
    Delete,
    Home,
    End,
    PageUp,
    PageDown,
    ArrowUp,
    ArrowDown,
    ArrowLeft,
    ArrowRight,
    Other,
}

/// The modifier keys that are down during a key event.
#[derive(Debug, Clone, Copy, PartialEq, Eq, Structural)]
pub struct Modifiers {
    pub alt: bool,
    pub ctrl: bool,
    pub shift: bool,
    /// The platform's command key: Ctrl on most systems, Command on macOS.
    pub command: bool,
}

/// The remote mouse button that a local button stands for.
pub open spec fn button_of(button: PointerButton) -> MouseButton {
    match button {
        PointerButton::Primary => MouseButton::Left,
        PointerButton::Secondary => MouseButton::Right,
        PointerButton::Middle => MouseButton::Middle,
        PointerButton::Extra1 => MouseButton::X1,
        PointerButton::Extra2 => MouseButton::X2,
    }
}

/// The raw scancode of a key, `0xE0xx` for an extended key.
pub open spec fn scancode_of(key: Key) -> Option<u16> {
    match key {
        Key::Escape => Some(0x01),
        Key::Num1 => Some(0x02),
        Key::Num2 => Some(0x03),
        Key::Num3 => Some(0x04),
        Key::Num4 => Some(0x05),
        Key::Num5 => Some(0x06),
        Key::Num6 => Some(0x07),
        Key::Num7 => Some(0x08),
        Key::Num8 => Some(0x09),
        Key::Num9 => Some(0x0A),
        Key::Num0 => Some(0x0B),
        Key::Minus => Some(0x0C),
        Key::Equals => Some(0x0D),
        Key::Backspace => Some(0x0E),
        Key::Tab => Some(0x0F),
        Key::Q => Some(0x10),
        Key::W => Some(0x11),
        Key::E => Some(0x12),
        Key::R => Some(0x13),
        Key::T => Some(0x14),
        Key::Y => Some(0x15),
        Key::U => Some(0x16),
        Key::I => Some(0x17),
        Key::O => Some(0x18),
        Key::P => Some(0x19),
        Key::OpenBracket => Some(0x1A),
        Key::CloseBracket => Some(0x1B),
        Key::Enter => Some(0x1C),
        Key::A => Some(0x1E),
        Key::S => Some(0x1F),
        Key::D => Some(0x20),
        Key::F => Some(0x21),
        Key::G => Some(0x22),
        Key::H => Some(0x23),
        Key::J => Some(0x24),
        Key::K => Some(0x25),
        Key::L => Some(0x26),
        Key::Semicolon => Some(0x27),
        Key::Backtick => Some(0x29),
        Key::Backslash => Some(0x2B),
        Key::Z => Some(0x2C),
        Key::X => Some(0x2D),
        Key::C => Some(0x2E),
        Key::V => Some(0x2F),
        Key::B => Some(0x30),
        Key::N => Some(0x31),
        Key::M => Some(0x32),
        Key::Comma => Some(0x33),
        Key::Period => Some(0x34),
        Key::Slash => Some(0x35),
        Key::Space => Some(0x39),
        Key::F1 => Some(0x3B),
        Key::F2 => Some(0x3C),
        Key::F3 => Some(0x3D),
        Key::F4 => Some(0x3E),
        Key::F5 => Some(0x3F),
        Key::F6 => Some(0x40),
        Key::F7 => Some(0x41),
        Key::F8 => Some(0x42),
        Key::F9 => Some(0x43),
        Key::F10 => Some(0x44),
        Key::F11 => Some(0x57),
        Key::F12 => Some(0x58),
        Key::Insert => Some(0xE052),
        Key::Delete => Some(0xE053),
        Key::Home => Some(0xE047),
        Key::End => Some(0xE04F),
        Key::PageUp => Some(0xE049),
        Key::PageDown => Some(0xE051),
        Key::ArrowUp => Some(0xE048),
        Key::ArrowDown => Some(0xE050),
        Key::ArrowLeft => Some(0xE04B),
        Key::ArrowRight => Some(0xE04D),
        Key::Other => None,
    }
}

/// The scancode of the left Shift key.
pub const LEFT_SHIFT: u16 = 0x2A;

/// The scancode of the left Ctrl key.
pub const LEFT_CTRL: u16 = 0x1D;

/// The scancode of the left Alt key.
pub const LEFT_ALT: u16 = 0x38;

/// The scancodes of the modifiers that are down: Shift, then Ctrl, then Alt.
pub open spec fn modifier_codes(mods: Modifiers) -> Seq<u16> {
    let shift = if mods.shift {
        seq![LEFT_SHIFT]
    } else {
        seq![]
    };
    let ctrl = if mods.ctrl || mods.command {
        seq![LEFT_CTRL]
    } else {
        seq![]
    };
    let alt = if mods.alt {
        seq![LEFT_ALT]
    } else {
        seq![]
    };
    shift + ctrl + alt
}

/// The scancode that a raw 16-bit value stands for: its low byte, extended where the three
/// highest bits are set.
pub open spec fn scancode_from(raw: u16) -> Scancode {
    Scancode { code: (raw % 256) as u8, extended: raw >= 0xE000 }
}

/// The remote mouse button that a local button stands for.
pub fn mouse_button(button: PointerButton) -> (result: Option<MouseButton>)
    ensures
        result == Some(button_of(button)),
{
    match button {
        PointerButton::Primary => Some(MouseButton::Left),
        PointerButton::Secondary => Some(MouseButton::Right),
        PointerButton::Middle => Some(MouseButton::Middle),
        PointerButton::Extra1 => Some(MouseButton::X1),
        PointerButton::Extra2 => Some(MouseButton::X2),
    }
}

/// The operation that moves the pointer.
pub fn mouse_move(x: u16, y: u16) -> (operation: Operation)
    ensures
        operation == Operation::MouseMove(MousePosition { x, y }),
{
    Operation::MouseMove(MousePosition { x, y })
}

/// The operations for a turn of the wheel, the vertical one first. An axis that did not move
/// is `None`; the units of one that did may still round to zero.
pub open spec fn wheel_operations(vertical: Option<i16>, horizontal: Option<i16>) -> Seq<Operation> {
    let first = match vertical {
        Some(rotation_units) => seq![
            Operation::WheelRotations(WheelRotations { is_vertical: true, rotation_units }),
        ],
        None => seq![],
    };
    let second = match horizontal {
        Some(rotation_units) => seq![
            Operation::WheelRotations(WheelRotations { is_vertical: false, rotation_units }),
        ],
        None => seq![],
    };
    first + second
}

/// The operations for a turn of the wheel by the given rotation units, 120 to a notch.
pub fn wheel(horizontal: Option<i16>, vertical: Option<i16>) -> (ops: Vec<Operation>)
    ensures
        ops@ == wheel_operations(vertical, horizontal),
{
    let mut ops: Vec<Operation> = Vec::new();
    if let Some(rotation_units) = vertical {
        ops.push(Operation::WheelRotations(WheelRotations { is_vertical: true, rotation_units }));
    }
    if let Some(rotation_units) = horizontal {
        ops.push(Operation::WheelRotations(WheelRotations { is_vertical: false, rotation_units }));
    }
    assert(ops@ == wheel_operations(vertical, horizontal));
    ops
}

/// Maps a key to a PC/AT set-1 scancode.
/// Returns the raw 16-bit scancode (0xE0xx for extended keys).
pub fn key_scancode(key: Key) -> (code: Option<u16>)
    ensures
        code == scancode_of(key),
{
    let code: u16 = match key {
        Key::Escape => 0x01,
        Key::Num1 => 0x02,
        Key::Num2 => 0x03,
        Key::Num3 => 0x04,
        Key::Num4 => 0x05,
        Key::Num5 => 0x06,
        Key::Num6 => 0x07,
        Key::Num7 => 0x08,
        Key::Num8 => 0x09,
        Key::Num9 => 0x0A,
        Key::Num0 => 0x0B,
        Key::Minus => 0x0C,
        Key::Equals => 0x0D,
        Key::Backspace => 0x0E,
        Key::Tab => 0x0F,
        Key::Q => 0x10,
        Key::W => 0x11,
        Key::E => 0x12,
        Key::R => 0x13,
        Key::T => 0x14,
        Key::Y => 0x15,
        Key::U => 0x16,
        Key::I => 0x17,
        Key::O => 0x18,
        Key::P => 0x19,
        Key::OpenBracket => 0x1A,
        Key::CloseBracket => 0x1B,
        Key::Enter => 0x1C,
        Key::A => 0x1E,
        Key::S => 0x1F,
        Key::D => 0x20,
        Key::F => 0x21,
        Key::G => 0x22,
        Key::H => 0x23,
        Key::J => 0x24,
        Key::K => 0x25,
        Key::L => 0x26,
        Key::Semicolon => 0x27,
        Key::Backtick => 0x29,
        Key::Backslash => 0x2B,
        Key::Z => 0x2C,
        Key::X => 0x2D,
        Key::C => 0x2E,
        Key::V => 0x2F,
        Key::B => 0x30,
        Key::N => 0x31,
        Key::M => 0x32,
        Key::Comma => 0x33,
        Key::Period => 0x34,
        Key::Slash => 0x35,
        Key::Space => 0x39,
        Key::F1 => 0x3B,
        Key::F2 => 0x3C,
        Key::F3 => 0x3D,
        Key::F4 => 0x3E,
        Key::F5 => 0x3F,
        Key::F6 => 0x40,
        Key::F7 => 0x41,
        Key::F8 => 0x42,
        Key::F9 => 0x43,
        Key::F10 => 0x44,
        Key::F11 => 0x57,
        Key::F12 => 0x58,
        // Extended keys (0xE0 prefix).
        Key::Insert => 0xE052,
        Key::Delete => 0xE053,
        Key::Home => 0xE047,
        Key::End => 0xE04F,
        Key::PageUp => 0xE049,
        Key::PageDown => 0xE051,
        Key::ArrowUp => 0xE048,
        Key::ArrowDown => 0xE050,
        Key::ArrowLeft => 0xE04B,
        Key::ArrowRight => 0xE04D,
        Key::Other => return None,
    };
    Some(code)
}

/// The scancodes of the modifiers that are down. The window system does not report
/// modifier keys as keys of their own, so their scancodes come from the modifier state.
pub fn modifier_scancodes(mods: &Modifiers) -> (codes: Vec<u16>)
    ensures
        codes@ == modifier_codes(*mods),
{
    let mut codes: Vec<u16> = Vec::new();
    if mods.shift {
        codes.push(LEFT_SHIFT);
    }
    if mods.ctrl || mods.command {
        codes.push(LEFT_CTRL);
    }
    if mods.alt {
        codes.push(LEFT_ALT);
    }
    assert(codes@ == modifier_codes(*mods));
    codes
}

/// Splits a raw scancode with `ironrdp_input::Scancode::from_u16` and reads the parts with
/// `as_u8`: whether the three highest bits are all set, and the low byte.
#[verifier::external_body]
fn split_scancode(raw: u16) -> (parts: (bool, u8))
    ensures
        parts.0 == (raw >= 0xE000),
        parts.1 == raw % 256,
{
    ironrdp_input::Scancode::from_u16(raw).as_u8()
}

/// The scancode that a raw 16-bit value stands for.
pub fn scancode(raw: u16) -> (result: Scancode)
    ensures
        result == scancode_from(raw),
{
    let (extended, code) = split_scancode(raw);
    Scancode { code, extended }
}

/// The operation that presses a key.
pub fn key_pressed(scancode: u16) -> (operation: Operation)
    ensures
        operation == Operation::KeyPressed(scancode_from(scancode)),
{
    Operation::KeyPressed(self::scancode(scancode))
}

/// The operation that releases a key.
pub fn key_released(scancode: u16) -> (operation: Operation)
    ensures
        operation == Operation::KeyReleased(scancode_from(scancode)),
{
    Operation::KeyReleased(self::scancode(scancode))
}

/// An input event of the window that shows the remote desktop.
#[derive(Debug)]
pub enum InputEvent {
    PointerButton { button: PointerButton, pressed: bool },
    /// Rotation units for each axis that moved.
    MouseWheel { horizontal: Option<i16>, vertical: Option<i16> },
    Key { key: Key, pressed: bool, modifiers: Modifiers },
    /// Text that was typed or composed.
    Text(String),
    /// An event that is not forwarded.
    Other,
}

/// Where the pointer is with respect to the picture of the remote desktop.
#[derive(Debug, Clone, Copy, PartialEq, Eq, Structural)]
pub struct PointerFocus {
    /// The pointer is over the picture.
    pub hovered: bool,
    /// A pointer button went down over the picture and is still down.
    pub button_down: bool,
}

/// The press operations of those codes that are not held yet.
pub open spec fn presses_of_unheld(codes: Seq<u16>, held: Set<u16>) -> Seq<Operation> {
    codes.filter(|code: u16| !held.contains(code)).map_values(
        |code: u16| Operation::KeyPressed(scancode_from(code)),
    )
}

/// The release operations of those codes that are held.
pub open spec fn releases_of_held(codes: Seq<u16>, held: Set<u16>) -> Seq<Operation> {
    codes.filter(|code: u16| held.contains(code)).map_values(
        |code: u16| Operation::KeyReleased(scancode_from(code)),
    )
}

/// `held` without the scancode of `key`.
pub open spec fn without_key(held: Set<u16>, key: Key) -> Set<u16> {
    match scancode_of(key) {
        Some(code) => held.remove(code),
        None => held,
    }
}

/// The operations for pressing a key: modifiers that are not held go down first, then the key.
pub open spec fn key_down_operations(key: Key, modifiers: Modifiers, held: Set<u16>) -> Seq<
    Operation,
> {
    presses_of_unheld(modifier_codes(modifiers), held) + match scancode_of(key) {
        Some(code) => seq![Operation::KeyPressed(scancode_from(code))],
        None => seq![],
    }
}

/// The operations for releasing a key: the key goes up first, then the modifiers that are held.
pub open spec fn key_up_operations(key: Key, modifiers: Modifiers, held: Set<u16>) -> Seq<
    Operation,
> {
    (match scancode_of(key) {
        Some(code) => seq![Operation::KeyReleased(scancode_from(code))],
        None => seq![],
    }) + releases_of_held(modifier_codes(modifiers), without_key(held, key))
}

/// The operations for typed text: each character goes down and up again.
pub open spec fn text_operations(text: Seq<char>) -> Seq<Operation>
    decreases text.len(),
{
    if text.len() == 0 {
        seq![]
    } else {
        text_operations(text.drop_last()) + seq![
            Operation::UnicodeKeyPressed(text.last()),
            Operation::UnicodeKeyReleased(text.last()),
        ]
    }
}

/// The operations for one event, given the scancodes that are held before it.
pub open spec fn event_operations(event: InputEvent, focus: PointerFocus, held: Set<u16>) -> Seq<
    Operation,
> {
    match event {
        InputEvent::PointerButton { button, pressed } => if focus.hovered || focus.button_down {
            if pressed {
                seq![Operation::MouseButtonPressed(button_of(button))]
            } else {
                seq![Operation::MouseButtonReleased(button_of(button))]
            }
        } else {
            seq![]
        },
        InputEvent::MouseWheel { horizontal, vertical } => if focus.hovered {
            wheel_operations(vertical, horizontal)
        } else {
            seq![]
        },
        InputEvent::Key { key, pressed, modifiers } => if pressed {
            key_down_operations(key, modifiers, held)
        } else {
            key_up_operations(key, modifiers, held)
        },
        InputEvent::Text(text) => text_operations(text@),
        InputEvent::Other => seq![],
    }
}

/// The scancodes that are held after one event.
pub open spec fn event_held(event: InputEvent, held: Set<u16>) -> Set<u16> {
    match event {
        InputEvent::Key { key, pressed, modifiers } => if pressed {
            let with_modifiers = held.union(modifier_codes(modifiers).to_set());
            match scancode_of(key) {
                Some(code) => with_modifiers.insert(code),
                None => with_modifiers,
            }
        } else {
            without_key(held, key).difference(modifier_codes(modifiers).to_set())
        },
        _ => held,
    }
}

/// The scancodes that are held after a sequence of events.
pub open spec fn held_after(events: Seq<InputEvent>, held: Set<u16>) -> Set<u16>
    decreases events.len(),
{
    if events.len() == 0 {
        held
    } else {
        event_held(events.last(), held_after(events.drop_last(), held))
    }
}

/// The operations for a sequence of events, in order.
pub open spec fn operations_for(
    events: Seq<InputEvent>,
    focus: PointerFocus,
    held: Set<u16>,
) -> Seq<Operation>
    decreases events.len(),
{
    if events.len() == 0 {
        seq![]
    } else {
        operations_for(events.drop_last(), focus, held) + event_operations(
            events.last(),
            focus,
            held_after(events.drop_last(), held),
        )
    }
}

/// Filtering one element more appends that element or leaves the result as it was.
proof fn lemma_filter_take(codes: Seq<u16>, i: int, keep: spec_fn(u16) -> bool)
    requires
        0 <= i < codes.len(),
    ensures
        codes.take(i + 1).filter(keep) == if keep(codes[i]) {
            codes.take(i).filter(keep).push(codes[i])
        } else {
            codes.take(i).filter(keep)
        },
        codes.take(i + 1).to_set() == codes.take(i).to_set().insert(codes[i]),
{
    reveal(Seq::filter);
    assert(codes.take(i + 1).drop_last() == codes.take(i));
    assert(codes.take(i + 1) == codes.take(i).push(codes[i]));
    assert forall|c: u16| #[trigger]
        codes.take(i + 1).to_set().contains(c) == codes.take(i).to_set().insert(
            codes[i],
        ).contains(c) by {
        if codes.take(i).to_set().insert(codes[i]).contains(c) {
            if c == codes[i] {
                assert(codes.take(i + 1)[i] == c);
            } else {
                let k = choose|k: int| 0 <= k < i && codes.take(i)[k] == c;
                assert(codes.take(i + 1)[k] == c);
            }
        }
    }
    assert(codes.take(i + 1).to_set() =~= codes.take(i).to_set().insert(codes[i]));
}

/// Presses the modifiers that are not held yet.
fn press_modifiers(mods: &Vec<u16>, held: &mut HashSet<u16>, ops: &mut Vec<Operation>)
    requires
        mods@.no_duplicates(),
    ensures
        final(held)@ == old(held)@.union(mods@.to_set()),
        final(ops)@ == old(ops)@ + presses_of_unheld(mods@, old(held)@),
{
    broadcast use vstd::std_specs::hash::group_hash_axioms;

    let mut i: usize = 0;
    let ghost unheld = |code: u16| !old(held)@.contains(code);
    let ghost press = |code: u16| Operation::KeyPressed(scancode_from(code));
    proof {
        reveal(Seq::filter);
        assert(held@ =~= old(held)@.union(mods@.take(0).to_set()));
        assert(mods@.take(0).filter(unheld).map_values(press) =~= Seq::empty());
    }
    while i < mods.len()
        invariant
            i <= mods.len(),
            mods@.no_duplicates(),
            unheld == (|code: u16| !old(held)@.contains(code)),
            press == (|code: u16| Operation::KeyPressed(scancode_from(code))),
            held@ == old(held)@.union(mods@.take(i as int).to_set()),
            ops@ == old(ops)@ + mods@.take(i as int).filter(unheld).map_values(press),
        decreases mods.len() - i,
    {
        let code: u16 = mods[i];
        proof {
            lemma_filter_take(mods@, i as int, unheld);
            assert(!mods@.take(i as int).to_set().contains(code));
        }
        let ghost before = mods@.take(i as int).filter(unheld);
        if held.insert(code) {
            ops.push(key_pressed(code));
            assert(before.push(code).map_values(press) =~= before.map_values(press).push(
                press(code),
            ));
        }
        proof {
            assert(held@ =~= old(held)@.union(mods@.take(i + 1).to_set()));
        }
        i = i + 1;
    }
    assert(mods@.take(i as int) == mods@);
}

/// Releases the modifiers that are held.
fn release_modifiers(mods: &Vec<u16>, held: &mut HashSet<u16>, ops: &mut Vec<Operation>)
    requires
        mods@.no_duplicates(),
    ensures
        final(held)@ == old(held)@.difference(mods@.to_set()),
        final(ops)@ == old(ops)@ + releases_of_held(mods@, old(held)@),
{
    broadcast use vstd::std_specs::hash::group_hash_axioms;

    let mut i: usize = 0;
    let ghost down = |code: u16| old(held)@.contains(code);
    let ghost release = |code: u16| Operation::KeyReleased(scancode_from(code));
    proof {
        reveal(Seq::filter);
        assert(held@ =~= old(held)@.difference(mods@.take(0).to_set()));
        assert(mods@.take(0).filter(down).map_values(release) =~= Seq::empty());
    }
    while i < mods.len()
        invariant
            i <= mods.len(),
            mods@.no_duplicates(),
            down == (|code: u16| old(held)@.contains(code)),
            release == (|code: u16| Operation::KeyReleased(scancode_from(code))),
            held@ == old(held)@.difference(mods@.take(i as int).to_set()),
            ops@ == old(ops)@ + mods@.take(i as int).filter(down).map_values(release),
        decreases mods.len() - i,
    {
        let code: u16 = mods[i];
        proof {
            lemma_filter_take(mods@, i as int, down);
            assert(!mods@.take(i as int).to_set().contains(code));
        }
        let ghost before = mods@.take(i as int).filter(down);
        if held.remove(&code) {
            ops.push(key_released(code));
            assert(before.push(code).map_values(release) =~= before.map_values(release).push(
                release(code),
            ));
        }
        proof {
            assert(held@ =~= old(held)@.difference(mods@.take(i + 1).to_set()));
        }
        i = i + 1;
    }
    assert(mods@.take(i as int) == mods@);
}

/// One character more appends its two operations.
proof fn lemma_text_operations_push(text: Seq<char>, c: char)
    ensures
        text_operations(text.push(c)) == text_operations(text).push(
            Operation::UnicodeKeyPressed(c),
        ).push(Operation::UnicodeKeyReleased(c)),
{
    assert(text.push(c).drop_last() == text);
}

/// `c` itself: what a call returns is known to be a Unicode scalar value.
fn scalar(c: char) -> (same: char)
    ensures
        same == c,
{
    c
}

/// Appends the operations for typed text.
fn type_text(text: &str, ops: &mut Vec<Operation>)
    ensures
        final(ops)@ == old(ops)@ + text_operations(text@),
{
    let chars = characters(text);
    let mut i: usize = 0;
    while i < chars.len()
        invariant
            i <= chars.len(),
            chars@ == text@,
            ops@ == old(ops)@ + text_operations(chars@.take(i as int)),
        decreases chars.len() - i,
    {
        let c: char = scalar(chars[i]);
        ops.push(Operation::UnicodeKeyPressed(c));
        ops.push(Operation::UnicodeKeyReleased(c));
        proof {
            lemma_text_operations_push(chars@.take(i as int), c);
            assert(chars@.take(i + 1) == chars@.take(i as int).push(c));
        }
        i = i + 1;
    }
    assert(chars@.take(i as int) == text@);
}

/// Appends the operations for one event and updates the scancodes that are held.
pub fn translate_event(
    event: &InputEvent,
    focus: PointerFocus,
    held: &mut HashSet<u16>,
    ops: &mut Vec<Operation>,
)
    ensures
        final(held)@ == event_held(*event, old(held)@),
        final(ops)@ == old(ops)@ + event_operations(*event, focus, old(held)@),
{
    broadcast use vstd::std_specs::hash::group_hash_axioms;

    match event {
        InputEvent::PointerButton { button, pressed } => {
            if focus.hovered || focus.button_down {
                if let Some(mb) = mouse_button(*button) {
                    if *pressed {
                        ops.push(Operation::MouseButtonPressed(mb));
                    } else {
                        ops.push(Operation::MouseButtonReleased(mb));
                    }
                }
            }
        },
        InputEvent::MouseWheel { horizontal, vertical } => {
            if focus.hovered {
                let mut turns = wheel(*horizontal, *vertical);
                ops.append(&mut turns);
            }
        },
        InputEvent::Key { key, pressed, modifiers } => {
            // Apply modifier keys around the main key.
            let mods = modifier_scancodes(modifiers);
            if *pressed {
                press_modifiers(&mods, held, ops);
                if let Some(code) = key_scancode(*key) {
                    held.insert(code);
                    ops.push(key_pressed(code));
                }
            } else {
                if let Some(code) = key_scancode(*key) {
                    held.remove(&code);
                    ops.push(key_released(code));
                }
                release_modifiers(&mods, held, ops);
            }
        },
        InputEvent::Text(text) => {
            type_text(text.as_str(), ops);
        },
        InputEvent::Other => {},
    }
    assert(ops@ == old(ops)@ + event_operations(*event, focus, old(held)@));
}

/// The operations for a sequence of events. Updates the scancodes that are held.
pub fn translate_events(
    events: &Vec<InputEvent>,
    focus: PointerFocus,
    held: &mut HashSet<u16>,
) -> (ops: Vec<Operation>)
    ensures
        final(held)@ == held_after(events@, old(held)@),
        ops@ == operations_for(events@, focus, old(held)@),
{
    let mut ops: Vec<Operation> = Vec::new();
    let mut i: usize = 0;
    while i < events.len()
        invariant
            i <= events.len(),
            held@ == held_after(events@.take(i as int), old(held)@),
            ops@ == operations_for(events@.take(i as int), focus, old(held)@),
        decreases events.len() - i,
    {
        translate_event(&events[i], focus, held, &mut ops);
        assert(events@.take(i + 1).drop_last() == events@.take(i as int));
        i = i + 1;
    }
    assert(events@.take(i as int) == events@);
    ops
}

/// No two keys have the same scancode.
pub proof fn law_scancodes_are_distinct(first: Key, second: Key)
    requires
        scancode_of(first) is Some,
        scancode_of(first) == scancode_of(second),
    ensures
        first == second,
{
}

/// No key has the scancode of a modifier, so a key and a modifier never release each other.
pub proof fn law_no_key_is_a_modifier(key: Key, modifiers: Modifiers)
    requires
        scancode_of(key) is Some,
    ensures
        !modifier_codes(modifiers).contains(scancode_of(key)->0),
{
    assert(scancode_of(key)->0 != LEFT_SHIFT);
    assert(scancode_of(key)->0 != LEFT_CTRL);
    assert(scancode_of(key)->0 != LEFT_ALT);
}

/// A key that goes down and up again under the same modifiers leaves neither itself nor a
/// modifier held, and touches nothing else.
pub proof fn law_key_tap_holds_nothing(
    key: Key,
    modifiers: Modifiers,
    focus: PointerFocus,
    held: Set<u16>,
)
    ensures
        ({
            let down = InputEvent::Key { key, pressed: true, modifiers };
            let up = InputEvent::Key { key, pressed: false, modifiers };
            held_after(seq![down, up], held) == without_key(held, key).difference(
                modifier_codes(modifiers).to_set(),
            )
        }),
{
    let down = InputEvent::Key { key, pressed: true, modifiers };
    let up = InputEvent::Key { key, pressed: false, modifiers };
    reveal_with_fuel(held_after, 3);
    assert(seq![down, up].drop_last() == seq![down]);
    assert(seq![down].drop_last() == Seq::<InputEvent>::empty());
    assert(held_after(seq![down, up], held) =~= without_key(held, key).difference(
        modifier_codes(modifiers).to_set(),
    ));
}

/// A modifier that is down is not pressed again: a key that repeats under modifiers that are
/// held already sends only itself.
pub proof fn law_held_modifiers_are_not_repeated(key: Key, modifiers: Modifiers, held: Set<u16>)
    requires
        modifier_codes(modifiers).to_set().subset_of(held),
    ensures
        key_down_operations(key, modifiers, held) == match scancode_of(key) {
            Some(code) => seq![Operation::KeyPressed(scancode_from(code))],
            None => seq![],
        },
{
    let codes = modifier_codes(modifiers);
    let unheld = |code: u16| !held.contains(code);
    assert forall|i: int| 0 <= i < codes.len() implies !unheld(#[trigger] codes[i]) by {
        assert(codes.to_set().contains(codes[i]));
    }
    lemma_filter_nothing(codes, unheld);
    assert(presses_of_unheld(codes, held) =~= Seq::empty());
}

/// A filter that no element passes gives nothing.
proof fn lemma_filter_nothing(codes: Seq<u16>, keep: spec_fn(u16) -> bool)
    requires
        forall|i: int| 0 <= i < codes.len() ==> !keep(#[trigger] codes[i]),
    ensures
        codes.filter(keep) == Seq::<u16>::empty(),
    decreases codes.len(),
{
    reveal(Seq::filter);
    if codes.len() > 0 {
        assert(!keep(codes[codes.len() - 1]));
        lemma_filter_nothing(codes.drop_last(), keep);
    }
}

/// A filter that every element passes gives the whole.
proof fn lemma_filter_everything(codes: Seq<u16>, keep: spec_fn(u16) -> bool)
    requires
        forall|i: int| 0 <= i < codes.len() ==> keep(#[trigger] codes[i]),
    ensures
        codes.filter(keep) == codes,
    decreases codes.len(),
{
    reveal(Seq::filter);
    if codes.len() > 0 {
        assert(keep(codes[codes.len() - 1]));
        lemma_filter_everything(codes.drop_last(), keep);
        assert(codes.drop_last().push(codes.last()) == codes);
    }
}

/// Two events give the operations of the first and then those of the second.
proof fn lemma_two_events(
    first: InputEvent,
    second: InputEvent,
    focus: PointerFocus,
    held: Set<u16>,
)
    ensures
        operations_for(seq![first, second], focus, held) == event_operations(first, focus, held)
            + event_operations(second, focus, event_held(first, held)),
{
    let one = seq![first];
    let two = seq![first, second];
    assert(two.drop_last() == one);
    assert(one.drop_last() == Seq::<InputEvent>::empty());
    assert(held_after(one.drop_last(), held) == held);
    assert(held_after(one, held) == event_held(first, held));
    assert(operations_for(one.drop_last(), focus, held) == Seq::<Operation>::empty());
    assert(operations_for(one, focus, held) == event_operations(first, focus, held));
}

/// Where neither `code` nor one of `codes` is held, pressing and then releasing them takes each of
/// `codes` down and up again.
proof fn lemma_tap(code: u16, codes: Seq<u16>, held: Set<u16>)
    requires
        !held.contains(code),
        !codes.contains(code),
        forall|i: int| 0 <= i < codes.len() ==> !held.contains(#[trigger] codes[i]),
    ensures
        presses_of_unheld(codes, held) == codes.map_values(
            |code: u16| Operation::KeyPressed(scancode_from(code)),
        ),
        releases_of_held(
            codes,
            held.union(codes.to_set()).insert(code).remove(code),
        ) == codes.map_values(|code: u16| Operation::KeyReleased(scancode_from(code))),
{
    lemma_filter_everything(codes, |code: u16| !held.contains(code));
    let still_held = held.union(codes.to_set()).insert(code).remove(code);
    let is_held = |code: u16| still_held.contains(code);
    assert forall|i: int| 0 <= i < codes.len() implies is_held(#[trigger] codes[i]) by {
        assert(codes.to_set().contains(codes[i]));
        assert(codes.contains(codes[i]));
    }
    lemma_filter_everything(codes, is_held);
}

/// Whether neither a key nor one of the modifiers is held.
pub open spec fn is_free(key: Key, modifiers: Modifiers, held: Set<u16>) -> bool {
    &&& scancode_of(key) matches Some(code) ==> !held.contains(code)
    &&& forall|i: int|
        0 <= i < modifier_codes(modifiers).len() ==> !held.contains(
            #[trigger] modifier_codes(modifiers)[i],
        )
}

/// A free key that goes down takes each modifier down first.
proof fn lemma_tap_down(key: Key, modifiers: Modifiers, held: Set<u16>)
    requires
        scancode_of(key) is Some,
        is_free(key, modifiers, held),
    ensures
        key_down_operations(key, modifiers, held) == modifier_codes(modifiers).map_values(
            |code: u16| Operation::KeyPressed(scancode_from(code)),
        ) + seq![Operation::KeyPressed(scancode_from(scancode_of(key)->0))],
{
    law_no_key_is_a_modifier(key, modifiers);
    lemma_tap(scancode_of(key)->0, modifier_codes(modifiers), held);
}

/// A key that was free when it went down takes each modifier up with it.
proof fn lemma_tap_up(key: Key, modifiers: Modifiers, held: Set<u16>)
    requires
        scancode_of(key) is Some,
        is_free(key, modifiers, held),
    ensures
        key_up_operations(
            key,
            modifiers,
            held.union(modifier_codes(modifiers).to_set()).insert(scancode_of(key)->0),
        ) == seq![Operation::KeyReleased(scancode_from(scancode_of(key)->0))] + modifier_codes(
            modifiers,
        ).map_values(|code: u16| Operation::KeyReleased(scancode_from(code))),
{
    law_no_key_is_a_modifier(key, modifiers);
    lemma_tap(scancode_of(key)->0, modifier_codes(modifiers), held);
}

/// Every modifier that a key takes down goes up with the key: where neither the key nor one of its
/// modifiers was held, whatever else was, a tap sends each modifier down, the key down and up, and
/// each modifier up.
pub proof fn law_key_tap_is_balanced_among_held_keys(
    key: Key,
    modifiers: Modifiers,
    focus: PointerFocus,
    held: Set<u16>,
)
    requires
        scancode_of(key) is Some,
        is_free(key, modifiers, held),
    ensures
        ({
            let down = InputEvent::Key { key, pressed: true, modifiers };
            let up = InputEvent::Key { key, pressed: false, modifiers };
            let codes = modifier_codes(modifiers);
            let code = scancode_from(scancode_of(key)->0);
            operations_for(seq![down, up], focus, held) == codes.map_values(
                |code: u16| Operation::KeyPressed(scancode_from(code)),
            ) + seq![Operation::KeyPressed(code), Operation::KeyReleased(code)] + codes.map_values(
                |code: u16| Operation::KeyReleased(scancode_from(code)),
            )
        }),
{
    let down = InputEvent::Key { key, pressed: true, modifiers };
    let up = InputEvent::Key { key, pressed: false, modifiers };
    let codes = modifier_codes(modifiers);
    let code = scancode_from(scancode_of(key)->0);
    lemma_two_events(down, up, focus, held);
    lemma_tap_down(key, modifiers, held);
    lemma_tap_up(key, modifiers, held);
    let presses = codes.map_values(|code: u16| Operation::KeyPressed(scancode_from(code)));
    let releases = codes.map_values(|code: u16| Operation::KeyReleased(scancode_from(code)));
    lemma_regroup(presses, Operation::KeyPressed(code), Operation::KeyReleased(code), releases);
}

/// Where nothing was held, a tap sends each modifier down, the key down and up, and each modifier
/// up.
pub proof fn law_key_tap_is_balanced(key: Key, modifiers: Modifiers, focus: PointerFocus)
    requires
        scancode_of(key) is Some,
    ensures
        ({
            let down = InputEvent::Key { key, pressed: true, modifiers };
            let up = InputEvent::Key { key, pressed: false, modifiers };
            let codes = modifier_codes(modifiers);
            let code = scancode_from(scancode_of(key)->0);
            operations_for(seq![down, up], focus, Set::empty()) == codes.map_values(
                |code: u16| Operation::KeyPressed(scancode_from(code)),
            ) + seq![Operation::KeyPressed(code), Operation::KeyReleased(code)] + codes.map_values(
                |code: u16| Operation::KeyReleased(scancode_from(code)),
            )
        }),
{
    law_key_tap_is_balanced_among_held_keys(key, modifiers, focus, Set::empty());
}

/// Two halves that meet between `a` and `b` are the whole around the pair.
proof fn lemma_regroup(front: Seq<Operation>, a: Operation, b: Operation, back: Seq<Operation>)
    ensures
        (front + seq![a]) + (seq![b] + back) == front + seq![a, b] + back,
{
    assert((front + seq![a]) + (seq![b] + back) =~= front + seq![a, b] + back);
}

} // verus!

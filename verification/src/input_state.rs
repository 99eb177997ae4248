//! The keyboard and mouse state that the server knows of, and the events that change it.
use ironrdp::pdu::input::fast_path::FastPathInputEvent;
use ironrdp_input::Database;
use vstd::prelude::*;

use crate::input::{MouseButton, MousePosition, Operation, Scancode, WheelRotations};

verus! {

/// The keyboard and mouse state of `ironrdp_input`.
#[verifier::external_type_specification]
#[verifier::external_body]
pub struct ExDatabase(ironrdp_input::Database);

/// An input event in the form in which it goes to the server.
#[verifier::external_type_specification]
#[verifier::external_body]
pub struct ExFastPathInputEvent(ironrdp::pdu::input::fast_path::FastPathInputEvent);

/// The scancodes that a database holds as pressed: whether extended, and the code.
pub uninterp spec fn pressed_keys(db: Database) -> Set<(bool, u8)>;

/// The characters that a database holds as pressed.
pub uninterp spec fn pressed_characters(db: Database) -> Set<char>;

/// The mouse buttons that a database holds as pressed.
pub uninterp spec fn pressed_buttons(db: Database) -> Set<MouseButton>;

/// The pointer position that a database holds.
pub uninterp spec fn pointer_position(db: Database) -> MousePosition;

/// The events that `ironrdp_input::Database::apply` returns for one operation on a database with
/// the given contents.
pub uninterp spec fn applied_events(
    keys: Set<(bool, u8)>,
    characters: Set<char>,
    buttons: Set<MouseButton>,
    pointer: MousePosition,
    operation: Operation,
) -> Seq<FastPathInputEvent>;

/// What a database holds.
#[verifier::ext_equal]
pub struct InputState {
    pub keys: Set<(bool, u8)>,
    pub characters: Set<char>,
    pub buttons: Set<MouseButton>,
    pub pointer: MousePosition,
}

/// What `db` holds.
pub open spec fn state_of(db: Database) -> InputState {
    InputState {
        keys: pressed_keys(db),
        characters: pressed_characters(db),
        buttons: pressed_buttons(db),
        pointer: pointer_position(db),
    }
}

impl InputState {
    /// Nothing pressed, the pointer in the corner.
    pub open spec fn initial() -> InputState {
        InputState {
            keys: Set::empty(),
            characters: Set::empty(),
            buttons: Set::empty(),
            pointer: MousePosition { x: 0, y: 0 },
        }
    }

    /// The state after one operation.
    pub open spec fn after(self, operation: Operation) -> InputState {
        match operation {
            Operation::MouseButtonPressed(button) => InputState {
                buttons: self.buttons.insert(button),
                ..self
            },
            Operation::MouseButtonReleased(button) => InputState {
                buttons: self.buttons.remove(button),
                ..self
            },
            Operation::MouseMove(position) => InputState { pointer: position, ..self },
            Operation::WheelRotations(_) => self,
            Operation::KeyPressed(key) => InputState {
                keys: self.keys.insert((key.extended, key.code)),
                ..self
            },
            Operation::KeyReleased(key) => InputState {
                keys: self.keys.remove((key.extended, key.code)),
                ..self
            },
            Operation::UnicodeKeyPressed(c) => InputState {
                characters: self.characters.insert(c),
                ..self
            },
            Operation::UnicodeKeyReleased(c) => InputState {
                characters: self.characters.remove(c),
                ..self
            },
        }
    }

    /// Whether an operation leaves the server with nothing to be told: a button that is pressed
    /// already, a release of what is not pressed, a move to where the pointer is. A key that is
    /// pressed again repeats, so it is not silent.
    pub open spec fn ignores(self, operation: Operation) -> bool {
        match operation {
            Operation::MouseButtonPressed(button) => self.buttons.contains(button),
            Operation::MouseButtonReleased(button) => !self.buttons.contains(button),
            Operation::MouseMove(position) => position == self.pointer,
            Operation::WheelRotations(_) => false,
            Operation::KeyPressed(_) => false,
            Operation::KeyReleased(key) => !self.keys.contains((key.extended, key.code)),
            Operation::UnicodeKeyPressed(_) => false,
            Operation::UnicodeKeyReleased(c) => !self.characters.contains(c),
        }
    }

    /// The events for one operation.
    pub open spec fn events(self, operation: Operation) -> Seq<FastPathInputEvent> {
        applied_events(self.keys, self.characters, self.buttons, self.pointer, operation)
    }

    /// The state after a sequence of operations.
    pub open spec fn after_all(self, operations: Seq<Operation>) -> InputState
        decreases operations.len(),
    {
        if operations.len() == 0 {
            self
        } else {
            self.after_all(operations.drop_last()).after(operations.last())
        }
    }

    /// The events for a sequence of operations, in order.
    pub open spec fn all_events(self, operations: Seq<Operation>) -> Seq<FastPathInputEvent>
        decreases operations.len(),
    {
        if operations.len() == 0 {
            seq![]
        } else {
            self.all_events(operations.drop_last()) + self.after_all(
                operations.drop_last(),
            ).events(operations.last())
        }
    }

    /// Whether a sequence of operations leaves the server with nothing to be told.
    pub open spec fn ignores_all(self, operations: Seq<Operation>) -> bool
        decreases operations.len(),
    {
        operations.len() == 0 || (self.ignores_all(operations.drop_last()) && self.after_all(
            operations.drop_last(),
        ).ignores(operations.last()))
    }
}

/// `ironrdp_input::Database::new`: a database that holds nothing as pressed, with the pointer
/// at the origin.
#[verifier::external_body]
pub(crate) fn new_database() -> (db: Database)
    ensures
        pressed_keys(db) == Set::<(bool, u8)>::empty(),
        pressed_characters(db) == Set::<char>::empty(),
        pressed_buttons(db) == Set::<MouseButton>::empty(),
        pointer_position(db) == (MousePosition { x: 0, y: 0 }),
{
    Database::new()
}

/// `ironrdp_input::Database::apply` on one press of a mouse button. There are no events exactly
/// where the button is pressed already.
#[verifier::external_body]
fn press_button(db: &mut Database, button: MouseButton) -> (events: Vec<FastPathInputEvent>)
    ensures
        pressed_keys(*final(db)) == pressed_keys(*old(db)),
        pressed_characters(*final(db)) == pressed_characters(*old(db)),
        pressed_buttons(*final(db)) == pressed_buttons(*old(db)).insert(button),
        pointer_position(*final(db)) == pointer_position(*old(db)),
        events@ == applied_events(
            pressed_keys(*old(db)),
            pressed_characters(*old(db)),
            pressed_buttons(*old(db)),
            pointer_position(*old(db)),
            Operation::MouseButtonPressed(button),
        ),
        events@.len() == 0 <==> pressed_buttons(*old(db)).contains(button),
{
    let button = match button {
        MouseButton::Left => ironrdp_input::MouseButton::Left,
        MouseButton::Middle => ironrdp_input::MouseButton::Middle,
        MouseButton::Right => ironrdp_input::MouseButton::Right,
        MouseButton::X1 => ironrdp_input::MouseButton::X1,
        MouseButton::X2 => ironrdp_input::MouseButton::X2,
    };
    db.apply([ironrdp_input::Operation::MouseButtonPressed(button)]).into_vec()
}

/// `ironrdp_input::Database::apply` on one release of a mouse button. There are no events
/// exactly where the button is not pressed.
#[verifier::external_body]
fn release_button(db: &mut Database, button: MouseButton) -> (events: Vec<FastPathInputEvent>)
    ensures
        pressed_keys(*final(db)) == pressed_keys(*old(db)),
        pressed_characters(*final(db)) == pressed_characters(*old(db)),
        pressed_buttons(*final(db)) == pressed_buttons(*old(db)).remove(button),
        pointer_position(*final(db)) == pointer_position(*old(db)),
        events@ == applied_events(
            pressed_keys(*old(db)),
            pressed_characters(*old(db)),
            pressed_buttons(*old(db)),
            pointer_position(*old(db)),
            Operation::MouseButtonReleased(button),
        ),
        events@.len() == 0 <==> !pressed_buttons(*old(db)).contains(button),
{
    let button = match button {
        MouseButton::Left => ironrdp_input::MouseButton::Left,
        MouseButton::Middle => ironrdp_input::MouseButton::Middle,
        MouseButton::Right => ironrdp_input::MouseButton::Right,
        MouseButton::X1 => ironrdp_input::MouseButton::X1,
        MouseButton::X2 => ironrdp_input::MouseButton::X2,
    };
    db.apply([ironrdp_input::Operation::MouseButtonReleased(button)]).into_vec()
}

/// `ironrdp_input::Database::apply` on one move of the pointer. There are no events exactly
/// where the pointer is there already.
#[verifier::external_body]
fn move_pointer(db: &mut Database, position: MousePosition) -> (events: Vec<FastPathInputEvent>)
    ensures
        pressed_keys(*final(db)) == pressed_keys(*old(db)),
        pressed_characters(*final(db)) == pressed_characters(*old(db)),
        pressed_buttons(*final(db)) == pressed_buttons(*old(db)),
        pointer_position(*final(db)) == position,
        events@ == applied_events(
            pressed_keys(*old(db)),
            pressed_characters(*old(db)),
            pressed_buttons(*old(db)),
            pointer_position(*old(db)),
            Operation::MouseMove(position),
        ),
        events@.len() == 0 <==> position == pointer_position(*old(db)),
{
    let position = ironrdp_input::MousePosition { x: position.x, y: position.y };
    db.apply([ironrdp_input::Operation::MouseMove(position)]).into_vec()
}

/// `ironrdp_input::Database::apply` on one turn of the wheel, which always gives an event and
/// changes nothing that the database holds.
#[verifier::external_body]
fn turn_wheel(db: &mut Database, rotations: WheelRotations) -> (events: Vec<FastPathInputEvent>)
    ensures
        pressed_keys(*final(db)) == pressed_keys(*old(db)),
        pressed_characters(*final(db)) == pressed_characters(*old(db)),
        pressed_buttons(*final(db)) == pressed_buttons(*old(db)),
        pointer_position(*final(db)) == pointer_position(*old(db)),
        events@ == applied_events(
            pressed_keys(*old(db)),
            pressed_characters(*old(db)),
            pressed_buttons(*old(db)),
            pointer_position(*old(db)),
            Operation::WheelRotations(rotations),
        ),
        events@.len() > 0,
{
    let rotations = ironrdp_input::WheelRotations {
        is_vertical: rotations.is_vertical,
        rotation_units: rotations.rotation_units,
    };
    db.apply([ironrdp_input::Operation::WheelRotations(rotations)]).into_vec()
}

/// `ironrdp_input::Database::apply` on one press of a key, which always gives an event: a key
/// that is pressed already is released and pressed again.
#[verifier::external_body]
fn press_key(db: &mut Database, key: Scancode) -> (events: Vec<FastPathInputEvent>)
    ensures
        pressed_keys(*final(db)) == pressed_keys(*old(db)).insert((key.extended, key.code)),
        pressed_characters(*final(db)) == pressed_characters(*old(db)),
        pressed_buttons(*final(db)) == pressed_buttons(*old(db)),
        pointer_position(*final(db)) == pointer_position(*old(db)),
        events@ == applied_events(
            pressed_keys(*old(db)),
            pressed_characters(*old(db)),
            pressed_buttons(*old(db)),
            pointer_position(*old(db)),
            Operation::KeyPressed(key),
        ),
        events@.len() > 0,
{
    let key = ironrdp_input::Scancode::from_u8(key.extended, key.code);
    db.apply([ironrdp_input::Operation::KeyPressed(key)]).into_vec()
}

/// `ironrdp_input::Database::apply` on one release of a key. There are no events exactly where
/// the key is not pressed.
#[verifier::external_body]
fn release_key(db: &mut Database, key: Scancode) -> (events: Vec<FastPathInputEvent>)
    ensures
        pressed_keys(*final(db)) == pressed_keys(*old(db)).remove((key.extended, key.code)),
        pressed_characters(*final(db)) == pressed_characters(*old(db)),
        pressed_buttons(*final(db)) == pressed_buttons(*old(db)),
        pointer_position(*final(db)) == pointer_position(*old(db)),
        events@ == applied_events(
            pressed_keys(*old(db)),
            pressed_characters(*old(db)),
            pressed_buttons(*old(db)),
            pointer_position(*old(db)),
            Operation::KeyReleased(key),
        ),
        events@.len() == 0 <==> !pressed_keys(*old(db)).contains((key.extended, key.code)),
{
    let key = ironrdp_input::Scancode::from_u8(key.extended, key.code);
    db.apply([ironrdp_input::Operation::KeyReleased(key)]).into_vec()
}

/// `ironrdp_input::Database::apply` on one press of a character, which always gives an event: a
/// character that is pressed already is released and pressed again.
#[verifier::external_body]
fn press_character(db: &mut Database, c: char) -> (events: Vec<FastPathInputEvent>)
    ensures
        pressed_keys(*final(db)) == pressed_keys(*old(db)),
        pressed_characters(*final(db)) == pressed_characters(*old(db)).insert(c),
        pressed_buttons(*final(db)) == pressed_buttons(*old(db)),
        pointer_position(*final(db)) == pointer_position(*old(db)),
        events@ == applied_events(
            pressed_keys(*old(db)),
            pressed_characters(*old(db)),
            pressed_buttons(*old(db)),
            pointer_position(*old(db)),
            Operation::UnicodeKeyPressed(c),
        ),
        events@.len() > 0,
{
    db.apply([ironrdp_input::Operation::UnicodeKeyPressed(c)]).into_vec()
}

/// `ironrdp_input::Database::apply` on one release of a character. There are no events exactly
/// where the character is not pressed.
#[verifier::external_body]
fn release_character(db: &mut Database, c: char) -> (events: Vec<FastPathInputEvent>)
    ensures
        pressed_keys(*final(db)) == pressed_keys(*old(db)),
        pressed_characters(*final(db)) == pressed_characters(*old(db)).remove(c),
        pressed_buttons(*final(db)) == pressed_buttons(*old(db)),
        pointer_position(*final(db)) == pointer_position(*old(db)),
        events@ == applied_events(
            pressed_keys(*old(db)),
            pressed_characters(*old(db)),
            pressed_buttons(*old(db)),
            pointer_position(*old(db)),
            Operation::UnicodeKeyReleased(c),
        ),
        events@.len() == 0 <==> !pressed_characters(*old(db)).contains(c),
{
    db.apply([ironrdp_input::Operation::UnicodeKeyReleased(c)]).into_vec()
}

/// Applies one operation and returns the events to send.
pub fn apply_operation(db: &mut Database, operation: Operation) -> (events: Vec<
    FastPathInputEvent,
>)
    ensures
        state_of(*final(db)) == state_of(*old(db)).after(operation),
        events@ == state_of(*old(db)).events(operation),
        events@.len() == 0 <==> state_of(*old(db)).ignores(operation),
{
    match operation {
        Operation::MouseButtonPressed(button) => press_button(db, button),
        Operation::MouseButtonReleased(button) => release_button(db, button),
        Operation::MouseMove(position) => move_pointer(db, position),
        Operation::WheelRotations(rotations) => turn_wheel(db, rotations),
        Operation::KeyPressed(key) => press_key(db, key),
        Operation::KeyReleased(key) => release_key(db, key),
        Operation::UnicodeKeyPressed(c) => press_character(db, c),
        Operation::UnicodeKeyReleased(c) => release_character(db, c),
    }
}

/// Applies a sequence of operations and returns the events to send. Operations that change
/// nothing are ignored.
pub fn apply(db: &mut Database, operations: &Vec<Operation>) -> (events: Vec<FastPathInputEvent>)
    ensures
        state_of(*final(db)) == state_of(*old(db)).after_all(operations@),
        events@ == state_of(*old(db)).all_events(operations@),
        events@.len() == 0 <==> state_of(*old(db)).ignores_all(operations@),
{
    let ghost start = state_of(*old(db));
    let mut events: Vec<FastPathInputEvent> = Vec::new();
    let mut i: usize = 0;
    while i < operations.len()
        invariant
            i <= operations.len(),
            start == state_of(*old(db)),
            state_of(*db) == start.after_all(operations@.take(i as int)),
            events@ == start.all_events(operations@.take(i as int)),
            events@.len() == 0 <==> start.ignores_all(operations@.take(i as int)),
        decreases operations.len() - i,
    {
        let mut new_events = apply_operation(db, operations[i]);
        events.append(&mut new_events);
        assert(operations@.take(i + 1).drop_last() == operations@.take(i as int));
        i = i + 1;
    }
    assert(operations@.take(i as int) == operations@);
    events
}

} // verus!

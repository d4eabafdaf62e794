//! The normalized input-event model and the per-iteration decisions of the
//! main event loop.
//!
//! The core never reads the terminal itself: a driver converts raw terminal
//! events into [`InputEvent`]s and asks [`handle_event_no_consume`] what one
//! loop iteration should do — terminate on a configured exit key, re-render
//! at a new size on a resize, or carry on and forward the event to the
//! application.

use vstd::prelude::*;

use crate::dimens::{Size, UnitType};

verus! {

/// Which key was pressed.
#[derive(Copy, Clone, PartialEq, Eq, Structural, Debug)]
pub enum KeyCode {
    Char(char),
    Enter,
    Esc,
    Backspace,
    Tab,
    Delete,
    Insert,
    Left,
    Right,
    Up,
    Down,
    Home,
    End,
    PageUp,
    PageDown,
    F(u8),
}

/// The modifier keys held during a keypress.
#[derive(Copy, Clone, PartialEq, Eq, Structural, Debug)]
pub struct KeyModifiers {
    pub shift: bool,
    pub control: bool,
    pub alt: bool,
}

impl KeyModifiers {
    /// No modifier held.
    pub open spec fn spec_is_none(&self) -> bool {
        !self.shift && !self.control && !self.alt
    }

    /// No modifier held.
    pub fn none() -> (r: KeyModifiers)
        ensures
            r.spec_is_none(),
    {
        KeyModifiers { shift: false, control: false, alt: false }
    }
}

/// One keypress: the key and the modifiers held with it.
#[derive(Copy, Clone, PartialEq, Eq, Structural, Debug)]
pub struct KeyEvent {
    pub code: KeyCode,
    pub modifiers: KeyModifiers,
}

/// One mouse event, reduced to the cell it happened in.
#[derive(Copy, Clone, PartialEq, Eq, Structural, Debug)]
pub struct MouseEvent {
    pub col: UnitType,
    pub row: UnitType,
}

/// A normalized input event, as handed to the core by the event source.
#[derive(Copy, Clone, PartialEq, Eq, Structural, Debug)]
pub enum InputEvent {
    /// A plain printable keypress with no modifier held.
    DisplayableKeypress(char),
    /// Any other keypress.
    NonDisplayableKeypress(KeyEvent),
    /// The terminal was resized to the given size.
    Resize(Size),
    Mouse(MouseEvent),
    /// Nothing happened.
    NoEvent,
}

impl Default for InputEvent {
    fn default() -> (r: InputEvent)
        ensures
            r == InputEvent::NoEvent,
    {
        InputEvent::NoEvent
    }
}

impl InputEvent {
    /// Classifies a keypress: a plain character with no modifier held is
    /// displayable, every other keypress is not.
    pub fn from(key_event: KeyEvent) -> (r: InputEvent)
        ensures
            r == (match key_event.code {
                KeyCode::Char(character) => if key_event.modifiers.spec_is_none() {
                    InputEvent::DisplayableKeypress(character)
                } else {
                    InputEvent::NonDisplayableKeypress(key_event)
                },
                _ => InputEvent::NonDisplayableKeypress(key_event),
            }),
    {
        match key_event.code {
            KeyCode::Char(character) => {
                if !key_event.modifiers.shift && !key_event.modifiers.control
                    && !key_event.modifiers.alt {
                    InputEvent::DisplayableKeypress(character)
                } else {
                    InputEvent::NonDisplayableKeypress(key_event)
                }
            },
            _ => InputEvent::NonDisplayableKeypress(key_event),
        }
    }
}

/// What one iteration of the main event loop decides to do next.
#[derive(Copy, Clone, PartialEq, Eq, Structural, Debug)]
pub enum Continuation {
    /// A configured exit key was pressed: terminate the loop.
    Exit,
    /// Keep looping; forward the event to the application.
    Continue,
    /// The terminal was resized: re-render at the new size, then keep going.
    ResizeAndContinue(Size),
}

/// Whether an application's event handler consumed the event or lets it
/// propagate further.
#[derive(Copy, Clone, PartialEq, Eq, Structural, Debug)]
pub enum EventPropagation {
    Consumed,
    Propagate,
}

/// Whether the event is a keypress matching one of the configured exit keys.
pub open spec fn spec_is_exit_event(input_event: InputEvent, exit_keys: Seq<KeyEvent>) -> bool {
    match input_event {
        InputEvent::NonDisplayableKeypress(key_event) => exit_keys.contains(key_event),
        _ => false,
    }
}

/// Checks the event against the ordered list of exit key combinations
/// supplied at loop start.
pub fn is_exit_event(input_event: InputEvent, exit_keys: &Vec<KeyEvent>) -> (r: bool)
    ensures
        r == spec_is_exit_event(input_event, exit_keys@),
{
    match input_event {
        InputEvent::NonDisplayableKeypress(key_event) => {
            let n = exit_keys.len();
            let mut i: usize = 0;
            while i < n
                invariant
                    i <= n,
                    n == exit_keys@.len(),
                    input_event == InputEvent::NonDisplayableKeypress(key_event),
                    forall|j: int| 0 <= j < i ==> exit_keys@[j] != key_event,
                decreases n - i,
            {
                if exit_keys[i] == key_event {
                    proof {
                        assert(exit_keys@.contains(key_event));
                    }
                    return true;
                }
                i += 1;
            }
            false
        },
        _ => false,
    }
}

/// The decision for one loop iteration, without consuming the event: exit on
/// a configured exit key, re-render on a resize, otherwise continue and let
/// the application handle the event.
pub fn handle_event_no_consume(input_event: InputEvent, exit_keys: &Vec<KeyEvent>) -> (r:
    Continuation)
    ensures
        spec_is_exit_event(input_event, exit_keys@) ==> r == Continuation::Exit,
        !spec_is_exit_event(input_event, exit_keys@) ==> r == (match input_event {
            InputEvent::Resize(size) => Continuation::ResizeAndContinue(size),
            _ => Continuation::Continue,
        }),
{
    if is_exit_event(input_event, exit_keys) {
        return Continuation::Exit;
    }
    match input_event {
        InputEvent::Resize(size) => Continuation::ResizeAndContinue(size),
        _ => Continuation::Continue,
    }
}

/// The state the event loop shares across iterations: the cached terminal
/// size, updated on every resize.
#[derive(Copy, Clone, PartialEq, Eq, Structural, Debug)]
pub struct TWData {
    pub size: Size,
}

impl TWData {
    pub fn new(size: Size) -> (r: TWData)
        ensures
            r.size == size,
    {
        TWData { size }
    }

    /// Records a new terminal size after a resize event.
    pub fn set_size(&mut self, new_size: Size)
        ensures
            final(self).size == new_size,
    {
        self.size = new_size;
    }
}

} // verus!

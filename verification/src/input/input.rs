//! Input events, and the step from a raw key or button transition to an event.

use crate::input::key::{button_name, Button, Key};
use crate::input::keyboard::{physical_label, resolve_physical_key};
use crate::input::keymap::{resolve_key_label, shifted_label};
use crate::input::layout::KeyboardLayout;
use vstd::prelude::*;
use vstd::string::*;

verus! {

/// A key press or a mouse click, with the label it was captured under.
#[derive(Debug, Clone)]
pub enum InputEvent {
    KeyPress(String),
    MouseClick(String),
}

/// The value of an `InputEvent`.
pub ghost enum EventModel {
    KeyPress(Seq<char>),
    MouseClick(Seq<char>),
}

impl View for InputEvent {
    type V = EventModel;

    open spec fn view(&self) -> EventModel {
        match self {
            InputEvent::KeyPress(label) => EventModel::KeyPress(label@),
            InputEvent::MouseClick(label) => EventModel::MouseClick(label@),
        }
    }
}

/// What the capture layer reports of a key or a button.
#[derive(Debug, Clone, Copy, PartialEq, Eq, Structural)]
pub enum Transition {
    KeyDown(Key),
    KeyUp(Key),
    ButtonDown(Button),
    /// Anything else: a button released, the pointer moved, the wheel turned.
    Other,
}

/// The state of the capture layer: whether Shift is held, and the layout that
/// shifted keys are read by.
#[derive(Debug, Clone, Copy, PartialEq, Eq, Structural)]
pub struct ShiftTracker {
    pub shift_down: bool,
    pub layout: KeyboardLayout,
}

/// Whether a key is one of the two Shift keys.
pub open spec fn is_shift(key: Key) -> bool {
    key == Key::ShiftLeft || key == Key::ShiftRight
}

/// The label that a key other than Shift is sent under: without Shift that of
/// the physical key; with Shift what the platform says the key types, where it
/// says so, else the label by the layout's table.
pub open spec fn key_down_label(
    key: Key,
    shift_down: bool,
    layout: KeyboardLayout,
    typed: Option<Seq<char>>,
) -> Seq<char> {
    if shift_down {
        match typed {
            Some(text) => text,
            None => shifted_label(key, layout),
        }
    } else {
        physical_label(key)
    }
}

/// Whether Shift is held after a transition: a Shift key going down sets it, a
/// Shift key going up clears it, nothing else touches it.
pub open spec fn shift_after(shift_down: bool, transition: Transition) -> bool {
    match transition {
        Transition::KeyDown(key) => shift_down || is_shift(key),
        Transition::KeyUp(key) => shift_down && !is_shift(key),
        _ => shift_down,
    }
}

/// The event that a transition sends, if any. A Shift key going down is sent at
/// once under the label of Shift; any other key going down under its label; a
/// button going down as a click under `Mouse` and the button's name. Nothing
/// else sends an event.
pub open spec fn event_of(
    tracker: ShiftTracker,
    transition: Transition,
    typed: Option<Seq<char>>,
) -> Option<EventModel> {
    match transition {
        Transition::KeyDown(key) => if is_shift(key) {
            Some(EventModel::KeyPress("\u{21e7} shift"@))
        } else {
            Some(
                EventModel::KeyPress(
                    key_down_label(key, tracker.shift_down, tracker.layout, typed),
                ),
            )
        },
        Transition::ButtonDown(button) => Some(
            EventModel::MouseClick("Mouse"@ + button_name(button)),
        ),
        _ => None,
    }
}

/// The characters of a text, where there is one.
pub open spec fn text_of(text: Option<String>) -> Option<Seq<char>> {
    match text {
        Some(t) => Some(t@),
        None => None,
    }
}

/// The value of an event, where there is one.
pub open spec fn event_model(event: Option<InputEvent>) -> Option<EventModel> {
    match event {
        Some(e) => Some(e@),
        None => None,
    }
}

/// The raw label of a click with a button.
pub fn mouse_label(button: Button) -> (label: String)
    ensures
        label@ == "Mouse"@ + button_name(button),
{
    let mut label = String::from_str("Mouse");
    let name = button.name();
    label.append(name.as_str());
    label
}

impl ShiftTracker {
    /// A tracker for the given layout, with Shift up.
    pub fn new(layout: KeyboardLayout) -> (tracker: ShiftTracker)
        ensures
            tracker == (ShiftTracker { shift_down: false, layout }),
    {
        ShiftTracker { shift_down: false, layout }
    }

    /// Whether it is of use to ask the platform what the key types: a key other
    /// than Shift goes down while Shift is held.
    pub fn wants_typed_text(&self, transition: Transition) -> (wanted: bool)
        ensures
            wanted == (self.shift_down && match transition {
                Transition::KeyDown(key) => !is_shift(key),
                _ => false,
            }),
    {
        match transition {
            Transition::KeyDown(key) => self.shift_down && !shift_key(key),
            _ => false,
        }
    }

    /// Takes one transition: follows Shift, and gives the event to send, if any.
    /// `typed` is what the platform says the key types, where it says so.
    pub fn on_transition(
        &mut self,
        transition: Transition,
        typed: Option<String>,
    ) -> (event: Option<InputEvent>)
        ensures
            final(self).layout == old(self).layout,
            final(self).shift_down == shift_after(old(self).shift_down, transition),
            event_model(event) == event_of(*old(self), transition, text_of(typed)),
    {
        match transition {
            Transition::KeyDown(key) => {
                if shift_key(key) {
                    self.shift_down = true;
                    Some(InputEvent::KeyPress(String::from_str("\u{21e7} shift")))
                } else if self.shift_down {
                    match typed {
                        Some(text) => Some(InputEvent::KeyPress(text)),
                        None => Some(InputEvent::KeyPress(resolve_key_label(key, &self.layout))),
                    }
                } else {
                    Some(InputEvent::KeyPress(resolve_physical_key(key)))
                }
            },
            Transition::KeyUp(key) => {
                if shift_key(key) {
                    self.shift_down = false;
                }
                None
            },
            Transition::ButtonDown(button) => Some(InputEvent::MouseClick(mouse_label(button))),
            Transition::Other => None,
        }
    }
}

fn shift_key(key: Key) -> (r: bool)
    ensures
        r == is_shift(key),
{
    match key {
        Key::ShiftLeft => true,
        Key::ShiftRight => true,
        _ => false,
    }
}

} // verus!

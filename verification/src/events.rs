//! Plain input events and what each of them does to a device.
//!
//! `InputEvent` holds, as plain values, what a windowing library reports
//! about one event. The same event can be handed to a keyboard, a mouse and a
//! touchpad: each device applies the kinds it knows and ignores the others.
use crate::keyboard::Keyboard;
use crate::keyboard::KeyboardInterface;
use crate::mouse::Mouse;
use crate::mouse::MouseInterface;
use crate::touch::after_event;
use crate::touch::TouchPhase;
use crate::touch::Touchpad;
use crate::Event;
use core::ops::Add;
use vstd::prelude::*;
use vstd::std_specs::cmp::PartialEqSpec;

verus! {

/// Whether a key or button went down or up.
#[derive(Debug, Clone, Copy, PartialEq, Eq, Structural)]
pub enum ElementState {
    Pressed,
    Released,
}

/// One input event, as plain values.
#[derive(Debug, Clone)]
#[verifier::reject_recursive_types(Coord)]
pub enum InputEvent<Key, Mods, Button, TouchId, Coord> {
    /// A key went down or up. `key` is `None` where the platform could not
    /// name the key.
    KeyboardInput { state: ElementState, key: Option<Key> },
    /// A character of text was entered.
    ReceivedCharacter(char),
    /// Some text was entered.
    ReceivedText(String),
    /// The modifier keys changed to this snapshot.
    ModifiersChanged(Mods),
    /// A mouse button went down or up.
    MouseInput { state: ElementState, button: Button },
    /// The pointer moved to `position`.
    CursorMoved { position: [Coord; 2] },
    /// A touch started, moved, ended or was cancelled.
    Touch { id: TouchId, position: [Coord; 2], phase: TouchPhase },
    /// Any other kind of event. No device reacts to it.
    Other,
}

impl<Key, Mods, Button, TouchId, Coord> Event<Keyboard<Key, Mods>> for InputEvent<
    Key,
    Mods,
    Button,
    TouchId,
    Coord,
> where Key: Copy + PartialEq, Mods: Copy {
    /// A key that went down is pressed and one that went up is released, if
    /// the platform named it; characters and text are appended; a modifier
    /// snapshot replaces the stored one. Every other event leaves the
    /// keyboard as it was.
    open spec fn applied(&self, before: Keyboard<Key, Mods>, after: Keyboard<Key, Mods>) -> bool {
        match *self {
            InputEvent::KeyboardInput { state: ElementState::Pressed, key: Some(key) } => {
                Key::obeys_eq_spec() ==> exists|copy: Key| #[trigger]
                    cloned(key, copy) && after@ == before@.press(key, copy)
            },
            InputEvent::KeyboardInput { state: ElementState::Released, key: Some(key) } => {
                Key::obeys_eq_spec() ==> after@ == before@.release(key)
            },
            InputEvent::ReceivedCharacter(ch) => after@ == before@.receive(seq![ch]),
            InputEvent::ReceivedText(text) => after@ == before@.receive(text@),
            InputEvent::ModifiersChanged(modifiers) => after@ == before@.set_modifiers(modifiers),
            _ => after@ == before@,
        }
    }

    fn handle(&self, keyboard: &mut Keyboard<Key, Mods>) {
        match self {
            InputEvent::KeyboardInput { state, key } => {
                if let Some(key) = key {
                    match state {
                        ElementState::Pressed => {
                            keyboard.press(*key);
                        },
                        ElementState::Released => {
                            keyboard.release(*key);
                        },
                    }
                }
            },
            InputEvent::ReceivedCharacter(ch) => {
                keyboard.receive_char(*ch);
            },
            InputEvent::ReceivedText(text) => {
                if !text.as_str().is_empty() {
                    keyboard.receive_text(text.as_str());
                } else {
                    assert(keyboard@.text + text@ =~= keyboard@.text);
                }
            },
            InputEvent::ModifiersChanged(modifiers) => {
                keyboard.set_modifiers(*modifiers);
            },
            _ => {},
        }
    }
}

impl<Key, Mods, Button, TouchId, Coord> Event<Mouse<Button, Coord>> for InputEvent<
    Key,
    Mods,
    Button,
    TouchId,
    Coord,
> where Button: Copy + PartialEq, Coord: Copy + Default + Add<Output = Coord> {
    /// A button that went down is pressed and one that went up is released;
    /// a cursor move places the pointer. Every other event leaves the mouse
    /// as it was.
    open spec fn applied(&self, before: Mouse<Button, Coord>, after: Mouse<Button, Coord>) -> bool {
        match *self {
            InputEvent::MouseInput { state: ElementState::Pressed, button } => {
                &&& Button::obeys_eq_spec() ==> after@ == before@.press(button)
                &&& after@.position == before@.position
            },
            InputEvent::MouseInput { state: ElementState::Released, button } => {
                &&& Button::obeys_eq_spec() ==> after@ == before@.release(button)
                &&& after@.position == before@.position
            },
            InputEvent::CursorMoved { position } => after@ == before@.move_to(position),
            _ => after@ == before@,
        }
    }

    fn handle(&self, mouse: &mut Mouse<Button, Coord>) {
        match self {
            InputEvent::MouseInput { state, button } => {
                match state {
                    ElementState::Pressed => {
                        mouse.press(*button);
                    },
                    ElementState::Released => {
                        mouse.release(*button);
                    },
                }
            },
            InputEvent::CursorMoved { position } => {
                mouse.move_to(*position);
            },
            _ => {},
        }
    }
}

impl<Key, Mods, Button, TouchId, Coord> Event<Touchpad<TouchId, Coord>> for InputEvent<
    Key,
    Mods,
    Button,
    TouchId,
    Coord,
> where TouchId: Copy + PartialEq, Coord: Copy + Default + Add<Output = Coord> {
    /// A touch event is registered with its id, position and phase. Every
    /// other event leaves the touchpad as it was.
    open spec fn applied(
        &self,
        before: Touchpad<TouchId, Coord>,
        after: Touchpad<TouchId, Coord>,
    ) -> bool {
        match *self {
            InputEvent::Touch { id, position, phase } => {
                TouchId::obeys_eq_spec() ==> after@ == after_event(before@, id, position, phase)
            },
            _ => after@ == before@,
        }
    }

    fn handle(&self, touchpad: &mut Touchpad<TouchId, Coord>) {
        match self {
            InputEvent::Touch { id, position, phase } => {
                touchpad.record(*id, *position, *phase);
            },
            _ => {},
        }
    }
}

} // verus!

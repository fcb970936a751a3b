//! Per-frame input state for keyboards, mice and touch surfaces.
//!
//! Each device is a small state machine driven by discrete events. It answers
//! three questions about every control it has seen: is it held down, was it
//! pressed since the last reset, and was it released since the last reset.
//! The host resets the edge state once per frame with `clear_presses` or
//! `clear_taps`.
//!
//! Every device has a mathematical view (`KeyboardState`, `MouseState`, a
//! sequence of `Touch`), and every operation states the view it leaves behind.
pub mod controls;
pub mod events;
pub mod keyboard;
pub mod mouse;
pub mod prelude;
pub mod text;
pub mod touch;

pub use crate::events::ElementState;
pub use crate::events::InputEvent;
pub use crate::keyboard::Keyboard;
pub use crate::keyboard::KeyboardInterface;
pub use crate::keyboard::Modifiers;
pub use crate::mouse::Mouse;
pub use crate::mouse::MouseInterface;
pub use crate::touch::Touch;
pub use crate::touch::TouchInterface;
pub use crate::touch::TouchPhase;
pub use crate::touch::Touchpad;

use vstd::prelude::*;

verus! {

/// An event that can modify input state.
///
/// `applied` is the event's meaning: it relates a handler before the event
/// to the same handler after it. `handle` must stay within that relation.
pub trait Event<Handler> {
    /// True when `after` is a state this event may leave a handler in that
    /// was in state `before`. An event type that does not say what it does
    /// may leave the handler in any state.
    open spec fn applied(&self, before: Handler, after: Handler) -> bool {
        true
    }

    /// Modify the state of the provided handler (for example, a `Mouse` or
    /// `Keyboard`).
    ///
    /// This should rarely be called directly. Instead, pass this event to
    /// the handler's `handle_event` method.
    fn handle(&self, handler: &mut Handler)
        ensures
            self.applied(*old(handler), *final(handler)),
    ;
}

} // verus!

//! Mouse state: buttons and pointer position.
use crate::controls::contains;
use crate::controls::remove_matching;
use crate::controls::Controls;
use crate::Event;
use core::ops::Add;
use vstd::prelude::*;
use vstd::std_specs::cmp::PartialEqSpec;
use vstd::std_specs::ops::AddSpec;

verus! {

/// A trait for objects that can represent the state of a mouse.
pub trait MouseInterface: Sized {
    /// A type representing a mouse button.
    type Button;

    /// The numeric type used for pointer coordinates.
    type Coord;

    /// True when the pointer can be moved by `delta_position` from where it
    /// is: adding the offset to the position is defined. A mouse that does
    /// not say otherwise can always be moved.
    open spec fn can_move_by(&self, delta_position: [Self::Coord; 2]) -> bool {
        true
    }

    /// Returns the position of the mouse pointer.
    fn position(&self) -> [Self::Coord; 2];

    /// Returns `true` if the given button is currently held down.
    fn down(&self, button: Self::Button) -> bool;

    /// Returns `true` if the given button was pressed this frame.
    fn pressed(&self, button: Self::Button) -> bool;

    /// Returns `true` if the given button was released this frame.
    fn released(&self, button: Self::Button) -> bool;

    /// Clears the pressed state of held buttons. Should be called at end of frame.
    fn clear_presses(&mut self) -> (mouse: &mut Self)
        ensures
            *final(self) == *final(mouse),
    ;

    /// Set the position of the mouse to the given value.
    fn move_to(&mut self, position: [Self::Coord; 2]) -> (mouse: &mut Self)
        ensures
            *final(self) == *final(mouse),
    ;

    /// Modify the position of the mouse by the given offset.
    fn move_by(&mut self, delta_position: [Self::Coord; 2]) -> (mouse: &mut Self)
        requires
            old(self).can_move_by(delta_position),
        ensures
            *final(self) == *final(mouse),
    ;

    /// Register that a button was pressed down.
    fn press(&mut self, button: Self::Button) -> (mouse: &mut Self)
        ensures
            *final(self) == *final(mouse),
    ;

    /// Register that a button was released.
    fn release(&mut self, button: Self::Button) -> (mouse: &mut Self)
        ensures
            *final(self) == *final(mouse),
    ;

    /// Convenience method for handling events. The type of event, `E`, will
    /// vary depending on the windowing library being used.
    fn handle_event<E: Event<Self>>(&mut self, event: &E) -> (mouse: &mut Self)
        ensures
            event.applied(*old(self), *mouse),
            *final(self) == *final(mouse),
    {
        event.handle(self);
        self
    }
}

/// What a mouse knows: the state of its buttons and where the pointer is.
#[verifier::reject_recursive_types(Coord)]
pub struct MouseState<Button, Coord> {
    pub buttons: Controls<Button>,
    pub position: [Coord; 2],
}

impl<Button: PartialEq, Coord: Add<Output = Coord>> MouseState<Button, Coord> {
    /// The state after `button` went down.
    pub open spec fn press(self, button: Button) -> Self {
        MouseState { buttons: self.buttons.press(button, button), ..self }
    }

    /// The state after `button` went up.
    pub open spec fn release(self, button: Button) -> Self {
        MouseState { buttons: self.buttons.release(button), ..self }
    }

    /// The state after the pointer was placed at `position`.
    pub open spec fn move_to(self, position: [Coord; 2]) -> Self {
        MouseState { position, ..self }
    }

    /// The state after the pointer moved by `delta`, coordinate by coordinate.
    pub open spec fn move_by(self, delta: [Coord; 2]) -> Self {
        MouseState {
            position: [
                self.position[0].add_spec(delta[0]),
                self.position[1].add_spec(delta[1]),
            ],
            ..self
        }
    }

    /// The state after a frame boundary: the edges are gone, held buttons
    /// and the position stay.
    pub open spec fn clear_presses(self) -> Self {
        MouseState { buttons: self.buttons.clear_presses(), ..self }
    }
}

/// A mouse reset keeps the held buttons and the position, and clears the
/// edges.
pub proof fn mouse_reset_keeps_level<Button: PartialEq, Coord: Add<Output = Coord>>(
    state: MouseState<Button, Coord>,
    button: Button,
)
    ensures
        state.clear_presses().buttons.is_down(button) == state.buttons.is_down(button),
        !state.clear_presses().buttons.is_pressed(button),
        !state.clear_presses().buttons.is_released(button),
        state.clear_presses().position == state.position,
{
}

/// A pointer that is placed and then moved ends at the sum, coordinate by
/// coordinate, of the place and the offset, wherever it was before.
pub proof fn placed_then_moved<Button: PartialEq, Coord: Add<Output = Coord>>(
    state: MouseState<Button, Coord>,
    position: [Coord; 2],
    delta: [Coord; 2],
)
    ensures
        state.move_to(position).move_by(delta).position[0] == position[0].add_spec(delta[0]),
        state.move_to(position).move_by(delta).position[1] == position[1].add_spec(delta[1]),
        state.move_to(position).move_by(delta).buttons == state.buttons,
{
}

/// A second mouse reset in a row changes nothing.
pub proof fn mouse_reset_is_idempotent<Button: PartialEq, Coord: Add<Output = Coord>>(
    state: MouseState<Button, Coord>,
)
    ensures
        state.clear_presses().clear_presses() == state.clear_presses(),
{
}

/// A structure representing the current state of a mouse.
#[derive(Debug, Clone)]
#[verifier::reject_recursive_types(Coord)]
pub struct Mouse<Button, Coord> where
    Button: Copy + PartialEq,
    Coord: Copy + Default + Add<Output = Coord>,
 {
    position: [Coord; 2],
    buttons_down: Vec<Button>,
    buttons_pressed: Vec<Button>,
    buttons_released: Vec<Button>,
}

impl<Button, Coord> View for Mouse<Button, Coord> where
    Button: Copy + PartialEq,
    Coord: Copy + Default + Add<Output = Coord>,
 {
    type V = MouseState<Button, Coord>;

    closed spec fn view(&self) -> MouseState<Button, Coord> {
        MouseState {
            buttons: Controls {
                down: self.buttons_down@,
                pressed: self.buttons_pressed@,
                released: self.buttons_released@,
            },
            position: self.position,
        }
    }
}

impl<Button, Coord> Default for Mouse<Button, Coord> where
    Button: Copy + PartialEq,
    Coord: Copy + Default + Add<Output = Coord>,
 {
    fn default() -> (mouse: Self)
        ensures
            mouse@.buttons == Controls::<Button>::empty(),
            call_ensures(Coord::default, (), mouse@.position[0]),
            call_ensures(Coord::default, (), mouse@.position[1]),
    {
        Self::new()
    }
}

impl<Button, Coord> Mouse<Button, Coord> where
    Button: Copy + PartialEq,
    Coord: Copy + Default + Add<Output = Coord>,
 {
    /// A mouse with no button state whose pointer sits at the default
    /// coordinates: each is a value that `Coord::default()` returns.
    pub fn new() -> (mouse: Self)
        ensures
            mouse@.buttons == Controls::<Button>::empty(),
            call_ensures(Coord::default, (), mouse@.position[0]),
            call_ensures(Coord::default, (), mouse@.position[1]),
    {
        Mouse {
            position: [Coord::default(), Coord::default()],
            buttons_down: Vec::new(),
            buttons_pressed: Vec::new(),
            buttons_released: Vec::new(),
        }
    }

    /// Create the Mouse at a specific pointer position.
    pub fn at_position(position: [Coord; 2]) -> (mouse: Self)
        ensures
            mouse@ == (MouseState { buttons: Controls::<Button>::empty(), position }),
    {
        Mouse {
            position,
            buttons_down: Vec::new(),
            buttons_pressed: Vec::new(),
            buttons_released: Vec::new(),
        }
    }
}

impl<B, C> MouseInterface for Mouse<B, C> where
    B: Copy + PartialEq,
    C: Copy + Default + Add<Output = C>,
 {
    type Button = B;

    type Coord = C;

    open spec fn can_move_by(&self, delta_position: [C; 2]) -> bool {
        &&& self@.position[0].add_req(delta_position[0])
        &&& self@.position[1].add_req(delta_position[1])
    }

    fn position(&self) -> (position: [C; 2])
        ensures
            position == self@.position,
    {
        self.position
    }

    fn down(&self, button: B) -> (down: bool)
        ensures
            B::obeys_eq_spec() ==> down == self@.buttons.is_down(button),
    {
        contains(&self.buttons_down, &button)
    }

    fn pressed(&self, button: B) -> (pressed: bool)
        ensures
            B::obeys_eq_spec() ==> pressed == self@.buttons.is_pressed(button),
    {
        contains(&self.buttons_pressed, &button)
    }

    fn released(&self, button: B) -> (released: bool)
        ensures
            B::obeys_eq_spec() ==> released == self@.buttons.is_released(button),
    {
        contains(&self.buttons_released, &button)
    }

    fn clear_presses(&mut self) -> (mouse: &mut Self)
        ensures
            mouse@ == old(self)@.clear_presses(),
    {
        self.buttons_pressed.clear();
        self.buttons_released.clear();
        self
    }

    fn move_to(&mut self, position: [C; 2]) -> (mouse: &mut Self)
        ensures
            mouse@ == old(self)@.move_to(position),
    {
        self.position = position;
        self
    }

    fn move_by(&mut self, delta_position: [C; 2]) -> (mouse: &mut Self)
        ensures
            C::obeys_add_spec() ==> mouse@ == old(self)@.move_by(delta_position),
            mouse@.buttons == old(self)@.buttons,
    {
        let ox = self.position[0];
        let oy = self.position[1];
        self.position = [ox + delta_position[0], oy + delta_position[1]];
        self
    }

    fn press(&mut self, button: B) -> (mouse: &mut Self)
        ensures
            B::obeys_eq_spec() ==> mouse@ == old(self)@.press(button),
            mouse@.position == old(self)@.position,
    {
        if !contains(&self.buttons_down, &button) {
            self.buttons_down.push(button);
        }
        if !contains(&self.buttons_pressed, &button) {
            self.buttons_pressed.push(button);
        }
        self
    }

    fn release(&mut self, button: B) -> (mouse: &mut Self)
        ensures
            B::obeys_eq_spec() ==> mouse@ == old(self)@.release(button),
            mouse@.position == old(self)@.position,
    {
        remove_matching(&mut self.buttons_down, &button);
        if !contains(&self.buttons_released, &button) {
            self.buttons_released.push(button);
        }
        self
    }
}

} // verus!

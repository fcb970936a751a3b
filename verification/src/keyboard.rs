//! Keyboard state: keys, modifiers and text.
use crate::controls::contains;
use crate::controls::remove_matching;
use crate::controls::Controls;
use crate::text::smol_str_chars;
use crate::Event;
use smol_str::SmolStr;
use smol_str::SmolStrBuilder;
use vstd::prelude::*;
use vstd::std_specs::cmp::PartialEqSpec;

verus! {

/// A trait for objects that can represent the state of a keyboard.
pub trait KeyboardInterface: Sized {
    /// A type representing a key on a keyboard.
    type Key;

    /// A type representing the current state of modifier keys.
    type Mods;

    /// Returns the current state of the modifier keys, if present.
    fn modifiers(&self) -> Option<&Self::Mods>;

    /// Returns `true` if the given key is currently held down.
    fn down(&self, key: &Self::Key) -> bool;

    /// Returns `true` if the given key was pressed this frame.
    fn pressed(&self, key: &Self::Key) -> bool;

    /// Returns `true` if the given key was released this frame.
    fn released(&self, key: &Self::Key) -> bool;

    /// Returns any text that has been entered.
    fn text(&self) -> &str;

    /// Clears the pressed state of held buttons. Should be called at end of frame.
    fn clear_presses(&mut self) -> (keyboard: &mut Self)
        ensures
            *final(self) == *final(keyboard),
    ;

    /// Register that a key was pressed down.
    fn press(&mut self, key: Self::Key) -> (keyboard: &mut Self)
        ensures
            *final(self) == *final(keyboard),
    ;

    /// Register that a key was released.
    fn release(&mut self, key: Self::Key) -> (keyboard: &mut Self)
        ensures
            *final(self) == *final(keyboard),
    ;

    /// Register that the current state of the modifier keys has changed.
    fn set_modifiers(&mut self, modifiers: Self::Mods) -> (keyboard: &mut Self)
        ensures
            *final(self) == *final(keyboard),
    ;

    /// Register that some text was input.
    fn receive_text(&mut self, text: &str) -> (keyboard: &mut Self)
        ensures
            *final(self) == *final(keyboard),
    ;

    /// Register that a character of text was input.
    fn receive_char(&mut self, ch: char) -> (keyboard: &mut Self)
        ensures
            *final(self) == *final(keyboard),
    ;

    /// Convenience method for handling events. The type of event, `E`, will
    /// vary depending on the windowing library being used.
    fn handle_event<E: Event<Self>>(&mut self, event: &E) -> (keyboard: &mut Self)
        ensures
            event.applied(*old(self), *keyboard),
            *final(self) == *final(keyboard),
    {
        event.handle(self);
        self
    }
}

/// The current state of the modifier keys. You can use this if the windowing
/// library you are using doesn't have an equivalent.
#[derive(Debug, Clone, Copy, PartialEq, Eq, Structural)]
pub struct Modifiers {
    pub ctrl: bool,
    pub alt: bool,
    pub shift: bool,
    pub logo: bool,
}

impl Default for Modifiers {
    /// No modifier key is held.
    fn default() -> (modifiers: Self)
        ensures
            modifiers == (Modifiers { ctrl: false, alt: false, shift: false, logo: false }),
    {
        Modifiers { ctrl: false, alt: false, shift: false, logo: false }
    }
}

/// What a keyboard knows: the state of its keys, the last modifier
/// snapshot, and the text entered since the last reset.
pub struct KeyboardState<Key, Mods> {
    pub keys: Controls<Key>,
    pub modifiers: Option<Mods>,
    pub text: Seq<char>,
}

impl<Key: PartialEq, Mods> KeyboardState<Key, Mods> {
    /// No key is down, no edge was seen, no modifiers were reported and no
    /// text was entered.
    pub open spec fn empty() -> Self {
        KeyboardState { keys: Controls::empty(), modifiers: None, text: Seq::empty() }
    }

    /// The state after `key` went down; see `Controls::press` for `copy`.
    pub open spec fn press(self, key: Key, copy: Key) -> Self {
        KeyboardState { keys: self.keys.press(key, copy), ..self }
    }

    /// The state after `key` went up.
    pub open spec fn release(self, key: Key) -> Self {
        KeyboardState { keys: self.keys.release(key), ..self }
    }

    /// The state after the modifier keys changed to `modifiers`.
    pub open spec fn set_modifiers(self, modifiers: Mods) -> Self {
        KeyboardState { modifiers: Some(modifiers), ..self }
    }

    /// The state after `text` was entered.
    pub open spec fn receive(self, text: Seq<char>) -> Self {
        KeyboardState { text: self.text + text, ..self }
    }

    /// The state after a frame boundary: edges and text are gone, held keys
    /// and modifiers stay.
    pub open spec fn clear_presses(self) -> Self {
        KeyboardState { keys: self.keys.clear_presses(), text: Seq::empty(), ..self }
    }
}

/// A fresh keyboard is empty: no key is down, none was pressed or released,
/// no modifiers were reported and no text was entered.
pub proof fn fresh_keyboard_is_empty<Key: PartialEq, Mods>(key: Key)
    ensures
        !KeyboardState::<Key, Mods>::empty().keys.is_down(key),
        !KeyboardState::<Key, Mods>::empty().keys.is_pressed(key),
        !KeyboardState::<Key, Mods>::empty().keys.is_released(key),
        KeyboardState::<Key, Mods>::empty().modifiers is None,
        KeyboardState::<Key, Mods>::empty().text.len() == 0,
{
}

/// A reset keeps the held keys and the modifiers, and clears the edges and
/// the text.
pub proof fn keyboard_reset_keeps_level<Key: PartialEq, Mods>(
    state: KeyboardState<Key, Mods>,
    key: Key,
)
    ensures
        state.clear_presses().keys.is_down(key) == state.keys.is_down(key),
        !state.clear_presses().keys.is_pressed(key),
        !state.clear_presses().keys.is_released(key),
        state.clear_presses().modifiers == state.modifiers,
        state.clear_presses().text.len() == 0,
{
}

/// A second keyboard reset in a row changes nothing.
pub proof fn keyboard_reset_is_idempotent<Key: PartialEq, Mods>(state: KeyboardState<Key, Mods>)
    ensures
        state.clear_presses().clear_presses() == state.clear_presses(),
{
}

/// Of two modifier snapshots set one after the other only the second is
/// left, and a reset does not remove it.
pub proof fn last_modifiers_win<Key: PartialEq, Mods>(
    state: KeyboardState<Key, Mods>,
    first: Mods,
    second: Mods,
)
    ensures
        state.set_modifiers(first).set_modifiers(second) == state.set_modifiers(second),
        state.set_modifiers(first).set_modifiers(second).modifiers == Some(second),
        state.set_modifiers(second).clear_presses().modifiers == Some(second),
{
}

/// Text is kept in the order in which it was entered.
pub proof fn text_keeps_order<Key: PartialEq, Mods>(
    state: KeyboardState<Key, Mods>,
    first: Seq<char>,
    second: Seq<char>,
)
    ensures
        state.receive(first).receive(second) == state.receive(first + second),
{
    assert((state.text + first) + second =~= state.text + (first + second));
}

/// A structure representing the current state of a keyboard.
#[derive(Debug, Clone)]
pub struct Keyboard<Key, Mods> where Key: Clone + PartialEq {
    modifiers: Option<Mods>,
    keys_down: Vec<Key>,
    keys_pressed: Vec<Key>,
    keys_released: Vec<Key>,
    text_buffer: SmolStr,
}

impl<Key, Mods> View for Keyboard<Key, Mods> where Key: Clone + PartialEq {
    type V = KeyboardState<Key, Mods>;

    closed spec fn view(&self) -> KeyboardState<Key, Mods> {
        KeyboardState {
            keys: Controls {
                down: self.keys_down@,
                pressed: self.keys_pressed@,
                released: self.keys_released@,
            },
            modifiers: self.modifiers,
            text: smol_str_chars(self.text_buffer),
        }
    }
}

impl<Key, Mods> Keyboard<Key, Mods> where Key: Clone + PartialEq {
    pub fn new() -> (keyboard: Self)
        ensures
            keyboard@ == KeyboardState::<Key, Mods>::empty(),
    {
        Keyboard {
            modifiers: None,
            keys_down: Vec::new(),
            keys_pressed: Vec::new(),
            keys_released: Vec::new(),
            text_buffer: SmolStr::default(),
        }
    }
}

impl<Key, Mods> Default for Keyboard<Key, Mods> where Key: Clone + PartialEq {
    fn default() -> (keyboard: Self)
        ensures
            keyboard@ == KeyboardState::<Key, Mods>::empty(),
    {
        Self::new()
    }
}

impl<K, M> KeyboardInterface for Keyboard<K, M> where K: Clone + PartialEq {
    type Key = K;

    type Mods = M;

    fn modifiers(&self) -> (modifiers: Option<&M>)
        ensures
            modifiers.is_some() == self@.modifiers.is_some(),
            modifiers.is_some() ==> *modifiers.unwrap() == self@.modifiers.unwrap(),
    {
        self.modifiers.as_ref()
    }

    fn down(&self, key: &K) -> (down: bool)
        ensures
            K::obeys_eq_spec() ==> down == self@.keys.is_down(*key),
    {
        contains(&self.keys_down, key)
    }

    fn pressed(&self, key: &K) -> (pressed: bool)
        ensures
            K::obeys_eq_spec() ==> pressed == self@.keys.is_pressed(*key),
    {
        contains(&self.keys_pressed, key)
    }

    fn released(&self, key: &K) -> (released: bool)
        ensures
            K::obeys_eq_spec() ==> released == self@.keys.is_released(*key),
    {
        contains(&self.keys_released, key)
    }

    fn text(&self) -> (text: &str)
        ensures
            text@ == self@.text,
    {
        self.text_buffer.as_str()
    }

    fn clear_presses(&mut self) -> (keyboard: &mut Self)
        ensures
            keyboard@ == old(self)@.clear_presses(),
    {
        self.keys_pressed.clear();
        self.keys_released.clear();
        self.text_buffer = SmolStr::default();
        self
    }

    fn press(&mut self, key: K) -> (keyboard: &mut Self)
        ensures
            K::obeys_eq_spec() ==> exists|copy: K| #[trigger]
                cloned(key, copy) && keyboard@ == old(self)@.press(key, copy),
            keyboard@.modifiers == old(self)@.modifiers,
            keyboard@.text == old(self)@.text,
    {
        let ghost stored = key;
        if !contains(&self.keys_down, &key) {
            let copy = key.clone();
            proof {
                stored = copy;
            }
            self.keys_down.push(copy);
        }
        if !contains(&self.keys_pressed, &key) {
            self.keys_pressed.push(key);
        }
        assert(K::obeys_eq_spec() ==> cloned(key, stored) && self@ == old(self)@.press(
            key,
            stored,
        ));
        self
    }

    fn release(&mut self, key: K) -> (keyboard: &mut Self)
        ensures
            K::obeys_eq_spec() ==> keyboard@ == old(self)@.release(key),
            keyboard@.modifiers == old(self)@.modifiers,
            keyboard@.text == old(self)@.text,
    {
        remove_matching(&mut self.keys_down, &key);
        if !contains(&self.keys_released, &key) {
            self.keys_released.push(key);
        }
        self
    }

    fn set_modifiers(&mut self, modifiers: M) -> (keyboard: &mut Self)
        ensures
            keyboard@ == old(self)@.set_modifiers(modifiers),
    {
        self.modifiers = Some(modifiers);
        self
    }

    fn receive_text(&mut self, text: &str) -> (keyboard: &mut Self)
        ensures
            keyboard@ == old(self)@.receive(text@),
    {
        let mut builder = SmolStrBuilder::default();
        builder.push_str(self.text_buffer.as_str());
        builder.push_str(text);
        self.text_buffer = builder.finish();
        self
    }

    fn receive_char(&mut self, ch: char) -> (keyboard: &mut Self)
        ensures
            keyboard@ == old(self)@.receive(seq![ch]),
    {
        let mut builder = SmolStrBuilder::default();
        builder.push_str(self.text_buffer.as_str());
        builder.push(ch);
        self.text_buffer = builder.finish();
        assert(old(self)@.text.push(ch) =~= old(self)@.text + seq![ch]);
        self
    }
}

} // verus!

//! Sets of controls, kept in insertion order and compared with `==`.
//!
//! Keys and buttons share one model: three sequences that hold the controls
//! that are down, that were pressed since the last reset, and that were
//! released since the last reset. A control belongs to a sequence when some
//! entry compares equal to it.
use vstd::prelude::*;
use vstd::std_specs::cmp::PartialEqSpec;

verus! {

/// Some entry of `items` compares equal to `control`.
pub open spec fn holds<T: PartialEq>(items: Seq<T>, control: T) -> bool {
    exists|i: int| 0 <= i < items.len() && #[trigger] items[i].eq_spec(&control)
}

/// `items` without the entries that compare equal to `control`. The entries
/// that stay keep their order.
pub open spec fn without<T: PartialEq>(items: Seq<T>, control: T) -> Seq<T> {
    items.filter(|entry: T| !entry.eq_spec(&control))
}

/// Level and edge state of one family of controls.
pub struct Controls<T> {
    /// Controls currently held.
    pub down: Seq<T>,
    /// Controls that went down since the last reset.
    pub pressed: Seq<T>,
    /// Controls that went up since the last reset.
    pub released: Seq<T>,
}

impl<T: PartialEq> Controls<T> {
    /// No control is down and no edge was seen.
    pub open spec fn empty() -> Self {
        Controls { down: Seq::empty(), pressed: Seq::empty(), released: Seq::empty() }
    }

    pub open spec fn is_down(self, control: T) -> bool {
        holds(self.down, control)
    }

    pub open spec fn is_pressed(self, control: T) -> bool {
        holds(self.pressed, control)
    }

    pub open spec fn is_released(self, control: T) -> bool {
        holds(self.released, control)
    }

    /// The state after `control` went down. `copy` is the duplicate of
    /// `control` that is stored among the controls that are down; for a
    /// `Copy` type it is `control` itself.
    pub open spec fn press(self, control: T, copy: T) -> Self {
        Controls {
            down: if holds(self.down, control) {
                self.down
            } else {
                self.down.push(copy)
            },
            pressed: if holds(self.pressed, control) {
                self.pressed
            } else {
                self.pressed.push(control)
            },
            released: self.released,
        }
    }

    /// The state after `control` went up.
    pub open spec fn release(self, control: T) -> Self {
        Controls {
            down: without(self.down, control),
            pressed: self.pressed,
            released: if holds(self.released, control) {
                self.released
            } else {
                self.released.push(control)
            },
        }
    }

    /// The state after a frame boundary: the edges are gone, the level stays.
    pub open spec fn clear_presses(self) -> Self {
        Controls { down: self.down, pressed: Seq::empty(), released: Seq::empty() }
    }
}

/// Removing `control` leaves no entry that compares equal to it.
pub proof fn without_holds_not<T: PartialEq>(items: Seq<T>, control: T)
    ensures
        !holds(without(items, control), control),
{
    let keep = |entry: T| !entry.eq_spec(&control);
    let rest = items.filter(keep);
    assert forall|i: int| 0 <= i < rest.len() implies !(#[trigger] rest[i]).eq_spec(&control) by {
        items.lemma_filter_pred(keep, i);
    }
}

/// Removing `control` from a sequence that does not hold it changes nothing.
pub proof fn without_absent_is_identity<T: PartialEq>(items: Seq<T>, control: T)
    requires
        !holds(items, control),
    ensures
        without(items, control) == items,
    decreases items.len(),
{
    let keep = |entry: T| !entry.eq_spec(&control);
    reveal(Seq::filter);
    if items.len() > 0 {
        let front = items.drop_last();
        assert forall|i: int| 0 <= i < front.len() implies !(#[trigger] front[i]).eq_spec(
            &control,
        ) by {
            assert(front[i] == items[i]);
        }
        without_absent_is_identity(front, control);
        assert(!items[items.len() - 1].eq_spec(&control));
        assert(keep(items.last()));
        assert(front.push(items.last()) =~= items);
    }
}

/// A fresh family of controls is idle: no control is down, none was pressed
/// and none was released.
pub proof fn fresh_controls_are_idle<T: PartialEq>(control: T)
    ensures
        !Controls::<T>::empty().is_down(control),
        !Controls::<T>::empty().is_pressed(control),
        !Controls::<T>::empty().is_released(control),
{
}

/// After a press the control is down and was pressed this frame.
///
/// This holds for a control that compares equal to itself and to its stored
/// duplicate.
pub proof fn press_sets_down_and_pressed<T: PartialEq>(state: Controls<T>, control: T, copy: T)
    requires
        control.eq_spec(&control),
        copy.eq_spec(&control),
    ensures
        state.press(control, copy).is_down(control),
        state.press(control, copy).is_pressed(control),
{
    let after = state.press(control, copy);
    if !holds(state.down, control) {
        assert(after.down[state.down.len() as int].eq_spec(&control));
    }
    if !holds(state.pressed, control) {
        assert(after.pressed[state.pressed.len() as int].eq_spec(&control));
    }
}

/// After a press and a release within one frame the control is no longer
/// down, and it was both pressed and released this frame.
///
/// This holds for a control that compares equal to itself.
pub proof fn release_clears_down_keeps_edges<T: PartialEq>(
    state: Controls<T>,
    control: T,
    copy: T,
)
    requires
        control.eq_spec(&control),
    ensures
        !state.press(control, copy).release(control).is_down(control),
        state.press(control, copy).release(control).is_pressed(control),
        state.press(control, copy).release(control).is_released(control),
{
    let pressed = state.press(control, copy);
    let after = pressed.release(control);
    without_holds_not(pressed.down, control);
    if !holds(state.pressed, control) {
        assert(pressed.pressed[state.pressed.len() as int].eq_spec(&control));
    }
    if !holds(pressed.released, control) {
        assert(after.released[pressed.released.len() as int].eq_spec(&control));
    }
}

/// After a release the control is not down, whatever came before.
pub proof fn release_clears_down<T: PartialEq>(state: Controls<T>, control: T)
    ensures
        !state.release(control).is_down(control),
{
    without_holds_not(state.down, control);
}

/// A reset clears every edge and keeps the level: no control was pressed or
/// released this frame, and a control is down exactly if it was before.
pub proof fn reset_clears_edges_keeps_level<T: PartialEq>(state: Controls<T>, control: T)
    ensures
        !state.clear_presses().is_pressed(control),
        !state.clear_presses().is_released(control),
        state.clear_presses().is_down(control) == state.is_down(control),
{
}

/// After a press and then a reset the control is still down, and it was
/// neither pressed nor released this frame.
///
/// This holds for a control whose stored duplicate compares equal to it.
pub proof fn press_survives_reset<T: PartialEq>(state: Controls<T>, control: T, copy: T)
    requires
        control.eq_spec(&control),
        copy.eq_spec(&control),
    ensures
        state.press(control, copy).clear_presses().is_down(control),
        !state.press(control, copy).clear_presses().is_pressed(control),
        !state.press(control, copy).clear_presses().is_released(control),
{
    press_sets_down_and_pressed(state, control, copy);
}

/// A second reset in a row changes nothing.
pub proof fn reset_is_idempotent<T: PartialEq>(state: Controls<T>)
    ensures
        state.clear_presses().clear_presses() == state.clear_presses(),
{
}

/// A press or a release of one control does not change whether another
/// control is down, provided that neither compares equal to the other.
pub proof fn other_controls_keep_level<T: PartialEq>(
    state: Controls<T>,
    control: T,
    copy: T,
    other: T,
)
    requires
        !control.eq_spec(&other),
        !copy.eq_spec(&other),
        forall|entry: T| entry.eq_spec(&other) ==> !entry.eq_spec(&control),
    ensures
        state.press(control, copy).is_down(other) == state.is_down(other),
        state.release(control).is_down(other) == state.is_down(other),
{
    let pressed = state.press(control, copy);
    if holds(pressed.down, other) {
        let i = choose|i: int| 0 <= i < pressed.down.len() && pressed.down[i].eq_spec(&other);
        assert(i < state.down.len());
        assert(state.down[i].eq_spec(&other));
    }
    if holds(state.down, other) {
        let i = choose|i: int| 0 <= i < state.down.len() && state.down[i].eq_spec(&other);
        assert(pressed.down[i].eq_spec(&other));
    }
    let keep = |entry: T| !entry.eq_spec(&control);
    let rest = without(state.down, control);
    if holds(state.down, other) {
        let i = choose|i: int| 0 <= i < state.down.len() && state.down[i].eq_spec(&other);
        assert(keep(state.down[i]));
        state.down.lemma_filter_contains(keep, i);
        assert(rest.contains(state.down[i]));
        let j = choose|j: int| 0 <= j < rest.len() && rest[j] == state.down[i];
        assert(rest[j].eq_spec(&other));
    }
    if holds(rest, other) {
        let j = choose|j: int| 0 <= j < rest.len() && rest[j].eq_spec(&other);
        state.down.lemma_filter_contains_rev(keep, rest[j]);
        assert(state.down.contains(rest[j]));
        let i = choose|i: int| 0 <= i < state.down.len() && state.down[i] == rest[j];
        assert(state.down[i].eq_spec(&other));
    }
}

/// Tells whether some entry of `items` compares equal to `control`.
pub fn contains<T: PartialEq>(items: &Vec<T>, control: &T) -> (found: bool)
    ensures
        T::obeys_eq_spec() ==> found == holds(items@, *control),
{
    let mut i: usize = 0;
    while i < items.len()
        invariant
            i <= items@.len(),
            T::obeys_eq_spec() ==> forall|j: int|
                0 <= j < i ==> !(#[trigger] items@[j]).eq_spec(control),
        decreases items@.len() - i,
    {
        if items[i] == *control {
            return true;
        }
        i += 1;
    }
    false
}

/// Removes every entry of `items` that compares equal to `control` and keeps
/// the others in their order.
pub fn remove_matching<T: PartialEq>(items: &mut Vec<T>, control: &T)
    ensures
        T::obeys_eq_spec() ==> final(items)@ == without(old(items)@, *control),
{
    let ghost all = items@;
    let ghost keep = |entry: T| !entry.eq_spec(control);
    let ghost done: int = 0;
    let mut i: usize = 0;
    proof {
        reveal(Seq::filter);
        assert(all.subrange(0, 0) =~= Seq::<T>::empty());
        assert(all.subrange(0, all.len() as int) =~= all);
        assert(items@ =~= all.subrange(0, 0).filter(keep) + all.subrange(0, all.len() as int));
    }
    while i < items.len()
        invariant
            0 <= done <= all.len(),
            i <= items@.len(),
            keep == |entry: T| !entry.eq_spec(control),
            T::obeys_eq_spec() ==> i == all.subrange(0, done).filter(keep).len(),
            T::obeys_eq_spec() ==> items@ == all.subrange(0, done).filter(keep) + all.subrange(
                done,
                all.len() as int,
            ),
            done + items@.len() - i == all.len(),
        decreases items@.len() - i,
    {
        let ghost before = items@;
        proof {
            if T::obeys_eq_spec() {
                assert(before[i as int] == all[done]);
                assert(all.subrange(0, done + 1) =~= all.subrange(0, done).push(all[done]));
                all.subrange(0, done).lemma_filter_push(all[done], keep);
            }
        }
        if items[i] != *control {
            i += 1;
            proof {
                if T::obeys_eq_spec() {
                    assert(keep(all[done]));
                    assert(items@ =~= all.subrange(0, done + 1).filter(keep) + all.subrange(
                        done + 1,
                        all.len() as int,
                    ));
                }
            }
        } else {
            items.remove(i);
            proof {
                if T::obeys_eq_spec() {
                    assert(!keep(all[done]));
                    assert(items@ =~= all.subrange(0, done + 1).filter(keep) + all.subrange(
                        done + 1,
                        all.len() as int,
                    ));
                }
            }
        }
        proof {
            done = done + 1;
        }
    }
    proof {
        if T::obeys_eq_spec() {
            assert(all.subrange(done, all.len() as int) =~= Seq::<T>::empty());
            assert(all.subrange(0, done) =~= all);
            assert(items@ =~= all.filter(keep));
        }
    }
}

} // verus!

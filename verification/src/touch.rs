//! Touch state: the contacts on a touch surface.
use crate::Event;
use core::ops::Add;
use vstd::prelude::*;
use vstd::std_specs::cmp::PartialEqSpec;
use vstd::std_specs::convert::IntoSpec;
use vstd::std_specs::iter::IteratorSpec;

verus! {

/// Represents an active touch on the touch device.
#[derive(Debug, Clone, PartialEq, Eq)]
#[verifier::reject_recursive_types(Coord)]
pub struct Touch<Id, Coord> where Id: PartialEq, Coord: Copy + Default + Add<Output = Coord> {
    pub id: Id,
    pub position: [Coord; 2],
    pub tapped: bool,
    pub released: bool,
}

/// The phase of a touch.
#[derive(Debug, Clone, Copy, PartialEq, Eq, Structural)]
pub enum TouchPhase {
    Start,
    End,
    Cancel,
    Move,
}

/// Some touch of `touches` has an id that compares equal to `id`.
pub open spec fn tracks<Id, Coord>(touches: Seq<Touch<Id, Coord>>, id: Id) -> bool where
    Id: PartialEq,
    Coord: Copy + Default + Add<Output = Coord>,
 {
    exists|i: int| 0 <= i < touches.len() && (#[trigger] touches[i]).id.eq_spec(&id)
}

/// `i` is the place of the earliest touch of `touches` whose id compares
/// equal to `id`.
pub open spec fn is_first_match<Id, Coord>(touches: Seq<Touch<Id, Coord>>, id: Id, i: int) -> bool where
    Id: PartialEq,
    Coord: Copy + Default + Add<Output = Coord>,
 {
    &&& 0 <= i < touches.len()
    &&& touches[i].id.eq_spec(&id)
    &&& forall|j: int| 0 <= j < i ==> !(#[trigger] touches[j]).id.eq_spec(&id)
}

/// The place of the earliest touch of `touches` whose id compares equal to
/// `id`. It is meaningful when `tracks(touches, id)`.
pub open spec fn first_match<Id, Coord>(touches: Seq<Touch<Id, Coord>>, id: Id) -> int where
    Id: PartialEq,
    Coord: Copy + Default + Add<Output = Coord>,
 {
    choose|i: int| is_first_match(touches, id, i)
}

/// The touch `touch` after an event in `phase` at `position`: the position
/// is overwritten, `Start` sets `tapped`, `End` and `Cancel` set `released`.
pub open spec fn with_phase<Id, Coord>(
    touch: Touch<Id, Coord>,
    position: [Coord; 2],
    phase: TouchPhase,
) -> Touch<Id, Coord> where Id: PartialEq, Coord: Copy + Default + Add<Output = Coord> {
    Touch {
        id: touch.id,
        position,
        tapped: touch.tapped || phase == TouchPhase::Start,
        released: touch.released || phase == TouchPhase::End || phase == TouchPhase::Cancel,
    }
}

/// The touches after an event for `id`. A touch that is tracked is updated
/// in place; one that is not is appended, not tapped and not released, and
/// then updated.
pub open spec fn after_event<Id, Coord>(
    touches: Seq<Touch<Id, Coord>>,
    id: Id,
    position: [Coord; 2],
    phase: TouchPhase,
) -> Seq<Touch<Id, Coord>> where Id: PartialEq, Coord: Copy + Default + Add<Output = Coord> {
    if tracks(touches, id) {
        let i = first_match(touches, id);
        touches.update(i, with_phase(touches[i], position, phase))
    } else {
        touches.push(
            with_phase(Touch { id, position, tapped: false, released: false }, position, phase),
        )
    }
}

/// The touch `touch` with its `tapped` flag cleared.
pub open spec fn untapped<Id, Coord>(touch: Touch<Id, Coord>) -> Touch<Id, Coord> where
    Id: PartialEq,
    Coord: Copy + Default + Add<Output = Coord>,
 {
    Touch { tapped: false, ..touch }
}

/// The touches after a frame boundary: every `tapped` flag is cleared, then
/// the released touches are dropped. The touches that stay keep their order.
pub open spec fn after_clear<Id, Coord>(touches: Seq<Touch<Id, Coord>>) -> Seq<
    Touch<Id, Coord>,
> where Id: PartialEq, Coord: Copy + Default + Add<Output = Coord> {
    touches.map_values(|touch: Touch<Id, Coord>| untapped(touch)).filter(
        |touch: Touch<Id, Coord>| !touch.released,
    )
}

/// No two touches of `touches` have ids that compare equal: the id of an
/// earlier touch never compares equal to the id of a later one.
pub open spec fn distinct_ids<Id, Coord>(touches: Seq<Touch<Id, Coord>>) -> bool where
    Id: PartialEq,
    Coord: Copy + Default + Add<Output = Coord>,
 {
    forall|i: int, j: int|
        0 <= i < j < touches.len() ==> !(#[trigger] touches[i]).id.eq_spec(
            &(#[trigger] touches[j]).id,
        )
}

/// The place of the earliest touch at or before `i` whose id compares equal
/// to `id`, where the touch at `i` is one.
proof fn least_match<Id, Coord>(touches: Seq<Touch<Id, Coord>>, id: Id, i: int) -> (k: int) where
    Id: PartialEq,
    Coord: Copy + Default + Add<Output = Coord>,

    requires
        0 <= i < touches.len(),
        touches[i].id.eq_spec(&id),
    ensures
        is_first_match(touches, id, k),
    decreases i,
{
    if exists|j: int| 0 <= j < i && (#[trigger] touches[j]).id.eq_spec(&id) {
        let j = choose|j: int| 0 <= j < i && (#[trigger] touches[j]).id.eq_spec(&id);
        least_match(touches, id, j)
    } else {
        i
    }
}

/// Where `id` is tracked, `first_match` is the place of the earliest touch
/// whose id compares equal to it.
pub proof fn first_match_is_earliest<Id, Coord>(touches: Seq<Touch<Id, Coord>>, id: Id) where
    Id: PartialEq,
    Coord: Copy + Default + Add<Output = Coord>,

    requires
        tracks(touches, id),
    ensures
        is_first_match(touches, id, first_match(touches, id)),
{
    let i = choose|i: int| 0 <= i < touches.len() && (#[trigger] touches[i]).id.eq_spec(&id);
    let k = least_match(touches, id, i);
}

/// An event keeps the ids distinct: it updates a tracked touch in place and
/// appends a touch only for an id that is not tracked.
pub proof fn event_keeps_ids_distinct<Id, Coord>(
    touches: Seq<Touch<Id, Coord>>,
    id: Id,
    position: [Coord; 2],
    phase: TouchPhase,
) where Id: PartialEq, Coord: Copy + Default + Add<Output = Coord>
    requires
        distinct_ids(touches),
    ensures
        distinct_ids(after_event(touches, id, position, phase)),
{
    let after = after_event(touches, id, position, phase);
    assert forall|i: int, j: int| 0 <= i < j < after.len() implies !(#[trigger] after[i]).id.eq_spec(
        &(#[trigger] after[j]).id,
    ) by {
        if tracks(touches, id) {
            first_match_is_earliest(touches, id);
            assert(after[i].id == touches[i].id);
            assert(after[j].id == touches[j].id);
        } else if j < touches.len() {
            assert(after[i] == touches[i]);
            assert(after[j] == touches[j]);
        } else {
            assert(after[i] == touches[i]);
            assert(after[j].id == id);
        }
    }
}

/// Dropping touches keeps the ids distinct.
proof fn filter_keeps_ids_distinct<Id, Coord>(
    touches: Seq<Touch<Id, Coord>>,
    keep: spec_fn(Touch<Id, Coord>) -> bool,
) where Id: PartialEq, Coord: Copy + Default + Add<Output = Coord>
    requires
        distinct_ids(touches),
    ensures
        distinct_ids(touches.filter(keep)),
    decreases touches.len(),
{
    reveal(Seq::filter);
    if touches.len() > 0 {
        let front = touches.drop_last();
        let last = touches.last();
        assert(distinct_ids(front)) by {
            assert forall|i: int, j: int| 0 <= i < j < front.len() implies !(
            #[trigger] front[i]).id.eq_spec(&(#[trigger] front[j]).id) by {
                assert(front[i] == touches[i]);
                assert(front[j] == touches[j]);
            }
        }
        filter_keeps_ids_distinct(front, keep);
        let kept = front.filter(keep);
        let after = touches.filter(keep);
        if keep(last) {
            assert forall|i: int, j: int| 0 <= i < j < after.len() implies !(
            #[trigger] after[i]).id.eq_spec(&(#[trigger] after[j]).id) by {
                if j < kept.len() {
                    assert(after[i] == kept[i]);
                    assert(after[j] == kept[j]);
                } else {
                    assert(after[i] == kept[i]);
                    assert(kept.contains(kept[i]));
                    front.lemma_filter_contains_rev(keep, kept[i]);
                    let m = choose|m: int| 0 <= m < front.len() && front[m] == kept[i];
                    assert(touches[m] == kept[i]);
                    assert(touches[touches.len() - 1] == after[j]);
                }
            }
        }
    }
}

/// A reset keeps the ids distinct.
pub proof fn clear_keeps_ids_distinct<Id, Coord>(touches: Seq<Touch<Id, Coord>>) where
    Id: PartialEq,
    Coord: Copy + Default + Add<Output = Coord>,

    requires
        distinct_ids(touches),
    ensures
        distinct_ids(after_clear(touches)),
{
    let fresh = touches.map_values(|touch: Touch<Id, Coord>| untapped(touch));
    assert forall|i: int, j: int| 0 <= i < j < fresh.len() implies !(#[trigger] fresh[i]).id.eq_spec(
        &(#[trigger] fresh[j]).id,
    ) by {
        assert(fresh[i].id == touches[i].id);
        assert(fresh[j].id == touches[j].id);
    }
    filter_keeps_ids_distinct(fresh, |touch: Touch<Id, Coord>| !touch.released);
}

/// After a reset no tracked touch is tapped or released: a touch that ended
/// is seen until the next reset and not after it.
pub proof fn cleared_touches_are_steady<Id, Coord>(touches: Seq<Touch<Id, Coord>>, i: int) where
    Id: PartialEq,
    Coord: Copy + Default + Add<Output = Coord>,

    requires
        0 <= i < after_clear(touches).len(),
    ensures
        !after_clear(touches)[i].tapped,
        !after_clear(touches)[i].released,
{
    let fresh = touches.map_values(|touch: Touch<Id, Coord>| untapped(touch));
    let keep = |touch: Touch<Id, Coord>| !touch.released;
    let after = fresh.filter(keep);
    fresh.lemma_filter_pred(keep, i);
    assert(after.contains(after[i]));
    fresh.lemma_filter_contains_rev(keep, after[i]);
    let m = choose|m: int| 0 <= m < fresh.len() && fresh[m] == after[i];
    assert(fresh[m] == untapped(touches[m]));
}

/// A sequence whose touches all pass `keep` is its own filter.
proof fn filter_of_passing_is_identity<Id, Coord>(
    touches: Seq<Touch<Id, Coord>>,
    keep: spec_fn(Touch<Id, Coord>) -> bool,
) where Id: PartialEq, Coord: Copy + Default + Add<Output = Coord>
    requires
        forall|i: int| 0 <= i < touches.len() ==> keep(#[trigger] touches[i]),
    ensures
        touches.filter(keep) == touches,
    decreases touches.len(),
{
    reveal(Seq::filter);
    if touches.len() > 0 {
        let front = touches.drop_last();
        assert forall|i: int| 0 <= i < front.len() implies keep(#[trigger] front[i]) by {
            assert(front[i] == touches[i]);
        }
        filter_of_passing_is_identity(front, keep);
        assert(keep(touches[touches.len() - 1]));
        assert(front.push(touches.last()) =~= touches);
    }
}

/// A touch lives one frame past its end. On an empty touchpad a touch that
/// starts is tracked and tapped; the next reset clears the tap; when it ends
/// it is released and at its last position; the reset after that drops it.
///
/// This holds for an id that compares equal to itself.
pub proof fn touch_lives_one_frame_past_its_end<Id, Coord>(
    id: Id,
    start: [Coord; 2],
    end: [Coord; 2],
) where Id: PartialEq, Coord: Copy + Default + Add<Output = Coord>
    requires
        id.eq_spec(&id),
    ensures
        ({
            let started = after_event(Seq::<Touch<Id, Coord>>::empty(), id, start, TouchPhase::Start);
            let steady = after_clear(started);
            let ended = after_event(steady, id, end, TouchPhase::End);
            &&& started == seq![Touch { id, position: start, tapped: true, released: false }]
            &&& steady == seq![Touch { id, position: start, tapped: false, released: false }]
            &&& ended == seq![Touch { id, position: end, tapped: false, released: true }]
            &&& after_clear(ended) == Seq::<Touch<Id, Coord>>::empty()
        }),
{
    let keep = |touch: Touch<Id, Coord>| !touch.released;
    let started = after_event(Seq::<Touch<Id, Coord>>::empty(), id, start, TouchPhase::Start);
    let tapped = Touch { id, position: start, tapped: true, released: false };
    let idle = Touch { id, position: start, tapped: false, released: false };
    let gone = Touch { id, position: end, tapped: false, released: true };
    assert(started =~= seq![tapped]);
    let steady = after_clear(started);
    assert(started.map_values(|touch: Touch<Id, Coord>| untapped(touch)) =~= seq![idle]);
    assert(seq![idle].filter(keep) =~= seq![idle]) by {
        filter_of_passing_is_identity(seq![idle], keep);
    }
    assert(steady == seq![idle]);
    assert(steady[0].id.eq_spec(&id));
    assert(is_first_match(steady, id, 0));
    first_match_is_earliest(steady, id);
    let ended = after_event(steady, id, end, TouchPhase::End);
    assert(ended =~= seq![gone]);
    assert(ended.map_values(|touch: Touch<Id, Coord>| untapped(touch)) =~= seq![gone]);
    assert(seq![gone].filter(keep) =~= Seq::<Touch<Id, Coord>>::empty()) by {
        reveal_with_fuel(Seq::filter, 2);
        assert(seq![gone].drop_last() =~= Seq::<Touch<Id, Coord>>::empty());
    }
}

/// A second reset in a row changes nothing.
pub proof fn clear_is_idempotent<Id, Coord>(touches: Seq<Touch<Id, Coord>>) where
    Id: PartialEq,
    Coord: Copy + Default + Add<Output = Coord>,

    ensures
        after_clear(after_clear(touches)) == after_clear(touches),
{
    let once = after_clear(touches);
    let keep = |touch: Touch<Id, Coord>| !touch.released;
    let again = once.map_values(|touch: Touch<Id, Coord>| untapped(touch));
    assert forall|i: int| 0 <= i < once.len() implies again[i] == once[i] && keep(
        #[trigger] once[i],
    ) by {
        cleared_touches_are_steady(touches, i);
    }
    assert(again =~= once);
    filter_of_passing_is_identity(once, keep);
}

/// A trait for objects that can represent the state of a touch device.
pub trait TouchInterface: Sized {
    /// A type that can uniquely represent a touch.
    type TouchId: PartialEq;

    /// The numeric type used for touch coordinates.
    type Coord: Copy + Default + Add<Output = Self::Coord>;

    /// Returns a reference to the first registered touch, if any.
    fn first_touch(&self) -> Option<&Touch<Self::TouchId, Self::Coord>>;

    /// Returns a touch by its `id`, if it exists.
    fn touch(&self, id: &Self::TouchId) -> Option<&Touch<Self::TouchId, Self::Coord>>;

    /// Returns an iterator over all active touches.
    ///
    /// (This includes touches that have been released this frame.)
    fn touches(&self) -> core::slice::Iter<'_, Touch<Self::TouchId, Self::Coord>>;

    /// Register a touch event.
    fn touch_event<I, P>(&mut self, id: I, position: [Self::Coord; 2], phase: P) -> (touchpad:
        &mut Self) where I: Into<Self::TouchId>, P: Into<TouchPhase>
        ensures
            *final(self) == *final(touchpad),
    ;

    /// Clears the tapped/released state of active touches. Should be called at the end of each frame.
    fn clear_taps(&mut self) -> (touchpad: &mut Self)
        ensures
            *final(self) == *final(touchpad),
    ;

    /// Convenience method for handling events. The type of event, `E`, will
    /// vary depending on the windowing library being used.
    fn handle_event<E: Event<Self>>(&mut self, event: &E) -> (touchpad: &mut Self)
        ensures
            event.applied(*old(self), *touchpad),
            *final(self) == *final(touchpad),
    {
        event.handle(self);
        self
    }
}

/// A structure representing the current state of touches on a touch device.
#[derive(Debug, Clone)]
#[verifier::reject_recursive_types(Coord)]
pub struct Touchpad<Id, Coord> where Id: PartialEq, Coord: Copy + Default + Add<Output = Coord> {
    touches: Vec<Touch<Id, Coord>>,
}

impl<Id, Coord> View for Touchpad<Id, Coord> where
    Id: PartialEq,
    Coord: Copy + Default + Add<Output = Coord>,
 {
    type V = Seq<Touch<Id, Coord>>;

    /// The tracked touches, earliest first.
    closed spec fn view(&self) -> Seq<Touch<Id, Coord>> {
        self.touches@
    }
}

impl<Id, Coord> Default for Touchpad<Id, Coord> where
    Id: PartialEq,
    Coord: Copy + Default + Add<Output = Coord>,
 {
    fn default() -> (touchpad: Self)
        ensures
            touchpad@ == Seq::<Touch<Id, Coord>>::empty(),
    {
        Self::new()
    }
}

impl<Id, Coord> Touchpad<Id, Coord> where
    Id: PartialEq,
    Coord: Copy + Default + Add<Output = Coord>,
 {
    pub fn new() -> (touchpad: Self)
        ensures
            touchpad@ == Seq::<Touch<Id, Coord>>::empty(),
    {
        Touchpad { touches: Vec::with_capacity(4) }
    }

    /// The place of the earliest touch whose id compares equal to `id`, or
    /// the number of touches if there is none.
    fn find(&self, id: &Id) -> (i: usize)
        ensures
            i <= self@.len(),
            Id::obeys_eq_spec() ==> (i < self@.len() <==> tracks(self@, *id)),
            Id::obeys_eq_spec() && i < self@.len() ==> is_first_match(self@, *id, i as int)
                && first_match(self@, *id) == i,
    {
        let mut i: usize = 0;
        while i < self.touches.len()
            invariant
                i <= self.touches@.len(),
                Id::obeys_eq_spec() ==> forall|j: int|
                    0 <= j < i ==> !(#[trigger] self.touches@[j]).id.eq_spec(id),
            decreases self.touches@.len() - i,
        {
            if self.touches[i].id == *id {
                proof {
                    if Id::obeys_eq_spec() {
                        assert(is_first_match(self@, *id, i as int));
                        let chosen = first_match(self@, *id);
                        assert(is_first_match(self@, *id, chosen));
                        assert(chosen == i);
                    }
                }
                return i;
            }
            i += 1;
        }
        i
    }

    /// Registers an event in `phase` at `position` for the touch `id`.
    ///
    /// `touch_event` converts its arguments and then does this.
    pub fn record(&mut self, id: Id, position: [Coord; 2], phase: TouchPhase)
        ensures
            Id::obeys_eq_spec() ==> final(self)@ == after_event(old(self)@, id, position, phase),
            Id::obeys_eq_spec() && distinct_ids(old(self)@) ==> distinct_ids(final(self)@),
    {
        let i = self.find(&id);
        if i == self.touches.len() {
            self.touches.push(Touch { id, position, tapped: false, released: false });
        }
        match phase {
            TouchPhase::Start => {
                self.touches[i].tapped = true;
            },
            TouchPhase::Cancel | TouchPhase::End => {
                self.touches[i].released = true;
            },
            TouchPhase::Move => {},
        }
        self.touches[i].position = position;
        proof {
            if Id::obeys_eq_spec() {
                assert(self@ =~= after_event(old(self)@, id, position, phase));
                if distinct_ids(old(self)@) {
                    event_keeps_ids_distinct(old(self)@, id, position, phase);
                }
            }
        }
    }
}

impl<Id, C> TouchInterface for Touchpad<Id, C> where
    Id: PartialEq,
    C: Copy + Default + Add<Output = C>,
 {
    type TouchId = Id;

    type Coord = C;

    fn first_touch(&self) -> (touch: Option<&Touch<Id, C>>)
        ensures
            touch == if self@.len() == 0 {
                None
            } else {
                Some(&self@[0])
            },
    {
        self.touches.as_slice().first()
    }

    fn touch(&self, id: &Id) -> (touch: Option<&Touch<Id, C>>)
        ensures
            Id::obeys_eq_spec() ==> touch == if tracks(self@, *id) {
                Some(&self@[first_match(self@, *id)])
            } else {
                None
            },
    {
        let i = self.find(id);
        if i < self.touches.len() {
            Some(&self.touches[i])
        } else {
            None
        }
    }

    fn touches(&self) -> (touches: core::slice::Iter<'_, Touch<Id, C>>)
        ensures
            vstd::std_specs::slice::into_iter_elts(touches) == self@,
            IteratorSpec::remaining(&touches) == self@.as_ref(),
            IteratorSpec::initial_value_relation(&touches, &touches),
            IteratorSpec::decrease(&touches) is Some,
    {
        broadcast use vstd::std_specs::slice::axiom_spec_slice_iter;

        self.touches.as_slice().iter()
    }

    fn touch_event<I, P>(&mut self, id: I, position: [C; 2], phase: P) -> (touchpad:
        &mut Self) where I: Into<Id>, P: Into<TouchPhase>
        ensures
            Id::obeys_eq_spec() && I::obeys_into_spec() && P::obeys_into_spec() ==> touchpad@
                == after_event(old(self)@, id.into_spec(), position, phase.into_spec()),
            Id::obeys_eq_spec() && distinct_ids(old(self)@) ==> distinct_ids(touchpad@),
    {
        let id: Id = id.into();
        let phase: TouchPhase = phase.into();
        self.record(id, position, phase);
        self
    }

    fn clear_taps(&mut self) -> (touchpad: &mut Self)
        ensures
            touchpad@ == after_clear(old(self)@),
            distinct_ids(old(self)@) ==> distinct_ids(touchpad@),
    {
        let ghost fresh = old(self)@.map_values(|touch: Touch<Id, C>| untapped(touch));
        let ghost keep = |touch: Touch<Id, C>| !touch.released;
        let mut n: usize = 0;
        while n < self.touches.len()
            invariant
                n <= self.touches@.len(),
                self.touches@.len() == old(self)@.len(),
                forall|j: int| 0 <= j < n ==> self.touches@[j] == untapped(old(self)@[j]),
                forall|j: int| n <= j < self.touches@.len() ==> self.touches@[j] == old(self)@[j],
            decreases self.touches@.len() - n,
        {
            self.touches[n].tapped = false;
            n += 1;
        }
        assert(self.touches@ =~= fresh);
        let ghost done: int = 0;
        let mut i: usize = 0;
        proof {
            reveal(Seq::filter);
            assert(fresh.subrange(0, 0) =~= Seq::<Touch<Id, C>>::empty());
            assert(fresh.subrange(0, fresh.len() as int) =~= fresh);
            assert(self.touches@ =~= fresh.subrange(0, 0).filter(keep) + fresh.subrange(
                0,
                fresh.len() as int,
            ));
        }
        while i < self.touches.len()
            invariant
                0 <= done <= fresh.len(),
                i <= self.touches@.len(),
                keep == |touch: Touch<Id, C>| !touch.released,
                done + self.touches@.len() - i == fresh.len(),
                i == fresh.subrange(0, done).filter(keep).len(),
                self.touches@ == fresh.subrange(0, done).filter(keep) + fresh.subrange(
                    done,
                    fresh.len() as int,
                ),
            decreases self.touches@.len() - i,
        {
            proof {
                assert(self.touches@[i as int] == fresh[done]);
                assert(fresh.subrange(0, done + 1) =~= fresh.subrange(0, done).push(fresh[done]));
                fresh.subrange(0, done).lemma_filter_push(fresh[done], keep);
            }
            if !self.touches[i].released {
                i += 1;
                proof {
                    assert(keep(fresh[done]));
                    assert(self.touches@ =~= fresh.subrange(0, done + 1).filter(keep)
                        + fresh.subrange(done + 1, fresh.len() as int));
                }
            } else {
                self.touches.remove(i);
                proof {
                    assert(!keep(fresh[done]));
                    assert(self.touches@ =~= fresh.subrange(0, done + 1).filter(keep)
                        + fresh.subrange(done + 1, fresh.len() as int));
                }
            }
            proof {
                done = done + 1;
            }
        }
        proof {
            assert(fresh.subrange(done, fresh.len() as int) =~= Seq::<Touch<Id, C>>::empty());
            assert(fresh.subrange(0, done) =~= fresh);
            assert(self.touches@ =~= fresh.filter(keep));
            if distinct_ids(old(self)@) {
                clear_keeps_ids_distinct(old(self)@);
            }
        }
        self
    }
}

} // verus!

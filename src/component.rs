use crate::action::Action;
use crate::event::Event;
use vstd::prelude::*;

verus! {

/// The contract shared by every screen component, leaf or container. A
/// component sends nothing itself: the action it derives from an event is
/// its result, and the dispatch runtime queues it.
pub trait Component: Sized {
    /// The component's own invariant.
    spec fn inv(&self) -> bool;

    /// `other` holds the same state as the component.
    spec fn same_state(&self, other: Self) -> bool;

    /// The action the component derives from a raw event.
    spec fn event_action(&self, event: Event) -> Option<Action>;

    /// `next` is the component after it received `action`.
    spec fn updated(&self, action: Action, next: Self) -> bool;

    /// Handles a raw event without changing state, and yields the action it
    /// derives, if any.
    fn handle_events(&mut self, event: &Event) -> (r: Option<Action>)
        requires
            old(self).inv(),
        ensures
            old(self).same_state(*final(self)),
            r == old(self).event_action(*event),
    ;

    /// Applies an action to the component's state.
    fn update(&mut self, action: &Action)
        requires
            old(self).inv(),
        ensures
            final(self).inv(),
            old(self).updated(*action, *final(self)),
    ;
}

/// A component that can be told that its area is too small to be useful,
/// so that it switches to a condensed rendering.
pub trait HandleSmallArea {
    /// Whether the component renders in its condensed form.
    spec fn small_area_spec(&self) -> bool;

    fn with_small_area(&mut self, small_area: bool)
        ensures
            final(self).small_area_spec() == small_area,
    ;
}

/// A component that a container can focus and unfocus.
pub trait HandleFocus {
    /// Whether the component is the target of user input.
    spec fn focused_spec(&self) -> bool;

    fn focus(&mut self)
        ensures
            final(self).focused_spec(),
    ;

    fn unfocus(&mut self)
        ensures
            !final(self).focused_spec(),
    ;
}

} // verus!

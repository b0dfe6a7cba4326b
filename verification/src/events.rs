use vstd::prelude::*;
use crate::state::State;

verus! {

/// An input event as the animation loop sees it, already reduced to the
/// decisions the loop makes: a window-close request, a key press (of which
/// only the escape key matters), pointer motion (suppressed from the
/// diagnostic log), or anything else.
#[derive(Clone, Copy, PartialEq, Eq, Structural, Debug)]
pub enum Event {
    Quit,
    KeyDown { escape: bool },
    MouseMotion,
    Other,
}

impl Event {
    /// A quit signal: the window was closed or the escape key was pressed.
    pub open spec fn is_quit_signal(self) -> bool {
        self is Quit || (self matches Event::KeyDown { escape } && escape)
    }

    /// Every event except pointer motion is forwarded to the diagnostic
    /// log; motion is suppressed to avoid flooding it.
    pub open spec fn is_logged(self) -> bool {
        !(self is MouseMotion)
    }

    /// Whether this event should be forwarded to the diagnostic log.
    pub fn should_log(self) -> (r: bool)
        ensures
            r == self.is_logged(),
    {
        !matches!(self, Event::MouseMotion)
    }
}

/// The input phase of one loop iteration: apply a batch of drained events
/// to the state. The state stops running exactly when it had already
/// stopped or some event in the batch is a quit signal; nothing else about
/// the state changes.
pub fn process_events(state: &mut State, events: &Vec<Event>)
    ensures
        final(state).done == (old(state).done || (exists|i: int|
            0 <= i < events@.len() && events@[i].is_quit_signal())),
        *final(state) == (State { done: final(state).done, ..*old(state) }),
{
    let mut idx: usize = 0;
    while idx < events.len()
        invariant
            0 <= idx <= events@.len(),
            state.done == (old(state).done || (exists|i: int|
                0 <= i < idx && events@[i].is_quit_signal())),
            *state == (State { done: state.done, ..*old(state) }),
        decreases events@.len() - idx,
    {
        let e = events[idx];
        match e {
            Event::Quit => {
                state.done = true;
            },
            Event::KeyDown { escape } => {
                if escape {
                    state.done = true;
                }
            },
            _ => {},
        }
        idx = idx + 1;
    }
}

} // verus!

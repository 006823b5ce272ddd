//! Input as the loop sees it: key events that set the close request and the
//! forward hold, and the cursor sample from which the mouse delta follows.

use vstd::prelude::*;
use crate::fixed::clamp;
use crate::fixed::saturate;
use crate::systems::CameraInput;
use crate::systems::Direction;

verus! {

/// The keys that the loop tells apart.
#[derive(Clone, Copy, Debug, PartialEq, Eq, Structural)]
pub enum Key {
    Escape,
    W,
    Other,
}

/// What happened to a key.
#[derive(Clone, Copy, Debug, PartialEq, Eq, Structural)]
pub enum Action {
    Release,
    Press,
    Repeat,
}

/// An event from the window.
#[derive(Clone, Copy, Debug, PartialEq, Eq, Structural)]
pub enum WindowEvent {
    Key(Key, Action),
    Other,
}

/// What the loop remembers of the input between frames.
#[derive(Clone, Copy, Debug, PartialEq, Eq, Structural)]
pub struct Input {
    /// Whether the forward key is held.
    pub forward_held: bool,
    /// Whether closing was asked for.
    pub should_close: bool,
    /// The last cursor sample, in cursor counts.
    pub mouse_x: i64,
    pub mouse_y: i64,
}

impl Input {
    /// The state after `event`: pressing escape asks for closing, pressing
    /// and releasing `W` set and clear the forward hold, and nothing else
    /// changes anything.
    pub open spec fn after_event(self, event: WindowEvent) -> Input {
        match event {
            WindowEvent::Key(Key::Escape, Action::Press) => Input { should_close: true, ..self },
            WindowEvent::Key(Key::W, Action::Press) => Input { forward_held: true, ..self },
            WindowEvent::Key(Key::W, Action::Release) => Input { forward_held: false, ..self },
            _ => self,
        }
    }

    /// The state after `events`, taken in order.
    pub open spec fn after_events(self, events: Seq<WindowEvent>) -> Input
        decreases events.len(),
    {
        if events.len() == 0 {
            self
        } else {
            self.after_events(events.drop_last()).after_event(events.last())
        }
    }

    /// How far the cursor has moved when it is sampled at `x`, `y`,
    /// saturated.
    pub open spec fn delta(self, x: i64, y: i64) -> (i64, i64) {
        (clamp(x - self.mouse_x) as i64, clamp(y - self.mouse_y) as i64)
    }

    /// The state at the start of the loop: no key held, no close request,
    /// the cursor at `mouse_x`, `mouse_y`.
    pub fn new(mouse_x: i64, mouse_y: i64) -> (input: Input)
        ensures
            input == (Input { forward_held: false, should_close: false, mouse_x, mouse_y }),
    {
        Input { forward_held: false, should_close: false, mouse_x, mouse_y }
    }

    /// Takes one event.
    pub fn handle_event(&mut self, event: WindowEvent)
        ensures
            *final(self) == old(self).after_event(event),
    {
        match event {
            WindowEvent::Key(Key::Escape, Action::Press) => {
                self.should_close = true;
            },
            WindowEvent::Key(Key::W, Action::Press) => {
                self.forward_held = true;
            },
            WindowEvent::Key(Key::W, Action::Release) => {
                self.forward_held = false;
            },
            _ => {},
        }
    }

    /// Takes the events of one poll, in order.
    pub fn handle_events(&mut self, events: &Vec<WindowEvent>)
        ensures
            *final(self) == old(self).after_events(events@),
    {
        let mut k: usize = 0;
        while k < events.len()
            invariant
                k <= events.len(),
                *self == old(self).after_events(events@.take(k as int)),
            decreases events.len() - k,
        {
            proof {
                let next = events@.take(k + 1);
                assert(next.drop_last() =~= events@.take(k as int));
                assert(next.last() == events@[k as int]);
            }
            self.handle_event(events[k]);
            k += 1;
        }
        assert(events@.take(k as int) =~= events@);
    }

    /// Takes a cursor sample and returns how far the cursor moved since
    /// the last one.
    pub fn move_cursor(&mut self, x: i64, y: i64) -> (delta: (i64, i64))
        ensures
            delta == old(self).delta(x, y),
            *final(self) == (Input { mouse_x: x, mouse_y: y, ..*old(self) }),
    {
        let dx: i64 = saturate((x as i128) - (self.mouse_x as i128));
        let dy: i64 = saturate((y as i128) - (self.mouse_y as i128));
        self.mouse_x = x;
        self.mouse_y = y;
        (dx, dy)
    }

    /// One poll: the events are taken, then the cursor sample. Returns
    /// what the frame asks of the camera, given the camera's forward
    /// vector.
    pub fn poll(&mut self, events: &Vec<WindowEvent>, x: i64, y: i64, forward: Direction) -> (asked:
        CameraInput)
        ensures
            *final(self) == (Input {
                mouse_x: x,
                mouse_y: y,
                ..old(self).after_events(events@)
            }),
            asked == (CameraInput {
                mouse_dx: old(self).after_events(events@).delta(x, y).0,
                mouse_dy: old(self).after_events(events@).delta(x, y).1,
                forward_held: old(self).after_events(events@).forward_held,
                forward,
            }),
    {
        self.handle_events(events);
        let delta = self.move_cursor(x, y);
        CameraInput {
            mouse_dx: delta.0,
            mouse_dy: delta.1,
            forward_held: self.forward_held,
            forward,
        }
    }
}

/// Events move neither the cursor sample nor take back a close request.
pub proof fn lemma_events_keep(input: Input, events: Seq<WindowEvent>)
    ensures
        input.after_events(events).mouse_x == input.mouse_x,
        input.after_events(events).mouse_y == input.mouse_y,
        input.should_close ==> input.after_events(events).should_close,
    decreases events.len(),
{
    if events.len() > 0 {
        lemma_events_keep(input, events.drop_last());
    }
}

} // verus!

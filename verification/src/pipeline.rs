//! The path of an event: what the input reader sends on, and what one turn
//! of the event loop does with what it receives.

use vstd::prelude::*;
use crate::keys::{Event, Key, Phase};
use crate::model::SessionState;
use crate::session::App;

verus! {

/// What the platform's event source yields, as far as the input reader
/// tells it apart.
#[derive(Clone, Copy, Debug, PartialEq, Eq, Structural)]
pub enum Input {
    /// A key event.
    Key(Key),
    /// Anything else: mouse, resize, focus.
    Other,
}

/// What the event loop does after one receive.
#[derive(Clone, Copy, Debug, PartialEq, Eq, Structural)]
pub enum LoopAction {
    /// An event was consumed: draw once, then receive again.
    Redraw,
    /// Leave the loop without drawing.
    Stop,
}

/// The message that the input reader sends for `input`: a key event goes on
/// as it is, anything else is dropped.
pub open spec fn forwarded(input: Input) -> Option<Event> {
    match input {
        Input::Key(key) => Some(Event::KeyInput(key)),
        Input::Other => None,
    }
}

/// Decides what the input reader sends on the channel for one thing read.
pub fn forward(input: Input) -> (message: Option<Event>)
    ensures
        message == forwarded(input),
{
    match input {
        Input::Key(key) => Some(Event::KeyInput(key)),
        Input::Other => None,
    }
}

impl SessionState {
    /// Whether one turn of the loop hands what it received to the engine:
    /// only an event, and only while the user has not asked to leave.
    pub open spec fn consumes(self, received: Option<Event>) -> bool {
        received is Some && !self.exit_requested
    }

    /// The state after one turn of the loop. `None` stands for a channel
    /// whose sender is gone.
    pub open spec fn step(self, received: Option<Event>) -> SessionState {
        match received {
            Some(Event::KeyInput(key)) => if self.exit_requested {
                self
            } else {
                self.press(key)
            },
            None => self,
        }
    }

    /// What the loop does after that turn: it draws exactly when an event
    /// was consumed.
    pub open spec fn action(self, received: Option<Event>) -> LoopAction {
        if self.consumes(received) {
            LoopAction::Redraw
        } else {
            LoopAction::Stop
        }
    }
}

impl App {
    /// Whether the event loop goes on: until the user asks to leave.
    pub fn is_running(&self) -> (running: bool)
        ensures
            running == (self@.phase() != Phase::ExitRequested),
    {
        !self.exit_requested()
    }

    /// One turn of the event loop on what the channel gave: `None` where the
    /// sender is gone.
    ///
    /// An event is dispatched by its tag and asks for one redraw. A closed
    /// channel ends the loop and changes nothing; so does any call after the
    /// user has asked to leave.
    pub fn step(&mut self, received: Option<Event>) -> (action: LoopAction)
        requires
            old(self).wf(),
        ensures
            final(self).wf(),
            final(self)@ == old(self)@.step(received),
            action == old(self)@.action(received),
    {
        if !self.is_running() {
            return LoopAction::Stop;
        }
        match received {
            Some(Event::KeyInput(key)) => {
                self.handle_key(key);
                LoopAction::Redraw
            },
            None => LoopAction::Stop,
        }
    }
}

} // verus!

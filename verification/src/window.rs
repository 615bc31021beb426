use vstd::prelude::*;

use crate::keyboard::{spec_key_event_applied, KeyEvent, KeyboardState, Keys};

verus! {

/// One event from the platform's event pump, reduced to what the run-loop
/// decides on. Everything else the platform delivers maps to `Other`.
#[derive(Clone, Copy, Debug)]
pub enum LoopEvent {
    /// The user asked to close the window.
    CloseRequested,
    /// Every event pending in this pump cycle has been delivered.
    MainEventsCleared,
    /// A keyboard event.
    KeyboardInput(KeyEvent),
    /// Any other platform event: the loop ignores it.
    Other,
}

/// Whether this event ends the whole run-loop.
pub fn should_stop_event_loop(event: &LoopEvent) -> (stop: bool)
    ensures
        stop == (*event is CloseRequested),
{
    match event {
        LoopEvent::CloseRequested => true,
        _ => false,
    }
}

/// The run-loop's own state: the keys held down and whether a stop was
/// requested. The platform window and its event source stay with the caller,
/// which feeds every pumped event through `handle_event`.
pub struct WindowState {
    keyboard_state: KeyboardState,
    quit: bool,
}

impl WindowState {
    /// The keyboard bookkeeping is intact. Established by `new` and preserved
    /// by every method.
    pub closed spec fn wf(self) -> bool {
        self.keyboard_state.wf()
    }

    /// The keys currently held down.
    pub closed spec fn pressed(self) -> Set<Keys> {
        self.keyboard_state.pressed()
    }

    /// Whether the loop was asked to stop, by a close request or by the
    /// per-frame callback.
    pub closed spec fn quit_requested(self) -> bool {
        self.quit
    }

    pub fn new() -> (state: Self)
        ensures
            state.wf(),
            state.pressed() == Set::<Keys>::empty(),
            !state.quit_requested(),
    {
        WindowState { keyboard_state: KeyboardState::new(), quit: false }
    }

    /// Apply one pumped event: a close request latches the quit flag, a
    /// keyboard event updates the pressed keys, and the end-of-pump marker
    /// asks the caller to leave the pump and run the per-frame callback. The
    /// returned flag says exactly that.
    pub fn handle_event(&mut self, event: &LoopEvent) -> (pump_done: bool)
        requires
            old(self).wf(),
        ensures
            final(self).wf(),
            pump_done == (*event is MainEventsCleared),
            final(self).quit_requested() == (old(self).quit_requested() || *event
                is CloseRequested),
            final(self).pressed() == (match *event {
                LoopEvent::KeyboardInput(key_event) => spec_key_event_applied(
                    old(self).pressed(),
                    key_event,
                ),
                _ => old(self).pressed(),
            }),
    {
        if should_stop_event_loop(event) {
            self.quit = true;
        }
        if let LoopEvent::KeyboardInput(input) = event {
            self.keyboard_state.update(input);
        }
        match event {
            LoopEvent::MainEventsCleared => true,
            _ => false,
        }
    }

    /// The pressed-key view handed to the per-frame callback.
    pub fn keyboard_state(&self) -> (keyboard: &KeyboardState)
        ensures
            keyboard.wf() == self.wf(),
            keyboard.pressed() == self.pressed(),
    {
        &self.keyboard_state
    }

    /// The per-frame callback, or the caller, asks the loop to stop.
    pub fn request_quit(&mut self)
        ensures
            final(self).wf() == old(self).wf(),
            final(self).pressed() == old(self).pressed(),
            final(self).quit_requested(),
    {
        self.quit = true;
    }

    /// Whether the loop should stop before the next frame.
    pub fn should_quit(&self) -> (quit: bool)
        ensures
            quit == self.quit_requested(),
    {
        self.quit
    }
}

} // verus!

//! The driver's step function: one key event taken while running, mapped to
//! the session transition it causes and to what the loop does next — exit on
//! Escape, redraw after a character or a backspace, ignore anything else.

use vstd::prelude::*;

use crate::session::{Progression, SessionView, spec_backspace, spec_input_char};

verus! {

/// The key events the driver recognizes; every other key is `Other`.
#[derive(Clone, Copy, Debug, PartialEq, Eq)]
pub enum KeyInput {
    Escape,
    Character(char),
    Backspace,
    Other,
}

/// What the loop does after one step.
#[derive(Clone, Copy, Debug, PartialEq, Eq)]
pub enum StepOutcome {
    Exit,
    Redraw,
    Ignore,
}

/// The session transition one key event causes.
pub open spec fn spec_handle_key(s: SessionView, key: KeyInput) -> SessionView {
    match key {
        KeyInput::Character(c) => spec_input_char(s, c),
        KeyInput::Backspace => spec_backspace(s),
        _ => s,
    }
}

/// What the loop does next for one key event.
pub open spec fn spec_outcome(key: KeyInput) -> StepOutcome {
    match key {
        KeyInput::Escape => StepOutcome::Exit,
        KeyInput::Character(_) => StepOutcome::Redraw,
        KeyInput::Backspace => StepOutcome::Redraw,
        KeyInput::Other => StepOutcome::Ignore,
    }
}

impl Progression {
    /// One step of the driver: applies the event's transition to the session
    /// and says whether the loop exits, redraws, or leaves the display alone.
    pub fn handle_key(&mut self, key: KeyInput) -> (out: StepOutcome)
        ensures
            final(self)@ == spec_handle_key(old(self)@, key),
            out == spec_outcome(key),
    {
        match key {
            KeyInput::Escape => StepOutcome::Exit,
            KeyInput::Character(c) => {
                self.input_char(c);
                StepOutcome::Redraw
            },
            KeyInput::Backspace => {
                self.backspace();
                StepOutcome::Redraw
            },
            KeyInput::Other => StepOutcome::Ignore,
        }
    }
}

} // verus!

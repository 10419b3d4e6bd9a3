//! Input events driving the game, and how key presses map to them.
//!
//! The surrounding program polls the terminal for key presses; polling is
//! I/O and stays outside the core. What the core owns is the meaning of
//! each key: `event_for_key` turns a decoded key press into the input
//! event the game loop dispatches on.

use vstd::prelude::*;

verus! {

/// One discrete input to the game loop.
#[derive(Clone, Copy, PartialEq, Eq, Structural, Debug)]
pub enum AppEvent {
    /// Heartbeat: no input arrived within the poll window.
    Tick,
    Quit,
    Recalc,
    CharInput(char),
    Backspace,
    Enter,
    NextRound,
    ToggleTarget,
}

/// A key press, already decoded to the cases the game distinguishes.
/// Anything the game does not react to arrives as `Other`.
#[derive(Clone, Copy, PartialEq, Eq, Structural, Debug)]
pub enum KeyInput {
    Char(char),
    Backspace,
    Enter,
    Esc,
    Other,
}

/// The event an individual key press means to the game.
pub open spec fn spec_event_for_key(key: KeyInput) -> AppEvent {
    match key {
        KeyInput::Char(c) => if c == 'q' {
            AppEvent::Quit
        } else if c == 'r' {
            AppEvent::Recalc
        } else if c == 'n' {
            AppEvent::NextRound
        } else if c == 't' {
            AppEvent::ToggleTarget
        } else {
            AppEvent::CharInput(c)
        },
        KeyInput::Backspace => AppEvent::Backspace,
        KeyInput::Enter => AppEvent::Enter,
        KeyInput::Esc => AppEvent::Quit,
        KeyInput::Other => AppEvent::Tick,
    }
}

/// Maps a decoded key press to its input event: `q` and Escape quit,
/// `r` recalculates, `n` advances the round, `t` toggles the guess
/// target, any other character feeds the guess buffer, and keys the game
/// does not react to count as a heartbeat.
pub fn event_for_key(key: KeyInput) -> (e: AppEvent)
    ensures
        e == spec_event_for_key(key),
{
    match key {
        KeyInput::Char(c) => {
            if c == 'q' {
                AppEvent::Quit
            } else if c == 'r' {
                AppEvent::Recalc
            } else if c == 'n' {
                AppEvent::NextRound
            } else if c == 't' {
                AppEvent::ToggleTarget
            } else {
                AppEvent::CharInput(c)
            }
        },
        KeyInput::Backspace => AppEvent::Backspace,
        KeyInput::Enter => AppEvent::Enter,
        KeyInput::Esc => AppEvent::Quit,
        KeyInput::Other => AppEvent::Tick,
    }
}

/// Source of input events. Polling the terminal is I/O and lives with the
/// surrounding program, which decodes each key press and runs it through
/// `event_for_key`; the handler itself carries no state.
pub struct EventHandler {}

impl EventHandler {
    pub fn new() -> (r: Self) {
        EventHandler {  }
    }
}

} // verus!

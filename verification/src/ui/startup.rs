//! The first screen: log in, register or quit.

use vstd::prelude::*;
use crate::ui::keys::{key_char, Key};

verus! {

/// Which button of the first screen has the focus.
#[derive(Debug, Clone, Copy, PartialEq, Eq, Structural)]
pub enum StartUpState {
    Login,
    Register,
    Quit,
}

/// The first screen.
#[derive(Debug, Clone, PartialEq)]
pub struct StartUp {
    pub state: StartUpState,
}

impl StartUp {
    /// The first screen with the focus on logging in.
    pub fn new() -> (r: Self)
        ensures
            r.state == StartUpState::Login,
    {
        StartUp { state: StartUpState::Login }
    }

    /// The first screen with the focus on `state`.
    pub fn new_with_state(state: StartUpState) -> (r: Self)
        ensures
            r.state == state,
    {
        StartUp { state }
    }
}

/// What the program is to do after a key press on the first screen.
#[derive(Debug, Clone, Copy, PartialEq, Eq, Structural)]
pub enum StartUpOutcome {
    /// Stay on the first screen.
    Stay,
    /// Show the login screen.
    OpenLogin,
    /// Show the registration screen.
    OpenRegister,
    /// End the program.
    Quit,
}

/// Whether a key moves the focus of the first screen down.
pub open spec fn moves_down(key: Key) -> bool {
    key == Key::Down || key == Key::Tab || key_char(key) == Some('j')
}

/// Whether a key moves the focus of the first screen up.
pub open spec fn moves_up(key: Key) -> bool {
    key == Key::Up || key_char(key) == Some('k')
}

/// The button below `state`, the first one below the last.
pub open spec fn button_below(state: StartUpState) -> StartUpState {
    match state {
        StartUpState::Login => StartUpState::Register,
        StartUpState::Register => StartUpState::Quit,
        StartUpState::Quit => StartUpState::Login,
    }
}

/// The button above `state`, the last one above the first.
pub open spec fn button_above(state: StartUpState) -> StartUpState {
    match state {
        StartUpState::Login => StartUpState::Quit,
        StartUpState::Register => StartUpState::Login,
        StartUpState::Quit => StartUpState::Register,
    }
}

/// Where the focus of the first screen is after a key press. The letter
/// `q` ends the program and moves nothing.
pub open spec fn startup_focus(state: StartUpState, key: Key) -> StartUpState {
    if key_char(key) == Some('q') {
        state
    } else if moves_down(key) {
        button_below(state)
    } else if moves_up(key) {
        button_above(state)
    } else {
        state
    }
}

/// What a key press on the first screen asks of the program: the letter
/// `q` ends it, enter presses the focused button.
pub open spec fn startup_outcome(state: StartUpState, key: Key) -> StartUpOutcome {
    if key_char(key) == Some('q') {
        StartUpOutcome::Quit
    } else if key == Key::Enter {
        match state {
            StartUpState::Login => StartUpOutcome::OpenLogin,
            StartUpState::Register => StartUpOutcome::OpenRegister,
            StartUpState::Quit => StartUpOutcome::Quit,
        }
    } else {
        StartUpOutcome::Stay
    }
}

impl StartUp {
    /// Reacts to a key press.
    pub fn handle_key(&mut self, key: Key) -> (r: StartUpOutcome)
        ensures
            r == startup_outcome(old(self).state, key),
            final(self).state == startup_focus(old(self).state, key),
    {
        let typed: Option<char> = match key {
            Key::Char(c) => Some(c),
            Key::Ctrl(c) => Some(c),
            _ => None,
        };
        let down: bool = match key {
            Key::Down | Key::Tab => true,
            _ => typed == Some('j'),
        };
        let up: bool = match key {
            Key::Up => true,
            _ => typed == Some('k'),
        };
        if typed == Some('q') {
            return StartUpOutcome::Quit;
        }
        match key {
            Key::Enter => {
                return match self.state {
                    StartUpState::Login => StartUpOutcome::OpenLogin,
                    StartUpState::Register => StartUpOutcome::OpenRegister,
                    StartUpState::Quit => StartUpOutcome::Quit,
                };
            },
            _ => {},
        }
        if down {
            self.state = match self.state {
                StartUpState::Login => StartUpState::Register,
                StartUpState::Register => StartUpState::Quit,
                StartUpState::Quit => StartUpState::Login,
            };
        } else if up {
            self.state = match self.state {
                StartUpState::Login => StartUpState::Quit,
                StartUpState::Register => StartUpState::Login,
                StartUpState::Quit => StartUpState::Register,
            };
        }
        StartUpOutcome::Stay
    }
}

} // verus!

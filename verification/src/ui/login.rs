//! The login screen.

use vstd::prelude::*;
use crate::ui::keys::{type_into, typed, Key};

verus! {

/// Which part of the login screen has the focus.
#[derive(Debug, Clone, Copy, PartialEq, Eq, Structural)]
pub enum LoginState {
    Username,
    MasterPassword,
    Confirm,
    Quit,
}

/// What has been typed into the login screen.
#[derive(Debug, Clone, PartialEq)]
pub struct Login {
    pub username: String,
    pub master_password: String,
    pub state: LoginState,
    /// The data directory.
    pub path: String,
}

impl Login {
    /// Types one character into the username.
    pub fn username_append(&mut self, c: char)
        ensures
            final(self).username@ == old(self).username@.push(c),
            final(self).master_password == old(self).master_password,
            final(self).state == old(self).state,
            final(self).path == old(self).path,
    {
        self.username.push(c);
    }

    /// Types one character into the master password.
    pub fn master_password_append(&mut self, c: char)
        ensures
            final(self).master_password@ == old(self).master_password@.push(c),
            final(self).username == old(self).username,
            final(self).state == old(self).state,
            final(self).path == old(self).path,
    {
        self.master_password.push(c);
    }

    /// Deletes the last character of the username, if there is one.
    pub fn username_pop(&mut self)
        ensures
            final(self).username@ == crate::ui::components::without_last(old(self).username@),
            final(self).master_password == old(self).master_password,
            final(self).state == old(self).state,
            final(self).path == old(self).path,
    {
        self.username.pop();
    }

    /// Deletes the last character of the master password, if there is one.
    pub fn master_password_pop(&mut self)
        ensures
            final(self).master_password@ == crate::ui::components::without_last(
                old(self).master_password@,
            ),
            final(self).username == old(self).username,
            final(self).state == old(self).state,
            final(self).path == old(self).path,
    {
        self.master_password.pop();
    }

    /// An empty login screen with the focus on the username.
    pub fn new(path: &String) -> (r: Self)
        ensures
            r.username@.len() == 0,
            r.master_password@.len() == 0,
            r.state == LoginState::Username,
            r.path@ == path@,
    {
        Login {
            username: String::new(),
            master_password: String::new(),
            state: LoginState::Username,
            path: path.clone(),
        }
    }

    /// The same input with the focus moved to `state`.
    pub fn copy_with_state(&self, state: LoginState) -> (r: Self)
        ensures
            r.username@ == self.username@,
            r.master_password@ == self.master_password@,
            r.state == state,
            r.path@ == self.path@,
    {
        Login {
            username: self.username.clone(),
            master_password: self.master_password.clone(),
            state,
            path: self.path.clone(),
        }
    }
}

/// What the program is to do after a key press on the login screen.
#[derive(Debug, Clone, Copy, PartialEq, Eq, Structural)]
pub enum LoginOutcome {
    /// Stay on the login screen.
    Stay,
    /// Go back to the first screen.
    Leave,
    /// Try to open the user with what was typed.
    Submit,
}

/// Where the focus of the login screen is after a key press.
pub open spec fn login_focus(state: LoginState, key: Key) -> LoginState {
    match (state, key) {
        (LoginState::Username, Key::Enter) => LoginState::MasterPassword,
        (LoginState::Username, Key::Tab) => LoginState::MasterPassword,
        (LoginState::Username, Key::Down) => LoginState::MasterPassword,
        (LoginState::Username, Key::Up) => LoginState::Confirm,
        (LoginState::MasterPassword, Key::Enter) => LoginState::Quit,
        (LoginState::MasterPassword, Key::Tab) => LoginState::Quit,
        (LoginState::MasterPassword, Key::Down) => LoginState::Quit,
        (LoginState::MasterPassword, Key::Up) => LoginState::Username,
        (LoginState::Quit, Key::Right) => LoginState::Confirm,
        (LoginState::Quit, Key::Left) => LoginState::Confirm,
        (LoginState::Quit, Key::Tab) => LoginState::Confirm,
        (LoginState::Quit, Key::Up) => LoginState::MasterPassword,
        (LoginState::Quit, Key::Down) => LoginState::Username,
        (LoginState::Confirm, Key::Right) => LoginState::Quit,
        (LoginState::Confirm, Key::Left) => LoginState::Quit,
        (LoginState::Confirm, Key::Up) => LoginState::MasterPassword,
        (LoginState::Confirm, Key::Down) => LoginState::Username,
        (LoginState::Confirm, Key::Tab) => LoginState::Username,
        _ => state,
    }
}

/// What a key press on the login screen asks of the program: enter on
/// the quit button leaves, enter on the confirm button submits.
pub open spec fn login_outcome(state: LoginState, key: Key) -> LoginOutcome {
    match (state, key) {
        (LoginState::Quit, Key::Enter) => LoginOutcome::Leave,
        (LoginState::Confirm, Key::Enter) => LoginOutcome::Submit,
        _ => LoginOutcome::Stay,
    }
}

impl Login {
    /// Reacts to a key press: the focused field takes what is typed, the
    /// other keys move the focus or press the focused button.
    pub fn handle_key(&mut self, key: Key) -> (r: LoginOutcome)
        ensures
            r == login_outcome(old(self).state, key),
            final(self).state == login_focus(old(self).state, key),
            final(self).username@ == (if old(self).state == LoginState::Username {
                typed(old(self).username@, key)
            } else {
                old(self).username@
            }),
            final(self).master_password@ == (if old(self).state == LoginState::MasterPassword {
                typed(old(self).master_password@, key)
            } else {
                old(self).master_password@
            }),
            final(self).path == old(self).path,
    {
        match self.state {
            LoginState::Username => {
                type_into(&mut self.username, key);
                match key {
                    Key::Enter | Key::Tab | Key::Down => {
                        self.state = LoginState::MasterPassword;
                    },
                    Key::Up => {
                        self.state = LoginState::Confirm;
                    },
                    _ => {},
                }
                LoginOutcome::Stay
            },
            LoginState::MasterPassword => {
                type_into(&mut self.master_password, key);
                match key {
                    Key::Enter | Key::Tab | Key::Down => {
                        self.state = LoginState::Quit;
                    },
                    Key::Up => {
                        self.state = LoginState::Username;
                    },
                    _ => {},
                }
                LoginOutcome::Stay
            },
            LoginState::Quit => match key {
                Key::Enter => LoginOutcome::Leave,
                Key::Right | Key::Left | Key::Tab => {
                    self.state = LoginState::Confirm;
                    LoginOutcome::Stay
                },
                Key::Up => {
                    self.state = LoginState::MasterPassword;
                    LoginOutcome::Stay
                },
                Key::Down => {
                    self.state = LoginState::Username;
                    LoginOutcome::Stay
                },
                _ => LoginOutcome::Stay,
            },
            LoginState::Confirm => match key {
                Key::Enter => LoginOutcome::Submit,
                Key::Right | Key::Left => {
                    self.state = LoginState::Quit;
                    LoginOutcome::Stay
                },
                Key::Up => {
                    self.state = LoginState::MasterPassword;
                    LoginOutcome::Stay
                },
                Key::Down | Key::Tab => {
                    self.state = LoginState::Username;
                    LoginOutcome::Stay
                },
                _ => LoginOutcome::Stay,
            },
        }
    }
}

} // verus!

//! The registration screen.

use vstd::prelude::*;
use crate::models::RecordOperationConfig;
use crate::ui::keys::{type_into, typed, Key};
use crate::ui::popups::{InsertPwd, InsertPwdExitState};
use crate::ui::components::without_last;

verus! {

/// Which part of the registration screen has the focus.
#[derive(Debug, Clone, Copy, PartialEq, Eq, Structural)]
pub enum RegisterState {
    Username,
    MasterPassword,
    ConfirmMasterPassword,
    Confirm,
    Quit,
}

/// What has been typed into the registration screen, and the first record
/// that the new user is to get.
#[derive(Debug, Clone, PartialEq)]
pub struct Register {
    pub username: String,
    pub master_password: String,
    pub confirm_master_password: String,
    pub state: RegisterState,
    pub domain: String,
    pub pwd: String,
    /// The data directory.
    pub path: String,
}

impl Register {
    /// Whether everything but the three typed fields is as in `other`.
    pub open spec fn same_frame(&self, other: &Register) -> bool {
        &&& self.state == other.state
        &&& self.domain == other.domain
        &&& self.pwd == other.pwd
        &&& self.path == other.path
    }

    /// An empty registration screen with the focus on the username.
    pub fn new(path: &String) -> (r: Self)
        ensures
            r.username@.len() == 0,
            r.master_password@.len() == 0,
            r.confirm_master_password@.len() == 0,
            r.state == RegisterState::Username,
            r.domain@.len() == 0,
            r.pwd@.len() == 0,
            r.path@ == path@,
    {
        Register {
            username: String::new(),
            master_password: String::new(),
            confirm_master_password: String::new(),
            state: RegisterState::Username,
            domain: String::new(),
            pwd: String::new(),
            path: path.clone(),
        }
    }

    /// The same input with the focus moved to `state`.
    pub fn copy_with_state(&self, state: RegisterState) -> (r: Self)
        ensures
            r.username@ == self.username@,
            r.master_password@ == self.master_password@,
            r.confirm_master_password@ == self.confirm_master_password@,
            r.state == state,
            r.domain@ == self.domain@,
            r.pwd@ == self.pwd@,
            r.path@ == self.path@,
    {
        Register {
            username: self.username.clone(),
            master_password: self.master_password.clone(),
            confirm_master_password: self.confirm_master_password.clone(),
            state,
            domain: self.domain.clone(),
            pwd: self.pwd.clone(),
            path: self.path.clone(),
        }
    }

    /// Types one character into the username.
    pub fn username_append(&mut self, c: char)
        ensures
            final(self).username@ == old(self).username@.push(c),
            final(self).master_password == old(self).master_password,
            final(self).confirm_master_password == old(self).confirm_master_password,
            final(self).same_frame(old(self)),
    {
        self.username.push(c);
    }

    /// Types one character into the master password.
    pub fn master_password_append(&mut self, c: char)
        ensures
            final(self).master_password@ == old(self).master_password@.push(c),
            final(self).username == old(self).username,
            final(self).confirm_master_password == old(self).confirm_master_password,
            final(self).same_frame(old(self)),
    {
        self.master_password.push(c);
    }

    /// Types one character into the repeated master password.
    pub fn confirm_master_password_append(&mut self, c: char)
        ensures
            final(self).confirm_master_password@ == old(self).confirm_master_password@.push(c),
            final(self).username == old(self).username,
            final(self).master_password == old(self).master_password,
            final(self).same_frame(old(self)),
    {
        self.confirm_master_password.push(c);
    }

    /// Deletes the last character of the username, if there is one.
    pub fn username_pop(&mut self)
        ensures
            final(self).username@ == without_last(old(self).username@),
            final(self).master_password == old(self).master_password,
            final(self).confirm_master_password == old(self).confirm_master_password,
            final(self).same_frame(old(self)),
    {
        self.username.pop();
    }

    /// Deletes the last character of the master password, if there is one.
    pub fn master_password_pop(&mut self)
        ensures
            final(self).master_password@ == without_last(old(self).master_password@),
            final(self).username == old(self).username,
            final(self).confirm_master_password == old(self).confirm_master_password,
            final(self).same_frame(old(self)),
    {
        self.master_password.pop();
    }

    /// Deletes the last character of the repeated master password, if there
    /// is one.
    pub fn confirm_master_password_pop(&mut self)
        ensures
            final(self).confirm_master_password@ == without_last(
                old(self).confirm_master_password@,
            ),
            final(self).username == old(self).username,
            final(self).master_password == old(self).master_password,
            final(self).same_frame(old(self)),
    {
        self.confirm_master_password.pop();
    }
}

/// What the program is to do after a key press on the registration screen.
#[derive(Debug, Clone, Copy, PartialEq, Eq, Structural)]
pub enum RegisterOutcome {
    /// Stay on the registration screen.
    Stay,
    /// Go back to the first screen.
    Leave,
    /// Ask for the domain and password of the first record.
    AskFirstRecord,
}

/// Where the focus of the registration screen is after a key press.
pub open spec fn register_focus(state: RegisterState, key: Key) -> RegisterState {
    match (state, key) {
        (RegisterState::Username, Key::Enter) => RegisterState::MasterPassword,
        (RegisterState::Username, Key::Tab) => RegisterState::MasterPassword,
        (RegisterState::Username, Key::Down) => RegisterState::MasterPassword,
        (RegisterState::Username, Key::Up) => RegisterState::Confirm,
        (RegisterState::MasterPassword, Key::Enter) => RegisterState::ConfirmMasterPassword,
        (RegisterState::MasterPassword, Key::Tab) => RegisterState::ConfirmMasterPassword,
        (RegisterState::MasterPassword, Key::Down) => RegisterState::ConfirmMasterPassword,
        (RegisterState::MasterPassword, Key::Up) => RegisterState::Username,
        (RegisterState::ConfirmMasterPassword, Key::Enter) => RegisterState::Quit,
        (RegisterState::ConfirmMasterPassword, Key::Tab) => RegisterState::Quit,
        (RegisterState::ConfirmMasterPassword, Key::Down) => RegisterState::Quit,
        (RegisterState::ConfirmMasterPassword, Key::Up) => RegisterState::MasterPassword,
        (RegisterState::Quit, Key::Right) => RegisterState::Confirm,
        (RegisterState::Quit, Key::Left) => RegisterState::Confirm,
        (RegisterState::Quit, Key::Tab) => RegisterState::Confirm,
        (RegisterState::Quit, Key::Up) => RegisterState::ConfirmMasterPassword,
        (RegisterState::Quit, Key::Down) => RegisterState::Username,
        (RegisterState::Confirm, Key::Right) => RegisterState::Quit,
        (RegisterState::Confirm, Key::Left) => RegisterState::Quit,
        (RegisterState::Confirm, Key::Up) => RegisterState::ConfirmMasterPassword,
        (RegisterState::Confirm, Key::Down) => RegisterState::Username,
        (RegisterState::Confirm, Key::Tab) => RegisterState::Username,
        _ => state,
    }
}

/// What a key press on the registration screen asks of the program: enter
/// on the quit button leaves, enter on the confirm button asks for the
/// first record.
pub open spec fn register_outcome(state: RegisterState, key: Key) -> RegisterOutcome {
    match (state, key) {
        (RegisterState::Quit, Key::Enter) => RegisterOutcome::Leave,
        (RegisterState::Confirm, Key::Enter) => RegisterOutcome::AskFirstRecord,
        _ => RegisterOutcome::Stay,
    }
}

impl Register {
    /// What the field that `field` names holds after a key press in `state`.
    pub open spec fn field_after(
        state: RegisterState,
        field: RegisterState,
        text: Seq<char>,
        key: Key,
    ) -> Seq<char> {
        if state == field {
            typed(text, key)
        } else {
            text
        }
    }

    /// Whether the two master passwords that were typed are the same.
    pub fn passwords_match(&self) -> (r: bool)
        ensures
            r == (self.master_password@ == self.confirm_master_password@),
    {
        self.master_password == self.confirm_master_password
    }

    /// Reacts to a key press: the focused field takes what is typed, the
    /// other keys move the focus or press the focused button.
    pub fn handle_key(&mut self, key: Key) -> (r: RegisterOutcome)
        ensures
            r == register_outcome(old(self).state, key),
            final(self).state == register_focus(old(self).state, key),
            final(self).username@ == Self::field_after(
                old(self).state,
                RegisterState::Username,
                old(self).username@,
                key,
            ),
            final(self).master_password@ == Self::field_after(
                old(self).state,
                RegisterState::MasterPassword,
                old(self).master_password@,
                key,
            ),
            final(self).confirm_master_password@ == Self::field_after(
                old(self).state,
                RegisterState::ConfirmMasterPassword,
                old(self).confirm_master_password@,
                key,
            ),
            final(self).domain == old(self).domain,
            final(self).pwd == old(self).pwd,
            final(self).path == old(self).path,
    {
        match self.state {
            RegisterState::Username => {
                type_into(&mut self.username, key);
                match key {
                    Key::Enter | Key::Tab | Key::Down => {
                        self.state = RegisterState::MasterPassword;
                    },
                    Key::Up => {
                        self.state = RegisterState::Confirm;
                    },
                    _ => {},
                }
                RegisterOutcome::Stay
            },
            RegisterState::MasterPassword => {
                type_into(&mut self.master_password, key);
                match key {
                    Key::Enter | Key::Tab | Key::Down => {
                        self.state = RegisterState::ConfirmMasterPassword;
                    },
                    Key::Up => {
                        self.state = RegisterState::Username;
                    },
                    _ => {},
                }
                RegisterOutcome::Stay
            },
            RegisterState::ConfirmMasterPassword => {
                type_into(&mut self.confirm_master_password, key);
                match key {
                    Key::Enter | Key::Tab | Key::Down => {
                        self.state = RegisterState::Quit;
                    },
                    Key::Up => {
                        self.state = RegisterState::MasterPassword;
                    },
                    _ => {},
                }
                RegisterOutcome::Stay
            },
            RegisterState::Quit => match key {
                Key::Enter => RegisterOutcome::Leave,
                Key::Right | Key::Left | Key::Tab => {
                    self.state = RegisterState::Confirm;
                    RegisterOutcome::Stay
                },
                Key::Up => {
                    self.state = RegisterState::ConfirmMasterPassword;
                    RegisterOutcome::Stay
                },
                Key::Down => {
                    self.state = RegisterState::Username;
                    RegisterOutcome::Stay
                },
                _ => RegisterOutcome::Stay,
            },
            RegisterState::Confirm => match key {
                Key::Enter => RegisterOutcome::AskFirstRecord,
                Key::Right | Key::Left => {
                    self.state = RegisterState::Quit;
                    RegisterOutcome::Stay
                },
                Key::Up => {
                    self.state = RegisterState::ConfirmMasterPassword;
                    RegisterOutcome::Stay
                },
                Key::Down | Key::Tab => {
                    self.state = RegisterState::Username;
                    RegisterOutcome::Stay
                },
                _ => RegisterOutcome::Stay,
            },
        }
    }
}

/// What is to happen once the popup for the first record has closed.
#[derive(Debug, Clone, PartialEq)]
pub enum Registration {
    /// The two master passwords differ: no user is created.
    Refused,
    /// The popup was left by its quit button: nothing happens.
    Cancelled,
    /// The user is to be created with this first record.
    Create(RecordOperationConfig),
}

impl Register {
    /// Decides what is to happen once the popup for the first record has
    /// closed: nothing is created unless the two master passwords are the
    /// same and the popup was not left by its quit button.
    pub fn registration(&self, popup: &InsertPwd) -> (r: Registration)
        ensures
            match r {
                Registration::Refused => self.master_password@ != self.confirm_master_password@,
                Registration::Cancelled => {
                    &&& self.master_password@ == self.confirm_master_password@
                    &&& popup.exit_state == Some(InsertPwdExitState::Quit)
                },
                Registration::Create(config) => {
                    &&& self.master_password@ == self.confirm_master_password@
                    &&& popup.exit_state != Some(InsertPwdExitState::Quit)
                    &&& config.username@ == self.username@
                    &&& config.master_password@ == self.master_password@
                    &&& config.domain@ == popup.domain@
                    &&& config.password@ == popup.pwd@
                    &&& config.path@ == self.path@
                },
            },
    {
        if !self.passwords_match() {
            return Registration::Refused;
        }
        match popup.exit_state {
            Some(InsertPwdExitState::Quit) => Registration::Cancelled,
            _ => Registration::Create(
                RecordOperationConfig::new(
                    self.username.as_str(),
                    self.master_password.as_str(),
                    popup.domain.as_str(),
                    popup.pwd.as_str(),
                    self.path.as_str(),
                ),
            ),
        }
    }
}

} // verus!

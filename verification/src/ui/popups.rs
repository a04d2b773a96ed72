//! The popups that ask for a secret or a confirmation.

use vstd::prelude::*;
use crate::password::{generate_password, is_generated};
use crate::ui::components::without_last;
use crate::ui::keys::{key_char, type_into, typed, Key};

verus! {

/// The kinds of popup.
#[derive(Debug, Clone, Copy, PartialEq, Eq, Structural)]
pub enum PopupType {
    Exit,
    InsertPwd,
    InsertDomainPassword,
    Message,
    InsertMaster,
}

/// The popup that asks whether to quit.
#[derive(Debug, Clone, PartialEq)]
pub struct Exit {
    pub x_percent: u16,
    pub y_percent: u16,
}

impl Exit {
    /// The popup over half of the screen in each direction.
    pub fn new() -> (r: Self)
        ensures
            r.x_percent == 50,
            r.y_percent == 50,
    {
        Exit { x_percent: 50, y_percent: 50 }
    }
}

/// Which part of the popup for a new record has the focus.
#[derive(Debug, Clone, Copy, PartialEq, Eq, Structural)]
pub enum InsertPwdState {
    Domain,
    Pwd,
    Confirm,
    Quit,
}

/// How the popup for a new record was left.
#[derive(Debug, Clone, Copy, PartialEq, Eq, Structural)]
pub enum InsertPwdExitState {
    Confirm,
    Quit,
}

/// The popup that asks for the domain and password of a new record.
#[derive(Debug, Clone, PartialEq)]
pub struct InsertPwd {
    pub domain: String,
    pub pwd: String,
    pub state: InsertPwdState,
    pub exit_state: Option<InsertPwdExitState>,
    pub x_percent: u16,
    pub y_percent: u16,
}

impl InsertPwd {
    /// Whether everything but the two typed fields is as in `other`.
    pub open spec fn same_frame(&self, other: &InsertPwd) -> bool {
        &&& self.state == other.state
        &&& self.exit_state == other.exit_state
        &&& self.x_percent == other.x_percent
        &&& self.y_percent == other.y_percent
    }

    /// An empty popup with the focus on the domain.
    pub fn new() -> (r: Self)
        ensures
            r.domain@.len() == 0,
            r.pwd@.len() == 0,
            r.state == InsertPwdState::Domain,
            r.exit_state is None,
            r.x_percent == 40,
            r.y_percent == 20,
    {
        InsertPwd {
            domain: String::new(),
            pwd: String::new(),
            state: InsertPwdState::Domain,
            exit_state: None,
            x_percent: 40,
            y_percent: 20,
        }
    }

    /// The same input with the focus moved to `state`.
    pub fn copy_with_state(&self, state: InsertPwdState) -> (r: Self)
        ensures
            r.domain@ == self.domain@,
            r.pwd@ == self.pwd@,
            r.state == state,
            r.exit_state == self.exit_state,
            r.x_percent == self.x_percent,
            r.y_percent == self.y_percent,
    {
        InsertPwd {
            domain: self.domain.clone(),
            pwd: self.pwd.clone(),
            state,
            exit_state: self.exit_state,
            x_percent: self.x_percent,
            y_percent: self.y_percent,
        }
    }

    /// Types one character into the domain.
    pub fn domain_append(&mut self, c: char)
        ensures
            final(self).domain@ == old(self).domain@.push(c),
            final(self).pwd == old(self).pwd,
            final(self).same_frame(old(self)),
    {
        self.domain.push(c);
    }

    /// Types one character into the password.
    pub fn pwd_append(&mut self, c: char)
        ensures
            final(self).pwd@ == old(self).pwd@.push(c),
            final(self).domain == old(self).domain,
            final(self).same_frame(old(self)),
    {
        self.pwd.push(c);
    }

    /// Deletes the last character of the domain, if there is one.
    pub fn domain_pop(&mut self)
        ensures
            final(self).domain@ == without_last(old(self).domain@),
            final(self).pwd == old(self).pwd,
            final(self).same_frame(old(self)),
    {
        self.domain.pop();
    }

    /// Deletes the last character of the password, if there is one.
    pub fn pwd_pop(&mut self)
        ensures
            final(self).pwd@ == without_last(old(self).pwd@),
            final(self).domain == old(self).domain,
            final(self).same_frame(old(self)),
    {
        self.pwd.pop();
    }
}

/// Which part of the popup for a domain and password has the focus.
#[derive(Debug, Clone, Copy, PartialEq, Eq, Structural)]
pub enum InsertDomainPasswordState {
    Domain,
    Password,
    Confirm,
    Quit,
}

/// How the popup for a domain and password was left.
#[derive(Debug, Clone, Copy, PartialEq, Eq, Structural)]
pub enum InsertDomainPasswordExitState {
    Confirm,
    Quit,
}

/// The popup that asks for a domain and a password.
#[derive(Debug, Clone, PartialEq)]
pub struct InsertDomainPassword {
    pub domain: String,
    pub password: String,
    pub state: InsertDomainPasswordState,
    pub exit_state: Option<InsertDomainPasswordExitState>,
    pub x_percent: u16,
    pub y_percent: u16,
}

impl InsertDomainPassword {
    /// Whether everything but the two typed fields is as in `other`.
    pub open spec fn same_frame(&self, other: &InsertDomainPassword) -> bool {
        &&& self.state == other.state
        &&& self.exit_state == other.exit_state
        &&& self.x_percent == other.x_percent
        &&& self.y_percent == other.y_percent
    }

    /// An empty popup with the focus on the domain.
    pub fn new() -> (r: Self)
        ensures
            r.domain@.len() == 0,
            r.password@.len() == 0,
            r.state == InsertDomainPasswordState::Domain,
            r.exit_state is None,
            r.x_percent == 40,
            r.y_percent == 20,
    {
        InsertDomainPassword {
            domain: String::new(),
            password: String::new(),
            state: InsertDomainPasswordState::Domain,
            exit_state: None,
            x_percent: 40,
            y_percent: 20,
        }
    }

    /// Types one character into the domain.
    pub fn domain_append(&mut self, c: char)
        ensures
            final(self).domain@ == old(self).domain@.push(c),
            final(self).password == old(self).password,
            final(self).same_frame(old(self)),
    {
        self.domain.push(c);
    }

    /// Types one character into the password.
    pub fn password_append(&mut self, c: char)
        ensures
            final(self).password@ == old(self).password@.push(c),
            final(self).domain == old(self).domain,
            final(self).same_frame(old(self)),
    {
        self.password.push(c);
    }

    /// Deletes the last character of the domain, if there is one.
    pub fn domain_pop(&mut self)
        ensures
            final(self).domain@ == without_last(old(self).domain@),
            final(self).password == old(self).password,
            final(self).same_frame(old(self)),
    {
        self.domain.pop();
    }

    /// Deletes the last character of the password, if there is one.
    pub fn password_pop(&mut self)
        ensures
            final(self).password@ == without_last(old(self).password@),
            final(self).domain == old(self).domain,
            final(self).same_frame(old(self)),
    {
        self.password.pop();
    }
}

/// Which part of the popup for the master password has the focus.
#[derive(Debug, Clone, Copy, PartialEq, Eq, Structural)]
pub enum InsertMasterState {
    Master,
    Confirm,
    Quit,
}

/// How the popup for the master password was left.
#[derive(Debug, Clone, Copy, PartialEq, Eq, Structural)]
pub enum InsertMasterExitState {
    Confirm,
    Quit,
}

/// The popup that asks for the master password.
#[derive(Debug, Clone, PartialEq)]
pub struct InsertMaster {
    pub master: String,
    pub state: InsertMasterState,
    pub exit_state: Option<InsertMasterExitState>,
    pub x_percent: u16,
    pub y_percent: u16,
}

impl InsertMaster {
    /// An empty popup with the focus on the master password.
    pub fn new() -> (r: Self)
        ensures
            r.master@.len() == 0,
            r.state == InsertMasterState::Master,
            r.exit_state is None,
            r.x_percent == 40,
            r.y_percent == 20,
    {
        InsertMaster {
            master: String::new(),
            state: InsertMasterState::Master,
            exit_state: None,
            x_percent: 40,
            y_percent: 20,
        }
    }

    /// Types one character into the master password.
    pub fn master_append(&mut self, c: char)
        ensures
            final(self).master@ == old(self).master@.push(c),
            final(self).state == old(self).state,
            final(self).exit_state == old(self).exit_state,
            final(self).x_percent == old(self).x_percent,
            final(self).y_percent == old(self).y_percent,
    {
        self.master.push(c);
    }

    /// Deletes the last character of the master password, if there is one.
    pub fn master_pop(&mut self)
        ensures
            final(self).master@ == without_last(old(self).master@),
            final(self).state == old(self).state,
            final(self).exit_state == old(self).exit_state,
            final(self).x_percent == old(self).x_percent,
            final(self).y_percent == old(self).y_percent,
    {
        self.master.pop();
    }
}

/// What the program is to do with a popup after a key press.
#[derive(Debug, Clone, Copy, PartialEq, Eq, Structural)]
pub enum PopupOutcome {
    /// Keep the popup open.
    Stay,
    /// Take the popup away and look at how it was left.
    Closed,
}

impl Exit {
    /// The kind of this popup.
    pub fn popup_type(&self) -> (r: PopupType)
        ensures
            r == PopupType::Exit,
    {
        PopupType::Exit
    }

    /// Reacts to a key press. Returns whether the program is to end: the
    /// letter `q` ends it.
    pub fn handle_key(&self, key: Key) -> (quit: bool)
        ensures
            quit == (key_char(key) == Some('q')),
    {
        match key {
            Key::Char(c) => c == 'q',
            Key::Ctrl(c) => c == 'q',
            _ => false,
        }
    }
}

/// Where the focus of the popup for a new record is after a key press.
pub open spec fn insert_pwd_focus(state: InsertPwdState, key: Key) -> InsertPwdState {
    match (state, key) {
        (InsertPwdState::Domain, Key::Up) => InsertPwdState::Quit,
        (InsertPwdState::Domain, Key::Down) => InsertPwdState::Pwd,
        (InsertPwdState::Domain, Key::Tab) => InsertPwdState::Pwd,
        (InsertPwdState::Domain, Key::Enter) => InsertPwdState::Pwd,
        (InsertPwdState::Pwd, Key::Up) => InsertPwdState::Domain,
        (InsertPwdState::Pwd, Key::Down) => InsertPwdState::Quit,
        (InsertPwdState::Pwd, Key::Tab) => InsertPwdState::Quit,
        (InsertPwdState::Pwd, Key::Enter) => InsertPwdState::Quit,
        (InsertPwdState::Quit, Key::Up) => InsertPwdState::Pwd,
        (InsertPwdState::Quit, Key::Right) => InsertPwdState::Confirm,
        (InsertPwdState::Quit, Key::Tab) => InsertPwdState::Confirm,
        (InsertPwdState::Quit, Key::Left) => InsertPwdState::Confirm,
        (InsertPwdState::Quit, Key::Down) => InsertPwdState::Domain,
        (InsertPwdState::Confirm, Key::Left) => InsertPwdState::Quit,
        (InsertPwdState::Confirm, Key::Right) => InsertPwdState::Quit,
        (InsertPwdState::Confirm, Key::Down) => InsertPwdState::Domain,
        (InsertPwdState::Confirm, Key::Tab) => InsertPwdState::Domain,
        (InsertPwdState::Confirm, Key::Up) => InsertPwdState::Pwd,
        _ => state,
    }
}

/// How a key press leaves the popup for a new record, if it does: enter on one
/// of the two buttons.
pub open spec fn insert_pwd_exit(state: InsertPwdState, key: Key) -> Option<InsertPwdExitState> {
    match (state, key) {
        (InsertPwdState::Quit, Key::Enter) => Some(InsertPwdExitState::Quit),
        (InsertPwdState::Confirm, Key::Enter) => Some(InsertPwdExitState::Confirm),
        _ => None,
    }
}

impl InsertPwd {
    /// The kind of this popup.
    pub fn popup_type(&self) -> (r: PopupType)
        ensures
            r == PopupType::InsertPwd,
    {
        PopupType::InsertPwd
    }

    /// Reacts to a key press: the focused field takes what is typed, the
    /// letter `g` with the control key puts a generated password into the
    /// password field, and the other keys move the focus or press the
    /// focused button, which closes the popup.
    pub fn handle_key(&mut self, key: Key) -> (r: PopupOutcome)
        ensures
            r == (if insert_pwd_exit(old(self).state, key) is Some {
                PopupOutcome::Closed
            } else {
                PopupOutcome::Stay
            }),
            final(self).exit_state == (if insert_pwd_exit(old(self).state, key) is Some {
                insert_pwd_exit(old(self).state, key)
            } else {
                old(self).exit_state
            }),
            final(self).state == insert_pwd_focus(old(self).state, key),
            final(self).domain@ == (if old(self).state == InsertPwdState::Domain {
                typed(old(self).domain@, key)
            } else {
                old(self).domain@
            }),
            old(self).state != InsertPwdState::Pwd ==> final(self).pwd == old(self).pwd,
            old(self).state == InsertPwdState::Pwd && key != Key::Ctrl('g') ==> final(self).pwd@
                == typed(old(self).pwd@, key),
            old(self).state == InsertPwdState::Pwd && key == Key::Ctrl('g') ==> is_generated(
                final(self).pwd@,
            ),
            final(self).x_percent == old(self).x_percent,
            final(self).y_percent == old(self).y_percent,
    {
        match self.state {
            InsertPwdState::Domain => {
                type_into(&mut self.domain, key);
                match key {
                    Key::Up => {
                        self.state = InsertPwdState::Quit;
                    },
                    Key::Down | Key::Tab | Key::Enter => {
                        self.state = InsertPwdState::Pwd;
                    },
                    _ => {},
                }
                PopupOutcome::Stay
            },
            InsertPwdState::Pwd => {
                if key == Key::Ctrl('g') {
                    self.pwd = generate_password();
                } else {
                    type_into(&mut self.pwd, key);
                }
                match key {
                    Key::Up => {
                        self.state = InsertPwdState::Domain;
                    },
                    Key::Down | Key::Tab | Key::Enter => {
                        self.state = InsertPwdState::Quit;
                    },
                    _ => {},
                }
                PopupOutcome::Stay
            },
            InsertPwdState::Quit => match key {
                Key::Enter => {
                    self.exit_state = Some(InsertPwdExitState::Quit);
                    PopupOutcome::Closed
                },
                Key::Up => {
                    self.state = InsertPwdState::Pwd;
                    PopupOutcome::Stay
                },
                Key::Right | Key::Tab | Key::Left => {
                    self.state = InsertPwdState::Confirm;
                    PopupOutcome::Stay
                },
                Key::Down => {
                    self.state = InsertPwdState::Domain;
                    PopupOutcome::Stay
                },
                _ => PopupOutcome::Stay,
            },
            InsertPwdState::Confirm => match key {
                Key::Enter => {
                    self.exit_state = Some(InsertPwdExitState::Confirm);
                    PopupOutcome::Closed
                },
                Key::Left | Key::Right => {
                    self.state = InsertPwdState::Quit;
                    PopupOutcome::Stay
                },
                Key::Down | Key::Tab => {
                    self.state = InsertPwdState::Domain;
                    PopupOutcome::Stay
                },
                Key::Up => {
                    self.state = InsertPwdState::Pwd;
                    PopupOutcome::Stay
                },
                _ => PopupOutcome::Stay,
            },
        }
    }
}

/// Where the focus of the popup for a domain and password is after a key press.
pub open spec fn insert_pair_focus(state: InsertDomainPasswordState, key: Key) -> InsertDomainPasswordState {
    match (state, key) {
        (InsertDomainPasswordState::Domain, Key::Up) => InsertDomainPasswordState::Quit,
        (InsertDomainPasswordState::Domain, Key::Down) => InsertDomainPasswordState::Password,
        (InsertDomainPasswordState::Domain, Key::Tab) => InsertDomainPasswordState::Password,
        (InsertDomainPasswordState::Domain, Key::Enter) => InsertDomainPasswordState::Password,
        (InsertDomainPasswordState::Password, Key::Up) => InsertDomainPasswordState::Domain,
        (InsertDomainPasswordState::Password, Key::Down) => InsertDomainPasswordState::Quit,
        (InsertDomainPasswordState::Password, Key::Tab) => InsertDomainPasswordState::Quit,
        (InsertDomainPasswordState::Password, Key::Enter) => InsertDomainPasswordState::Quit,
        (InsertDomainPasswordState::Quit, Key::Up) => InsertDomainPasswordState::Password,
        (InsertDomainPasswordState::Quit, Key::Right) => InsertDomainPasswordState::Confirm,
        (InsertDomainPasswordState::Quit, Key::Tab) => InsertDomainPasswordState::Confirm,
        (InsertDomainPasswordState::Quit, Key::Left) => InsertDomainPasswordState::Confirm,
        (InsertDomainPasswordState::Quit, Key::Down) => InsertDomainPasswordState::Domain,
        (InsertDomainPasswordState::Confirm, Key::Left) => InsertDomainPasswordState::Quit,
        (InsertDomainPasswordState::Confirm, Key::Right) => InsertDomainPasswordState::Quit,
        (InsertDomainPasswordState::Confirm, Key::Down) => InsertDomainPasswordState::Domain,
        (InsertDomainPasswordState::Confirm, Key::Tab) => InsertDomainPasswordState::Domain,
        (InsertDomainPasswordState::Confirm, Key::Up) => InsertDomainPasswordState::Password,
        _ => state,
    }
}

/// How a key press leaves the popup for a domain and password, if it does: enter on one
/// of the two buttons.
pub open spec fn insert_pair_exit(state: InsertDomainPasswordState, key: Key) -> Option<InsertDomainPasswordExitState> {
    match (state, key) {
        (InsertDomainPasswordState::Quit, Key::Enter) => Some(InsertDomainPasswordExitState::Quit),
        (InsertDomainPasswordState::Confirm, Key::Enter) => Some(InsertDomainPasswordExitState::Confirm),
        _ => None,
    }
}

impl InsertDomainPassword {
    /// The kind of this popup.
    pub fn popup_type(&self) -> (r: PopupType)
        ensures
            r == PopupType::InsertDomainPassword,
    {
        PopupType::InsertDomainPassword
    }

    /// Reacts to a key press: the focused field takes what is typed, the
    /// letter `g` with the control key puts a generated password into the
    /// password field, and the other keys move the focus or press the
    /// focused button, which closes the popup.
    pub fn handle_key(&mut self, key: Key) -> (r: PopupOutcome)
        ensures
            r == (if insert_pair_exit(old(self).state, key) is Some {
                PopupOutcome::Closed
            } else {
                PopupOutcome::Stay
            }),
            final(self).exit_state == (if insert_pair_exit(old(self).state, key) is Some {
                insert_pair_exit(old(self).state, key)
            } else {
                old(self).exit_state
            }),
            final(self).state == insert_pair_focus(old(self).state, key),
            final(self).domain@ == (if old(self).state == InsertDomainPasswordState::Domain {
                typed(old(self).domain@, key)
            } else {
                old(self).domain@
            }),
            old(self).state != InsertDomainPasswordState::Password ==> final(self).password == old(self).password,
            old(self).state == InsertDomainPasswordState::Password && key != Key::Ctrl('g') ==> final(self).password@
                == typed(old(self).password@, key),
            old(self).state == InsertDomainPasswordState::Password && key == Key::Ctrl('g') ==> is_generated(
                final(self).password@,
            ),
            final(self).x_percent == old(self).x_percent,
            final(self).y_percent == old(self).y_percent,
    {
        match self.state {
            InsertDomainPasswordState::Domain => {
                type_into(&mut self.domain, key);
                match key {
                    Key::Up => {
                        self.state = InsertDomainPasswordState::Quit;
                    },
                    Key::Down | Key::Tab | Key::Enter => {
                        self.state = InsertDomainPasswordState::Password;
                    },
                    _ => {},
                }
                PopupOutcome::Stay
            },
            InsertDomainPasswordState::Password => {
                if key == Key::Ctrl('g') {
                    self.password = generate_password();
                } else {
                    type_into(&mut self.password, key);
                }
                match key {
                    Key::Up => {
                        self.state = InsertDomainPasswordState::Domain;
                    },
                    Key::Down | Key::Tab | Key::Enter => {
                        self.state = InsertDomainPasswordState::Quit;
                    },
                    _ => {},
                }
                PopupOutcome::Stay
            },
            InsertDomainPasswordState::Quit => match key {
                Key::Enter => {
                    self.exit_state = Some(InsertDomainPasswordExitState::Quit);
                    PopupOutcome::Closed
                },
                Key::Up => {
                    self.state = InsertDomainPasswordState::Password;
                    PopupOutcome::Stay
                },
                Key::Right | Key::Tab | Key::Left => {
                    self.state = InsertDomainPasswordState::Confirm;
                    PopupOutcome::Stay
                },
                Key::Down => {
                    self.state = InsertDomainPasswordState::Domain;
                    PopupOutcome::Stay
                },
                _ => PopupOutcome::Stay,
            },
            InsertDomainPasswordState::Confirm => match key {
                Key::Enter => {
                    self.exit_state = Some(InsertDomainPasswordExitState::Confirm);
                    PopupOutcome::Closed
                },
                Key::Left | Key::Right => {
                    self.state = InsertDomainPasswordState::Quit;
                    PopupOutcome::Stay
                },
                Key::Down | Key::Tab => {
                    self.state = InsertDomainPasswordState::Domain;
                    PopupOutcome::Stay
                },
                Key::Up => {
                    self.state = InsertDomainPasswordState::Password;
                    PopupOutcome::Stay
                },
                _ => PopupOutcome::Stay,
            },
        }
    }
}

/// Where the focus of the popup for the master password is after a key
/// press.
pub open spec fn insert_master_focus(state: InsertMasterState, key: Key) -> InsertMasterState {
    match (state, key) {
        (InsertMasterState::Master, Key::Down) => InsertMasterState::Quit,
        (InsertMasterState::Master, Key::Tab) => InsertMasterState::Quit,
        (InsertMasterState::Master, Key::Enter) => InsertMasterState::Quit,
        (InsertMasterState::Master, Key::Up) => InsertMasterState::Quit,
        (InsertMasterState::Quit, Key::Up) => InsertMasterState::Master,
        (InsertMasterState::Quit, Key::Down) => InsertMasterState::Master,
        (InsertMasterState::Quit, Key::Right) => InsertMasterState::Confirm,
        (InsertMasterState::Quit, Key::Tab) => InsertMasterState::Confirm,
        (InsertMasterState::Quit, Key::Left) => InsertMasterState::Confirm,
        (InsertMasterState::Confirm, Key::Left) => InsertMasterState::Quit,
        (InsertMasterState::Confirm, Key::Right) => InsertMasterState::Quit,
        (InsertMasterState::Confirm, Key::Down) => InsertMasterState::Master,
        (InsertMasterState::Confirm, Key::Tab) => InsertMasterState::Master,
        (InsertMasterState::Confirm, Key::Up) => InsertMasterState::Master,
        _ => state,
    }
}

/// How a key press leaves the popup for the master password, if it does:
/// enter on one of the two buttons.
pub open spec fn insert_master_exit(state: InsertMasterState, key: Key) -> Option<
    InsertMasterExitState,
> {
    match (state, key) {
        (InsertMasterState::Quit, Key::Enter) => Some(InsertMasterExitState::Quit),
        (InsertMasterState::Confirm, Key::Enter) => Some(InsertMasterExitState::Confirm),
        _ => None,
    }
}

impl InsertMaster {
    /// The kind of this popup.
    pub fn popup_type(&self) -> (r: PopupType)
        ensures
            r == PopupType::InsertMaster,
    {
        PopupType::InsertMaster
    }

    /// Reacts to a key press: the master password takes what is typed
    /// while it has the focus, and the other keys move the focus or press
    /// the focused button, which closes the popup.
    pub fn handle_key(&mut self, key: Key) -> (r: PopupOutcome)
        ensures
            r == (if insert_master_exit(old(self).state, key) is Some {
                PopupOutcome::Closed
            } else {
                PopupOutcome::Stay
            }),
            final(self).exit_state == (if insert_master_exit(old(self).state, key) is Some {
                insert_master_exit(old(self).state, key)
            } else {
                old(self).exit_state
            }),
            final(self).state == insert_master_focus(old(self).state, key),
            final(self).master@ == (if old(self).state == InsertMasterState::Master {
                typed(old(self).master@, key)
            } else {
                old(self).master@
            }),
            final(self).x_percent == old(self).x_percent,
            final(self).y_percent == old(self).y_percent,
    {
        match self.state {
            InsertMasterState::Master => {
                type_into(&mut self.master, key);
                match key {
                    Key::Down | Key::Tab | Key::Enter | Key::Up => {
                        self.state = InsertMasterState::Quit;
                    },
                    _ => {},
                }
                PopupOutcome::Stay
            },
            InsertMasterState::Quit => match key {
                Key::Enter => {
                    self.exit_state = Some(InsertMasterExitState::Quit);
                    PopupOutcome::Closed
                },
                Key::Up | Key::Down => {
                    self.state = InsertMasterState::Master;
                    PopupOutcome::Stay
                },
                Key::Right | Key::Tab | Key::Left => {
                    self.state = InsertMasterState::Confirm;
                    PopupOutcome::Stay
                },
                _ => PopupOutcome::Stay,
            },
            InsertMasterState::Confirm => match key {
                Key::Enter => {
                    self.exit_state = Some(InsertMasterExitState::Confirm);
                    PopupOutcome::Closed
                },
                Key::Left | Key::Right => {
                    self.state = InsertMasterState::Quit;
                    PopupOutcome::Stay
                },
                Key::Down | Key::Tab | Key::Up => {
                    self.state = InsertMasterState::Master;
                    PopupOutcome::Stay
                },
                _ => PopupOutcome::Stay,
            },
        }
    }
}

/// The popup that shows a message until a key is pressed.
#[derive(Debug, Clone, PartialEq)]
pub struct MessagePopup {
    pub message: String,
}

impl MessagePopup {
    /// A popup with a message.
    pub fn new(message: String) -> (r: Self)
        ensures
            r.message == message,
    {
        MessagePopup { message }
    }

    /// The kind of this popup.
    pub fn popup_type(&self) -> (r: PopupType)
        ensures
            r == PopupType::Message,
    {
        PopupType::Message
    }

    /// Reacts to a key press: any key closes the popup.
    pub fn handle_key(&self, key: Key) -> (r: PopupOutcome)
        ensures
            r == PopupOutcome::Closed,
    {
        PopupOutcome::Closed
    }
}

} // verus!

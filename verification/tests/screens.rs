use krab::ui::components::{hidden_value, ButtonConfig, InputConfig};
use krab::ui::keys::Key;
use krab::ui::login::{Login, LoginOutcome, LoginState};
use krab::ui::popups::{
    Exit, InsertDomainPassword, InsertDomainPasswordExitState, InsertDomainPasswordState,
    InsertMaster, InsertMasterExitState, InsertMasterState, InsertPwd, InsertPwdExitState,
    InsertPwdState, MessagePopup, PopupOutcome, PopupType,
};
use krab::ui::register::{Register, RegisterOutcome, RegisterState, Registration};
use krab::ui::startup::{StartUp, StartUpOutcome, StartUpState};

#[test]
fn login_fields_take_and_lose_characters() {
    let mut login = Login::new(&"/data".to_string());
    assert_eq!(login.username, "");
    assert_eq!(login.master_password, "");
    assert_eq!(login.state, LoginState::Username);
    assert_eq!(login.path, "/data");
    login.username_pop();
    assert_eq!(login.username, "");
    login.username_append('a');
    login.username_append('b');
    login.master_password_append('x');
    login.master_password_append('y');
    assert_eq!(login.username, "ab");
    assert_eq!(login.master_password, "xy");
    login.username_pop();
    login.master_password_pop();
    assert_eq!(login.username, "a");
    assert_eq!(login.master_password, "x");
    let moved = login.copy_with_state(LoginState::Confirm);
    assert_eq!(moved.state, LoginState::Confirm);
    assert_eq!(moved.username, "a");
    assert_eq!(moved.master_password, "x");
    assert_eq!(moved.path, "/data");
}

#[test]
fn register_fields_take_and_lose_characters() {
    let mut register = Register::new(&"/data".to_string());
    assert_eq!(register.state, RegisterState::Username);
    assert_eq!(register.path, "/data");
    register.username_append('u');
    register.master_password_append('m');
    register.master_password_append('n');
    register.confirm_master_password_append('c');
    assert_eq!(register.username, "u");
    assert_eq!(register.master_password, "mn");
    assert_eq!(register.confirm_master_password, "c");
    register.username_pop();
    register.username_pop();
    register.master_password_pop();
    register.confirm_master_password_pop();
    assert_eq!(register.username, "");
    assert_eq!(register.master_password, "m");
    assert_eq!(register.confirm_master_password, "");
    let moved = register.copy_with_state(RegisterState::Quit);
    assert_eq!(moved.state, RegisterState::Quit);
    assert_eq!(moved.master_password, "m");
    assert_eq!(moved.domain, "");
    assert_eq!(moved.pwd, "");
}

#[test]
fn startup_starts_on_login() {
    assert_eq!(StartUp::new().state, StartUpState::Login);
    assert_eq!(StartUp::new_with_state(StartUpState::Quit).state, StartUpState::Quit);
}

#[test]
fn popups_start_empty() {
    let exit = Exit::new();
    assert_eq!((exit.x_percent, exit.y_percent), (50, 50));
    let mut insert = InsertPwd::new();
    assert_eq!(insert.state, InsertPwdState::Domain);
    assert_eq!(insert.exit_state, None);
    assert_eq!((insert.x_percent, insert.y_percent), (40, 20));
    insert.domain_append('d');
    insert.pwd_append('p');
    insert.pwd_append('q');
    insert.pwd_pop();
    assert_eq!(insert.domain, "d");
    assert_eq!(insert.pwd, "p");
    insert.domain_pop();
    insert.domain_pop();
    assert_eq!(insert.domain, "");
    let moved = insert.copy_with_state(InsertPwdState::Pwd);
    assert_eq!(moved.state, InsertPwdState::Pwd);
    assert_eq!(moved.pwd, "p");

    let mut pair = InsertDomainPassword::new();
    assert_eq!(pair.state, InsertDomainPasswordState::Domain);
    pair.domain_append('d');
    pair.domain_append('e');
    pair.password_append('p');
    pair.domain_pop();
    pair.password_pop();
    pair.password_pop();
    assert_eq!(pair.domain, "d");
    assert_eq!(pair.password, "");

    let mut master = InsertMaster::new();
    assert_eq!(master.state, InsertMasterState::Master);
    assert_eq!(master.exit_state, None);
    master.master_append('m');
    master.master_append('n');
    master.master_pop();
    assert_eq!(master.master, "m");
}

#[test]
fn components_have_fixed_sizes() {
    assert_eq!(ButtonConfig::height(), 3);
    assert_eq!(InputConfig::height(), 3);
    assert_eq!(InputConfig::width(), 36);
    let button = ButtonConfig::new(true, "Login".to_string());
    assert!(button.focused);
    assert_eq!(button.title, "Login");
    let input = InputConfig::new(false, "abc".to_string(), true, "Password".to_string(), Some(2));
    assert!(!input.focused);
    assert!(input.hidden);
    assert_eq!(input.value, "abc");
    assert_eq!(input.title, "Password");
    assert_eq!(input.cursor_position, Some(2));
}

#[test]
fn hidden_value_shows_bullets() {
    let line = hidden_value("example.com".to_string());
    let bullets: String = std::iter::repeat('\u{2022}').take(32).collect();
    assert_eq!(line, format!("  example.com : {}", bullets));
}

#[test]
fn login_keys_type_and_move_the_focus() {
    let mut login = Login::new(&"/data".to_string());
    assert_eq!(login.handle_key(Key::Char('a')), LoginOutcome::Stay);
    assert_eq!(login.handle_key(Key::Char('b')), LoginOutcome::Stay);
    assert_eq!(login.handle_key(Key::Backspace), LoginOutcome::Stay);
    assert_eq!(login.username, "a");
    assert_eq!(login.state, LoginState::Username);
    assert_eq!(login.handle_key(Key::Enter), LoginOutcome::Stay);
    assert_eq!(login.state, LoginState::MasterPassword);
    login.handle_key(Key::Char('x'));
    assert_eq!(login.master_password, "x");
    assert_eq!(login.username, "a");
    login.handle_key(Key::Tab);
    assert_eq!(login.state, LoginState::Quit);
    login.handle_key(Key::Char('z'));
    assert_eq!((login.username.as_str(), login.master_password.as_str()), ("a", "x"));
    login.handle_key(Key::Left);
    assert_eq!(login.state, LoginState::Confirm);
    assert_eq!(login.handle_key(Key::Enter), LoginOutcome::Submit);
    assert_eq!(login.state, LoginState::Confirm);
    login.handle_key(Key::Right);
    assert_eq!(login.state, LoginState::Quit);
    assert_eq!(login.handle_key(Key::Enter), LoginOutcome::Leave);
    login.handle_key(Key::Down);
    assert_eq!(login.state, LoginState::Username);
    login.handle_key(Key::Up);
    assert_eq!(login.state, LoginState::Confirm);
    login.handle_key(Key::Up);
    assert_eq!(login.state, LoginState::MasterPassword);
    login.handle_key(Key::Other);
    assert_eq!(login.state, LoginState::MasterPassword);
}

#[test]
fn register_keys_type_and_move_the_focus() {
    let mut register = Register::new(&"/data".to_string());
    register.handle_key(Key::Char('u'));
    register.handle_key(Key::Down);
    register.handle_key(Key::Char('m'));
    register.handle_key(Key::Enter);
    assert_eq!(register.state, RegisterState::ConfirmMasterPassword);
    register.handle_key(Key::Char('m'));
    assert!(register.passwords_match());
    register.handle_key(Key::Char('n'));
    assert!(!register.passwords_match());
    register.handle_key(Key::Backspace);
    assert_eq!(register.username, "u");
    assert_eq!(register.master_password, "m");
    assert_eq!(register.confirm_master_password, "m");
    register.handle_key(Key::Tab);
    assert_eq!(register.state, RegisterState::Quit);
    assert_eq!(register.handle_key(Key::Tab), RegisterOutcome::Stay);
    assert_eq!(register.state, RegisterState::Confirm);
    assert_eq!(register.handle_key(Key::Enter), RegisterOutcome::AskFirstRecord);
    register.handle_key(Key::Up);
    assert_eq!(register.state, RegisterState::ConfirmMasterPassword);
    register.handle_key(Key::Up);
    register.handle_key(Key::Up);
    register.handle_key(Key::Up);
    assert_eq!(register.state, RegisterState::Confirm);
    register.handle_key(Key::Left);
    assert_eq!(register.handle_key(Key::Enter), RegisterOutcome::Leave);
}

#[test]
fn startup_keys_walk_the_buttons() {
    let mut startup = StartUp::new();
    assert_eq!(startup.handle_key(Key::Enter), StartUpOutcome::OpenLogin);
    assert_eq!(startup.handle_key(Key::Char('j')), StartUpOutcome::Stay);
    assert_eq!(startup.state, StartUpState::Register);
    assert_eq!(startup.handle_key(Key::Enter), StartUpOutcome::OpenRegister);
    startup.handle_key(Key::Tab);
    assert_eq!(startup.state, StartUpState::Quit);
    assert_eq!(startup.handle_key(Key::Enter), StartUpOutcome::Quit);
    startup.handle_key(Key::Down);
    assert_eq!(startup.state, StartUpState::Login);
    startup.handle_key(Key::Up);
    assert_eq!(startup.state, StartUpState::Quit);
    startup.handle_key(Key::Char('k'));
    assert_eq!(startup.state, StartUpState::Register);
    assert_eq!(startup.handle_key(Key::Char('q')), StartUpOutcome::Quit);
    assert_eq!(startup.state, StartUpState::Register);
    assert_eq!(startup.handle_key(Key::Char('x')), StartUpOutcome::Stay);
    assert_eq!(startup.state, StartUpState::Register);
}

#[test]
fn popup_keys_type_generate_and_close() {
    let mut popup = InsertDomainPassword::new();
    popup.handle_key(Key::Char('d'));
    popup.handle_key(Key::Ctrl('g'));
    assert_eq!(popup.domain, "dg");
    popup.handle_key(Key::Enter);
    assert_eq!(popup.state, InsertDomainPasswordState::Password);
    popup.handle_key(Key::Char('g'));
    popup.handle_key(Key::Char('h'));
    popup.handle_key(Key::Backspace);
    assert_eq!(popup.password, "g");
    popup.handle_key(Key::Ctrl('g'));
    assert_eq!(popup.password.chars().count(), 16);
    popup.handle_key(Key::Down);
    assert_eq!(popup.state, InsertDomainPasswordState::Quit);
    popup.handle_key(Key::Tab);
    assert_eq!(popup.state, InsertDomainPasswordState::Confirm);
    assert_eq!(popup.exit_state, None);
    assert_eq!(popup.handle_key(Key::Enter), PopupOutcome::Closed);
    assert_eq!(popup.exit_state, Some(InsertDomainPasswordExitState::Confirm));

    let mut insert = InsertPwd::new();
    insert.handle_key(Key::Up);
    assert_eq!(insert.state, InsertPwdState::Quit);
    assert_eq!(insert.handle_key(Key::Enter), PopupOutcome::Closed);
    assert_eq!(insert.exit_state, Some(InsertPwdExitState::Quit));

    let mut master = InsertMaster::new();
    master.handle_key(Key::Char('m'));
    assert_eq!(master.handle_key(Key::Up), PopupOutcome::Stay);
    assert_eq!(master.state, InsertMasterState::Quit);
    master.handle_key(Key::Left);
    assert_eq!(master.state, InsertMasterState::Confirm);
    assert_eq!(master.handle_key(Key::Enter), PopupOutcome::Closed);
    assert_eq!(master.exit_state, Some(InsertMasterExitState::Confirm));
    assert_eq!(master.master, "m");

    let exit = Exit::new();
    assert!(exit.handle_key(Key::Char('q')));
    assert!(!exit.handle_key(Key::Enter));
    assert_eq!(exit.popup_type(), PopupType::Exit);
    assert_eq!(insert.popup_type(), PopupType::InsertPwd);
    assert_eq!(popup.popup_type(), PopupType::InsertDomainPassword);
    assert_eq!(master.popup_type(), PopupType::InsertMaster);
    let message = MessagePopup::new("Cannot login".to_string());
    assert_eq!(message.message, "Cannot login");
    assert_eq!(message.popup_type(), PopupType::Message);
    assert_eq!(message.handle_key(Key::Other), PopupOutcome::Closed);
}

#[test]
fn registration_needs_matching_passwords_and_a_confirmed_popup() {
    let mut register = Register::new(&"/data".to_string());
    register.username_append('u');
    register.master_password_append('m');
    let mut popup = InsertPwd::new();
    popup.domain_append('d');
    popup.pwd_append('p');
    assert_eq!(register.registration(&popup), Registration::Refused);
    register.confirm_master_password_append('m');
    assert_eq!(
        register.registration(&popup),
        Registration::Create(krab::models::RecordOperationConfig::new("u", "m", "d", "p", "/data"))
    );
    popup.exit_state = Some(InsertPwdExitState::Confirm);
    assert!(matches!(register.registration(&popup), Registration::Create(_)));
    popup.exit_state = Some(InsertPwdExitState::Quit);
    assert_eq!(register.registration(&popup), Registration::Cancelled);
}

use krab::models::RecordOperationConfig;
use krab::ui::components::{Input, InputConfig};
use krab::ui::home::{
    Home, HomeOutcome, MasterDecision, Operation, Position, RecordDecision, ScrollView,
};
use krab::ui::keys::Key;
use krab::ui::popups::{InsertMaster, InsertMasterExitState, InsertPwd, InsertPwdExitState};
use krab::user::{ReadOnlyRecords, User, Username};

fn home_with(count: usize) -> Home {
    let mut pairs = Vec::new();
    for i in 0..count {
        pairs.push((format!("domain{}", i), format!("pw{}", i)));
    }
    let user = User(Vec::new(), "/data".to_string(), Username("krab-user".to_string()));
    Home::new(user, &ReadOnlyRecords(pairs), Position::default(), 100, 30).unwrap()
}

#[test]
fn home_starts_at_the_top() {
    let home = home_with(3);
    assert_eq!(home.secrets.selected_secret, 0);
    assert_eq!(home.secrets.shown_secrets, Vec::<usize>::new());
    assert_eq!(home.position, Position { offset_x: 0, offset_y: 0 });
    assert_eq!(home.operation, None);
    assert_eq!(home.new_secret, None);
    assert_eq!(home.width(), 75);
    let wide = Home::new(
        User(Vec::new(), "/data".to_string(), Username("u".to_string())),
        &ReadOnlyRecords(Vec::new()),
        Position::default(),
        200,
        30,
    )
    .unwrap();
    assert_eq!(wide.width(), 100);
}

#[test]
fn selection_walks_down_and_up_and_scrolls() {
    let mut home = home_with(4);
    assert_eq!(home.handle_key(Key::Char('j'), 6, 80), HomeOutcome::Stay);
    assert_eq!((home.secrets.selected_secret, home.position.offset_y), (1, 0));
    home.handle_key(Key::Char('j'), 6, 80);
    assert_eq!((home.secrets.selected_secret, home.position.offset_y), (2, 4));
    home.handle_key(Key::Char('j'), 6, 80);
    assert_eq!((home.secrets.selected_secret, home.position.offset_y), (3, 8));
    home.handle_key(Key::Char('j'), 6, 80);
    assert_eq!((home.secrets.selected_secret, home.position.offset_y), (3, 12));
    home.handle_key(Key::Char('k'), 6, 80);
    assert_eq!((home.secrets.selected_secret, home.position.offset_y), (2, 8));
    home.handle_key(Key::Char('k'), 6, 80);
    assert_eq!((home.secrets.selected_secret, home.position.offset_y), (1, 4));
    home.handle_key(Key::Char('k'), 6, 80);
    assert_eq!((home.secrets.selected_secret, home.position.offset_y), (0, 0));
    home.scroll_to_bottom(30);
    assert_eq!((home.secrets.selected_secret, home.position.offset_y), (3, 0));
    home.up();
    assert_eq!((home.secrets.selected_secret, home.position.offset_y), (2, 0));
    home.scroll_to_top();
    assert_eq!(home.secrets.selected_secret, 0);
}

#[test]
fn empty_list_stays_as_it_is() {
    let mut home = home_with(0);
    let before = home.clone();
    home.handle_key(Key::Char('j'), 6, 80);
    home.handle_key(Key::Char('k'), 6, 80);
    home.handle_key(Key::Enter, 6, 80);
    assert_eq!(home, before);
}

#[test]
fn enter_shows_and_hides_the_selected_secret() {
    let mut home = home_with(3);
    home.handle_key(Key::Enter, 6, 80);
    home.handle_key(Key::Char('j'), 6, 80);
    home.handle_key(Key::Enter, 6, 80);
    assert_eq!(home.secrets.shown_secrets, vec![0, 1]);
    home.handle_key(Key::Char('k'), 6, 80);
    home.handle_key(Key::Enter, 6, 80);
    assert_eq!(home.secrets.shown_secrets, vec![1]);
    home.secrets.shown_secrets = vec![0, 1, 0, 2];
    home.toggle_shown_secret();
    assert_eq!(home.secrets.shown_secrets, vec![1, 2]);
}

#[test]
fn sideways_scrolling_stops_at_the_edges() {
    let mut home = home_with(1);
    home.handle_key(Key::Char('h'), 6, 80);
    assert_eq!(home.position.offset_x, 0);
    home.handle_key(Key::Char('l'), 6, 80);
    home.handle_key(Key::Char('l'), 6, 80);
    assert_eq!(home.position.offset_x, 2);
    home.handle_key(Key::Char('h'), 6, 80);
    assert_eq!(home.position.offset_x, 1);
    home.position.offset_x = 3;
    home.handle_key(Key::Char('l'), 6, 80);
    assert_eq!(home.position.offset_x, 4);
    home.handle_key(Key::Char('l'), 6, 80);
    assert_eq!(home.position.offset_x, 4);
    assert!(!ScrollView::check_if_width_out_of_bounds(&Position { offset_x: 3, offset_y: 0 }, 79, 80));
    assert!(ScrollView::check_if_width_out_of_bounds(&Position { offset_x: 4, offset_y: 0 }, 79, 80));
    assert!(!ScrollView::check_if_width_out_of_bounds(&Position { offset_x: 0, offset_y: 0 }, 0, 3));
}

#[test]
fn letters_begin_operations_and_leave() {
    let mut home = home_with(2);
    assert_eq!(home.handle_key(Key::Char('a'), 6, 80), HomeOutcome::AskRecord);
    assert_eq!(home.operation, Some(Operation::Add));
    assert_eq!(home.handle_key(Key::Char('d'), 6, 80), HomeOutcome::AskMaster);
    assert_eq!(home.operation, Some(Operation::Remove));
    assert_eq!(home.handle_key(Key::Char('q'), 6, 80), HomeOutcome::Leave);
    assert_eq!(home.handle_key(Key::Tab, 6, 80), HomeOutcome::Stay);
    assert_eq!(home.operation, Some(Operation::Remove));
}

#[test]
fn closed_popups_decide_what_follows() {
    let mut home = home_with(2);
    home.handle_key(Key::Char('a'), 6, 80);
    let mut record = InsertPwd::new();
    record.exit_state = Some(InsertPwdExitState::Quit);
    assert_eq!(home.after_record_popup(&record), RecordDecision::Nothing);
    record.exit_state = Some(InsertPwdExitState::Confirm);
    record.domain_append('d');
    assert_eq!(home.after_record_popup(&record), RecordDecision::Refused);
    assert_eq!(home.new_secret, None);
    record.pwd_append('p');
    assert_eq!(home.after_record_popup(&record), RecordDecision::AskMaster);

    let mut master = InsertMaster::new();
    master.exit_state = Some(InsertMasterExitState::Confirm);
    assert_eq!(home.after_master_popup(&master, "/data"), MasterDecision::Refused);
    master.master_append('m');
    assert_eq!(
        home.after_master_popup(&master, "/data"),
        MasterDecision::Add(RecordOperationConfig::new("krab-user", "m", "d", "p", "/data"))
    );
    home.handle_key(Key::Char('j'), 6, 80);
    home.handle_key(Key::Char('d'), 6, 80);
    assert_eq!(
        home.after_master_popup(&master, "/data"),
        MasterDecision::Remove(RecordOperationConfig::new("krab-user", "m", "domain1", "", "/data"))
    );
    master.exit_state = Some(InsertMasterExitState::Quit);
    assert_eq!(home.after_master_popup(&master, "/data"), MasterDecision::Nothing);
}

#[test]
fn refresh_keeps_the_selection_in_the_list() {
    let mut home = home_with(3);
    home.handle_key(Key::Char('j'), 6, 80);
    home.handle_key(Key::Char('j'), 6, 80);
    home.handle_key(Key::Enter, 6, 80);
    let user = home.user.clone();
    let two = ReadOnlyRecords(vec![("a".to_string(), "b".to_string()); 2]);
    assert!(home.refresh(user.clone(), &two));
    assert_eq!(home.secrets.secrets.len(), 2);
    assert_eq!((home.secrets.selected_secret, home.position.offset_y), (0, 0));
    assert_eq!(home.secrets.shown_secrets, vec![2]);
    home.handle_key(Key::Char('j'), 6, 80);
    let three = ReadOnlyRecords(vec![("a".to_string(), "b".to_string()); 3]);
    assert!(home.refresh(user, &three));
    assert_eq!(home.secrets.selected_secret, 1);
}

#[test]
fn input_field_edits_at_the_cursor() {
    let at = |cursor| InputConfig::new(true, String::new(), false, "Title".to_string(), cursor);
    assert_eq!(Input::handle_key(Key::Char('x'), &at(Some(1)), "abc".to_string()), ("axbc".to_string(), 2));
    assert_eq!(Input::handle_key(Key::Char('x'), &at(None), "abc".to_string()), ("abcx".to_string(), 4));
    assert_eq!(Input::handle_key(Key::Backspace, &at(Some(2)), "abc".to_string()), ("ac".to_string(), 1));
    assert_eq!(Input::handle_key(Key::Backspace, &at(Some(0)), "abc".to_string()), ("abc".to_string(), 0));
    assert_eq!(Input::handle_key(Key::Delete, &at(Some(1)), "abc".to_string()), ("ac".to_string(), 1));
    assert_eq!(Input::handle_key(Key::Delete, &at(Some(3)), "abc".to_string()), ("abc".to_string(), 3));
    assert_eq!(Input::handle_key(Key::Left, &at(Some(2)), "abc".to_string()), ("abc".to_string(), 1));
    assert_eq!(Input::handle_key(Key::Left, &at(Some(0)), "abc".to_string()), ("abc".to_string(), 0));
    assert_eq!(Input::handle_key(Key::Right, &at(Some(2)), "abc".to_string()), ("abc".to_string(), 3));
    assert_eq!(Input::handle_key(Key::Right, &at(Some(3)), "abc".to_string()), ("abc".to_string(), 3));
    assert_eq!(Input::handle_key(Key::Enter, &at(Some(3)), "abc".to_string()), ("abc".to_string(), 3));
    let full = "x".repeat(32);
    assert_eq!(Input::handle_key(Key::Char('y'), &at(Some(4)), full.clone()), (full, 4));
}

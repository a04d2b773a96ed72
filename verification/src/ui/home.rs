//! The home screen: the list of a user's secrets, which one is selected,
//! which ones are shown in clear, how far the list is scrolled, and what a
//! key press or a closed popup asks of the program.

use vstd::prelude::*;
use crate::models::RecordOperationConfig;
use crate::ui::keys::{key_char, Key};
use crate::ui::popups::{InsertMaster, InsertMasterExitState, InsertPwd, InsertPwdExitState};
use crate::user::{pairs_view, ReadOnlyRecords, User};

verus! {

/// Rows that one secret takes in the list.
pub const DOMAIN_PWD_LIST_ITEM_HEIGHT: u16 = 4;

/// Columns to the right of a secret.
pub const RIGHT_MARGIN: u16 = 6;

/// Columns to the left of a secret.
pub const LEFT_PADDING: u16 = 2;

/// The longest domain or password that the list shows.
pub const MAX_ENTRY_LENGTH: u16 = 32;

/// Columns between a domain and its password.
pub const DOMAIN_PWD_MIDDLE_WIDTH: u16 = 3;

/// Columns that the cursor takes in front of the list.
pub const CURSOR_OFFSET: u16 = 4;

/// The most secrets that the list can hold: its height in rows is a `u16`.
pub const MAX_SECRETS: usize = 16383;

/// How far a view is scrolled.
#[derive(Debug, Clone, Copy, PartialEq, Eq, Structural)]
pub struct Position {
    pub offset_x: u16,
    pub offset_y: u16,
}

impl Default for Position {
    fn default() -> (r: Self)
        ensures
            r.offset_x == 0,
            r.offset_y == 0,
    {
        Position { offset_x: 0, offset_y: 0 }
    }
}

/// The list of secrets: which one is selected and which ones are shown in
/// clear.
#[derive(Debug, Clone, PartialEq)]
pub struct Secrets {
    pub secrets: Vec<(String, String)>,
    pub selected_secret: usize,
    pub shown_secrets: Vec<usize>,
}

/// The change to the user's records that the home screen has begun.
#[derive(Debug, Clone, Copy, PartialEq, Eq, Structural)]
pub enum Operation {
    Add,
    Remove,
    Modify,
}

/// The domain and password of a record that is about to be added.
#[derive(Debug, Clone, PartialEq)]
pub struct NewSecret {
    pub domain: String,
    pub pwd: String,
}

/// A view that scrolls.
pub struct ScrollView {}

impl ScrollView {
    /// Whether a view scrolled by `offset_x` columns and `visible_width`
    /// columns wide reaches past content of `content_width` columns. The
    /// view shows four columns less than its width.
    pub open spec fn width_out_of_bounds(offset_x: u16, content_width: u16, visible_width: u16) -> bool {
        offset_x + visible_width - 4 > content_width
    }

    /// Whether the view, scrolled as `position` says, reaches past the
    /// right edge of its content.
    pub fn check_if_width_out_of_bounds(
        position: &Position,
        content_width: u16,
        visible_width: u16,
    ) -> (r: bool)
        ensures
            r == Self::width_out_of_bounds(position.offset_x, content_width, visible_width),
    {
        position.offset_x as u32 + visible_width as u32 > content_width as u32 + 4
    }
}

/// What the program is to do after a key press on the home screen.
#[derive(Debug, Clone, Copy, PartialEq, Eq, Structural)]
pub enum HomeOutcome {
    /// Stay on the home screen.
    Stay,
    /// Go back to the login screen.
    Leave,
    /// Ask for the domain and password of a new record.
    AskRecord,
    /// Ask for the master password.
    AskMaster,
}

/// What is to happen once the popup for a new record has closed.
#[derive(Debug, Clone, Copy, PartialEq, Eq, Structural)]
pub enum RecordDecision {
    /// The popup was left by its quit button: nothing happens.
    Nothing,
    /// The domain or the password is empty: no record is created.
    Refused,
    /// The record is kept in mind and the master password is asked for.
    AskMaster,
}

/// What is to happen once the popup for the master password has closed.
#[derive(Debug, Clone, PartialEq)]
pub enum MasterDecision {
    /// Nothing happens.
    Nothing,
    /// No master password was typed: nothing is changed.
    Refused,
    /// The record is to be added.
    Add(RecordOperationConfig),
    /// The record is to be removed.
    Remove(RecordOperationConfig),
}

/// `shown` without every occurrence of `index`.
pub open spec fn without_index(shown: Seq<usize>, index: usize) -> Seq<usize>
    decreases shown.len(),
{
    if shown.len() == 0 {
        shown
    } else if shown.last() != index {
        without_index(shown.drop_last(), index).push(shown.last())
    } else {
        without_index(shown.drop_last(), index)
    }
}

/// The secrets shown in clear after the selected one is toggled: it is
/// taken out where it was shown, and put at the end where it was not.
pub open spec fn toggled(shown: Seq<usize>, index: usize) -> Seq<usize> {
    if shown.contains(index) {
        without_index(shown, index)
    } else {
        shown.push(index)
    }
}

/// Rows that a list of `count` secrets takes.
pub open spec fn content_height(count: int) -> int {
    count * DOMAIN_PWD_LIST_ITEM_HEIGHT + 1
}

/// How far down the list is scrolled once the selection has moved down to
/// `selected`: by one secret more where its first row would lie at or below
/// the last row in sight.
pub open spec fn offset_after_down(selected: int, inner_height: int, offset_y: int) -> int {
    if selected * DOMAIN_PWD_LIST_ITEM_HEIGHT + 1 >= inner_height + offset_y {
        offset_y + DOMAIN_PWD_LIST_ITEM_HEIGHT
    } else {
        offset_y
    }
}

/// How far down the list is scrolled once the selection has moved up to
/// `selected`: by one secret less where its first row would lie above the
/// first row in sight.
pub open spec fn offset_after_up(selected: int, offset_y: int) -> int {
    if selected * DOMAIN_PWD_LIST_ITEM_HEIGHT + 1 <= offset_y {
        offset_y - DOMAIN_PWD_LIST_ITEM_HEIGHT
    } else {
        offset_y
    }
}

/// How far down the list is scrolled when its end is in sight.
pub open spec fn bottom_offset(count: int, inner_height: int) -> int {
    if content_height(count) - inner_height + 1 < 0 {
        0
    } else {
        content_height(count) - inner_height + 1
    }
}

/// The selected secret and the rows scrolled after the selection has moved
/// down in a list of `count` secrets: from the last secret to the bottom,
/// otherwise one secret on. An empty list stays as it is.
pub open spec fn place_after_down(count: int, selected: int, inner_height: int, offset_y: int) -> (
    int,
    int,
) {
    if count == 0 {
        (selected, offset_y)
    } else if selected == count - 1 {
        (selected, bottom_offset(count, inner_height))
    } else {
        (selected + 1, offset_after_down(selected + 1, inner_height, offset_y))
    }
}

/// The selected secret and the rows scrolled after the selection has moved
/// up: from the first two secrets to the top, otherwise one secret back.
pub open spec fn place_after_up(selected: int, offset_y: int) -> (int, int) {
    if selected <= 1 {
        (0, 0)
    } else {
        (selected - 1, offset_after_up(selected - 1, offset_y))
    }
}

/// Columns that the list of secrets takes on a screen of `area_width`
/// columns: what the longest secret needs, or half of the screen where that
/// is more.
pub open spec fn list_width(area_width: u16) -> int {
    let needed = MAX_ENTRY_LENGTH * 2 + LEFT_PADDING + DOMAIN_PWD_MIDDLE_WIDTH + RIGHT_MARGIN;
    if needed > area_width / 2 {
        needed
    } else {
        area_width as int / 2
    }
}

/// The columns scrolled after a step to the left.
pub open spec fn offset_after_left(offset_x: u16) -> int {
    if offset_x == 0 {
        0
    } else {
        offset_x - 1
    }
}

/// The columns scrolled after a step to the right, which is not taken
/// where the view already reaches past the right edge of the list.
pub open spec fn offset_after_right(offset_x: u16, area_width: u16, visible_width: u16) -> int {
    if ScrollView::width_out_of_bounds(
        offset_x,
        (list_width(area_width) + CURSOR_OFFSET) as u16,
        visible_width,
    ) || offset_x == u16::MAX {
        offset_x as int
    } else {
        offset_x + 1
    }
}

/// The secrets shown in clear after enter is pressed on a list of `count`
/// secrets.
pub open spec fn shown_after_toggle(count: int, shown: Seq<usize>, selected: usize) -> Seq<usize> {
    if count == 0 {
        shown
    } else {
        toggled(shown, selected)
    }
}

/// The home screen.
#[derive(Debug, Clone, PartialEq)]
pub struct Home {
    pub user: User,
    pub secrets: Secrets,
    pub position: Position,
    pub area_width: u16,
    pub area_height: u16,
    pub new_secret: Option<NewSecret>,
    pub operation: Option<Operation>,
}

impl Home {
    /// Whether the list can be drawn and walked: it holds no more secrets
    /// than its height can count, and the selection lies in it.
    pub open spec fn wf(&self) -> bool {
        &&& self.secrets.secrets@.len() <= MAX_SECRETS
        &&& self.secrets.selected_secret < self.secrets.secrets@.len()
            || self.secrets.selected_secret == 0
    }

    /// Whether everything but the selection and the scrolling is as in
    /// `other`.
    pub open spec fn same_but_place(&self, other: &Home) -> bool {
        &&& self.user == other.user
        &&& self.secrets.secrets == other.secrets.secrets
        &&& self.secrets.shown_secrets == other.secrets.shown_secrets
        &&& self.area_width == other.area_width
        &&& self.area_height == other.area_height
        &&& self.new_secret == other.new_secret
        &&& self.operation == other.operation
    }

    /// The home screen of a user with these records, nothing selected
    /// beyond the first, nothing shown in clear. `None` where the list
    /// would be longer than its height can count.
    pub fn new(
        user: User,
        records: &ReadOnlyRecords,
        position: Position,
        area_width: u16,
        area_height: u16,
    ) -> (r: Option<Self>)
        ensures
            r is Some <==> records@.len() <= MAX_SECRETS,
            r matches Some(home) ==> {
                &&& home.wf()
                &&& home.user == user
                &&& pairs_view(home.secrets.secrets@) == records@
                &&& home.secrets.selected_secret == 0
                &&& home.secrets.shown_secrets@.len() == 0
                &&& home.position == position
                &&& home.area_width == area_width
                &&& home.area_height == area_height
                &&& home.new_secret is None
                &&& home.operation is None
            },
    {
        let secrets: Vec<(String, String)> = records.records();
        if secrets.len() > MAX_SECRETS {
            return None;
        }
        Some(
            Home {
                user,
                secrets: Secrets { secrets, selected_secret: 0, shown_secrets: Vec::new() },
                position,
                area_width,
                area_height,
                new_secret: None,
                operation: None,
            },
        )
    }

    /// Columns that the list takes.
    pub fn width(&self) -> (r: u16)
        ensures
            r == list_width(self.area_width),
    {
        let width: u16 = MAX_ENTRY_LENGTH * 2 + LEFT_PADDING + DOMAIN_PWD_MIDDLE_WIDTH
            + RIGHT_MARGIN;
        if width > self.area_width / 2 {
            width
        } else {
            self.area_width / 2
        }
    }

    /// Selects the first secret and scrolls to the top.
    pub fn scroll_to_top(&mut self)
        requires
            old(self).wf(),
        ensures
            final(self).wf(),
            final(self).secrets.selected_secret == 0,
            final(self).position.offset_y == 0,
            final(self).position.offset_x == old(self).position.offset_x,
            final(self).same_but_place(old(self)),
    {
        self.secrets.selected_secret = 0;
        self.position.offset_y = 0;
    }

    /// Selects the last secret and scrolls until the end of the list is in
    /// sight. `inner_height` is the number of rows in sight. An empty list
    /// stays as it is.
    pub fn scroll_to_bottom(&mut self, inner_height: u16)
        requires
            old(self).wf(),
        ensures
            final(self).wf(),
            final(self).same_but_place(old(self)),
            final(self).position.offset_x == old(self).position.offset_x,
            old(self).secrets.secrets@.len() == 0 ==> *final(self) == *old(self),
            old(self).secrets.secrets@.len() > 0 ==> {
                &&& final(self).secrets.selected_secret == old(self).secrets.secrets@.len() - 1
                &&& final(self).position.offset_y == bottom_offset(
                    old(self).secrets.secrets@.len() as int,
                    inner_height as int,
                )
            },
    {
        let count: usize = self.secrets.secrets.len();
        if count == 0 {
            return;
        }
        let height: u32 = count as u32 * 4 + 1;
        assert(height == content_height(count as int));
        let max_offset_y: u32 = if height + 1 < inner_height as u32 {
            0
        } else {
            height + 1 - inner_height as u32
        };
        self.secrets.selected_secret = count - 1;
        self.position.offset_y = max_offset_y as u16;
    }

    /// Moves the selection one secret up; from the first two secrets it
    /// goes to the top.
    pub fn up(&mut self)
        requires
            old(self).wf(),
        ensures
            final(self).wf(),
            final(self).same_but_place(old(self)),
            final(self).position.offset_x == old(self).position.offset_x,
            (final(self).secrets.selected_secret as int, final(self).position.offset_y as int)
                == place_after_up(
                old(self).secrets.selected_secret as int,
                old(self).position.offset_y as int,
            ),
    {
        if self.secrets.selected_secret <= 1 {
            self.scroll_to_top();
            return;
        }
        let selected: usize = self.secrets.selected_secret - 1;
        assert(selected < MAX_SECRETS);
        let first_row: u32 = selected as u32 * 4 + 1;
        assert(first_row == selected * DOMAIN_PWD_LIST_ITEM_HEIGHT + 1);
        if first_row <= self.position.offset_y as u32 {
            self.position.offset_y = self.position.offset_y - DOMAIN_PWD_LIST_ITEM_HEIGHT;
        }
        self.secrets.selected_secret = selected;
    }

    /// Moves the selection one secret down; from the last secret it goes
    /// to the bottom. `inner_height` is the number of rows in sight. An
    /// empty list stays as it is.
    pub fn down(&mut self, inner_height: u16)
        requires
            old(self).wf(),
        ensures
            final(self).wf(),
            final(self).same_but_place(old(self)),
            final(self).position.offset_x == old(self).position.offset_x,
            (final(self).secrets.selected_secret as int, final(self).position.offset_y as int)
                == place_after_down(
                old(self).secrets.secrets@.len() as int,
                old(self).secrets.selected_secret as int,
                inner_height as int,
                old(self).position.offset_y as int,
            ),
    {
        let count: usize = self.secrets.secrets.len();
        if count == 0 {
            return;
        }
        if self.secrets.selected_secret == count - 1 {
            self.scroll_to_bottom(inner_height);
            return;
        }
        let selected: usize = self.secrets.selected_secret + 1;
        assert(selected < MAX_SECRETS);
        let first_row: u32 = selected as u32 * 4 + 1;
        assert(first_row == selected * DOMAIN_PWD_LIST_ITEM_HEIGHT + 1);
        if first_row >= inner_height as u32 + self.position.offset_y as u32 {
            self.position.offset_y = self.position.offset_y + DOMAIN_PWD_LIST_ITEM_HEIGHT;
        }
        self.secrets.selected_secret = selected;
    }

    /// Shows the selected secret in clear, or hides it where it was shown.
    /// An empty list stays as it is.
    pub fn toggle_shown_secret(&mut self)
        requires
            old(self).wf(),
        ensures
            final(self).wf(),
            final(self).user == old(self).user,
            final(self).secrets.secrets == old(self).secrets.secrets,
            final(self).secrets.selected_secret == old(self).secrets.selected_secret,
            final(self).position == old(self).position,
            final(self).area_width == old(self).area_width,
            final(self).area_height == old(self).area_height,
            final(self).new_secret == old(self).new_secret,
            final(self).operation == old(self).operation,
            final(self).secrets.shown_secrets@ == shown_after_toggle(
                old(self).secrets.secrets@.len() as int,
                old(self).secrets.shown_secrets@,
                old(self).secrets.selected_secret,
            ),
    {
        if self.secrets.secrets.len() == 0 {
            return;
        }
        let selected: usize = self.secrets.selected_secret;
        let ghost shown = self.secrets.shown_secrets@;
        let mut kept: Vec<usize> = Vec::new();
        let mut found: bool = false;
        let mut i: usize = 0;
        proof {
            assert(shown.take(0) =~= Seq::<usize>::empty());
        }
        while i < self.secrets.shown_secrets.len()
            invariant
                i <= self.secrets.shown_secrets.len(),
                shown == self.secrets.shown_secrets@,
                kept@ == without_index(shown.take(i as int), selected),
                found == shown.take(i as int).contains(selected),
            decreases self.secrets.shown_secrets.len() - i,
        {
            proof {
                let seen = shown.take(i as int);
                let next = shown.take(i + 1);
                assert(next.drop_last() =~= seen);
                assert(next.last() == shown[i as int]);
                assert(next =~= seen.push(shown[i as int]));
                if seen.contains(selected) {
                    let k = choose|k: int| 0 <= k < seen.len() && #[trigger] seen[k] == selected;
                    assert(next[k] == selected);
                }
                if next.contains(selected) && shown[i as int] != selected {
                    let k = choose|k: int| 0 <= k < next.len() && #[trigger] next[k] == selected;
                    assert(seen[k] == selected);
                }
                if shown[i as int] == selected {
                    assert(next[i as int] == selected);
                }
            }
            if self.secrets.shown_secrets[i] != selected {
                kept.push(self.secrets.shown_secrets[i]);
            } else {
                found = true;
            }
            i = i + 1;
        }
        proof {
            assert(shown.take(i as int) =~= shown);
        }
        if found {
            self.secrets.shown_secrets = kept;
        } else {
            self.secrets.shown_secrets.push(selected);
        }
    }

    /// Scrolls one column to the left, unless the list is at its left edge.
    pub fn left(&mut self)
        ensures
            final(self).position.offset_x == offset_after_left(old(self).position.offset_x),
            final(self).position.offset_y == old(self).position.offset_y,
            final(self).secrets == old(self).secrets,
            final(self).same_but_place(old(self)),
    {
        if self.position.offset_x != 0 {
            self.position.offset_x = self.position.offset_x - 1;
        }
    }

    /// Scrolls one column to the right, unless the view of `visible_width`
    /// columns already reaches past the right edge of the list.
    pub fn right(&mut self, visible_width: u16)
        ensures
            final(self).position.offset_x == offset_after_right(
                old(self).position.offset_x,
                old(self).area_width,
                visible_width,
            ),
            final(self).position.offset_y == old(self).position.offset_y,
            final(self).secrets == old(self).secrets,
            final(self).same_but_place(old(self)),
    {
        let content_width: u16 = self.width() + CURSOR_OFFSET;
        if !ScrollView::check_if_width_out_of_bounds(&self.position, content_width, visible_width)
            && self.position.offset_x < u16::MAX {
            self.position.offset_x = self.position.offset_x + 1;
        }
    }

    /// Reacts to a key press. `inner_height` is the number of rows of the
    /// list in sight, `visible_width` the width of the view. The letters
    /// `j` and `k` move the selection, `h` and `l` scroll sideways, enter
    /// shows or hides the selected secret, `a` begins an addition, `d` a
    /// removal, and `q` leaves.
    pub fn handle_key(&mut self, key: Key, inner_height: u16, visible_width: u16) -> (r:
        HomeOutcome)
        requires
            old(self).wf(),
        ensures
            final(self).wf(),
            r == home_outcome(key),
            final(self).user == old(self).user,
            final(self).secrets.secrets == old(self).secrets.secrets,
            final(self).new_secret == old(self).new_secret,
            final(self).secrets.shown_secrets@ == (if key == Key::Enter {
                shown_after_toggle(
                    old(self).secrets.secrets@.len() as int,
                    old(self).secrets.shown_secrets@,
                    old(self).secrets.selected_secret,
                )
            } else {
                old(self).secrets.shown_secrets@
            }),
            final(self).operation == (if key_char(key) == Some('d') {
                Some(Operation::Remove)
            } else if key_char(key) == Some('a') {
                Some(Operation::Add)
            } else {
                old(self).operation
            }),
            (final(self).secrets.selected_secret as int, final(self).position.offset_y as int)
                == (if key_char(key) == Some('j') {
                place_after_down(
                    old(self).secrets.secrets@.len() as int,
                    old(self).secrets.selected_secret as int,
                    inner_height as int,
                    old(self).position.offset_y as int,
                )
            } else if key_char(key) == Some('k') {
                place_after_up(
                    old(self).secrets.selected_secret as int,
                    old(self).position.offset_y as int,
                )
            } else {
                (old(self).secrets.selected_secret as int, old(self).position.offset_y as int)
            }),
            final(self).position.offset_x == (if key_char(key) == Some('h') {
                offset_after_left(old(self).position.offset_x)
            } else if key_char(key) == Some('l') {
                offset_after_right(old(self).position.offset_x, old(self).area_width, visible_width)
            } else {
                old(self).position.offset_x as int
            }),
            final(self).area_width == old(self).area_width,
            final(self).area_height == old(self).area_height,
    {
        let typed: Option<char> = match key {
            Key::Char(c) => Some(c),
            Key::Ctrl(c) => Some(c),
            _ => None,
        };
        let mut outcome = HomeOutcome::Stay;
        if typed == Some('q') {
            outcome = HomeOutcome::Leave;
        }
        if typed == Some('j') {
            self.down(inner_height);
        }
        if typed == Some('k') {
            self.up();
        }
        if typed == Some('h') {
            self.left();
        }
        if typed == Some('l') {
            self.right(visible_width);
        }
        match key {
            Key::Enter => {
                self.toggle_shown_secret();
            },
            _ => {},
        }
        if typed == Some('a') {
            self.operation = Some(Operation::Add);
            outcome = HomeOutcome::AskRecord;
        }
        if typed == Some('d') {
            self.operation = Some(Operation::Remove);
            outcome = HomeOutcome::AskMaster;
        }
        outcome
    }

    /// Decides what is to happen once the popup for a new record has
    /// closed: unless it was left by its quit button or a field is empty,
    /// the record is kept in mind and the master password is asked for.
    pub fn after_record_popup(&mut self, popup: &InsertPwd) -> (r: RecordDecision)
        ensures
            r == (if popup.exit_state == Some(InsertPwdExitState::Quit) {
                RecordDecision::Nothing
            } else if popup.domain@.len() == 0 || popup.pwd@.len() == 0 {
                RecordDecision::Refused
            } else {
                RecordDecision::AskMaster
            }),
            r != RecordDecision::AskMaster ==> *final(self) == *old(self),
            r == RecordDecision::AskMaster ==> {
                &&& final(self).new_secret matches Some(secret)
                &&& secret.domain@ == popup.domain@
                &&& secret.pwd@ == popup.pwd@
                &&& final(self).user == old(self).user
                &&& final(self).secrets == old(self).secrets
                &&& final(self).position == old(self).position
                &&& final(self).operation == old(self).operation
                &&& final(self).area_width == old(self).area_width
                &&& final(self).area_height == old(self).area_height
            },
    {
        match popup.exit_state {
            Some(InsertPwdExitState::Quit) => {
                return RecordDecision::Nothing;
            },
            _ => {},
        }
        if popup.domain.as_str().is_empty() || popup.pwd.as_str().is_empty() {
            return RecordDecision::Refused;
        }
        self.new_secret = Some(NewSecret { domain: popup.domain.clone(), pwd: popup.pwd.clone() });
        RecordDecision::AskMaster
    }

    /// Decides what is to happen once the popup for the master password
    /// has closed: which record is to be added or removed under that
    /// password, in the data directory `path`.
    pub fn after_master_popup(&self, popup: &InsertMaster, path: &str) -> (r: MasterDecision)
        requires
            self.wf(),
        ensures
            match r {
                MasterDecision::Nothing => {
                    ||| popup.exit_state == Some(InsertMasterExitState::Quit)
                    ||| popup.master@.len() > 0 && match self.operation {
                        Some(Operation::Add) => self.new_secret is None,
                        Some(Operation::Remove) => self.secrets.secrets@.len() == 0,
                        _ => true,
                    }
                },
                MasterDecision::Refused => {
                    &&& popup.exit_state != Some(InsertMasterExitState::Quit)
                    &&& popup.master@.len() == 0
                },
                MasterDecision::Add(config) => {
                    &&& popup.exit_state != Some(InsertMasterExitState::Quit)
                    &&& popup.master@.len() > 0
                    &&& self.operation == Some(Operation::Add)
                    &&& self.new_secret matches Some(secret)
                    &&& config.username@ == self.user.2.0@
                    &&& config.master_password@ == popup.master@
                    &&& config.domain@ == secret.domain@
                    &&& config.password@ == secret.pwd@
                    &&& config.path@ == path@
                },
                MasterDecision::Remove(config) => {
                    &&& popup.exit_state != Some(InsertMasterExitState::Quit)
                    &&& popup.master@.len() > 0
                    &&& self.operation == Some(Operation::Remove)
                    &&& self.secrets.secrets@.len() > 0
                    &&& config.username@ == self.user.2.0@
                    &&& config.master_password@ == popup.master@
                    &&& config.domain@ == self.secrets.secrets@[self.secrets.selected_secret as int].0@
                    &&& config.password@.len() == 0
                    &&& config.path@ == path@
                },
            },
    {
        match popup.exit_state {
            Some(InsertMasterExitState::Quit) => {
                return MasterDecision::Nothing;
            },
            _ => {},
        }
        if popup.master.as_str().is_empty() {
            return MasterDecision::Refused;
        }
        let username: String = self.user.username();
        match self.operation {
            Some(Operation::Add) => match &self.new_secret {
                Some(secret) => MasterDecision::Add(
                    RecordOperationConfig::new(
                        username.as_str(),
                        popup.master.as_str(),
                        secret.domain.as_str(),
                        secret.pwd.as_str(),
                        path,
                    ),
                ),
                None => MasterDecision::Nothing,
            },
            Some(Operation::Remove) => {
                if self.secrets.secrets.len() == 0 {
                    return MasterDecision::Nothing;
                }
                let none: String = String::new();
                MasterDecision::Remove(
                    RecordOperationConfig::new(
                        username.as_str(),
                        popup.master.as_str(),
                        self.secrets.secrets[self.secrets.selected_secret].0.as_str(),
                        none.as_str(),
                        path,
                    ),
                )
            },
            _ => MasterDecision::Nothing,
        }
    }

    /// Takes over the list after a record was added or removed. The
    /// selection stays where it was, or goes to the top where the list no
    /// longer reaches it. Returns `false`, and changes nothing, where the
    /// list would be longer than its height can count.
    pub fn refresh(&mut self, user: User, records: &ReadOnlyRecords) -> (r: bool)
        requires
            old(self).wf(),
        ensures
            r == (records@.len() <= MAX_SECRETS),
            !r ==> *final(self) == *old(self),
            r ==> {
                &&& final(self).wf()
                &&& final(self).user == user
                &&& pairs_view(final(self).secrets.secrets@) == records@
                &&& final(self).secrets.shown_secrets == old(self).secrets.shown_secrets
                &&& final(self).area_width == old(self).area_width
                &&& final(self).area_height == old(self).area_height
                &&& final(self).new_secret == old(self).new_secret
                &&& final(self).operation == old(self).operation
                &&& final(self).position.offset_x == old(self).position.offset_x
                &&& if old(self).secrets.selected_secret < records@.len() {
                    final(self).secrets.selected_secret == old(self).secrets.selected_secret
                        && final(self).position.offset_y == old(self).position.offset_y
                } else {
                    final(self).secrets.selected_secret == 0 && final(self).position.offset_y == 0
                }
            },
    {
        let secrets: Vec<(String, String)> = records.records();
        if secrets.len() > MAX_SECRETS {
            return false;
        }
        if self.secrets.selected_secret >= secrets.len() {
            self.secrets.selected_secret = 0;
            self.position.offset_y = 0;
        }
        self.secrets.secrets = secrets;
        self.user = user;
        true
    }
}

/// What a key press on the home screen asks of the program: `d` begins a
/// removal, `a` an addition, and `q` leaves.
pub open spec fn home_outcome(key: Key) -> HomeOutcome {
    if key_char(key) == Some('d') {
        HomeOutcome::AskMaster
    } else if key_char(key) == Some('a') {
        HomeOutcome::AskRecord
    } else if key_char(key) == Some('q') {
        HomeOutcome::Leave
    } else {
        HomeOutcome::Stay
    }
}

} // verus!

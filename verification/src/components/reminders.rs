//! The panel of the reminders of one list.

use crate::action::{Action, ActionModel};
use crate::components::lists::{row_above, row_below, step_down, step_up, PanelFace};
use crate::eventkit::{Reminder, ReminderModel};
use crate::keys::{Key, KeyPress};
use crate::text::{result_model, same_text};
use crate::widget::{list_state_with, selected_row};
use ratatui::widgets::ListState;
use vstd::prelude::*;

verus! {

pub const MSG_LOAD_FAILED_HEAD: &'static str = "Failed to load reminders: ";

pub const MARK_HIGH: &'static str = "🔴";

pub const MARK_MEDIUM: &'static str = "🟡";

pub const MARK_LOW: &'static str = "🟢";

pub const MARK_NONE: &'static str = "";

/// The mark that a row carries for its priority: red for 1, yellow for 2,
/// green for 3, and none for every other.
pub open spec fn priority_mark_text(priority: u8) -> Seq<char> {
    if priority == 1 {
        MARK_HIGH@
    } else if priority == 2 {
        MARK_MEDIUM@
    } else if priority == 3 {
        MARK_LOW@
    } else {
        MARK_NONE@
    }
}

/// The mark that a row carries for its priority.
pub fn priority_mark(priority: u8) -> (mark: &'static str)
    ensures
        mark@ == priority_mark_text(priority),
{
    if priority == 1 {
        MARK_HIGH
    } else if priority == 2 {
        MARK_MEDIUM
    } else if priority == 3 {
        MARK_LOW
    } else {
        MARK_NONE
    }
}

/// Model of a [`RemindersComponent`].
#[verifier::ext_equal]
pub struct RemindersModel {
    pub reminders: Seq<ReminderModel>,
    pub selected_index: usize,
    /// The row that the list widget highlights.
    pub cursor: Option<usize>,
    pub loading: bool,
    pub error: Option<Seq<char>>,
    pub list_id: Seq<char>,
    pub list_title: Seq<char>,
}

impl RemindersModel {
    pub open spec fn initial(list_id: Seq<char>, list_title: Seq<char>) -> RemindersModel {
        RemindersModel {
            reminders: Seq::empty(),
            selected_index: 0,
            cursor: Some(0),
            loading: false,
            error: None,
            list_id,
            list_title,
        }
    }

    /// The panel after the store answered: with the reminders, the first of
    /// them selected; or with the failure as its error.
    pub open spec fn loaded(
        self,
        outcome: Result<Seq<ReminderModel>, Seq<char>>,
    ) -> RemindersModel {
        match outcome {
            Ok(reminders) => if reminders.len() > 0 {
                RemindersModel {
                    reminders,
                    selected_index: 0,
                    cursor: Some(0),
                    loading: false,
                    error: None,
                    ..self
                }
            } else {
                RemindersModel { reminders, loading: false, error: None, ..self }
            },
            Err(message) => RemindersModel {
                loading: false,
                error: Some(MSG_LOAD_FAILED_HEAD@ + message),
                ..self
            },
        }
    }

    pub open spec fn moved_up(self) -> RemindersModel {
        if self.reminders.len() == 0 {
            self
        } else {
            let row = row_above(self.selected_index, self.reminders.len());
            RemindersModel { selected_index: row, cursor: Some(row), ..self }
        }
    }

    pub open spec fn moved_down(self) -> RemindersModel {
        if self.reminders.len() == 0 {
            self
        } else {
            let row = row_below(self.selected_index, self.reminders.len());
            RemindersModel { selected_index: row, cursor: Some(row), ..self }
        }
    }

    /// The selected reminder changes between open and completed; nothing
    /// changes if the selected row does not exist.
    pub open spec fn toggled(self) -> RemindersModel {
        if self.selected_index < self.reminders.len() {
            let row = self.selected_index as int;
            let reminder = self.reminders[row];
            RemindersModel {
                reminders: self.reminders.update(
                    row,
                    ReminderModel { completed: !reminder.completed, ..reminder },
                ),
                ..self
            }
        } else {
            self
        }
    }

    /// The panel after a key press: Up, `k`, Down and `j` move the
    /// selection and Space toggles the selected reminder, unless the panel is
    /// loading or shows an error.
    pub open spec fn after_key(self, key: KeyPress) -> RemindersModel {
        if !self.loading && self.error is None {
            match key.code {
                Key::Up | Key::Char('k') => self.moved_up(),
                Key::Down | Key::Char('j') => self.moved_down(),
                Key::Char(' ') => self.toggled(),
                _ => self,
            }
        } else {
            self
        }
    }

    /// The message that a key press sends: nothing while loading; `r` to
    /// load again and Escape to go back on an error; else Escape goes back
    /// and `q` quits.
    pub open spec fn key(self, key: KeyPress) -> Option<ActionModel> {
        if self.loading {
            None
        } else if self.error is Some {
            match key.code {
                Key::Char('r') => Some(ActionModel::LoadReminders(self.list_id)),
                Key::Esc => Some(ActionModel::Back),
                _ => None,
            }
        } else {
            match key.code {
                Key::Esc => Some(ActionModel::Back),
                Key::Char('q') => Some(ActionModel::Quit),
                _ => None,
            }
        }
    }

    pub open spec fn face(self) -> PanelFace {
        if self.loading {
            PanelFace::Loading
        } else if self.error is Some {
            PanelFace::Error
        } else {
            PanelFace::Content
        }
    }

    /// The message asks for the reminders of this panel's list.
    pub open spec fn is_asked_to_load(self, action: ActionModel) -> bool {
        action == ActionModel::LoadReminders(self.list_id)
    }
}

/// The panel of the reminders of one list.
#[derive(Debug)]
pub struct RemindersComponent {
    reminders: Vec<Reminder>,
    selected_index: usize,
    list_state: ListState,
    loading: bool,
    error: Option<String>,
    list_id: String,
    list_title: String,
}

impl View for RemindersComponent {
    type V = RemindersModel;

    closed spec fn view(&self) -> RemindersModel {
        RemindersModel {
            reminders: self.reminders.deep_view(),
            selected_index: self.selected_index,
            cursor: selected_row(self.list_state),
            loading: self.loading,
            error: self.error.deep_view(),
            list_id: self.list_id@,
            list_title: self.list_title@,
        }
    }
}

impl RemindersComponent {
    pub fn new(list_id: String, list_title: String) -> (panel: RemindersComponent)
        ensures
            panel@ == RemindersModel::initial(list_id@, list_title@),
    {
        RemindersComponent {
            reminders: Vec::new(),
            selected_index: 0,
            list_state: list_state_with(Some(0)),
            loading: false,
            error: None,
            list_id,
            list_title,
        }
    }

    /// Takes the reminders that the store returned, or its failure.
    pub fn load_reminders(&mut self, outcome: Result<Vec<Reminder>, String>)
        ensures
            final(self)@ == old(self)@.loaded(result_model(outcome)),
    {
        self.loading = true;
        self.error = None;
        match outcome {
            Ok(reminders) => {
                self.reminders = reminders;
                self.loading = false;
                if self.reminders.len() > 0 {
                    self.selected_index = 0;
                    self.list_state.select(Some(0));
                }
            },
            Err(message) => {
                self.error = Some(MSG_LOAD_FAILED_HEAD.to_owned().concat(message.as_str()));
                self.loading = false;
            },
        }
    }

    pub fn move_up(&mut self)
        ensures
            final(self)@ == old(self)@.moved_up(),
    {
        if self.reminders.len() > 0 {
            self.selected_index = step_up(self.selected_index, self.reminders.len());
            self.list_state.select(Some(self.selected_index));
        }
    }

    pub fn move_down(&mut self)
        ensures
            final(self)@ == old(self)@.moved_down(),
    {
        if self.reminders.len() > 0 {
            self.selected_index = step_down(self.selected_index, self.reminders.len());
            self.list_state.select(Some(self.selected_index));
        }
    }

    /// Changes the selected reminder between open and completed, on the
    /// panel only: the store is not told.
    pub fn toggle_completed(&mut self)
        ensures
            final(self)@ == old(self)@.toggled(),
    {
        if self.selected_index < self.reminders.len() {
            let ghost before = self.reminders.deep_view();
            let row = self.selected_index;
            assert(before[row as int] == self.reminders[row as int]@);
            let mut reminder = self.reminders[row].clone();
            reminder.completed = !reminder.completed;
            self.reminders.set(row, reminder);
            assert(self.reminders.deep_view() == before.update(row as int, reminder@));
        }
    }

    /// Whether a message asks for the reminders of this panel's list. The
    /// panel sends nothing in answer: the reminders are loaded for it.
    pub fn update(&self, action: &Action) -> (asked: bool)
        ensures
            asked == self@.is_asked_to_load(action@),
    {
        match action {
            Action::LoadReminders(list_id) => same_text(list_id.as_str(), self.list_id.as_str()),
            _ => false,
        }
    }

    /// Handles a key press and returns the message it sends.
    pub fn handle_key_event(&mut self, key: KeyPress) -> (next: Option<Action>)
        ensures
            final(self)@ == old(self)@.after_key(key),
            next.deep_view() == old(self)@.key(key),
    {
        if self.loading {
            return None;
        }
        if self.error.is_some() {
            return match key.code {
                Key::Char('r') => Some(Action::LoadReminders(self.list_id.clone())),
                Key::Esc => Some(Action::Back),
                _ => None,
            };
        }
        match key.code {
            Key::Up | Key::Char('k') => {
                self.move_up();
                None
            },
            Key::Down | Key::Char('j') => {
                self.move_down();
                None
            },
            Key::Char(' ') => {
                self.toggle_completed();
                None
            },
            Key::Esc => Some(Action::Back),
            Key::Char('q') => Some(Action::Quit),
            _ => None,
        }
    }

    /// What the panel draws.
    pub fn face(&self) -> (face: PanelFace)
        ensures
            face == self@.face(),
    {
        if self.loading {
            PanelFace::Loading
        } else if self.error.is_some() {
            PanelFace::Error
        } else {
            PanelFace::Content
        }
    }

    pub fn reminders(&self) -> (reminders: &Vec<Reminder>)
        ensures
            reminders.deep_view() == self@.reminders,
    {
        &self.reminders
    }

    pub fn selected_index(&self) -> (row: usize)
        ensures
            row == self@.selected_index,
    {
        self.selected_index
    }

    /// The row that the list widget highlights.
    pub fn cursor(&self) -> (row: Option<usize>)
        ensures
            row == self@.cursor,
    {
        self.list_state.selected()
    }

    /// The state of the list widget, for the renderer to draw the list
    /// with. Drawing may move the highlight: whatever row the state
    /// highlights afterwards is the panel's cursor.
    pub fn list_state_mut(&mut self) -> (state: &mut ListState)
        ensures
            selected_row(*state) == old(self)@.cursor,
            final(self)@ == (RemindersModel { cursor: selected_row(*final(state)), ..old(self)@ }),
    {
        &mut self.list_state
    }

    pub fn error(&self) -> (error: &Option<String>)
        ensures
            error.deep_view() == self@.error,
    {
        &self.error
    }

    pub fn list_id(&self) -> (id: &str)
        ensures
            id@ == self@.list_id,
    {
        self.list_id.as_str()
    }

    pub fn list_title(&self) -> (title: &str)
        ensures
            title@ == self@.list_title,
    {
        self.list_title.as_str()
    }
}

/// Toggling twice leaves the reminders as they were.
pub proof fn lemma_toggle_twice(panel: RemindersModel)
    ensures
        panel.toggled().toggled().reminders == panel.reminders,
{
    if panel.selected_index < panel.reminders.len() {
        assert(panel.toggled().toggled().reminders =~= panel.reminders);
    }
}

} // verus!

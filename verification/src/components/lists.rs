//! The panel of lists.

use crate::action::{Action, ActionModel};
use crate::eventkit::{ReminderList, ReminderListModel};
use crate::keys::{Key, KeyPress};
use crate::text::result_model;
use crate::widget::{list_state_with, selected_row};
use ratatui::widgets::ListState;
use vstd::prelude::*;

verus! {

pub const MSG_LOAD_FAILED_HEAD: &'static str = "Failed to load lists: ";

/// The row above `row` among `count` rows, or the last row from the first.
pub open spec fn row_above(row: usize, count: nat) -> usize {
    if row > 0 {
        (row - 1) as usize
    } else {
        (count - 1) as usize
    }
}

/// The row below `row` among `count` rows, or the first row from the last.
pub open spec fn row_below(row: usize, count: nat) -> usize {
    if row < count - 1 {
        (row + 1) as usize
    } else {
        0
    }
}

/// The row above `row` among `count` rows, or the last row from the first.
pub fn step_up(row: usize, count: usize) -> (target: usize)
    requires
        count > 0,
    ensures
        target == row_above(row, count as nat),
{
    if row > 0 {
        row - 1
    } else {
        count - 1
    }
}

/// The row below `row` among `count` rows, or the first row from the last.
pub fn step_down(row: usize, count: usize) -> (target: usize)
    requires
        count > 0,
    ensures
        target == row_below(row, count as nat),
{
    if row < count - 1 {
        row + 1
    } else {
        0
    }
}

/// What a panel draws.
#[derive(Clone, Copy, Debug, PartialEq, Eq, Structural)]
pub enum PanelFace {
    Loading,
    Error,
    Content,
}

/// Model of a [`ListsComponent`].
#[verifier::ext_equal]
pub struct ListsModel {
    pub lists: Seq<ReminderListModel>,
    pub selected_index: usize,
    /// The row that the list widget highlights.
    pub cursor: Option<usize>,
    pub loading: bool,
    pub error: Option<Seq<char>>,
}

impl ListsModel {
    pub open spec fn initial() -> ListsModel {
        ListsModel {
            lists: Seq::empty(),
            selected_index: 0,
            cursor: Some(0),
            loading: false,
            error: None,
        }
    }

    /// The panel after the store answered: with the lists, the first of
    /// them selected; or with the failure as its error.
    pub open spec fn loaded(self, outcome: Result<Seq<ReminderListModel>, Seq<char>>) -> ListsModel {
        match outcome {
            Ok(lists) => if lists.len() > 0 {
                ListsModel {
                    lists,
                    selected_index: 0,
                    cursor: Some(0),
                    loading: false,
                    error: None,
                }
            } else {
                ListsModel { lists, loading: false, error: None, ..self }
            },
            Err(message) => ListsModel {
                loading: false,
                error: Some(MSG_LOAD_FAILED_HEAD@ + message),
                ..self
            },
        }
    }

    pub open spec fn moved_up(self) -> ListsModel {
        if self.lists.len() == 0 {
            self
        } else {
            let row = row_above(self.selected_index, self.lists.len());
            ListsModel { selected_index: row, cursor: Some(row), ..self }
        }
    }

    pub open spec fn moved_down(self) -> ListsModel {
        if self.lists.len() == 0 {
            self
        } else {
            let row = row_below(self.selected_index, self.lists.len());
            ListsModel { selected_index: row, cursor: Some(row), ..self }
        }
    }

    /// The message that opens the selected list, if the selected row exists.
    pub open spec fn selection(self) -> Option<ActionModel> {
        if self.selected_index < self.lists.len() {
            Some(ActionModel::SelectList(self.lists[self.selected_index as int].id))
        } else {
            None
        }
    }

    /// The keys act on the rows unless the panel is loading or shows an
    /// error.
    pub open spec fn takes_navigation(self) -> bool {
        !self.loading && self.error is None
    }

    /// The panel after a key press: Up, `k`, Down and `j` move the
    /// selection.
    pub open spec fn after_key(self, key: KeyPress) -> ListsModel {
        if self.takes_navigation() {
            match key.code {
                Key::Up | Key::Char('k') => self.moved_up(),
                Key::Down | Key::Char('j') => self.moved_down(),
                _ => self,
            }
        } else {
            self
        }
    }

    /// The message that a key press sends: nothing while loading; `r` to
    /// load again and `q` to quit on an error; else Enter opens the
    /// selected list and `q` quits.
    pub open spec fn key(self, key: KeyPress) -> Option<ActionModel> {
        if self.loading {
            None
        } else if self.error is Some {
            match key.code {
                Key::Char('r') => Some(ActionModel::LoadLists),
                Key::Char('q') => Some(ActionModel::Quit),
                _ => None,
            }
        } else {
            match key.code {
                Key::Enter => self.selection(),
                Key::Char('q') => Some(ActionModel::Quit),
                _ => None,
            }
        }
    }

    pub open spec fn face(self) -> PanelFace {
        if self.loading {
            PanelFace::Loading
        } else if self.error is Some {
            PanelFace::Error
        } else {
            PanelFace::Content
        }
    }
}

/// The panel of lists.
#[derive(Debug)]
pub struct ListsComponent {
    lists: Vec<ReminderList>,
    selected_index: usize,
    list_state: ListState,
    loading: bool,
    error: Option<String>,
}

impl View for ListsComponent {
    type V = ListsModel;

    closed spec fn view(&self) -> ListsModel {
        ListsModel {
            lists: self.lists.deep_view(),
            selected_index: self.selected_index,
            cursor: selected_row(self.list_state),
            loading: self.loading,
            error: self.error.deep_view(),
        }
    }
}

impl ListsComponent {
    pub fn new() -> (panel: ListsComponent)
        ensures
            panel@ == ListsModel::initial(),
    {
        ListsComponent {
            lists: Vec::new(),
            selected_index: 0,
            list_state: list_state_with(Some(0)),
            loading: false,
            error: None,
        }
    }

    /// Takes the lists that the store returned, or its failure.
    pub fn load_lists(&mut self, outcome: Result<Vec<ReminderList>, String>)
        ensures
            final(self)@ == old(self)@.loaded(result_model(outcome)),
    {
        self.loading = true;
        self.error = None;
        match outcome {
            Ok(lists) => {
                self.lists = lists;
                self.loading = false;
                if self.lists.len() > 0 {
                    self.selected_index = 0;
                    self.list_state.select(Some(0));
                }
            },
            Err(message) => {
                self.error = Some(MSG_LOAD_FAILED_HEAD.to_owned().concat(message.as_str()));
                self.loading = false;
            },
        }
    }

    pub fn move_up(&mut self)
        ensures
            final(self)@ == old(self)@.moved_up(),
    {
        if self.lists.len() > 0 {
            self.selected_index = step_up(self.selected_index, self.lists.len());
            self.list_state.select(Some(self.selected_index));
        }
    }

    pub fn move_down(&mut self)
        ensures
            final(self)@ == old(self)@.moved_down(),
    {
        if self.lists.len() > 0 {
            self.selected_index = step_down(self.selected_index, self.lists.len());
            self.list_state.select(Some(self.selected_index));
        }
    }

    /// The message that opens the selected list.
    pub fn select_current(&self) -> (next: Option<Action>)
        ensures
            next.deep_view() == self@.selection(),
    {
        if self.selected_index < self.lists.len() {
            assert(self.lists.deep_view()[self.selected_index as int]
                == self.lists[self.selected_index as int]@);
            Some(Action::SelectList(self.lists[self.selected_index].id.clone()))
        } else {
            None
        }
    }

    /// The panel has nothing to do on any message: the lists are loaded for
    /// it.
    pub fn update(&self, action: &Action) -> (next: Option<Action>)
        ensures
            next is None,
    {
        None
    }

    /// Handles a key press and returns the message it sends.
    pub fn handle_key_event(&mut self, key: KeyPress) -> (next: Option<Action>)
        ensures
            final(self)@ == old(self)@.after_key(key),
            next.deep_view() == old(self)@.key(key),
    {
        if self.loading {
            return None;
        }
        if self.error.is_some() {
            return match key.code {
                Key::Char('r') => Some(Action::LoadLists),
                Key::Char('q') => Some(Action::Quit),
                _ => None,
            };
        }
        match key.code {
            Key::Up | Key::Char('k') => {
                self.move_up();
                None
            },
            Key::Down | Key::Char('j') => {
                self.move_down();
                None
            },
            Key::Enter => self.select_current(),
            Key::Char('q') => Some(Action::Quit),
            _ => None,
        }
    }

    /// What the panel draws.
    pub fn face(&self) -> (face: PanelFace)
        ensures
            face == self@.face(),
    {
        if self.loading {
            PanelFace::Loading
        } else if self.error.is_some() {
            PanelFace::Error
        } else {
            PanelFace::Content
        }
    }

    pub fn lists(&self) -> (lists: &Vec<ReminderList>)
        ensures
            lists.deep_view() == self@.lists,
    {
        &self.lists
    }

    pub fn selected_index(&self) -> (row: usize)
        ensures
            row == self@.selected_index,
    {
        self.selected_index
    }

    /// The row that the list widget highlights.
    pub fn cursor(&self) -> (row: Option<usize>)
        ensures
            row == self@.cursor,
    {
        self.list_state.selected()
    }

    /// The state of the list widget, for the renderer to draw the list
    /// with. Drawing may move the highlight: whatever row the state
    /// highlights afterwards is the panel's cursor.
    pub fn list_state_mut(&mut self) -> (state: &mut ListState)
        ensures
            selected_row(*state) == old(self)@.cursor,
            final(self)@ == (ListsModel { cursor: selected_row(*final(state)), ..old(self)@ }),
    {
        &mut self.list_state
    }

    pub fn error(&self) -> (error: &Option<String>)
        ensures
            error.deep_view() == self@.error,
    {
        &self.error
    }
}

/// Moving up and then down, or down and then up, leads back to the selected
/// row, whenever that row exists and the rows can be counted in `usize`.
pub proof fn lemma_moves_undo_each_other(panel: ListsModel)
    requires
        panel.selected_index < panel.lists.len() <= usize::MAX,
    ensures
        panel.moved_up().moved_down().selected_index == panel.selected_index,
        panel.moved_down().moved_up().selected_index == panel.selected_index,
        panel.moved_up().selected_index < panel.lists.len(),
        panel.moved_down().selected_index < panel.lists.len(),
{
}

} // verus!

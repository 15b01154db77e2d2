//! The messages that the parts of the program send one another.

use crate::text::same_text;
use vstd::prelude::*;
use vstd::std_specs::cmp::PartialEqSpecImpl;

verus! {

/// Model of an [`Action`].
pub enum ActionModel {
    Tick,
    Render,
    Resize(u16, u16),
    Suspend,
    Resume,
    Quit,
    ClearScreen,
    Error(Seq<char>),
    Help,
    Up,
    Down,
    Left,
    Right,
    Enter,
    Back,
    CheckPermissions,
    RequestPermissions,
    LoadLists,
    LoadReminders(Seq<char>),
    SelectList(Seq<char>),
}

/// A message: a tick of the clock, a request to draw, a step of navigation,
/// or a request to the reminder store.
#[derive(Debug)]
pub enum Action {
    Tick,
    Render,
    Resize(u16, u16),
    Suspend,
    Resume,
    Quit,
    ClearScreen,
    Error(String),
    Help,
    Up,
    Down,
    Left,
    Right,
    Enter,
    Back,
    CheckPermissions,
    RequestPermissions,
    LoadLists,
    LoadReminders(String),
    SelectList(String),
}

impl View for Action {
    type V = ActionModel;

    open spec fn view(&self) -> ActionModel {
        match self {
            Action::Tick => ActionModel::Tick,
            Action::Render => ActionModel::Render,
            Action::Resize(width, height) => ActionModel::Resize(*width, *height),
            Action::Suspend => ActionModel::Suspend,
            Action::Resume => ActionModel::Resume,
            Action::Quit => ActionModel::Quit,
            Action::ClearScreen => ActionModel::ClearScreen,
            Action::Error(message) => ActionModel::Error(message@),
            Action::Help => ActionModel::Help,
            Action::Up => ActionModel::Up,
            Action::Down => ActionModel::Down,
            Action::Left => ActionModel::Left,
            Action::Right => ActionModel::Right,
            Action::Enter => ActionModel::Enter,
            Action::Back => ActionModel::Back,
            Action::CheckPermissions => ActionModel::CheckPermissions,
            Action::RequestPermissions => ActionModel::RequestPermissions,
            Action::LoadLists => ActionModel::LoadLists,
            Action::LoadReminders(list_id) => ActionModel::LoadReminders(list_id@),
            Action::SelectList(list_id) => ActionModel::SelectList(list_id@),
        }
    }
}

impl DeepView for Action {
    type V = ActionModel;

    open spec fn deep_view(&self) -> ActionModel {
        self@
    }
}

impl Clone for Action {
    fn clone(&self) -> (copy: Self)
        ensures
            copy == *self,
    {
        match self {
            Action::Tick => Action::Tick,
            Action::Render => Action::Render,
            Action::Resize(width, height) => Action::Resize(*width, *height),
            Action::Suspend => Action::Suspend,
            Action::Resume => Action::Resume,
            Action::Quit => Action::Quit,
            Action::ClearScreen => Action::ClearScreen,
            Action::Error(message) => Action::Error(message.clone()),
            Action::Help => Action::Help,
            Action::Up => Action::Up,
            Action::Down => Action::Down,
            Action::Left => Action::Left,
            Action::Right => Action::Right,
            Action::Enter => Action::Enter,
            Action::Back => Action::Back,
            Action::CheckPermissions => Action::CheckPermissions,
            Action::RequestPermissions => Action::RequestPermissions,
            Action::LoadLists => Action::LoadLists,
            Action::LoadReminders(list_id) => Action::LoadReminders(list_id.clone()),
            Action::SelectList(list_id) => Action::SelectList(list_id.clone()),
        }
    }
}

impl PartialEq for Action {
    fn eq(&self, other: &Action) -> (same: bool) {
        match (self, other) {
            (Action::Tick, Action::Tick) => true,
            (Action::Render, Action::Render) => true,
            (Action::Resize(w1, h1), Action::Resize(w2, h2)) => *w1 == *w2 && *h1 == *h2,
            (Action::Suspend, Action::Suspend) => true,
            (Action::Resume, Action::Resume) => true,
            (Action::Quit, Action::Quit) => true,
            (Action::ClearScreen, Action::ClearScreen) => true,
            (Action::Error(m1), Action::Error(m2)) => same_text(m1.as_str(), m2.as_str()),
            (Action::Help, Action::Help) => true,
            (Action::Up, Action::Up) => true,
            (Action::Down, Action::Down) => true,
            (Action::Left, Action::Left) => true,
            (Action::Right, Action::Right) => true,
            (Action::Enter, Action::Enter) => true,
            (Action::Back, Action::Back) => true,
            (Action::CheckPermissions, Action::CheckPermissions) => true,
            (Action::RequestPermissions, Action::RequestPermissions) => true,
            (Action::LoadLists, Action::LoadLists) => true,
            (Action::LoadReminders(a), Action::LoadReminders(b)) => same_text(
                a.as_str(),
                b.as_str(),
            ),
            (Action::SelectList(a), Action::SelectList(b)) => same_text(a.as_str(), b.as_str()),
            _ => false,
        }
    }
}

impl PartialEqSpecImpl for Action {
    open spec fn obeys_eq_spec() -> bool {
        true
    }

    open spec fn eq_spec(&self, other: &Action) -> bool {
        self@ == other@
    }
}

impl Eq for Action {

}

impl Action {
    /// Whether the message is one of the two that go round many times a
    /// second, and that a log of messages leaves out.
    pub fn is_routine(&self) -> (routine: bool)
        ensures
            routine == (self@ is Tick || self@ is Render),
    {
        match self {
            Action::Tick | Action::Render => true,
            _ => false,
        }
    }
}

} // verus!

//! The values that cross the boundary between the state machine and its
//! host: reminder lists, reminders, and the intents the state machine emits.
//!
//! Each type has a mathematical model in which texts are sequences of
//! characters; the contracts of the library speak of the models.

use vstd::prelude::*;

verus! {

/// Model of a [`ReminderList`].
pub struct ReminderListModel {
    pub id: Seq<char>,
    pub name: Seq<char>,
    pub color: Seq<char>,
    pub count: u32,
}

/// A named, coloured group of reminders, as the host supplies it.
#[derive(Debug)]
pub struct ReminderList {
    pub id: String,
    pub name: String,
    pub color: String,
    pub count: u32,
}

impl View for ReminderList {
    type V = ReminderListModel;

    open spec fn view(&self) -> ReminderListModel {
        ReminderListModel { id: self.id@, name: self.name@, color: self.color@, count: self.count }
    }
}

impl DeepView for ReminderList {
    type V = ReminderListModel;

    open spec fn deep_view(&self) -> ReminderListModel {
        self@
    }
}

impl Clone for ReminderList {
    fn clone(&self) -> (copy: Self)
        ensures
            copy == *self,
    {
        ReminderList {
            id: self.id.clone(),
            name: self.name.clone(),
            color: self.color.clone(),
            count: self.count,
        }
    }
}

/// Model of a [`Reminder`].
pub struct ReminderModel {
    pub id: Seq<char>,
    pub title: Seq<char>,
    pub notes: Option<Seq<char>>,
    pub completed: bool,
    pub priority: u8,
    pub due_date: Option<Seq<char>>,
}

/// One actionable entry of a list.
#[derive(Debug)]
pub struct Reminder {
    pub id: String,
    pub title: String,
    pub notes: Option<String>,
    pub completed: bool,
    pub priority: u8,
    pub due_date: Option<String>,
}

impl View for Reminder {
    type V = ReminderModel;

    open spec fn view(&self) -> ReminderModel {
        ReminderModel {
            id: self.id@,
            title: self.title@,
            notes: self.notes.deep_view(),
            completed: self.completed,
            priority: self.priority,
            due_date: self.due_date.deep_view(),
        }
    }
}

impl DeepView for Reminder {
    type V = ReminderModel;

    open spec fn deep_view(&self) -> ReminderModel {
        self@
    }
}

impl Clone for Reminder {
    fn clone(&self) -> (copy: Self)
        ensures
            copy == *self,
    {
        Reminder {
            id: self.id.clone(),
            title: self.title.clone(),
            notes: self.notes.clone(),
            completed: self.completed,
            priority: self.priority,
            due_date: self.due_date.clone(),
        }
    }
}

/// Model of a [`NewReminder`].
pub struct NewReminderModel {
    pub title: Seq<char>,
    pub notes: Option<Seq<char>>,
    pub due_date: Option<Seq<char>>,
    pub list_id: Seq<char>,
    pub priority: u8,
}

/// The fields of a reminder that the user asked to create.
#[derive(Debug)]
pub struct NewReminder {
    pub title: String,
    pub notes: Option<String>,
    pub due_date: Option<String>,
    pub list_id: String,
    pub priority: u8,
}

impl View for NewReminder {
    type V = NewReminderModel;

    open spec fn view(&self) -> NewReminderModel {
        NewReminderModel {
            title: self.title@,
            notes: self.notes.deep_view(),
            due_date: self.due_date.deep_view(),
            list_id: self.list_id@,
            priority: self.priority,
        }
    }
}

impl DeepView for NewReminder {
    type V = NewReminderModel;

    open spec fn deep_view(&self) -> NewReminderModel {
        self@
    }
}

impl Clone for NewReminder {
    fn clone(&self) -> (copy: Self)
        ensures
            copy == *self,
    {
        NewReminder {
            title: self.title.clone(),
            notes: self.notes.clone(),
            due_date: self.due_date.clone(),
            list_id: self.list_id.clone(),
            priority: self.priority,
        }
    }
}

/// Model of a [`TuiAction`].
pub enum TuiActionModel {
    Quit,
    SelectList { list_id: Seq<char> },
    ToggleReminder { reminder_id: Seq<char> },
    DeleteReminder { reminder_id: Seq<char> },
    CreateReminder { new_reminder: NewReminderModel },
    Back,
    Refresh,
    ToggleCompletedVisibility,
    GlobalSearch { query: Seq<char> },
    ShowLoading { message: Seq<char> },
    DataLoaded,
}

/// An intent that the state machine hands to its host, which carries it out
/// against the reminder store.
#[derive(Debug)]
pub enum TuiAction {
    Quit,
    SelectList { list_id: String },
    ToggleReminder { reminder_id: String },
    DeleteReminder { reminder_id: String },
    CreateReminder { new_reminder: NewReminder },
    Back,
    Refresh,
    ToggleCompletedVisibility,
    GlobalSearch { query: String },
    ShowLoading { message: String },
    DataLoaded,
}

impl View for TuiAction {
    type V = TuiActionModel;

    open spec fn view(&self) -> TuiActionModel {
        match self {
            TuiAction::Quit => TuiActionModel::Quit,
            TuiAction::SelectList { list_id } => TuiActionModel::SelectList { list_id: list_id@ },
            TuiAction::ToggleReminder { reminder_id } => TuiActionModel::ToggleReminder {
                reminder_id: reminder_id@,
            },
            TuiAction::DeleteReminder { reminder_id } => TuiActionModel::DeleteReminder {
                reminder_id: reminder_id@,
            },
            TuiAction::CreateReminder { new_reminder } => TuiActionModel::CreateReminder {
                new_reminder: new_reminder@,
            },
            TuiAction::Back => TuiActionModel::Back,
            TuiAction::Refresh => TuiActionModel::Refresh,
            TuiAction::ToggleCompletedVisibility => TuiActionModel::ToggleCompletedVisibility,
            TuiAction::GlobalSearch { query } => TuiActionModel::GlobalSearch { query: query@ },
            TuiAction::ShowLoading { message } => TuiActionModel::ShowLoading {
                message: message@,
            },
            TuiAction::DataLoaded => TuiActionModel::DataLoaded,
        }
    }
}

impl DeepView for TuiAction {
    type V = TuiActionModel;

    open spec fn deep_view(&self) -> TuiActionModel {
        self@
    }
}

impl Clone for TuiAction {
    fn clone(&self) -> (copy: Self)
        ensures
            copy == *self,
    {
        match self {
            TuiAction::Quit => TuiAction::Quit,
            TuiAction::SelectList { list_id } => TuiAction::SelectList { list_id: list_id.clone() },
            TuiAction::ToggleReminder { reminder_id } => TuiAction::ToggleReminder {
                reminder_id: reminder_id.clone(),
            },
            TuiAction::DeleteReminder { reminder_id } => TuiAction::DeleteReminder {
                reminder_id: reminder_id.clone(),
            },
            TuiAction::CreateReminder { new_reminder } => TuiAction::CreateReminder {
                new_reminder: new_reminder.clone(),
            },
            TuiAction::Back => TuiAction::Back,
            TuiAction::Refresh => TuiAction::Refresh,
            TuiAction::ToggleCompletedVisibility => TuiAction::ToggleCompletedVisibility,
            TuiAction::GlobalSearch { query } => TuiAction::GlobalSearch { query: query.clone() },
            TuiAction::ShowLoading { message } => TuiAction::ShowLoading {
                message: message.clone(),
            },
            TuiAction::DataLoaded => TuiAction::DataLoaded,
        }
    }
}

/// Model of a [`RemError`].
pub enum RemErrorModel {
    PermissionDenied,
    DataAccessError { message: Seq<char> },
    TUIError { message: Seq<char> },
}

/// What can go wrong around the state machine. The state machine itself
/// never fails; the host reports these.
#[derive(Debug)]
pub enum RemError {
    PermissionDenied,
    DataAccessError { message: String },
    TUIError { message: String },
}

impl View for RemError {
    type V = RemErrorModel;

    open spec fn view(&self) -> RemErrorModel {
        match self {
            RemError::PermissionDenied => RemErrorModel::PermissionDenied,
            RemError::DataAccessError { message } => RemErrorModel::DataAccessError {
                message: message@,
            },
            RemError::TUIError { message } => RemErrorModel::TUIError { message: message@ },
        }
    }
}

impl RemError {
    /// The line of text that describes the error to the user.
    pub open spec fn text(&self) -> Seq<char> {
        match self {
            RemError::PermissionDenied => "Permission denied"@,
            RemError::DataAccessError { message } => "Data access error: "@ + message@,
            RemError::TUIError { message } => "TUI error: "@ + message@,
        }
    }

    /// The error as a line of text.
    pub fn message(&self) -> (line: String)
        ensures
            line@ == self.text(),
    {
        match self {
            RemError::PermissionDenied => "Permission denied".to_owned(),
            RemError::DataAccessError { message } => "Data access error: ".to_owned().concat(
                message.as_str(),
            ),
            RemError::TUIError { message } => "TUI error: ".to_owned().concat(message.as_str()),
        }
    }
}

} // verus!

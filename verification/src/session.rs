//! A session: the state machine as the host holds it between calls.
//!
//! The host keeps at most one session in a slot of its own and hands the slot
//! to each call. A call on an empty slot is refused with an error; it never
//! panics.

use crate::tui::app::TUIApp;
use crate::tui::model::AppModel;
use crate::types::{RemError, RemErrorModel, Reminder, ReminderList, ReminderModel};
use vstd::prelude::*;

verus! {

pub const MSG_NOT_INITIALIZED: &'static str = "TUI not initialized";

pub const MSG_NOT_PROPERLY_INITIALIZED: &'static str = "TUI not properly initialized";

pub const MSG_REMINDERS_LOADED: &'static str = "✅ Reminders loaded successfully";

pub const MSG_GLOBAL_SEARCH_COMPLETED: &'static str = "✅ Global search completed";

/// Model of a [`Session`].
pub struct SessionModel {
    pub app: AppModel,
    pub is_initialized: bool,
}

/// The state machine together with the mark that its terminal is set up.
pub struct Session {
    app: TUIApp,
    is_initialized: bool,
}

impl View for Session {
    type V = SessionModel;

    closed spec fn view(&self) -> SessionModel {
        SessionModel { app: self.app@, is_initialized: self.is_initialized }
    }
}

impl DeepView for Session {
    type V = SessionModel;

    open spec fn deep_view(&self) -> SessionModel {
        self@
    }
}

/// The error of a call on an empty slot.
pub open spec fn not_initialized() -> RemErrorModel {
    RemErrorModel::TUIError { message: MSG_NOT_INITIALIZED@ }
}

/// The error of a call on a session that was shut down.
pub open spec fn not_properly_initialized() -> RemErrorModel {
    RemErrorModel::TUIError { message: MSG_NOT_PROPERLY_INITIALIZED@ }
}

/// The reminders paired with the list names, place by place, as far as both
/// reach.
pub open spec fn zipped(reminders: Seq<ReminderModel>, list_names: Seq<Seq<char>>) -> Seq<
    (ReminderModel, Seq<char>),
> {
    Seq::new(
        if reminders.len() <= list_names.len() {
            reminders.len()
        } else {
            list_names.len()
        },
        |i: int| (reminders[i], list_names[i]),
    )
}

/// Pairs each reminder with the list name at the same place.
pub fn zip_with_list_names(reminders: &Vec<Reminder>, list_names: &Vec<String>) -> (index: Vec<
    (Reminder, String),
>)
    ensures
        index.deep_view() == zipped(reminders.deep_view(), list_names.deep_view()),
{
    let count = if reminders.len() <= list_names.len() {
        reminders.len()
    } else {
        list_names.len()
    };
    let ghost expected = zipped(reminders.deep_view(), list_names.deep_view());
    let mut index: Vec<(Reminder, String)> = Vec::new();
    let mut i: usize = 0;
    while i < count
        invariant
            i <= count,
            count <= reminders.len(),
            count <= list_names.len(),
            count == expected.len(),
            expected == zipped(reminders.deep_view(), list_names.deep_view()),
            index.deep_view() == expected.take(i as int),
        decreases count - i,
    {
        let ghost before = index.deep_view();
        index.push((reminders[i].clone(), list_names[i].clone()));
        assert(index.deep_view() == before.push((reminders[i as int]@, list_names[i as int]@)));
        assert(expected.take(i + 1) == expected.take(i as int).push(expected[i as int]));
        i += 1;
    }
    assert(expected.take(count as int) == expected);
    index
}

impl Session {
    /// Opens a session on the lists that the host has so far.
    pub fn open(lists: Vec<ReminderList>) -> (session: Result<Session, RemError>)
        ensures
            session matches Ok(session) && session@ == (SessionModel {
                app: AppModel::initial(lists.deep_view()),
                is_initialized: true,
            }),
    {
        match TUIApp::new(lists) {
            Ok(app) => Ok(Session { app, is_initialized: true }),
            Err(error) => Err(error),
        }
    }

    pub fn is_initialized(&self) -> (initialized: bool)
        ensures
            initialized == self@.is_initialized,
    {
        self.is_initialized
    }

    pub fn app(&self) -> (app: &TUIApp)
        ensures
            app@ == self@.app,
    {
        &self.app
    }

    /// The state machine, for the host to drive.
    pub fn app_mut(&mut self) -> (app: &mut TUIApp)
        ensures
            app@ == old(self)@.app,
            final(self)@ == (SessionModel { app: final(app)@, ..old(self)@ }),
    {
        &mut self.app
    }

    /// Marks the session as shut down.
    pub fn shut_down(&mut self)
        ensures
            final(self)@ == (SessionModel { is_initialized: false, ..old(self)@ }),
    {
        self.is_initialized = false;
    }

    /// Takes the reminders of the open list from the host and notes it in the
    /// status log.
    pub fn load_reminders(&mut self, reminders: Vec<Reminder>)
        ensures
            final(self)@ == (SessionModel {
                app: old(self)@.app.with_status(MSG_REMINDERS_LOADED@).set_reminders(
                    reminders.deep_view(),
                ),
                ..old(self)@
            }),
    {
        self.app.add_status_log(MSG_REMINDERS_LOADED.to_owned());
        self.app.set_reminders(reminders);
    }

    /// Takes the result of a global search from the host: the reminders, and
    /// for each the name of its list at the same place.
    pub fn load_global_reminders(&mut self, reminders: Vec<Reminder>, list_names: Vec<String>)
        ensures
            final(self)@ == (SessionModel {
                app: old(self)@.app.with_status(
                    MSG_GLOBAL_SEARCH_COMPLETED@,
                ).set_reminders_with_global_data(
                    reminders.deep_view(),
                    zipped(reminders.deep_view(), list_names.deep_view()),
                ),
                ..old(self)@
            }),
    {
        self.app.add_status_log(MSG_GLOBAL_SEARCH_COMPLETED.to_owned());
        let index = zip_with_list_names(&reminders, &list_names);
        self.app.set_reminders_with_global_data(reminders, index);
    }
}

/// Whether the interactive loop can go on in the session of the slot: there
/// is a session, and it was not shut down.
pub fn check_resumable(slot: &Option<Session>) -> (outcome: Result<(), RemError>)
    ensures
        match slot {
            Some(session) => if session@.is_initialized {
                outcome is Ok
            } else {
                outcome matches Err(error) && error@ == not_properly_initialized()
            },
            None => outcome matches Err(error) && error@ == not_initialized(),
        },
{
    match slot {
        Some(session) => {
            if session.is_initialized {
                Ok(())
            } else {
                Err(RemError::TUIError { message: MSG_NOT_PROPERLY_INITIALIZED.to_owned() })
            }
        },
        None => Err(RemError::TUIError { message: MSG_NOT_INITIALIZED.to_owned() }),
    }
}

/// Takes the reminders of the open list into the session of the slot.
pub fn set_reminders(slot: &mut Option<Session>, reminders: Vec<Reminder>) -> (outcome: Result<
    (),
    RemError,
>)
    ensures
        match old(slot).deep_view() {
            Some(session) => outcome is Ok && final(slot).deep_view() == Some(
                SessionModel {
                    app: session.app.with_status(MSG_REMINDERS_LOADED@).set_reminders(
                        reminders.deep_view(),
                    ),
                    ..session
                },
            ),
            None => *final(slot) is None && (outcome matches Err(error) && error@
                == not_initialized()),
        },
{
    let taken = slot.take();
    match taken {
        Some(session) => {
            let mut session = session;
            session.load_reminders(reminders);
            *slot = Some(session);
            Ok(())
        },
        None => Err(RemError::TUIError { message: MSG_NOT_INITIALIZED.to_owned() }),
    }
}

/// Takes the result of a global search into the session of the slot.
pub fn set_global_reminders(
    slot: &mut Option<Session>,
    reminders: Vec<Reminder>,
    list_names: Vec<String>,
) -> (outcome: Result<(), RemError>)
    ensures
        match old(slot).deep_view() {
            Some(session) => outcome is Ok && final(slot).deep_view() == Some(
                SessionModel {
                    app: session.app.with_status(
                        MSG_GLOBAL_SEARCH_COMPLETED@,
                    ).set_reminders_with_global_data(
                        reminders.deep_view(),
                        zipped(reminders.deep_view(), list_names.deep_view()),
                    ),
                    ..session
                },
            ),
            None => *final(slot) is None && (outcome matches Err(error) && error@
                == not_initialized()),
        },
{
    let taken = slot.take();
    match taken {
        Some(session) => {
            let mut session = session;
            session.load_global_reminders(reminders, list_names);
            *slot = Some(session);
            Ok(())
        },
        None => Err(RemError::TUIError { message: MSG_NOT_INITIALIZED.to_owned() }),
    }
}

/// Ends the session of the slot, if there is one, and says whether the
/// terminal has to be restored.
pub fn shut_down(slot: &mut Option<Session>) -> (restore: bool)
    ensures
        *final(slot) is None,
        restore == (*old(slot) is Some),
{
    let taken = slot.take();
    match taken {
        Some(session) => {
            let mut session = session;
            session.shut_down();
            true
        },
        None => false,
    }
}

} // verus!

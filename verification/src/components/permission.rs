//! The permission dialog: it learns whether the program may read the
//! reminders, asks for the permission where it can, and reports failure.

use crate::action::{Action, ActionModel};
use crate::eventkit::PermissionStatus;
use crate::keys::{Key, KeyPress};
use crate::text::{result_model, same_text};
use vstd::prelude::*;
use vstd::std_specs::cmp::PartialEqSpecImpl;

verus! {

pub const MSG_RESTRICTED: &'static str = "Reminders access is restricted";

pub const MSG_INIT_FAILED_HEAD: &'static str = "EventKit initialization failed: ";

pub const MSG_REQUEST_FAILED_HEAD: &'static str = "Failed to request permissions: ";

/// Model of a [`PermissionState`].
pub enum PermissionStateModel {
    Checking,
    NeedsPermission,
    Requesting,
    Granted,
    Denied,
    Error(Seq<char>),
}

/// Where the dialog stands.
#[derive(Debug)]
pub enum PermissionState {
    Checking,
    NeedsPermission,
    Requesting,
    Granted,
    Denied,
    Error(String),
}

impl View for PermissionState {
    type V = PermissionStateModel;

    open spec fn view(&self) -> PermissionStateModel {
        match self {
            PermissionState::Checking => PermissionStateModel::Checking,
            PermissionState::NeedsPermission => PermissionStateModel::NeedsPermission,
            PermissionState::Requesting => PermissionStateModel::Requesting,
            PermissionState::Granted => PermissionStateModel::Granted,
            PermissionState::Denied => PermissionStateModel::Denied,
            PermissionState::Error(message) => PermissionStateModel::Error(message@),
        }
    }
}

impl Clone for PermissionState {
    fn clone(&self) -> (copy: Self)
        ensures
            copy == *self,
    {
        match self {
            PermissionState::Checking => PermissionState::Checking,
            PermissionState::NeedsPermission => PermissionState::NeedsPermission,
            PermissionState::Requesting => PermissionState::Requesting,
            PermissionState::Granted => PermissionState::Granted,
            PermissionState::Denied => PermissionState::Denied,
            PermissionState::Error(message) => PermissionState::Error(message.clone()),
        }
    }
}

impl PartialEq for PermissionState {
    fn eq(&self, other: &PermissionState) -> (same: bool) {
        match (self, other) {
            (PermissionState::Checking, PermissionState::Checking) => true,
            (PermissionState::NeedsPermission, PermissionState::NeedsPermission) => true,
            (PermissionState::Requesting, PermissionState::Requesting) => true,
            (PermissionState::Granted, PermissionState::Granted) => true,
            (PermissionState::Denied, PermissionState::Denied) => true,
            (PermissionState::Error(a), PermissionState::Error(b)) => same_text(
                a.as_str(),
                b.as_str(),
            ),
            _ => false,
        }
    }
}

impl PartialEqSpecImpl for PermissionState {
    open spec fn obeys_eq_spec() -> bool {
        true
    }

    open spec fn eq_spec(&self, other: &PermissionState) -> bool {
        self@ == other@
    }
}

impl Eq for PermissionState {

}

/// What a message asks the dialog's host to do.
#[derive(Clone, Copy, Debug, PartialEq, Eq, Structural)]
pub enum PermissionWork {
    /// Nothing.
    Nothing,
    /// Open the store, read the status, and hand it to
    /// [`PermissionComponent::check_permissions`].
    Check,
    /// Ask the user through the store, and hand the answer to
    /// [`PermissionComponent::request_permissions`].
    Request,
}

/// Model of a [`PermissionComponent`].
pub struct PermissionModel {
    pub state: PermissionStateModel,
    /// The dialog holds an open store.
    pub holds_store: bool,
}

impl PermissionModel {
    pub open spec fn initial() -> PermissionModel {
        PermissionModel { state: PermissionStateModel::Checking, holds_store: false }
    }

    /// The dialog after the store was opened and the status read, or after
    /// opening failed with a message.
    ///
    /// - authorized: granted, and the lists are to be loaded;
    /// - not determined: the user has to be asked;
    /// - denied: denied, and the store is let go;
    /// - restricted, or the store failed to open: an error.
    pub open spec fn checked(self, outcome: Result<PermissionStatus, Seq<char>>) -> PermissionModel {
        match outcome {
            Ok(PermissionStatus::Authorized) => PermissionModel {
                state: PermissionStateModel::Granted,
                holds_store: true,
            },
            Ok(PermissionStatus::NotDetermined) => PermissionModel {
                state: PermissionStateModel::NeedsPermission,
                holds_store: true,
            },
            Ok(PermissionStatus::Denied) => PermissionModel {
                state: PermissionStateModel::Denied,
                ..self
            },
            Ok(PermissionStatus::Restricted) => PermissionModel {
                state: PermissionStateModel::Error(MSG_RESTRICTED@),
                ..self
            },
            Err(message) => PermissionModel {
                state: PermissionStateModel::Error(MSG_INIT_FAILED_HEAD@ + message),
                ..self
            },
        }
    }

    /// The message that follows a check: the lists are to be loaded once the
    /// permission is there.
    pub open spec fn after_check(outcome: Result<PermissionStatus, Seq<char>>) -> Option<
        ActionModel,
    > {
        match outcome {
            Ok(PermissionStatus::Authorized) => Some(ActionModel::LoadLists),
            _ => None,
        }
    }

    /// The dialog after the user was asked: granted or denied as the user
    /// said, or an error if asking failed. A dialog without a store does not
    /// ask and stays as it is.
    pub open spec fn requested(self, answer: Result<bool, Seq<char>>) -> PermissionModel {
        if self.holds_store {
            PermissionModel {
                state: match answer {
                    Ok(granted) => if granted {
                        PermissionStateModel::Granted
                    } else {
                        PermissionStateModel::Denied
                    },
                    Err(message) => PermissionStateModel::Error(
                        MSG_REQUEST_FAILED_HEAD@ + message,
                    ),
                },
                ..self
            }
        } else {
            self
        }
    }

    /// The message that follows a request.
    pub open spec fn after_request(self, answer: Result<bool, Seq<char>>) -> Option<ActionModel> {
        if self.holds_store && answer == Ok::<bool, Seq<char>>(true) {
            Some(ActionModel::LoadLists)
        } else {
            None
        }
    }

    /// The message that a key press sends: Enter asks for the permission
    /// where it has to be asked for, and `q` quits where asking is possible
    /// or has failed.
    pub open spec fn key(self, key: KeyPress) -> Option<ActionModel> {
        match self.state {
            PermissionStateModel::NeedsPermission => match key.code {
                Key::Enter => Some(ActionModel::RequestPermissions),
                Key::Char('q') => Some(ActionModel::Quit),
                _ => None,
            },
            PermissionStateModel::Denied | PermissionStateModel::Error(_) => match key.code {
                Key::Char('q') => Some(ActionModel::Quit),
                _ => None,
            },
            _ => None,
        }
    }
}

/// The work that a message asks for.
pub open spec fn work_for(action: ActionModel) -> PermissionWork {
    match action {
        ActionModel::CheckPermissions => PermissionWork::Check,
        ActionModel::RequestPermissions => PermissionWork::Request,
        _ => PermissionWork::Nothing,
    }
}

/// The permission dialog.
#[derive(Debug)]
pub struct PermissionComponent {
    state: PermissionState,
    holds_store: bool,
}

impl View for PermissionComponent {
    type V = PermissionModel;

    closed spec fn view(&self) -> PermissionModel {
        PermissionModel { state: self.state@, holds_store: self.holds_store }
    }
}

impl PermissionComponent {
    pub fn new() -> (dialog: PermissionComponent)
        ensures
            dialog@ == PermissionModel::initial(),
    {
        PermissionComponent { state: PermissionState::Checking, holds_store: false }
    }

    pub fn get_state(&self) -> (state: &PermissionState)
        ensures
            state@ == self@.state,
    {
        &self.state
    }

    /// Whether the dialog holds an open store for the program to read from.
    pub fn holds_store(&self) -> (holds: bool)
        ensures
            holds == self@.holds_store,
    {
        self.holds_store
    }

    /// What a message asks the dialog's host to do.
    pub fn update(&self, action: &Action) -> (work: PermissionWork)
        ensures
            work == work_for(action@),
    {
        match action {
            Action::CheckPermissions => PermissionWork::Check,
            Action::RequestPermissions => PermissionWork::Request,
            _ => PermissionWork::Nothing,
        }
    }

    /// Takes the result of opening the store and reading the status.
    pub fn check_permissions(&mut self, outcome: Result<PermissionStatus, String>) -> (next:
        Option<Action>)
        ensures
            final(self)@ == old(self)@.checked(result_model(outcome)),
            next.deep_view() == PermissionModel::after_check(result_model(outcome)),
    {
        match outcome {
            Ok(PermissionStatus::Authorized) => {
                self.state = PermissionState::Granted;
                self.holds_store = true;
                Some(Action::LoadLists)
            },
            Ok(PermissionStatus::NotDetermined) => {
                self.state = PermissionState::NeedsPermission;
                self.holds_store = true;
                None
            },
            Ok(PermissionStatus::Denied) => {
                self.state = PermissionState::Denied;
                None
            },
            Ok(PermissionStatus::Restricted) => {
                self.state = PermissionState::Error(MSG_RESTRICTED.to_owned());
                None
            },
            Err(message) => {
                self.state = PermissionState::Error(
                    MSG_INIT_FAILED_HEAD.to_owned().concat(message.as_str()),
                );
                None
            },
        }
    }

    /// Notes that the user is being asked. Does nothing, and says so, if the
    /// dialog holds no store to ask through.
    pub fn begin_request(&mut self) -> (asking: bool)
        ensures
            asking == old(self)@.holds_store,
            final(self)@ == if asking {
                PermissionModel { state: PermissionStateModel::Requesting, ..old(self)@ }
            } else {
                old(self)@
            },
    {
        if self.holds_store {
            self.state = PermissionState::Requesting;
            true
        } else {
            false
        }
    }

    /// Takes the user's answer, or the failure to ask.
    pub fn request_permissions(&mut self, answer: Result<bool, String>) -> (next: Option<Action>)
        ensures
            final(self)@ == old(self)@.requested(result_model(answer)),
            next.deep_view() == old(self)@.after_request(result_model(answer)),
    {
        if !self.holds_store {
            return None;
        }
        match answer {
            Ok(granted) => {
                if granted {
                    self.state = PermissionState::Granted;
                    Some(Action::LoadLists)
                } else {
                    self.state = PermissionState::Denied;
                    None
                }
            },
            Err(message) => {
                self.state = PermissionState::Error(
                    MSG_REQUEST_FAILED_HEAD.to_owned().concat(message.as_str()),
                );
                None
            },
        }
    }

    /// The message that a key press sends.
    pub fn handle_key_event(&self, key: KeyPress) -> (next: Option<Action>)
        ensures
            next.deep_view() == self@.key(key),
    {
        match &self.state {
            PermissionState::NeedsPermission => match key.code {
                Key::Enter => Some(Action::RequestPermissions),
                Key::Char('q') => Some(Action::Quit),
                _ => None,
            },
            PermissionState::Denied | PermissionState::Error(_) => match key.code {
                Key::Char('q') => Some(Action::Quit),
                _ => None,
            },
            _ => None,
        }
    }
}

impl Clone for PermissionComponent {
    /// A copy of the dialog. The store is not shared: the copy holds none.
    fn clone(&self) -> (copy: Self)
        ensures
            copy@ == (PermissionModel { holds_store: false, ..self@ }),
    {
        PermissionComponent { state: self.state.clone(), holds_store: false }
    }
}

} // verus!

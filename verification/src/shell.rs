//! The shell of the stand-alone program: which panel has the screen, and
//! when the program ends.

use crate::action::{Action, ActionModel};
use crate::clock::{is_within_window, within_window};
use vstd::prelude::*;

verus! {

/// Control-C pressed twice within this many milliseconds ends the program.
pub const DOUBLE_CTRL_C_MS: u64 = 500;

/// Which panel has the screen.
#[derive(Clone, Copy, Debug, PartialEq, Eq, Hash, Structural)]
pub enum Mode {
    Home,
    Permission,
    Lists,
    Reminders,
}

impl Default for Mode {
    fn default() -> (mode: Mode)
        ensures
            mode == Mode::Home,
    {
        Mode::Home
    }
}

/// The shell's own state.
#[derive(Clone, Copy, Debug, PartialEq, Eq, Structural)]
pub struct Shell {
    pub mode: Mode,
    pub should_quit: bool,
    pub should_suspend: bool,
    /// When Control-C was last pressed without ending the program.
    pub last_ctrl_c_time: Option<u64>,
    /// The store is open.
    pub has_store: bool,
    /// The panel of lists exists.
    pub has_lists_panel: bool,
    /// The panel of reminders exists.
    pub has_reminders_panel: bool,
}

impl Shell {
    /// The shell at start: the permission dialog has the screen.
    pub open spec fn initial() -> Shell {
        Shell {
            mode: Mode::Permission,
            should_quit: false,
            should_suspend: false,
            last_ctrl_c_time: None,
            has_store: false,
            has_lists_panel: false,
            has_reminders_panel: false,
        }
    }

    /// The shell after Control-C at the time `now`: the program ends if the
    /// key was pressed less than half a second before; else the time is
    /// remembered.
    pub open spec fn ctrl_c(self, now: u64) -> Shell {
        if within_window(self.last_ctrl_c_time, now, DOUBLE_CTRL_C_MS) {
            Shell { should_quit: true, ..self }
        } else {
            Shell { last_ctrl_c_time: Some(now), ..self }
        }
    }

    /// The shell after a message. `dialog_holds_store` says whether the
    /// permission dialog holds an open store.
    ///
    /// - Quit, Suspend and Resume set and clear the shell's marks.
    /// - LoadLists opens the panel of lists, if the dialog holds a store.
    /// - SelectList opens the panel of reminders, if there is a panel of
    ///   lists.
    /// - Back closes the panel that has the screen and gives the screen to
    ///   the one before it.
    pub open spec fn after(self, action: ActionModel, dialog_holds_store: bool) -> Shell {
        match action {
            ActionModel::Quit => Shell { should_quit: true, ..self },
            ActionModel::Suspend => Shell { should_suspend: true, ..self },
            ActionModel::Resume => Shell { should_suspend: false, ..self },
            ActionModel::LoadLists => if dialog_holds_store {
                Shell { has_store: true, has_lists_panel: true, mode: Mode::Lists, ..self }
            } else {
                self
            },
            ActionModel::SelectList(_) => if self.has_lists_panel {
                Shell { has_reminders_panel: true, mode: Mode::Reminders, ..self }
            } else {
                self
            },
            ActionModel::Back => match self.mode {
                Mode::Reminders => Shell { has_reminders_panel: false, mode: Mode::Lists, ..self },
                Mode::Lists => Shell { has_lists_panel: false, mode: Mode::Permission, ..self },
                _ => self,
            },
            _ => self,
        }
    }

    /// The message that the shell sends itself after a message: the
    /// reminders of a list are to be loaded once its panel is open.
    pub open spec fn follow_up(self, action: ActionModel) -> Option<ActionModel> {
        match action {
            ActionModel::SelectList(list_id) => if self.has_lists_panel {
                Some(ActionModel::LoadReminders(list_id))
            } else {
                None
            },
            _ => None,
        }
    }

    /// The shell at start.
    pub fn new() -> (shell: Shell)
        ensures
            shell == Shell::initial(),
    {
        Shell {
            mode: Mode::Permission,
            should_quit: false,
            should_suspend: false,
            last_ctrl_c_time: None,
            has_store: false,
            has_lists_panel: false,
            has_reminders_panel: false,
        }
    }

    /// Handles Control-C pressed at the time `now`.
    pub fn handle_ctrl_c(&mut self, now: u64)
        ensures
            *final(self) == old(self).ctrl_c(now),
    {
        if is_within_window(self.last_ctrl_c_time, now, DOUBLE_CTRL_C_MS) {
            self.should_quit = true;
        } else {
            self.last_ctrl_c_time = Some(now);
        }
    }

    /// Handles a message and returns the message to send next, if any.
    pub fn handle_action(&mut self, action: &Action, dialog_holds_store: bool) -> (next: Option<
        Action,
    >)
        ensures
            *final(self) == old(self).after(action@, dialog_holds_store),
            next.deep_view() == old(self).follow_up(action@),
    {
        match action {
            Action::Quit => {
                self.should_quit = true;
                None
            },
            Action::Suspend => {
                self.should_suspend = true;
                None
            },
            Action::Resume => {
                self.should_suspend = false;
                None
            },
            Action::LoadLists => {
                if dialog_holds_store {
                    self.has_store = true;
                    self.has_lists_panel = true;
                    self.mode = Mode::Lists;
                }
                None
            },
            Action::SelectList(list_id) => {
                if self.has_lists_panel {
                    self.has_reminders_panel = true;
                    self.mode = Mode::Reminders;
                    Some(Action::LoadReminders(list_id.clone()))
                } else {
                    None
                }
            },
            Action::Back => {
                match self.mode {
                    Mode::Reminders => {
                        self.has_reminders_panel = false;
                        self.mode = Mode::Lists;
                    },
                    Mode::Lists => {
                        self.has_lists_panel = false;
                        self.mode = Mode::Permission;
                    },
                    _ => {},
                }
                None
            },
            _ => None,
        }
    }
}

/// The title under which the panel of reminders opens for a list.
pub open spec fn list_title_text(list_id: Seq<char>) -> Seq<char> {
    "List "@ + list_id
}

/// The title under which the panel of reminders opens for a list.
pub fn list_title(list_id: &str) -> (title: String)
    ensures
        title@ == list_title_text(list_id@),
{
    "List ".to_owned().concat(list_id)
}

/// Back never leaves the three panels, and leads from each to the one
/// before it.
pub proof fn lemma_back_walks_toward_permission(shell: Shell, dialog_holds_store: bool)
    ensures
        shell.mode == Mode::Reminders ==> shell.after(ActionModel::Back, dialog_holds_store).mode
            == Mode::Lists,
        shell.mode == Mode::Lists ==> shell.after(ActionModel::Back, dialog_holds_store).mode
            == Mode::Permission,
        shell.mode == Mode::Permission ==> shell.after(ActionModel::Back, dialog_holds_store)
            == shell,
{
}

} // verus!

//! The state machine as mathematics: the state as a value, and each
//! transition as a function from state to state.
//!
//! The executable state machine is proved to follow these functions step by
//! step, so everything stated here of the model holds of the running code.

use crate::clock::{elapsed_ms, ANIMATION_STEP_MS};
use crate::form::{FormEventModel, FormModel};
use crate::keys::{Key, KeyPress, KeySequenceTracker};
use crate::search::{filtered, reminders_of, SearchModel};
use crate::types::{ReminderListModel, ReminderModel, TuiActionModel};
use vstd::prelude::*;

verus! {

/// The id that stands for "every list" on the screen of reminders.
pub const GLOBAL_LIST_ID: &'static str = "global";

/// The list name given to reminders that arrive without one while a global
/// search is open.
pub const UNKNOWN_LIST_NAME: &'static str = "Unknown List";

/// The status log keeps this many lines.
pub const STATUS_LOG_CAPACITY: usize = 5;

/// The loading animation has this many frames.
pub const ANIMATION_FRAMES: usize = 8;

pub const MSG_GLOBAL_CLOSED: &'static str = "🔍 Global search closed";

pub const MSG_GLOBAL_REACTIVATED: &'static str = "🔍 Global search reactivated...";

pub const MSG_GLOBAL_STARTED: &'static str = "🔍 Global search started...";

pub const MSG_LIST_STARTED: &'static str = "🔍 List search started...";

pub const MSG_SEARCH_CLEARED: &'static str = "🔍 Search cleared";

pub const MSG_SEARCH_EXITED: &'static str = "🔍 Search mode exited (ESC again to clear)";

pub const MSG_APPLIED_HEAD: &'static str = "🔍 Search for '";

pub const MSG_APPLIED_TAIL: &'static str = "' applied";

pub const MSG_TYPING_GLOBAL_HEAD: &'static str = "🔍 global search: '";

pub const MSG_TYPING_LIST_HEAD: &'static str = "🔍 list search: '";

pub const MSG_TYPING_TAIL: &'static str = "'";

pub const MSG_LOADING_REMINDERS: &'static str = "📋 Loading reminders...";

pub const MSG_COMPLETED_SHOWN: &'static str = "👁️ Completed todos shown";

pub const MSG_COMPLETED_HIDDEN: &'static str = "👁️ Completed todos hidden";

pub const MSG_TOGGLING: &'static str = "✅ Toggling reminder...";

pub const MSG_LOADING_HEAD: &'static str = "⏳ ";

pub const MSG_LISTS_LOADED: &'static str = "✅ Lists loaded successfully";

/// Model of a screen.
pub enum AppViewModel {
    Loading,
    Lists,
    Reminders { list_id: Seq<char> },
    CreateReminder,
}

/// The status log after one more line: the line is added at the end, and
/// the oldest line leaves if that makes more than five.
pub open spec fn push_bounded(log: Seq<Seq<char>>, line: Seq<char>) -> Seq<Seq<char>> {
    let longer = log.push(line);
    if longer.len() > STATUS_LOG_CAPACITY {
        longer.drop_first()
    } else {
        longer
    }
}

/// Every reminder paired with the placeholder list name.
pub open spec fn with_unknown_list(reminders: Seq<ReminderModel>) -> Seq<
    (ReminderModel, Seq<char>),
> {
    reminders.map_values(|r: ReminderModel| (r, UNKNOWN_LIST_NAME@))
}

/// `i` is the place of the first entry of `index` whose reminder has the id
/// `id`.
pub open spec fn is_first_entry_with_id(
    index: Seq<(ReminderModel, Seq<char>)>,
    id: Seq<char>,
    i: int,
) -> bool {
    &&& 0 <= i < index.len()
    &&& index[i].0.id == id
    &&& forall|j: int| 0 <= j < i ==> (#[trigger] index[j]).0.id != id
}

/// The list name of the first entry of `index` whose reminder has the id
/// `id`, if there is one.
pub open spec fn list_name_of(index: Seq<(ReminderModel, Seq<char>)>, id: Seq<char>) -> Option<
    Seq<char>,
> {
    if exists|i: int| is_first_entry_with_id(index, id, i) {
        Some(index[choose|i: int| is_first_entry_with_id(index, id, i)].1)
    } else {
        None
    }
}

/// The status line for a query being typed.
pub open spec fn typing_message(is_global: bool, query: Seq<char>) -> Seq<char> {
    (if is_global {
        MSG_TYPING_GLOBAL_HEAD@
    } else {
        MSG_TYPING_LIST_HEAD@
    }) + query + MSG_TYPING_TAIL@
}

/// The status line for a query that was confirmed.
pub open spec fn applied_message(query: Seq<char>) -> Seq<char> {
    MSG_APPLIED_HEAD@ + query + MSG_APPLIED_TAIL@
}

/// Model of the whole state machine.
#[verifier::ext_equal]
pub struct AppModel {
    pub lists: Seq<ReminderListModel>,
    /// The reminders of the open list.
    pub current_reminders: Seq<ReminderModel>,
    pub current_view: AppViewModel,
    /// The screen to come back to when the form closes.
    pub previous_view: Option<AppViewModel>,
    /// The selected row, counted in what is shown.
    pub selected_index: usize,
    /// The row that the list widget highlights.
    pub list_cursor: Option<usize>,
    /// The intents emitted since the host last collected them.
    pub actions: Seq<TuiActionModel>,
    pub should_exit: bool,
    pub keys: KeySequenceTracker,
    pub create_form: Option<FormModel>,
    pub status_log: Seq<Seq<char>>,
    pub is_loading: bool,
    pub loading_message: Seq<char>,
    pub loading_animation_state: usize,
    pub last_animation_update: Option<u64>,
    pub show_completed_todos: bool,
    pub search: SearchModel,
    /// The global index: every reminder with the name of its list.
    pub all_reminders: Seq<(ReminderModel, Seq<char>)>,
}

impl AppModel {
    /// The state at start: the loading screen if there are no lists yet,
    /// else the screen of lists with the first list selected.
    pub open spec fn initial(lists: Seq<ReminderListModel>) -> AppModel {
        AppModel {
            lists,
            current_reminders: Seq::empty(),
            current_view: if lists.len() == 0 {
                AppViewModel::Loading
            } else {
                AppViewModel::Lists
            },
            previous_view: None,
            selected_index: 0,
            list_cursor: if lists.len() == 0 {
                None
            } else {
                Some(0)
            },
            actions: Seq::empty(),
            should_exit: false,
            keys: KeySequenceTracker { last_key: None, last_key_time: None },
            create_form: None,
            status_log: Seq::empty(),
            is_loading: false,
            loading_message: Seq::empty(),
            loading_animation_state: 0,
            last_animation_update: None,
            show_completed_todos: false,
            search: SearchModel::initial(),
            all_reminders: Seq::empty(),
        }
    }

    /// The highlighted row, if there is one, is the selected row.
    pub open spec fn cursor_mirrors_selection(self) -> bool {
        self.list_cursor is None || self.list_cursor == Some(self.selected_index)
    }

    /// What the constructor establishes and every transition keeps: the
    /// search flag is in line with the query, an open form is well formed,
    /// the status log holds at most five lines, and the list widget
    /// highlights the selected row or none.
    ///
    /// Whether a row is highlighted at all is the matter of
    /// [`Self::cursor_follows`]: on the screen of lists the same cursor walks
    /// the lists, so it can follow what is shown only on the screen of
    /// reminders.
    pub open spec fn wf(self) -> bool {
        &&& self.search.consistent()
        &&& self.create_form matches Some(form) ==> form.wf()
        &&& self.status_log.len() <= STATUS_LOG_CAPACITY
        &&& self.loading_animation_state < ANIMATION_FRAMES
        &&& self.cursor_mirrors_selection()
    }

    /// The screen of reminders is open on the global search.
    pub open spec fn in_global_view(self) -> bool {
        self.current_view == (AppViewModel::Reminders { list_id: GLOBAL_LIST_ID@ })
    }

    /// The reminders that the filter draws from: the global index for a
    /// global search, else the open list.
    pub open spec fn source(self) -> Seq<ReminderModel> {
        if self.search.is_global {
            reminders_of(self.all_reminders)
        } else {
            self.current_reminders
        }
    }

    /// The reminders that are shown, in the order of their source.
    pub open spec fn filtered(self) -> Seq<ReminderModel> {
        filtered(self.source(), self.search.query, self.show_completed_todos)
    }

    /// The cursor agrees with what is shown: no row is highlighted when
    /// nothing is shown, else the selected row exists and is highlighted.
    pub open spec fn cursor_in_step(self) -> bool {
        if self.filtered().len() == 0 {
            self.list_cursor is None && self.selected_index == 0
        } else {
            self.selected_index < self.filtered().len() && self.list_cursor == Some(
                self.selected_index,
            )
        }
    }

    /// On the screen of reminders the cursor agrees with what is shown: no
    /// row is highlighted exactly when nothing is shown. Every key press and
    /// everything the host supplies keeps this; the setters that change the
    /// search, the visibility of completed reminders or the screen directly
    /// leave the cursor alone.
    pub open spec fn cursor_follows(self) -> bool {
        self.current_view is Reminders ==> self.cursor_in_step()
    }

    /// On the screen of reminders the selection is brought in step with what
    /// is shown; on every other screen it is left alone.
    pub open spec fn cursor_followed(self) -> AppModel {
        if self.current_view is Reminders {
            self.selection_reset()
        } else {
            self
        }
    }

    /// The id of the selected reminder, if the selected row exists.
    pub open spec fn selected_reminder_id(self) -> Option<Seq<char>> {
        if self.selected_index < self.filtered().len() {
            Some(self.filtered()[self.selected_index as int].id)
        } else {
            None
        }
    }

    /// A line is added to the status log.
    pub open spec fn with_status(self, line: Seq<char>) -> AppModel {
        AppModel { status_log: push_bounded(self.status_log, line), ..self }
    }

    /// An intent is emitted.
    pub open spec fn emit(self, action: TuiActionModel) -> AppModel {
        AppModel { actions: self.actions.push(action), ..self }
    }

    pub open spec fn with_view(self, view: AppViewModel) -> AppModel {
        AppModel { current_view: view, ..self }
    }

    pub open spec fn with_search(self, search: SearchModel) -> AppModel {
        AppModel { search, ..self }
    }

    pub open spec fn with_show_completed(self, show: bool) -> AppModel {
        AppModel { show_completed_todos: show, ..self }
    }

    /// The intents are handed over: none is pending any more.
    pub open spec fn without_actions(self) -> AppModel {
        AppModel { actions: Seq::empty(), ..self }
    }

    /// The host supplies the reminders of the open list. While a global
    /// search is open they also become the global index, each under the
    /// placeholder list name. The selection goes to the first row that is
    /// shown: no row is highlighted if none is shown.
    pub open spec fn set_reminders(self, reminders: Seq<ReminderModel>) -> AppModel {
        AppModel {
            current_reminders: reminders,
            all_reminders: if self.search.is_global || self.in_global_view() {
                with_unknown_list(reminders)
            } else {
                self.all_reminders
            },
            selected_index: 0,
            ..self
        }.selection_reset()
    }

    /// The host supplies the reminders of the open list together with the
    /// global index. The selection goes to the first row that is shown: no
    /// row is highlighted if none is shown.
    pub open spec fn set_reminders_with_global_data(
        self,
        reminders: Seq<ReminderModel>,
        all_reminders: Seq<(ReminderModel, Seq<char>)>,
    ) -> AppModel {
        AppModel {
            current_reminders: reminders,
            all_reminders,
            selected_index: 0,
            ..self
        }.selection_reset()
    }

    /// The host supplies the global index. On the screen of reminders the
    /// selection is brought in step with what is then shown.
    pub open spec fn set_all_reminders(
        self,
        all_reminders: Seq<(ReminderModel, Seq<char>)>,
    ) -> AppModel {
        AppModel { all_reminders, ..self }.cursor_followed()
    }

    /// The host reports that it is loading, or that it has stopped. Loading
    /// is also noted in the status log.
    pub open spec fn set_loading(self, loading: bool, message: Seq<char>) -> AppModel {
        let noted = if loading {
            self.with_status(MSG_LOADING_HEAD@ + message)
        } else {
            self
        };
        AppModel { is_loading: loading, loading_message: message, ..noted }
    }

    /// The host supplies the lists. The loading screen gives way to the
    /// screen of lists once there is a list to show.
    pub open spec fn set_lists(self, lists: Seq<ReminderListModel>) -> AppModel {
        let stored = AppModel { lists, ..self };
        if lists.len() > 0 && self.current_view is Loading {
            stored.with_view(AppViewModel::Lists).with_status(MSG_LISTS_LOADED@)
        } else {
            stored
        }
    }

    /// The selection is brought in step with what is shown: no row when
    /// nothing is shown, else the selected row, or the last row if the
    /// selected one is gone.
    pub open spec fn selection_reset(self) -> AppModel {
        let count = self.filtered().len();
        if count == 0 {
            AppModel { selected_index: 0, list_cursor: None, ..self }
        } else {
            let row = if self.selected_index >= count {
                (count - 1) as usize
            } else {
                self.selected_index
            };
            AppModel { selected_index: row, list_cursor: Some(row), ..self }
        }
    }

    /// Up among `count` rows: the row above, or the last row from the first.
    pub open spec fn moved_up(self, count: nat) -> AppModel {
        if count == 0 {
            self
        } else {
            let row = if self.selected_index > 0 {
                (self.selected_index - 1) as usize
            } else {
                (count - 1) as usize
            };
            AppModel { selected_index: row, list_cursor: Some(row), ..self }
        }
    }

    /// Down among `count` rows: the row below, or the first row from the
    /// last.
    pub open spec fn moved_down(self, count: nat) -> AppModel {
        if count == 0 {
            self
        } else {
            let row = if self.selected_index < count - 1 {
                (self.selected_index + 1) as usize
            } else {
                0
            };
            AppModel { selected_index: row, list_cursor: Some(row), ..self }
        }
    }

    /// `h`: completed reminders are shown if they were hidden, and hidden if
    /// they were shown.
    pub open spec fn completed_toggled(self) -> AppModel {
        let show = !self.show_completed_todos;
        self.with_show_completed(show).with_status(
            if show {
                MSG_COMPLETED_SHOWN@
            } else {
                MSG_COMPLETED_HIDDEN@
            },
        )
    }

    /// The form opens over the current screen.
    pub open spec fn form_opened(self, default_list_id: Option<Seq<char>>) -> AppModel {
        AppModel {
            previous_view: Some(self.current_view),
            create_form: Some(FormModel::opened(self.lists, default_list_id)),
            current_view: AppViewModel::CreateReminder,
            ..self
        }
    }

    /// The form closes, and the screen it was opened over comes back: the
    /// screen of lists if none was remembered. Back on the screen of
    /// reminders the selection is brought in step with what is shown.
    pub open spec fn form_closed(self) -> AppModel {
        AppModel {
            current_view: match self.previous_view {
                Some(view) => view,
                None => AppViewModel::Lists,
            },
            previous_view: None,
            create_form: None,
            ..self
        }.cursor_followed()
    }

    /// The global search is left for the screen of lists.
    pub open spec fn global_search_left(self) -> AppModel {
        self.with_view(AppViewModel::Lists).emit(TuiActionModel::Back).with_status(
            MSG_GLOBAL_CLOSED@,
        )
    }

    /// The flag of the search is brought in line with the query, and a query
    /// that is not empty is noted in the status log.
    pub open spec fn search_results_updated(self) -> AppModel {
        let refreshed = self.with_search(self.search.refreshed());
        if self.search.query.len() > 0 {
            refreshed.with_status(typing_message(self.search.is_global, self.search.query))
        } else {
            refreshed
        }
    }

    /// A key while a query is being typed, or Escape on the screen of
    /// reminders within a second of the Escape that closed the query line.
    ///
    /// - Escape, first: the query line closes; the query stays in force and
    ///   the screen stays.
    /// - Escape, second within a second: the search is forgotten, and the
    ///   global search is left for the screen of lists.
    /// - A character or Backspace edits the query.
    /// - Enter closes the query line; an empty query is forgotten.
    ///
    /// After every change of the query the selection is brought in step.
    pub open spec fn search_key(self, key: KeyPress, now: u64) -> AppModel {
        match key.code {
            Key::Esc => {
                if self.search.escape_pending(now) {
                    let cleared = self.with_search(SearchModel::initial()).selection_reset();
                    if cleared.in_global_view() {
                        cleared.global_search_left()
                    } else {
                        cleared.with_status(MSG_SEARCH_CLEARED@)
                    }
                } else {
                    self.with_search(self.search.escaped(now)).with_status(MSG_SEARCH_EXITED@)
                }
            },
            Key::Char(c) => self.with_search(
                self.search.add_char(c),
            ).search_results_updated().selection_reset(),
            Key::Backspace => self.with_search(
                self.search.remove_char(),
            ).search_results_updated().selection_reset(),
            Key::Enter => {
                if self.search.query.len() > 0 {
                    self.with_search(self.search.exited()).with_status(
                        applied_message(self.search.query),
                    ).selection_reset()
                } else {
                    self.with_search(SearchModel::initial()).with_status(
                        MSG_SEARCH_CLEARED@,
                    ).selection_reset()
                }
            },
            _ => self,
        }
    }

    /// A key on the screen of lists.
    ///
    /// - `q`, Escape: quit.
    /// - Up, `k`, Down, `j`: move the selection, around the ends.
    /// - Enter: open the selected list; the selection follows what that
    ///   screen shows.
    /// - `c`: open the form, with the selected list preselected.
    /// - `h`: show or hide completed reminders.
    pub open spec fn lists_key(self, key: KeyPress) -> AppModel {
        match key.code {
            Key::Char('q') | Key::Esc => AppModel {
                should_exit: true,
                ..self.emit(TuiActionModel::Quit)
            },
            Key::Up | Key::Char('k') => self.moved_up(self.lists.len()),
            Key::Down | Key::Char('j') => self.moved_down(self.lists.len()),
            Key::Enter => {
                if self.selected_index < self.lists.len() {
                    let list_id = self.lists[self.selected_index as int].id;
                    self.with_view(AppViewModel::Reminders { list_id }).with_status(
                        MSG_LOADING_REMINDERS@,
                    ).emit(TuiActionModel::SelectList { list_id }).selection_reset()
                } else {
                    self
                }
            },
            Key::Char('c') => self.form_opened(
                if self.selected_index < self.lists.len() {
                    Some(self.lists[self.selected_index as int].id)
                } else {
                    None
                },
            ),
            Key::Char('h') => self.completed_toggled(),
            _ => self,
        }
    }

    /// A key on the screen of reminders of the list `list_id`, pressed at
    /// `now`.
    ///
    /// - `q`, Escape: back to the screen of lists; the global search is
    ///   forgotten on the way.
    /// - Up, `k`, Down, `j`: move the selection among what is shown.
    /// - Enter, Space: toggle the selected reminder.
    /// - `d` within a second of another `d`, or Delete: delete the selected
    ///   reminder.
    /// - `c`: open the form, with this list preselected.
    /// - `h`: show or hide completed reminders.
    pub open spec fn reminders_key(self, key: KeyPress, list_id: Seq<char>, now: u64) -> AppModel {
        match key.code {
            Key::Char('q') | Key::Esc => {
                let left = if list_id == GLOBAL_LIST_ID@ {
                    self.with_search(SearchModel::initial()).with_status(MSG_GLOBAL_CLOSED@)
                } else {
                    self
                };
                left.emit(TuiActionModel::Back).with_view(AppViewModel::Lists)
            },
            Key::Up | Key::Char('k') => self.moved_up(self.filtered().len()),
            Key::Down | Key::Char('j') => self.moved_down(self.filtered().len()),
            Key::Enter | Key::Char(' ') => match self.selected_reminder_id() {
                Some(reminder_id) => self.with_status(MSG_TOGGLING@).emit(
                    TuiActionModel::ToggleReminder { reminder_id },
                ),
                None => self,
            },
            Key::Char('d') => match self.selected_reminder_id() {
                Some(reminder_id) => if self.keys.chord(Key::Char('d'), now) {
                    self.emit(TuiActionModel::DeleteReminder { reminder_id })
                } else {
                    self
                },
                None => self,
            },
            Key::Delete => match self.selected_reminder_id() {
                Some(reminder_id) => self.emit(TuiActionModel::DeleteReminder { reminder_id }),
                None => self,
            },
            Key::Char('c') => self.form_opened(Some(list_id)),
            Key::Char('h') => self.completed_toggled().selection_reset(),
            _ => self,
        }
    }

    /// A key on the form.
    pub open spec fn form_key(self, key: KeyPress) -> AppModel {
        match self.create_form {
            Some(form) => match form.event_of(key) {
                FormEventModel::Cancel => self.emit(TuiActionModel::Back).form_closed(),
                FormEventModel::Submit(new_reminder) => self.emit(
                    TuiActionModel::CreateReminder { new_reminder },
                ).form_closed(),
                FormEventModel::Stay => AppModel {
                    create_form: Some(form.after_key(self.lists, key)),
                    ..self
                },
            },
            None => self,
        }
    }

    /// A key on the current screen, whichever it is. While loading, only
    /// `q` and Escape do anything: they quit.
    pub open spec fn screen_key(self, key: KeyPress, now: u64) -> AppModel {
        match self.current_view {
            AppViewModel::Loading => match key.code {
                Key::Char('q') | Key::Esc => AppModel {
                    should_exit: true,
                    ..self.emit(TuiActionModel::Quit)
                },
                _ => self,
            },
            AppViewModel::Lists => self.lists_key(key),
            AppViewModel::Reminders { list_id } => self.reminders_key(key, list_id, now),
            AppViewModel::CreateReminder => self.form_key(key),
        }
    }

    /// The key goes to the search engine rather than to the screen: a query
    /// is being typed, or the key is Escape on the screen of reminders within
    /// a second of the Escape that closed the query line.
    pub open spec fn key_goes_to_search(self, key: KeyPress, now: u64) -> bool {
        self.search.is_active || (key.code == Key::Esc && self.current_view is Reminders
            && self.search.escape_pending(now))
    }

    /// Where a key press at the time `now` leads, the memory of the last key
    /// aside.
    ///
    /// 1. The search engine takes the key if it is its turn.
    /// 2. On the global search, `q` and Escape leave for the screen of
    ///    lists, and `/` reopens the query line.
    /// 3. `/` starts a global search from the screen of lists, and a search
    ///    in the open list from the screen of reminders. A search starts
    ///    with an empty query, and the selection follows what is then shown.
    /// 4. Every other key goes to the current screen.
    pub open spec fn dispatched(self, key: KeyPress, now: u64) -> AppModel {
        if self.key_goes_to_search(key, now) {
            self.search_key(key, now)
        } else if self.in_global_view() && (key.code == Key::Char('q') || key.code == Key::Esc) {
            self.with_search(SearchModel::initial()).global_search_left()
        } else if self.in_global_view() && key.code == Key::Char('/') {
            self.with_search(SearchModel::started(true)).with_status(
                MSG_GLOBAL_REACTIVATED@,
            ).selection_reset()
        } else if key.code == Key::Char('/') && self.current_view is Lists {
            self.with_search(SearchModel::started(true)).with_status(
                MSG_GLOBAL_STARTED@,
            ).with_view(AppViewModel::Reminders { list_id: GLOBAL_LIST_ID@ }).emit(
                TuiActionModel::GlobalSearch { query: Seq::empty() },
            ).selection_reset()
        } else if key.code == Key::Char('/') && self.current_view is Reminders {
            self.with_search(SearchModel::started(false)).with_status(
                MSG_LIST_STARTED@,
            ).selection_reset()
        } else {
            self.screen_key(key, now)
        }
    }

    /// One key press at the time `now`: the key is dispatched, and then
    /// remembered, with its time, for the next key to form a chord with.
    pub open spec fn key_event(self, key: KeyPress, now: u64) -> AppModel {
        AppModel { keys: KeySequenceTracker::recorded(key.code, now), ..self.dispatched(key, now) }
    }

    /// The loading animation at the time `now`: it starts its clock on the
    /// first tick, and moves on by one frame, around the end, whenever 150
    /// milliseconds have passed since it last moved.
    pub open spec fn animation_tick(self, now: u64) -> AppModel {
        match self.last_animation_update {
            Some(last) => if elapsed_ms(last, now) >= ANIMATION_STEP_MS {
                AppModel {
                    loading_animation_state: ((self.loading_animation_state + 1)
                        % 8) as usize,
                    last_animation_update: Some(now),
                    ..self
                }
            } else {
                self
            },
            None => AppModel { last_animation_update: Some(now), ..self },
        }
    }

    /// The interactive loop stops after this step: the user quit, or there
    /// are intents for the host to carry out.
    pub open spec fn step_ends_run(self) -> bool {
        self.should_exit || self.actions.len() > 0
    }
}

} // verus!

//! The executable state machine.
//!
//! Every method is specified by the function of the same meaning on
//! [`AppModel`]: the state after the call is that function applied to the
//! state before it.

use crate::clock::{elapsed_between, Clock, ANIMATION_STEP_MS};
use crate::form::{CreateReminderForm, FormEvent};
use crate::keys::{Key, KeyPress, KeySequenceTracker};
use crate::search::SearchState;
use crate::text::same_text;
use crate::widget::{list_state_with, selected_row};
use crate::tui::model::{
    is_first_entry_with_id, list_name_of, with_unknown_list, AppModel, AppViewModel, GLOBAL_LIST_ID, MSG_APPLIED_HEAD, MSG_APPLIED_TAIL,
    MSG_COMPLETED_HIDDEN, MSG_COMPLETED_SHOWN, MSG_GLOBAL_CLOSED, MSG_GLOBAL_REACTIVATED,
    MSG_GLOBAL_STARTED, MSG_LISTS_LOADED, MSG_LIST_STARTED, MSG_LOADING_HEAD,
    MSG_LOADING_REMINDERS, MSG_SEARCH_CLEARED, MSG_SEARCH_EXITED, MSG_TOGGLING,
    MSG_TYPING_GLOBAL_HEAD, MSG_TYPING_LIST_HEAD, MSG_TYPING_TAIL, UNKNOWN_LIST_NAME,
};
use crate::types::{RemError, Reminder, ReminderList, TuiAction, TuiActionModel};
use ratatui::widgets::ListState;
use vstd::prelude::*;

verus! {

/// A screen.
#[derive(Debug)]
pub enum AppView {
    Loading,
    Lists,
    Reminders { list_id: String },
    CreateReminder,
}

impl View for AppView {
    type V = AppViewModel;

    open spec fn view(&self) -> AppViewModel {
        match self {
            AppView::Loading => AppViewModel::Loading,
            AppView::Lists => AppViewModel::Lists,
            AppView::Reminders { list_id } => AppViewModel::Reminders { list_id: list_id@ },
            AppView::CreateReminder => AppViewModel::CreateReminder,
        }
    }
}

impl DeepView for AppView {
    type V = AppViewModel;

    open spec fn deep_view(&self) -> AppViewModel {
        self@
    }
}

impl Clone for AppView {
    fn clone(&self) -> (copy: Self)
        ensures
            copy == *self,
    {
        match self {
            AppView::Loading => AppView::Loading,
            AppView::Lists => AppView::Lists,
            AppView::Reminders { list_id } => AppView::Reminders { list_id: list_id.clone() },
            AppView::CreateReminder => AppView::CreateReminder,
        }
    }
}

/// The state machine: the lists and reminders that the host supplied, the
/// screen that is shown, the selection, the search, and the intents that
/// wait for the host.
pub struct TUIApp {
    lists: Vec<ReminderList>,
    current_reminders: Vec<Reminder>,
    current_view: AppView,
    previous_view: Option<AppView>,
    selected_index: usize,
    list_state: ListState,
    actions: Vec<TuiAction>,
    should_exit: bool,
    keys: KeySequenceTracker,
    create_form: Option<CreateReminderForm>,
    status_log: Vec<String>,
    is_loading: bool,
    loading_message: String,
    loading_animation_state: usize,
    last_animation_update: Option<u64>,
    show_completed_todos: bool,
    search_state: SearchState,
    all_reminders: Vec<(Reminder, String)>,
    clock: Clock,
}

impl View for TUIApp {
    type V = AppModel;

    closed spec fn view(&self) -> AppModel {
        AppModel {
            lists: self.lists.deep_view(),
            current_reminders: self.current_reminders.deep_view(),
            current_view: self.current_view@,
            previous_view: self.previous_view.deep_view(),
            selected_index: self.selected_index,
            list_cursor: selected_row(self.list_state),
            actions: self.actions.deep_view(),
            should_exit: self.should_exit,
            keys: self.keys,
            create_form: self.create_form.deep_view(),
            status_log: self.status_log.deep_view(),
            is_loading: self.is_loading,
            loading_message: self.loading_message@,
            loading_animation_state: self.loading_animation_state,
            last_animation_update: self.last_animation_update,
            show_completed_todos: self.show_completed_todos,
            search: self.search_state@,
            all_reminders: self.all_reminders.deep_view(),
        }
    }
}

/// Every reminder paired with the placeholder list name.
fn pair_with_unknown_list(reminders: Vec<Reminder>) -> (index: Vec<(Reminder, String)>)
    ensures
        index.deep_view() == with_unknown_list(reminders.deep_view()),
{
    let mut index: Vec<(Reminder, String)> = Vec::new();
    let mut i: usize = 0;
    while i < reminders.len()
        invariant
            i <= reminders.len(),
            index.deep_view() == with_unknown_list(reminders.deep_view().take(i as int)),
        decreases reminders.len() - i,
    {
        let ghost before = index.deep_view();
        index.push((reminders[i].clone(), UNKNOWN_LIST_NAME.to_owned()));
        assert(index.deep_view() == before.push((reminders[i as int]@, UNKNOWN_LIST_NAME@)));
        assert(reminders.deep_view().take(i + 1) == reminders.deep_view().take(i as int).push(
            reminders[i as int]@,
        ));
        i += 1;
    }
    assert(reminders.deep_view().take(reminders.len() as int) == reminders.deep_view());
    index
}

impl TUIApp {
    /// The state machine at start, with the lists that the host has so far.
    pub fn new(lists: Vec<ReminderList>) -> (app: Result<TUIApp, RemError>)
        ensures
            app matches Ok(app) && app@ == AppModel::initial(lists.deep_view()),
    {
        let no_lists = lists.len() == 0;
        Ok(
            TUIApp {
                lists,
                current_reminders: Vec::new(),
                current_view: if no_lists {
                    AppView::Loading
                } else {
                    AppView::Lists
                },
                previous_view: None,
                selected_index: 0,
                list_state: list_state_with(
                    if no_lists {
                        None
                    } else {
                        Some(0)
                    },
                ),
                actions: Vec::new(),
                should_exit: false,
                keys: KeySequenceTracker::new(),
                create_form: None,
                status_log: Vec::new(),
                is_loading: false,
                loading_message: String::new(),
                loading_animation_state: 0,
                last_animation_update: None,
                show_completed_todos: false,
                search_state: SearchState::new(),
                all_reminders: Vec::new(),
                clock: Clock::start(),
            },
        )
    }

    /// Takes the reminders of the open list from the host.
    ///
    /// While a global search is open the reminders also replace the global
    /// index, each under a placeholder list name: a host that has the real
    /// names should call [`Self::set_reminders_with_global_data`] instead.
    pub fn set_reminders(&mut self, reminders: Vec<Reminder>)
        ensures
            final(self)@ == old(self)@.set_reminders(reminders.deep_view()),
            final(self)@.cursor_in_step(),
    {
        let global = self.search_state.is_global() || self.is_in_global_search_view();
        if global {
            self.current_reminders = reminders.clone();
            assert(self.current_reminders.deep_view() == reminders.deep_view());
            self.all_reminders = pair_with_unknown_list(reminders);
        } else {
            self.current_reminders = reminders;
        }
        self.selected_index = 0;
        self.reset_selection_for_filtered_reminders();
    }

    /// Takes the reminders of the open list and the global index from the
    /// host.
    pub fn set_reminders_with_global_data(
        &mut self,
        reminders: Vec<Reminder>,
        all_reminders: Vec<(Reminder, String)>,
    )
        ensures
            final(self)@ == old(self)@.set_reminders_with_global_data(
                reminders.deep_view(),
                all_reminders.deep_view(),
            ),
            final(self)@.cursor_in_step(),
    {
        self.current_reminders = reminders;
        self.all_reminders = all_reminders;
        self.selected_index = 0;
        self.reset_selection_for_filtered_reminders();
    }

    /// Takes the global index from the host.
    pub fn set_all_reminders(&mut self, all_reminders: Vec<(Reminder, String)>)
        ensures
            final(self)@ == old(self)@.set_all_reminders(all_reminders.deep_view()),
            old(self)@.cursor_follows() ==> final(self)@.cursor_follows(),
    {
        self.all_reminders = all_reminders;
        self.follow_cursor();
    }

    /// Adds a line to the status log, which keeps the last five.
    pub fn add_status_log(&mut self, message: String)
        ensures
            final(self)@ == old(self)@.with_status(message@),
    {
        self.status_log.push(message);
        if self.status_log.len() > 5 {
            self.status_log.remove(0);
        }
    }

    /// Notes that the host is loading, or has stopped.
    pub fn set_loading(&mut self, loading: bool, message: String)
        ensures
            final(self)@ == old(self)@.set_loading(loading, message@),
    {
        self.is_loading = loading;
        if loading {
            self.add_status_log(MSG_LOADING_HEAD.to_owned().concat(message.as_str()));
        }
        self.loading_message = message;
    }

    /// Takes the lists from the host.
    pub fn set_lists(&mut self, lists: Vec<ReminderList>)
        ensures
            final(self)@ == old(self)@.set_lists(lists.deep_view()),
    {
        self.lists = lists;
        let loading = match self.current_view {
            AppView::Loading => true,
            _ => false,
        };
        if self.lists.len() > 0 && loading {
            self.current_view = AppView::Lists;
            self.add_status_log(MSG_LISTS_LOADED.to_owned());
        }
    }

    /// On the screen of reminders, brings the selection in step with what is
    /// shown.
    fn follow_cursor(&mut self)
        ensures
            final(self)@ == old(self)@.cursor_followed(),
            final(self)@.cursor_follows(),
    {
        let on_reminders = match self.current_view {
            AppView::Reminders { .. } => true,
            _ => false,
        };
        if on_reminders {
            self.reset_selection_for_filtered_reminders();
        }
    }

    /// Brings the selection in step with what is shown.
    pub fn reset_selection_for_filtered_reminders(&mut self)
        ensures
            final(self)@ == old(self)@.selection_reset(),
            final(self)@.cursor_in_step(),
    {
        let count = self.get_filtered_reminders().len();
        if count == 0 {
            self.selected_index = 0;
            self.list_state.select(None);
        } else {
            if self.selected_index >= count {
                self.selected_index = count - 1;
            }
            self.list_state.select(Some(self.selected_index));
        }
    }

    /// The reminders that are shown, in the order of their source.
    pub fn get_filtered_reminders(&self) -> (shown: Vec<&Reminder>)
        ensures
            shown.deep_view() == self@.filtered(),
    {
        if self.search_state.is_global() {
            self.search_state.filtered_index(&self.all_reminders, self.show_completed_todos)
        } else {
            self.search_state.filtered(&self.current_reminders, self.show_completed_todos)
        }
    }

    /// The reminders that are shown, in the order of their source.
    pub fn get_filtered_reminders_for_test(&self) -> (shown: Vec<&Reminder>)
        ensures
            shown.deep_view() == self@.filtered(),
    {
        self.get_filtered_reminders()
    }

    pub fn show_completed_todos(&self) -> (show: bool)
        ensures
            show == self@.show_completed_todos,
    {
        self.show_completed_todos
    }

    pub fn set_show_completed_todos(&mut self, show: bool)
        ensures
            final(self)@ == old(self)@.with_show_completed(show),
    {
        self.show_completed_todos = show;
    }

    pub fn is_search_active(&self) -> (active: bool)
        ensures
            active == self@.search.is_active,
    {
        self.search_state.is_active()
    }

    pub fn get_search_query(&self) -> (query: &str)
        ensures
            query@ == self@.search.query,
    {
        self.search_state.query()
    }

    pub fn start_global_search(&mut self)
        ensures
            final(self)@ == old(self)@.with_search(crate::search::SearchModel::started(true)),
    {
        self.search_state.start_search(true);
    }

    pub fn start_list_search(&mut self)
        ensures
            final(self)@ == old(self)@.with_search(crate::search::SearchModel::started(false)),
    {
        self.search_state.start_search(false);
    }

    pub fn add_search_char(&mut self, c: char)
        ensures
            final(self)@ == old(self)@.with_search(old(self)@.search.add_char(c)),
    {
        self.search_state.add_char(c);
    }

    pub fn remove_search_char(&mut self)
        ensures
            final(self)@ == old(self)@.with_search(old(self)@.search.remove_char()),
    {
        self.search_state.remove_char();
    }

    pub fn clear_search(&mut self)
        ensures
            final(self)@ == old(self)@.with_search(crate::search::SearchModel::initial()),
    {
        self.search_state.clear_search();
    }

    pub fn exit_search(&mut self)
        ensures
            final(self)@ == old(self)@.with_search(old(self)@.search.exited()),
    {
        self.search_state.exit_search();
    }

    pub fn is_global_search(&self) -> (global: bool)
        ensures
            global == self@.search.is_global,
    {
        self.search_state.is_global()
    }

    pub fn has_search_results(&self) -> (flag: bool)
        ensures
            flag == self@.search.has_results,
    {
        self.search_state.has_results()
    }

    pub fn get_current_view(&self) -> (view: &AppView)
        ensures
            view@ == self@.current_view,
    {
        &self.current_view
    }

    pub fn set_current_view(&mut self, view: AppView)
        ensures
            final(self)@ == old(self)@.with_view(view@),
    {
        self.current_view = view;
    }

    /// The name of the list that the global index gives for a reminder.
    pub fn get_list_name_for_reminder(&self, reminder_id: &str) -> (name: Option<&str>)
        ensures
            name.deep_view() == list_name_of(self@.all_reminders, reminder_id@),
    {
        let ghost index = self.all_reminders.deep_view();
        let mut i: usize = 0;
        while i < self.all_reminders.len()
            invariant
                i <= self.all_reminders.len(),
                index == self.all_reminders.deep_view(),
                index.len() == self.all_reminders.len(),
                forall|j: int| 0 <= j < i ==> (#[trigger] index[j]).0.id != reminder_id@,
            decreases self.all_reminders.len() - i,
        {
            assert(index[i as int] == self.all_reminders[i as int].deep_view());
            if same_text(self.all_reminders[i].0.id.as_str(), reminder_id) {
                proof {
                    assert(is_first_entry_with_id(index, reminder_id@, i as int));
                    let chosen = choose|k: int| is_first_entry_with_id(index, reminder_id@, k);
                    if chosen < i {
                        assert(index[chosen].0.id != reminder_id@);
                    } else if i < chosen {
                        assert(index[i as int].0.id == reminder_id@);
                    }
                }
                return Some(self.all_reminders[i].1.as_str());
            }
            i += 1;
        }
        proof {
            assert forall|k: int| !is_first_entry_with_id(index, reminder_id@, k) by {
                if 0 <= k < index.len() {
                    assert(index[k].0.id != reminder_id@);
                }
            }
        }
        None
    }

    /// Whether the screen of reminders is open on the global search.
    pub fn is_in_global_search_view(&self) -> (global: bool)
        ensures
            global == self@.in_global_view(),
    {
        match &self.current_view {
            AppView::Reminders { list_id } => same_text(list_id.as_str(), GLOBAL_LIST_ID),
            _ => false,
        }
    }

    /// Emits an intent.
    fn emit(&mut self, action: TuiAction)
        ensures
            final(self)@ == old(self)@.emit(action@),
    {
        self.actions.push(action);
    }

    /// The id of the selected reminder, if the selected row exists.
    fn selected_reminder_id(&self) -> (id: Option<String>)
        ensures
            id.deep_view() == self@.selected_reminder_id(),
    {
        let shown = self.get_filtered_reminders();
        assert(shown.deep_view().len() == shown.len());
        if self.selected_index < shown.len() {
            assert(shown.deep_view()[self.selected_index as int] == shown[self.selected_index as int]@);
            Some(shown[self.selected_index].id.clone())
        } else {
            None
        }
    }

    fn move_up(&mut self, count: usize)
        ensures
            final(self)@ == old(self)@.moved_up(count as nat),
    {
        if count > 0 {
            if self.selected_index > 0 {
                self.selected_index = self.selected_index - 1;
            } else {
                self.selected_index = count - 1;
            }
            self.list_state.select(Some(self.selected_index));
        }
    }

    fn move_down(&mut self, count: usize)
        ensures
            final(self)@ == old(self)@.moved_down(count as nat),
    {
        if count > 0 {
            if self.selected_index < count - 1 {
                self.selected_index = self.selected_index + 1;
            } else {
                self.selected_index = 0;
            }
            self.list_state.select(Some(self.selected_index));
        }
    }

    fn toggle_completed(&mut self)
        ensures
            final(self)@ == old(self)@.completed_toggled(),
    {
        self.show_completed_todos = !self.show_completed_todos;
        if self.show_completed_todos {
            self.add_status_log(MSG_COMPLETED_SHOWN.to_owned());
        } else {
            self.add_status_log(MSG_COMPLETED_HIDDEN.to_owned());
        }
    }

    fn open_form(&mut self, default_list_id: Option<String>)
        ensures
            final(self)@ == old(self)@.form_opened(default_list_id.deep_view()),
    {
        self.previous_view = Some(self.current_view.clone());
        self.create_form = Some(CreateReminderForm::new(&self.lists, default_list_id));
        self.current_view = AppView::CreateReminder;
    }

    fn close_form(&mut self)
        ensures
            final(self)@ == old(self)@.form_closed(),
    {
        let remembered = self.previous_view.take();
        self.current_view = match remembered {
            Some(view) => view,
            None => AppView::Lists,
        };
        self.create_form = None;
        self.follow_cursor();
    }

    fn leave_global_search(&mut self)
        ensures
            final(self)@ == old(self)@.global_search_left(),
    {
        self.current_view = AppView::Lists;
        self.emit(TuiAction::Back);
        self.add_status_log(MSG_GLOBAL_CLOSED.to_owned());
    }

    fn quit(&mut self)
        ensures
            final(self)@ == (AppModel {
                should_exit: true,
                ..old(self)@.emit(TuiActionModel::Quit)
            }),
    {
        self.emit(TuiAction::Quit);
        self.should_exit = true;
    }

    /// Brings the flag of the search in line with the query and notes a
    /// query that is not empty in the status log.
    pub fn update_search_results(&mut self)
        ensures
            final(self)@ == old(self)@.search_results_updated(),
    {
        self.search_state.refresh_results();
        if !self.search_state.query().is_empty() {
            let head = if self.search_state.is_global() {
                MSG_TYPING_GLOBAL_HEAD
            } else {
                MSG_TYPING_LIST_HEAD
            };
            let line = head.to_owned().concat(self.search_state.query()).concat(MSG_TYPING_TAIL);
            self.add_status_log(line);
        }
    }

    /// Handles a key that goes to the search engine.
    pub fn handle_search_key_event(&mut self, key: KeyPress, now: u64)
        ensures
            final(self)@ == old(self)@.search_key(key, now),
    {
        match key.code {
            Key::Esc => {
                if self.search_state.escape_pending(now) {
                    self.search_state.clear_search();
                    self.reset_selection_for_filtered_reminders();
                    if self.is_in_global_search_view() {
                        self.leave_global_search();
                    } else {
                        self.add_status_log(MSG_SEARCH_CLEARED.to_owned());
                    }
                } else {
                    self.search_state.escape(now);
                    self.add_status_log(MSG_SEARCH_EXITED.to_owned());
                }
            },
            Key::Char(c) => {
                self.search_state.add_char(c);
                self.update_search_results();
                self.reset_selection_for_filtered_reminders();
            },
            Key::Backspace => {
                self.search_state.remove_char();
                self.update_search_results();
                self.reset_selection_for_filtered_reminders();
            },
            Key::Enter => {
                self.search_state.exit_search();
                if !self.search_state.query().is_empty() {
                    let line = MSG_APPLIED_HEAD.to_owned().concat(self.search_state.query()).concat(
                        MSG_APPLIED_TAIL,
                    );
                    self.add_status_log(line);
                } else {
                    self.search_state.clear_search();
                    self.add_status_log(MSG_SEARCH_CLEARED.to_owned());
                }
                self.reset_selection_for_filtered_reminders();
            },
            _ => {},
        }
    }

    /// Handles a key on the screen of lists.
    pub fn handle_lists_key_event(&mut self, key: KeyPress)
        ensures
            final(self)@ == old(self)@.lists_key(key),
    {
        match key.code {
            Key::Char('q') | Key::Esc => {
                self.quit();
            },
            Key::Up | Key::Char('k') => {
                let count = self.lists.len();
                self.move_up(count);
            },
            Key::Down | Key::Char('j') => {
                let count = self.lists.len();
                self.move_down(count);
            },
            Key::Enter => {
                if self.selected_index < self.lists.len() {
                    assert(self.lists.deep_view()[self.selected_index as int]
                        == self.lists[self.selected_index as int]@);
                    let list_id = self.lists[self.selected_index].id.clone();
                    self.current_view = AppView::Reminders { list_id: list_id.clone() };
                    self.add_status_log(MSG_LOADING_REMINDERS.to_owned());
                    self.emit(TuiAction::SelectList { list_id });
                    self.reset_selection_for_filtered_reminders();
                }
            },
            Key::Char('c') => {
                let default_list_id = if self.selected_index < self.lists.len() {
                    assert(self.lists.deep_view()[self.selected_index as int]
                        == self.lists[self.selected_index as int]@);
                    Some(self.lists[self.selected_index].id.clone())
                } else {
                    None
                };
                self.open_form(default_list_id);
            },
            Key::Char('h') => {
                self.toggle_completed();
            },
            _ => {},
        }
    }

    /// Handles a key on the screen of reminders of the list `list_id`.
    pub fn handle_reminders_key_event(&mut self, key: KeyPress, list_id: String, now: u64)
        ensures
            final(self)@ == old(self)@.reminders_key(key, list_id@, now),
    {
        match key.code {
            Key::Char('q') | Key::Esc => {
                if same_text(list_id.as_str(), GLOBAL_LIST_ID) {
                    self.search_state.clear_search();
                    self.add_status_log(MSG_GLOBAL_CLOSED.to_owned());
                }
                self.emit(TuiAction::Back);
                self.current_view = AppView::Lists;
            },
            Key::Up | Key::Char('k') => {
                let count = self.get_filtered_reminders().len();
                self.move_up(count);
            },
            Key::Down | Key::Char('j') => {
                let count = self.get_filtered_reminders().len();
                self.move_down(count);
            },
            Key::Enter | Key::Char(' ') => {
                match self.selected_reminder_id() {
                    Some(reminder_id) => {
                        self.add_status_log(MSG_TOGGLING.to_owned());
                        self.emit(TuiAction::ToggleReminder { reminder_id });
                    },
                    None => {},
                }
            },
            Key::Char('d') => {
                if self.keys.completes_chord(Key::Char('d'), now) {
                    match self.selected_reminder_id() {
                        Some(reminder_id) => {
                            self.emit(TuiAction::DeleteReminder { reminder_id });
                        },
                        None => {},
                    }
                }
            },
            Key::Delete => {
                match self.selected_reminder_id() {
                    Some(reminder_id) => {
                        self.emit(TuiAction::DeleteReminder { reminder_id });
                    },
                    None => {},
                }
            },
            Key::Char('c') => {
                self.open_form(Some(list_id));
            },
            Key::Char('h') => {
                self.toggle_completed();
                self.reset_selection_for_filtered_reminders();
            },
            _ => {},
        }
    }

    /// Handles a key on the form.
    pub fn handle_create_reminder_key_event(&mut self, key: KeyPress)
        ensures
            final(self)@ == old(self)@.form_key(key),
    {
        let taken = self.create_form.take();
        match taken {
            Some(form) => {
                let mut form = form;
                let event = form.handle_key(&self.lists, key);
                match event {
                    FormEvent::Cancel => {
                        self.emit(TuiAction::Back);
                        self.close_form();
                    },
                    FormEvent::Submit(new_reminder) => {
                        self.emit(TuiAction::CreateReminder { new_reminder });
                        self.close_form();
                    },
                    FormEvent::Stay => {
                        self.create_form = Some(form);
                    },
                }
            },
            None => {},
        }
    }

    /// Handles a key on the current screen.
    fn handle_screen_key_event(&mut self, key: KeyPress, now: u64)
        ensures
            final(self)@ == old(self)@.screen_key(key, now),
    {
        let view = self.current_view.clone();
        match view {
            AppView::Loading => {
                match key.code {
                    Key::Char('q') | Key::Esc => {
                        self.quit();
                    },
                    _ => {},
                }
            },
            AppView::Lists => self.handle_lists_key_event(key),
            AppView::Reminders { list_id } => self.handle_reminders_key_event(key, list_id, now),
            AppView::CreateReminder => self.handle_create_reminder_key_event(key),
        }
    }

    /// Dispatches one key press made at the time `now`.
    fn dispatch_key_event(&mut self, key: KeyPress, now: u64)
        ensures
            final(self)@ == old(self)@.dispatched(key, now),
    {
        let on_reminders = match self.current_view {
            AppView::Reminders { .. } => true,
            _ => false,
        };
        let escape_again = match key.code {
            Key::Esc => on_reminders && self.search_state.escape_pending(now),
            _ => false,
        };
        if self.search_state.is_active() || escape_again {
            self.handle_search_key_event(key, now);
            return ;
        }
        let global = self.is_in_global_search_view();
        let slash = match key.code {
            Key::Char('/') => true,
            _ => false,
        };
        let leave = match key.code {
            Key::Char('q') | Key::Esc => true,
            _ => false,
        };
        let on_lists = match self.current_view {
            AppView::Lists => true,
            _ => false,
        };
        if global && leave {
            self.search_state.clear_search();
            self.leave_global_search();
        } else if global && slash {
            self.search_state.start_search(true);
            self.add_status_log(MSG_GLOBAL_REACTIVATED.to_owned());
            self.reset_selection_for_filtered_reminders();
        } else if slash && on_lists {
            self.search_state.start_search(true);
            self.add_status_log(MSG_GLOBAL_STARTED.to_owned());
            self.current_view = AppView::Reminders { list_id: GLOBAL_LIST_ID.to_owned() };
            self.emit(TuiAction::GlobalSearch { query: String::new() });
            self.reset_selection_for_filtered_reminders();
        } else if slash && on_reminders {
            self.search_state.start_search(false);
            self.add_status_log(MSG_LIST_STARTED.to_owned());
            self.reset_selection_for_filtered_reminders();
        } else {
            self.handle_screen_key_event(key, now);
        }
    }

    /// Handles one key press made at the time `now`, a reading of a
    /// monotonic clock in milliseconds.
    pub fn handle_key_event_at(&mut self, key: KeyPress, now: u64)
        ensures
            final(self)@ == old(self)@.key_event(key, now),
    {
        self.dispatch_key_event(key, now);
        self.keys.record(key.code, now);
    }

    /// Handles one key press made now.
    pub fn handle_key_event(&mut self, key: KeyPress)
        ensures
            exists|now: u64| final(self)@ == old(self)@.key_event(key, now),
    {
        let now = self.clock.now_ms();
        self.handle_key_event_at(key, now);
    }

    /// Moves the loading animation on to the time `now`.
    pub fn tick_animation_at(&mut self, now: u64)
        ensures
            final(self)@ == old(self)@.animation_tick(now),
    {
        match self.last_animation_update {
            Some(last) => {
                if elapsed_between(last, now) >= ANIMATION_STEP_MS {
                    self.loading_animation_state = (self.loading_animation_state % 8 + 1) % 8;
                    self.last_animation_update = Some(now);
                }
            },
            None => {
                self.last_animation_update = Some(now);
            },
        }
    }

    /// Moves the loading animation on to the present.
    pub fn tick_animation(&mut self)
        ensures
            exists|now: u64| final(self)@ == old(self)@.animation_tick(now),
    {
        let now = self.clock.now_ms();
        self.tick_animation_at(now);
    }

    pub fn lists(&self) -> (lists: &Vec<ReminderList>)
        ensures
            lists.deep_view() == self@.lists,
    {
        &self.lists
    }

    /// The reminders of the open list, shown or not.
    pub fn current_reminders(&self) -> (reminders: &Vec<Reminder>)
        ensures
            reminders.deep_view() == self@.current_reminders,
    {
        &self.current_reminders
    }

    /// The global index, shown or not.
    pub fn all_reminders(&self) -> (index: &Vec<(Reminder, String)>)
        ensures
            index.deep_view() == self@.all_reminders,
    {
        &self.all_reminders
    }

    /// The selected row, counted in what is shown.
    pub fn selected_index(&self) -> (row: usize)
        ensures
            row == self@.selected_index,
    {
        self.selected_index
    }

    /// The row that the list widget highlights.
    pub fn list_cursor(&self) -> (row: Option<usize>)
        ensures
            row == self@.list_cursor,
    {
        self.list_state.selected()
    }

    /// The state of the list widget.
    pub fn list_state(&self) -> (state: &ListState)
        ensures
            selected_row(*state) == self@.list_cursor,
    {
        &self.list_state
    }

    /// The state of the list widget, for the renderer to draw the list
    /// with. Drawing may move the highlight: whatever row the state
    /// highlights afterwards is the state machine's cursor.
    pub fn list_state_mut(&mut self) -> (state: &mut ListState)
        ensures
            selected_row(*state) == old(self)@.list_cursor,
            final(self)@ == (AppModel { list_cursor: selected_row(*final(state)), ..old(self)@ }),
    {
        &mut self.list_state
    }

    /// The form, while it is open.
    pub fn create_form(&self) -> (form: &Option<CreateReminderForm>)
        ensures
            form.deep_view() == self@.create_form,
    {
        &self.create_form
    }

    /// The status log, oldest line first.
    pub fn status_log(&self) -> (log: &Vec<String>)
        ensures
            log.deep_view() == self@.status_log,
    {
        &self.status_log
    }

    pub fn is_loading(&self) -> (loading: bool)
        ensures
            loading == self@.is_loading,
    {
        self.is_loading
    }

    pub fn loading_message(&self) -> (message: &str)
        ensures
            message@ == self@.loading_message,
    {
        self.loading_message.as_str()
    }

    /// The frame of the loading animation that is due.
    pub fn loading_animation_state(&self) -> (frame: usize)
        ensures
            frame == self@.loading_animation_state,
    {
        self.loading_animation_state
    }

    /// Starts a run of the interactive loop: intents of an earlier run are
    /// dropped.
    pub fn begin_run(&mut self)
        ensures
            final(self)@ == old(self)@.without_actions(),
    {
        self.actions.clear();
    }

    /// Whether the user asked to quit.
    pub fn should_exit(&self) -> (exit: bool)
        ensures
            exit == self@.should_exit,
    {
        self.should_exit
    }

    /// Whether intents wait for the host.
    pub fn has_pending_actions(&self) -> (pending: bool)
        ensures
            pending == (self@.actions.len() > 0),
    {
        assert(self.actions.deep_view().len() == self.actions.len());
        self.actions.len() > 0
    }

    /// Whether the interactive loop stops after the step just made.
    pub fn step_ends_run(&self) -> (ends: bool)
        ensures
            ends == self@.step_ends_run(),
    {
        self.should_exit || self.actions.len() > 0
    }

    /// The intents that wait for the host, oldest first.
    pub fn pending_actions(&self) -> (actions: Vec<TuiAction>)
        ensures
            actions.deep_view() == self@.actions,
    {
        let mut actions: Vec<TuiAction> = Vec::new();
        let mut i: usize = 0;
        while i < self.actions.len()
            invariant
                i <= self.actions.len(),
                actions.deep_view() == self.actions.deep_view().take(i as int),
            decreases self.actions.len() - i,
        {
            let ghost before = actions.deep_view();
            actions.push(self.actions[i].clone());
            assert(actions.deep_view() == before.push(self.actions[i as int]@));
            assert(self.actions.deep_view().take(i + 1) == before.push(self.actions[i as int]@));
            i += 1;
        }
        assert(self.actions.deep_view().take(self.actions.len() as int)
            == self.actions.deep_view());
        actions
    }
}

} // verus!

//! What each screen shows, as plain values: the texts, the marks and the
//! rows that a renderer lays out. Colours of the frame and the placing of the
//! parts are the renderer's business.

use crate::color::{color_of, parse_color, ListColor};
use crate::form::{find_list, position_of};
use crate::text::{
    decimal_text, is_substring, push_decimal, replaced, str_contains, str_replace,
};
use crate::tui::app::TUIApp;
use crate::tui::model::{list_name_of, AppModel};
use crate::types::ReminderListModel;
use vstd::prelude::*;

verus! {

pub const TITLE_GLOBAL_SEARCH: &'static str = " 🔍 Global Search ";

pub const TITLE_REMINDERS: &'static str = " 📝 Reminders ";

pub const TITLE_GLOBAL_SEARCH_BAR: &'static str = " 🔍 Global Search ";

pub const TITLE_LIST_SEARCH_BAR: &'static str = " 🔍 List Search ";

pub const PLACEHOLDER_GLOBAL_SEARCH: &'static str = "Press '/' to search all reminders...";

pub const PLACEHOLDER_LIST_SEARCH: &'static str = "Press '/' to search this list...";

pub const MSG_NO_REMINDERS: &'static str = "📭 No reminders in this list";

pub const MSG_NO_OPEN_REMINDERS: &'static str =
    "📭 No incomplete reminders (press 'h' to show completed)";

pub const HINT_HIDE_COMPLETED: &'static str = "hide completed";

pub const HINT_SHOW_COMPLETED: &'static str = "show completed";

pub const LABEL_EMPTY: &'static str = "Empty";

pub const LABEL_ONE_REMINDER: &'static str = "1 reminder";

pub const LABEL_REMINDERS_TAIL: &'static str = " reminders";

pub const LABEL_READY: &'static str = "Ready";

pub const LABEL_NO_PRIORITY: &'static str = "None";

pub const LABEL_UNKNOWN_LIST: &'static str = "Unknown";

pub const PLACEHOLDER_TITLE: &'static str = "New Reminder";

pub const PLACEHOLDER_NOTES: &'static str = "Add some notes...";

pub const PLACEHOLDER_DATE: &'static str = "No Date";

pub const CURSOR_MARK: &'static str = "_";

pub const LOADING_WORD: &'static str = "Loading";

pub const LOADING_GLYPH: &'static str = "⏳";

pub const LOADING_PREFIX: &'static str = "⏳ ";

/// The glyph of a frame of the loading animation.
pub open spec fn spinner_text(frame: usize) -> Seq<char> {
    let f = frame % 8;
    if f == 0 {
        "⠋"@
    } else if f == 1 {
        "⠙"@
    } else if f == 2 {
        "⠹"@
    } else if f == 3 {
        "⠸"@
    } else if f == 4 {
        "⠼"@
    } else if f == 5 {
        "⠴"@
    } else if f == 6 {
        "⠦"@
    } else {
        "⠧"@
    }
}

/// The glyph of a frame of the loading animation.
pub fn spinner_frame(frame: usize) -> (glyph: &'static str)
    ensures
        glyph@ == spinner_text(frame),
{
    let f = frame % 8;
    if f == 0 {
        "⠋"
    } else if f == 1 {
        "⠙"
    } else if f == 2 {
        "⠹"
    } else if f == 3 {
        "⠸"
    } else if f == 4 {
        "⠼"
    } else if f == 5 {
        "⠴"
    } else if f == 6 {
        "⠦"
    } else {
        "⠧"
    }
}

/// How the number of reminders of a list is written.
pub open spec fn count_label_text(count: nat) -> Seq<char> {
    if count == 0 {
        LABEL_EMPTY@
    } else if count == 1 {
        LABEL_ONE_REMINDER@
    } else {
        decimal_text(count) + LABEL_REMINDERS_TAIL@
    }
}

/// How the number of reminders of a list is written.
pub fn count_label(count: u64) -> (label: String)
    ensures
        label@ == count_label_text(count as nat),
{
    if count == 0 {
        LABEL_EMPTY.to_owned()
    } else if count == 1 {
        LABEL_ONE_REMINDER.to_owned()
    } else {
        let mut label = String::new();
        push_decimal(&mut label, count);
        label.append(LABEL_REMINDERS_TAIL);
        label
    }
}

/// How a priority is written: `None` for zero, else the number.
pub open spec fn priority_label_text(priority: u8) -> Seq<char> {
    if priority == 0 {
        LABEL_NO_PRIORITY@
    } else {
        decimal_text(priority as nat)
    }
}

/// How a priority is written.
pub fn priority_label(priority: u8) -> (label: String)
    ensures
        label@ == priority_label_text(priority),
{
    if priority == 0 {
        LABEL_NO_PRIORITY.to_owned()
    } else {
        let mut label = String::new();
        push_decimal(&mut label, priority as u64);
        label
    }
}

/// What to press `h` for.
pub open spec fn visibility_hint_text(show_completed: bool) -> Seq<char> {
    if show_completed {
        HINT_HIDE_COMPLETED@
    } else {
        HINT_SHOW_COMPLETED@
    }
}

/// Model of a [`ListRow`].
pub struct ListRowModel {
    pub selected: bool,
    pub color: ListColor,
    pub name: Seq<char>,
    pub count_label: Seq<char>,
    pub gap_after: bool,
}

/// A row of the screen of lists.
#[derive(Debug)]
pub struct ListRow {
    /// The row is the selected one.
    pub selected: bool,
    pub color: ListColor,
    pub name: String,
    pub count_label: String,
    /// An empty line follows the row: it is not the last.
    pub gap_after: bool,
}

impl DeepView for ListRow {
    type V = ListRowModel;

    open spec fn deep_view(&self) -> ListRowModel {
        ListRowModel {
            selected: self.selected,
            color: self.color,
            name: self.name@,
            count_label: self.count_label@,
            gap_after: self.gap_after,
        }
    }
}

/// Model of a [`ReminderRow`].
pub struct ReminderRowModel {
    pub selected: bool,
    pub completed: bool,
    pub list_name: Option<Seq<char>>,
    pub title: Seq<char>,
    pub notes: Option<Seq<char>>,
    pub gap_after: bool,
}

/// A row of the screen of reminders.
#[derive(Debug)]
pub struct ReminderRow {
    /// The row is the selected one.
    pub selected: bool,
    pub completed: bool,
    /// On the global search: the name of the reminder's list, if the global
    /// index knows it.
    pub list_name: Option<String>,
    pub title: String,
    /// The notes, if there are any to show.
    pub notes: Option<String>,
    /// An empty line follows the row: it is not the last.
    pub gap_after: bool,
}

impl DeepView for ReminderRow {
    type V = ReminderRowModel;

    open spec fn deep_view(&self) -> ReminderRowModel {
        ReminderRowModel {
            selected: self.selected,
            completed: self.completed,
            list_name: self.list_name.deep_view(),
            title: self.title@,
            notes: self.notes.deep_view(),
            gap_after: self.gap_after,
        }
    }
}

/// Model of a [`SearchBar`].
pub struct SearchBarModel {
    pub title: Seq<char>,
    pub text: Seq<char>,
    pub is_placeholder: bool,
    pub active: bool,
    pub has_query: bool,
}

/// The line on which the query is typed and shown.
#[derive(Debug)]
pub struct SearchBar {
    pub title: String,
    /// The query, with a cursor mark while it is typed; or the placeholder.
    pub text: String,
    /// `text` is the placeholder: there is no query and none is typed.
    pub is_placeholder: bool,
    pub active: bool,
    pub has_query: bool,
}

impl DeepView for SearchBar {
    type V = SearchBarModel;

    open spec fn deep_view(&self) -> SearchBarModel {
        SearchBarModel {
            title: self.title@,
            text: self.text@,
            is_placeholder: self.is_placeholder,
            active: self.active,
            has_query: self.has_query,
        }
    }
}

/// Model of a [`StatusLine`].
pub struct StatusLineModel {
    pub animated: bool,
    pub text: Seq<char>,
}

/// A line of the status panel.
#[derive(Debug)]
pub struct StatusLine {
    /// The line speaks of loading and is led by the animation.
    pub animated: bool,
    pub text: String,
}

impl DeepView for StatusLine {
    type V = StatusLineModel;

    open spec fn deep_view(&self) -> StatusLineModel {
        StatusLineModel { animated: self.animated, text: self.text@ }
    }
}

/// Model of a [`FormFields`].
pub struct FormFieldsModel {
    pub title: Seq<char>,
    pub notes: Seq<char>,
    pub due_date: Seq<char>,
    pub list_name: Seq<char>,
    pub priority: Seq<char>,
    pub active_field: usize,
}

/// The five fields of the form as they are shown.
#[derive(Debug)]
pub struct FormFields {
    /// The title, or a placeholder while it is empty.
    pub title: String,
    /// The notes, or a placeholder while they are empty.
    pub notes: String,
    /// The due date, or a placeholder while it is empty.
    pub due_date: String,
    /// The name of the selected list, or `Unknown`.
    pub list_name: String,
    pub priority: String,
    pub active_field: usize,
}

impl DeepView for FormFields {
    type V = FormFieldsModel;

    open spec fn deep_view(&self) -> FormFieldsModel {
        FormFieldsModel {
            title: self.title@,
            notes: self.notes@,
            due_date: self.due_date@,
            list_name: self.list_name@,
            priority: self.priority@,
            active_field: self.active_field,
        }
    }
}

/// A field's text, or the placeholder if the field is empty.
pub open spec fn or_placeholder(text: Seq<char>, placeholder: Seq<char>) -> Seq<char> {
    if text.len() == 0 {
        placeholder
    } else {
        text
    }
}

/// The name of the first list with the id `id`, or `Unknown`.
pub open spec fn list_name_or_unknown(lists: Seq<ReminderListModel>, id: Seq<char>) -> Seq<char> {
    match position_of(lists, id) {
        Some(i) => lists[i].name,
        None => LABEL_UNKNOWN_LIST@,
    }
}

/// A status line speaks of loading when it holds the word or the hourglass.
pub open spec fn speaks_of_loading(line: Seq<char>) -> bool {
    is_substring(LOADING_WORD@, line) || is_substring(LOADING_GLYPH@, line)
}

/// A line of the status log as the status panel shows it: a line that
/// speaks of loading is animated and loses its hourglass.
pub open spec fn status_line_model(line: Seq<char>) -> StatusLineModel {
    if speaks_of_loading(line) {
        StatusLineModel {
            animated: true,
            text: " "@ + replaced(line, LOADING_PREFIX@, Seq::empty()),
        }
    } else {
        StatusLineModel { animated: false, text: line }
    }
}

impl AppModel {
    /// The rows of the screen of lists, one for each list.
    pub open spec fn list_rows(self) -> Seq<ListRowModel> {
        Seq::new(
            self.lists.len(),
            |i: int|
                ListRowModel {
                    selected: i == self.selected_index,
                    color: color_of(self.lists[i].color),
                    name: self.lists[i].name,
                    count_label: count_label_text(self.lists[i].count as nat),
                    gap_after: i < self.lists.len() - 1,
                },
        )
    }

    /// The row of the reminder at the place `i` of what is shown.
    pub open spec fn reminder_row(self, i: int) -> ReminderRowModel {
        let reminder = self.filtered()[i];
        ReminderRowModel {
            selected: i == self.selected_index,
            completed: reminder.completed,
            list_name: if self.in_global_view() {
                list_name_of(self.all_reminders, reminder.id)
            } else {
                None
            },
            title: reminder.title,
            notes: match reminder.notes {
                Some(notes) => if notes.len() > 0 {
                    Some(notes)
                } else {
                    None
                },
                None => None,
            },
            gap_after: i < self.filtered().len() - 1,
        }
    }

    /// The rows of the screen of reminders, one for each reminder shown.
    pub open spec fn reminder_rows(self) -> Seq<ReminderRowModel> {
        Seq::new(self.filtered().len(), |i: int| self.reminder_row(i))
    }

    /// The heading of the screen of reminders.
    pub open spec fn reminders_title(self) -> Seq<char> {
        if self.in_global_view() {
            TITLE_GLOBAL_SEARCH@
        } else {
            TITLE_REMINDERS@
        }
    }

    /// What the screen of reminders says in place of rows when nothing is
    /// shown.
    pub open spec fn empty_message(self) -> Option<Seq<char>> {
        if self.filtered().len() > 0 {
            None
        } else if self.current_reminders.len() == 0 {
            Some(MSG_NO_REMINDERS@)
        } else {
            Some(MSG_NO_OPEN_REMINDERS@)
        }
    }

    /// The search bar is shown while a query is typed or in force.
    pub open spec fn shows_search_bar(self) -> bool {
        self.search.is_active || self.search.has_results
    }

    pub open spec fn search_bar(self) -> SearchBarModel {
        let is_placeholder = !self.search.is_active && self.search.query.len() == 0;
        SearchBarModel {
            title: if self.search.is_global {
                TITLE_GLOBAL_SEARCH_BAR@
            } else {
                TITLE_LIST_SEARCH_BAR@
            },
            text: if is_placeholder {
                if self.search.is_global {
                    PLACEHOLDER_GLOBAL_SEARCH@
                } else {
                    PLACEHOLDER_LIST_SEARCH@
                }
            } else if self.search.is_active {
                self.search.query + CURSOR_MARK@
            } else {
                self.search.query
            },
            is_placeholder,
            active: self.search.is_active,
            has_query: self.search.query.len() > 0,
        }
    }

    /// The lines of the status panel: the status log, or `Ready` while the
    /// log is empty.
    pub open spec fn status_lines(self) -> Seq<StatusLineModel> {
        if self.status_log.len() == 0 {
            seq![StatusLineModel { animated: false, text: LABEL_READY@ }]
        } else {
            self.status_log.map_values(|line: Seq<char>| status_line_model(line))
        }
    }

    /// The fields of the form, while it is open.
    pub open spec fn form_fields(self) -> Option<FormFieldsModel> {
        match self.create_form {
            Some(form) => Some(
                FormFieldsModel {
                    title: or_placeholder(form.title, PLACEHOLDER_TITLE@),
                    notes: or_placeholder(form.notes, PLACEHOLDER_NOTES@),
                    due_date: or_placeholder(form.due_date, PLACEHOLDER_DATE@),
                    list_name: list_name_or_unknown(self.lists, form.selected_list_id),
                    priority: priority_label_text(form.priority),
                    active_field: form.current_field,
                },
            ),
            None => None,
        }
    }
}

/// What to press `h` for.
pub fn visibility_hint(app: &TUIApp) -> (hint: &'static str)
    ensures
        hint@ == visibility_hint_text(app@.show_completed_todos),
{
    if app.show_completed_todos() {
        HINT_HIDE_COMPLETED
    } else {
        HINT_SHOW_COMPLETED
    }
}

/// The rows of the screen of lists.
pub fn list_rows(app: &TUIApp) -> (rows: Vec<ListRow>)
    ensures
        rows.deep_view() == app@.list_rows(),
{
    let lists = app.lists();
    let selected_index = app.selected_index();
    let mut rows: Vec<ListRow> = Vec::new();
    let mut i: usize = 0;
    while i < lists.len()
        invariant
            i <= lists.len(),
            lists.deep_view() == app@.lists,
            lists.deep_view().len() == lists.len(),
            selected_index == app@.selected_index,
            rows.deep_view() == app@.list_rows().take(i as int),
        decreases lists.len() - i,
    {
        let list = &lists[i];
        assert(lists.deep_view()[i as int] == list@);
        let row = ListRow {
            selected: i == selected_index,
            color: parse_color(list.color.as_str()),
            name: list.name.clone(),
            count_label: count_label(list.count as u64),
            gap_after: i < lists.len() - 1,
        };
        let ghost before = rows.deep_view();
        rows.push(row);
        assert(rows.deep_view() == before.push(row.deep_view()));
        assert(app@.list_rows().take(i + 1) == app@.list_rows().take(i as int).push(
            app@.list_rows()[i as int],
        ));
        i += 1;
    }
    assert(app@.list_rows().take(lists.len() as int) == app@.list_rows());
    rows
}

/// The rows of the screen of reminders.
pub fn reminder_rows(app: &TUIApp) -> (rows: Vec<ReminderRow>)
    ensures
        rows.deep_view() == app@.reminder_rows(),
{
    let shown = app.get_filtered_reminders();
    let selected_index = app.selected_index();
    let global = app.is_in_global_search_view();
    let mut rows: Vec<ReminderRow> = Vec::new();
    let mut i: usize = 0;
    while i < shown.len()
        invariant
            i <= shown.len(),
            shown.deep_view() == app@.filtered(),
            shown.deep_view().len() == shown.len(),
            selected_index == app@.selected_index,
            global == app@.in_global_view(),
            rows.deep_view() == app@.reminder_rows().take(i as int),
        decreases shown.len() - i,
    {
        let reminder = shown[i];
        assert(shown.deep_view()[i as int] == reminder@);
        let list_name = if global {
            match app.get_list_name_for_reminder(reminder.id.as_str()) {
                Some(name) => Some(name.to_owned()),
                None => None,
            }
        } else {
            None
        };
        let notes = match &reminder.notes {
            Some(notes) => if notes.as_str().is_empty() {
                None
            } else {
                Some(notes.clone())
            },
            None => None,
        };
        let row = ReminderRow {
            selected: i == selected_index,
            completed: reminder.completed,
            list_name,
            title: reminder.title.clone(),
            notes,
            gap_after: i < shown.len() - 1,
        };
        let ghost before = rows.deep_view();
        rows.push(row);
        assert(rows.deep_view() == before.push(row.deep_view()));
        assert(app@.reminder_rows().take(i + 1) == app@.reminder_rows().take(i as int).push(
            app@.reminder_rows()[i as int],
        ));
        i += 1;
    }
    assert(app@.reminder_rows().take(shown.len() as int) == app@.reminder_rows());
    rows
}

/// The heading of the screen of reminders.
pub fn reminders_title(app: &TUIApp) -> (title: &'static str)
    ensures
        title@ == app@.reminders_title(),
{
    if app.is_in_global_search_view() {
        TITLE_GLOBAL_SEARCH
    } else {
        TITLE_REMINDERS
    }
}

/// What the screen of reminders says in place of rows when nothing is shown.
pub fn empty_message(app: &TUIApp) -> (message: Option<&'static str>)
    ensures
        message.deep_view() == app@.empty_message(),
{
    let shown = app.get_filtered_reminders();
    let reminders = app.current_reminders();
    assert(shown.deep_view().len() == shown.len());
    assert(reminders.deep_view().len() == reminders.len());
    if shown.len() > 0 {
        None
    } else if reminders.len() == 0 {
        Some(MSG_NO_REMINDERS)
    } else {
        Some(MSG_NO_OPEN_REMINDERS)
    }
}

/// Whether the search bar is shown.
pub fn shows_search_bar(app: &TUIApp) -> (shown: bool)
    ensures
        shown == app@.shows_search_bar(),
{
    app.is_search_active() || app.has_search_results()
}

/// The search bar.
pub fn search_bar(app: &TUIApp) -> (bar: SearchBar)
    ensures
        bar.deep_view() == app@.search_bar(),
{
    let active = app.is_search_active();
    let global = app.is_global_search();
    let query = app.get_search_query();
    let has_query = !query.is_empty();
    let is_placeholder = !active && !has_query;
    let title = if global {
        TITLE_GLOBAL_SEARCH_BAR.to_owned()
    } else {
        TITLE_LIST_SEARCH_BAR.to_owned()
    };
    let text = if is_placeholder {
        if global {
            PLACEHOLDER_GLOBAL_SEARCH.to_owned()
        } else {
            PLACEHOLDER_LIST_SEARCH.to_owned()
        }
    } else if active {
        query.to_owned().concat(CURSOR_MARK)
    } else {
        query.to_owned()
    };
    SearchBar { title, text, is_placeholder, active, has_query }
}

/// The text of an animated status line, given the line without its
/// hourglass.
pub fn animated_line_text(stripped: &str) -> (text: String)
    ensures
        text@ == " "@ + stripped@,
{
    " ".to_owned().concat(stripped)
}

/// A line of the status log as the status panel shows it.
pub fn status_line(line: &str) -> (shown: StatusLine)
    ensures
        shown.deep_view() == status_line_model(line@),
{
    if str_contains(line, LOADING_WORD) || str_contains(line, LOADING_GLYPH) {
        let stripped = str_replace(line, LOADING_PREFIX, "");
        proof {
            reveal_strlit("");
            assert(""@ == Seq::<char>::empty());
        }
        StatusLine { animated: true, text: animated_line_text(stripped.as_str()) }
    } else {
        StatusLine { animated: false, text: line.to_owned() }
    }
}

/// The lines of the status panel.
pub fn status_lines(app: &TUIApp) -> (lines: Vec<StatusLine>)
    ensures
        lines.deep_view() == app@.status_lines(),
{
    let log = app.status_log();
    let mut lines: Vec<StatusLine> = Vec::new();
    if log.len() == 0 {
        let ready = StatusLine { animated: false, text: LABEL_READY.to_owned() };
        lines.push(ready);
        assert(lines.deep_view() == seq![ready.deep_view()]);
        assert(log.deep_view().len() == 0);
        return lines;
    }
    let ghost expected = app@.status_log.map_values(|line: Seq<char>| status_line_model(line));
    let mut i: usize = 0;
    while i < log.len()
        invariant
            i <= log.len(),
            log.deep_view() == app@.status_log,
            log.deep_view().len() == log.len(),
            expected == app@.status_log.map_values(|line: Seq<char>| status_line_model(line)),
            lines.deep_view() == expected.take(i as int),
        decreases log.len() - i,
    {
        assert(log.deep_view()[i as int] == log[i as int]@);
        let shown = status_line(log[i].as_str());
        let ghost before = lines.deep_view();
        lines.push(shown);
        assert(lines.deep_view() == before.push(shown.deep_view()));
        assert(expected.take(i + 1) == expected.take(i as int).push(expected[i as int]));
        i += 1;
    }
    assert(expected.take(log.len() as int) == expected);
    lines
}

/// A field's text, or the placeholder if the field is empty.
pub fn text_or_placeholder(text: &str, placeholder: &str) -> (shown: String)
    ensures
        shown@ == or_placeholder(text@, placeholder@),
{
    if text.is_empty() {
        placeholder.to_owned()
    } else {
        text.to_owned()
    }
}

/// The fields of the form, while it is open.
pub fn form_fields(app: &TUIApp) -> (fields: Option<FormFields>)
    ensures
        fields.deep_view() == app@.form_fields(),
{
    match app.create_form() {
        Some(form) => {
            let lists = app.lists();
            let list_name = match find_list(lists, form.selected_list_id()) {
                Some(i) => {
                    assert(lists.deep_view()[i as int] == lists[i as int]@);
                    lists[i].name.clone()
                },
                None => LABEL_UNKNOWN_LIST.to_owned(),
            };
            Some(
                FormFields {
                    title: text_or_placeholder(form.title(), PLACEHOLDER_TITLE),
                    notes: text_or_placeholder(form.notes(), PLACEHOLDER_NOTES),
                    due_date: text_or_placeholder(form.due_date(), PLACEHOLDER_DATE),
                    list_name,
                    priority: priority_label(form.priority()),
                    active_field: form.current_field(),
                },
            )
        },
        None => None,
    }
}

} // verus!

//! What holds of the state machine whatever the user types: stated of the
//! model, which the executable state machine follows step by step.

use crate::clock::elapsed_ms;
use crate::form::lemma_form_stays_well_formed;
use crate::keys::{Key, KeyPress};
use crate::search::{filtered, SearchModel};
use crate::tui::model::{AppModel, AppViewModel, GLOBAL_LIST_ID};
use crate::types::{ReminderListModel, ReminderModel, TuiActionModel};
use vstd::prelude::*;

verus! {

/// The state machine starts well formed.
pub proof fn lemma_initial_is_well_formed(lists: Seq<ReminderListModel>)
    ensures
        AppModel::initial(lists).wf(),
{
}

/// No key that goes to the search engine leads out of the well-formed
/// states.
pub proof fn lemma_search_key_keeps_well_formed(m: AppModel, key: KeyPress, now: u64)
    requires
        m.wf(),
    ensures
        m.search_key(key, now).wf(),
{
    match key.code {
        Key::Esc => {},
        Key::Char(c) => {
            let typed = m.with_search(m.search.add_char(c));
            assert(typed.search_results_updated().search.consistent());
        },
        Key::Backspace => {
            let erased = m.with_search(m.search.remove_char());
            assert(erased.search_results_updated().search.consistent());
        },
        Key::Enter => {},
        _ => {},
    }
}

/// No key on the screen of lists leads out of the well-formed states.
pub proof fn lemma_lists_key_keeps_well_formed(m: AppModel, key: KeyPress)
    requires
        m.wf(),
    ensures
        m.lists_key(key).wf(),
{
}

/// No key on the screen of reminders leads out of the well-formed states.
pub proof fn lemma_reminders_key_keeps_well_formed(
    m: AppModel,
    key: KeyPress,
    list_id: Seq<char>,
    now: u64,
)
    requires
        m.wf(),
    ensures
        m.reminders_key(key, list_id, now).wf(),
{
}

/// No key on the form leads out of the well-formed states.
pub proof fn lemma_form_key_keeps_well_formed(m: AppModel, key: KeyPress)
    requires
        m.wf(),
    ensures
        m.form_key(key).wf(),
{
    match m.create_form {
        Some(form) => {
            lemma_form_stays_well_formed(form, m.lists, key);
        },
        None => {},
    }
}

/// No key on the current screen leads out of the well-formed states.
pub proof fn lemma_screen_key_keeps_well_formed(m: AppModel, key: KeyPress, now: u64)
    requires
        m.wf(),
    ensures
        m.screen_key(key, now).wf(),
{
    match m.current_view {
        AppViewModel::Loading => {},
        AppViewModel::Lists => lemma_lists_key_keeps_well_formed(m, key),
        AppViewModel::Reminders { list_id } => lemma_reminders_key_keeps_well_formed(
            m,
            key,
            list_id,
            now,
        ),
        AppViewModel::CreateReminder => lemma_form_key_keeps_well_formed(m, key),
    }
}

/// No key press, at whatever time, leads out of the well-formed states.
pub proof fn lemma_key_event_keeps_well_formed(m: AppModel, key: KeyPress, now: u64)
    requires
        m.wf(),
    ensures
        m.key_event(key, now).wf(),
{
    assert(m.dispatched(key, now).wf() ==> m.key_event(key, now).wf());
    if m.key_goes_to_search(key, now) {
        lemma_search_key_keeps_well_formed(m, key, now);
    } else if m.in_global_view() && (key.code == Key::Char('q') || key.code == Key::Esc) {
    } else if m.in_global_view() && key.code == Key::Char('/') {
    } else if key.code == Key::Char('/') && m.current_view is Lists {
    } else if key.code == Key::Char('/') && m.current_view is Reminders {
    } else {
        lemma_screen_key_keeps_well_formed(m, key, now);
    }
}

/// Nothing that the host supplies or sets leads out of the well-formed
/// states, and neither does the animation.
pub proof fn lemma_host_calls_keep_well_formed(
    m: AppModel,
    lists: Seq<ReminderListModel>,
    reminders: Seq<ReminderModel>,
    index: Seq<(ReminderModel, Seq<char>)>,
    line: Seq<char>,
    view: AppViewModel,
    c: char,
    flag: bool,
    now: u64,
)
    requires
        m.wf(),
    ensures
        m.with_view(view).wf(),
        m.with_search(SearchModel::started(flag)).wf(),
        m.with_search(SearchModel::initial()).wf(),
        m.with_search(m.search.add_char(c)).wf(),
        m.with_search(m.search.remove_char()).wf(),
        m.with_search(m.search.exited()).wf(),
        m.search_results_updated().wf(),
        m.set_lists(lists).wf(),
        m.set_reminders(reminders).wf(),
        m.set_reminders_with_global_data(reminders, index).wf(),
        m.set_all_reminders(index).wf(),
        m.with_status(line).wf(),
        m.set_loading(flag, line).wf(),
        m.with_show_completed(flag).wf(),
        m.without_actions().wf(),
        m.animation_tick(now).wf(),
        m.selection_reset().wf(),
{
}

/// Bringing the selection in step clamps it: with nothing shown no row is
/// selected; else the selected row stays if it still exists, and becomes the
/// last row if it does not.
pub proof fn lemma_selection_reset_clamps(m: AppModel)
    ensures
        m.selection_reset().cursor_in_step(),
        m.selection_reset().filtered() == m.filtered(),
        m.filtered().len() == 0 ==> m.selection_reset().list_cursor is None,
        m.filtered().len() > 0 && m.selected_index < m.filtered().len()
            ==> m.selection_reset().selected_index == m.selected_index,
        m.filtered().len() > 0 && m.selected_index >= m.filtered().len()
            ==> m.selection_reset().selected_index == m.filtered().len() - 1,
{
}

/// Every key that changes what is shown leaves the selection in step with
/// it: an edit or the confirmation of the query, the second Escape, and `h`
/// on the screen of reminders.
pub proof fn lemma_filter_change_keeps_cursor_in_step(m: AppModel, key: KeyPress, now: u64)
    requires
        ({
            ||| m.key_goes_to_search(key, now) && (key.code is Char || key.code == Key::Backspace
                || key.code == Key::Enter || (key.code == Key::Esc && m.search.escape_pending(
                now,
            )))
            ||| !m.key_goes_to_search(key, now) && !m.in_global_view() && m.current_view
                is Reminders && key.code == Key::Char('h')
        }),
    ensures
        m.key_event(key, now).cursor_in_step(),
{
    let after = m.dispatched(key, now);
    assert(m.key_event(key, now).filtered() == after.filtered());
    if m.key_goes_to_search(key, now) {
        match key.code {
            Key::Esc => {
                let cleared = m.with_search(SearchModel::initial()).selection_reset();
                assert(cleared.cursor_in_step());
                assert(after.filtered() == cleared.filtered());
            },
            Key::Char(c) => {
                let reset = m.with_search(
                    m.search.add_char(c),
                ).search_results_updated().selection_reset();
                assert(after == reset);
            },
            Key::Backspace => {},
            Key::Enter => {},
            _ => {},
        }
    } else {
        let toggled = m.completed_toggled().selection_reset();
        assert(toggled.cursor_in_step());
        assert(after.filtered() == toggled.filtered());
    }
}

/// Showing completed reminders and hiding them again, or the other way
/// round, restores exactly what was shown.
pub proof fn lemma_show_completed_round_trip(m: AppModel)
    ensures
        m.with_show_completed(!m.show_completed_todos).with_show_completed(
            m.show_completed_todos,
        ).filtered() == m.filtered(),
{
}

/// `h` pressed twice on the screen of reminders restores exactly what was
/// shown.
pub proof fn lemma_toggle_key_twice_restores_list(m: AppModel, first: u64, second: u64)
    requires
        !m.search.is_active,
        m.search.last_escape_time is None,
        m.current_view is Reminders,
    ensures
        m.key_event(KeyPress { code: Key::Char('h'), ctrl: false }, first).key_event(
            KeyPress { code: Key::Char('h'), ctrl: false },
            second,
        ).filtered() == m.filtered(),
{
    let h = KeyPress { code: Key::Char('h'), ctrl: false };
    let once = m.key_event(h, first);
    assert(once.search == m.search);
    assert(once.current_view == m.current_view);
    assert(once.show_completed_todos == !m.show_completed_todos);
    let twice = once.key_event(h, second);
    assert(twice.search == m.search);
    assert(twice.show_completed_todos == m.show_completed_todos);
    assert(twice.current_reminders == m.current_reminders);
    assert(twice.all_reminders == m.all_reminders);
}

/// `d` pressed twice on a selected reminder deletes it once if the presses
/// are less than a second apart, and does nothing otherwise. The first press
/// must not itself follow a `d`.
pub proof fn lemma_double_d_deletes_once(m: AppModel, first: u64, second: u64)
    requires
        !m.search.is_active,
        m.current_view is Reminders,
        !m.keys.chord(Key::Char('d'), first),
    ensures
        ({
            let d = KeyPress { code: Key::Char('d'), ctrl: false };
            let after = m.key_event(d, first).key_event(d, second);
            after.actions == match m.selected_reminder_id() {
                Some(reminder_id) => if elapsed_ms(first, second) < 1000 {
                    m.actions.push(TuiActionModel::DeleteReminder { reminder_id })
                } else {
                    m.actions
                },
                None => m.actions,
            }
        }),
{
    let d = KeyPress { code: Key::Char('d'), ctrl: false };
    let once = m.key_event(d, first);
    assert(once.actions == m.actions);
    assert(once.filtered() == m.filtered());
    assert(once.selected_reminder_id() == m.selected_reminder_id());
}

/// A chord needs two presses of `d` in a row: after any other key, at
/// whatever time and on whatever screen, `d` emits nothing.
pub proof fn lemma_other_key_resets_chord(m: AppModel, other: KeyPress, first: u64, second: u64)
    requires
        other.code != Key::Char('d'),
    ensures
        ({
            let before = m.key_event(other, first);
            before.key_event(KeyPress { code: Key::Char('d'), ctrl: false }, second).actions
                == before.actions
        }),
{
    let before = m.key_event(other, first);
    assert(!before.keys.chord(Key::Char('d'), second));
}

/// Escape while a query is typed closes the query line and keeps the query
/// and the screen; a second Escape within a second forgets the search, and
/// leaves the global search for the screen of lists.
pub proof fn lemma_escape_twice_clears_search(m: AppModel, first: u64, second: u64)
    requires
        m.search.is_active,
        m.current_view is Reminders,
        !m.search.escape_pending(first),
        elapsed_ms(first, second) < 1000,
    ensures
        ({
            let esc = KeyPress { code: Key::Esc, ctrl: false };
            let once = m.key_event(esc, first);
            let twice = once.key_event(esc, second);
            &&& once.search == SearchModel {
                is_active: false,
                last_escape_time: Some(first),
                ..m.search
            }
            &&& once.current_view == m.current_view
            &&& once.actions == m.actions
            &&& twice.search == SearchModel::initial()
            &&& twice.current_view == if m.in_global_view() {
                AppViewModel::Lists
            } else {
                m.current_view
            }
            &&& twice.actions == if m.in_global_view() {
                m.actions.push(TuiActionModel::Back)
            } else {
                m.actions
            }
        }),
{
}

/// While no query is typed, `q` and Escape quit from the loading screen and
/// from the screen of lists, whatever was typed before and whenever.
pub proof fn lemma_quit_keys_quit(m: AppModel, key: KeyPress, now: u64)
    requires
        !m.search.is_active,
        m.current_view is Loading || m.current_view is Lists,
        key.code == Key::Char('q') || key.code == Key::Esc,
    ensures
        m.key_event(key, now).should_exit,
        m.key_event(key, now).actions == m.actions.push(TuiActionModel::Quit),
        m.key_event(key, now).current_view == m.current_view,
        m.key_event(key, now).search == m.search,
{
}

/// Reminders from the host leave the selection in step with what is shown:
/// the first row that is shown is selected, and no row is highlighted if
/// none is shown.
pub proof fn lemma_new_reminders_bring_cursor_in_step(
    m: AppModel,
    reminders: Seq<ReminderModel>,
    index: Seq<(ReminderModel, Seq<char>)>,
)
    ensures
        m.set_reminders(reminders).cursor_in_step(),
        m.set_reminders(reminders).selected_index == 0,
        m.set_reminders(reminders).list_cursor is None <==> m.set_reminders(
            reminders,
        ).filtered().len() == 0,
        m.set_reminders_with_global_data(reminders, index).cursor_in_step(),
        m.set_reminders_with_global_data(reminders, index).selected_index == 0,
        m.set_reminders_with_global_data(reminders, index).list_cursor is None
            <==> m.set_reminders_with_global_data(reminders, index).filtered().len() == 0,
{
}

/// A key that goes to the search engine keeps the cursor in step on the
/// screen of reminders.
pub proof fn lemma_search_key_keeps_cursor_following(m: AppModel, key: KeyPress, now: u64)
    requires
        m.cursor_follows(),
    ensures
        m.search_key(key, now).cursor_follows(),
{
    let after = m.search_key(key, now);
    match key.code {
        Key::Esc => {
            if m.search.escape_pending(now) {
                let cleared = m.with_search(SearchModel::initial()).selection_reset();
                assert(cleared.cursor_in_step());
                assert(after.filtered() == cleared.filtered());
            } else {
                assert(after.filtered() == m.filtered());
            }
        },
        Key::Char(c) => {
            let edited = m.with_search(m.search.add_char(c)).search_results_updated();
            assert(after == edited.selection_reset());
        },
        Key::Backspace => {
            let edited = m.with_search(m.search.remove_char()).search_results_updated();
            assert(after == edited.selection_reset());
        },
        Key::Enter => {},
        _ => {},
    }
}

/// A key on the screen of lists keeps the cursor in step wherever it leads.
pub proof fn lemma_lists_key_keeps_cursor_following(m: AppModel, key: KeyPress)
    requires
        m.current_view is Lists,
    ensures
        m.lists_key(key).cursor_follows(),
{
}

/// A key on the screen of reminders keeps the cursor in step.
pub proof fn lemma_reminders_key_keeps_cursor_following(
    m: AppModel,
    key: KeyPress,
    list_id: Seq<char>,
    now: u64,
)
    requires
        m.current_view is Reminders,
        m.cursor_in_step(),
    ensures
        m.reminders_key(key, list_id, now).cursor_follows(),
{
    let after = m.reminders_key(key, list_id, now);
    match key.code {
        Key::Char('q') | Key::Esc => {},
        Key::Up | Key::Char('k') => {
            assert(after.filtered() == m.filtered());
        },
        Key::Down | Key::Char('j') => {
            assert(after.filtered() == m.filtered());
        },
        Key::Enter | Key::Char(' ') => {
            assert(after.filtered() == m.filtered());
        },
        Key::Char('d') => {
            assert(after.filtered() == m.filtered());
        },
        Key::Delete => {
            assert(after.filtered() == m.filtered());
        },
        Key::Char('c') => {},
        Key::Char('h') => {
            let toggled = m.completed_toggled();
            assert(after == toggled.selection_reset());
        },
        _ => {},
    }
}

/// A key on the form keeps the cursor in step wherever it leads.
pub proof fn lemma_form_key_keeps_cursor_following(m: AppModel, key: KeyPress)
    requires
        m.current_view is CreateReminder,
    ensures
        m.form_key(key).cursor_follows(),
{
}

/// On the screen of reminders the cursor agrees with what is shown, in
/// every state that key presses lead to: no row is highlighted exactly when
/// nothing is shown, and else the selected row exists and is highlighted.
pub proof fn lemma_key_event_keeps_cursor_following(m: AppModel, key: KeyPress, now: u64)
    requires
        m.cursor_follows(),
    ensures
        m.key_event(key, now).cursor_follows(),
{
    let after = m.dispatched(key, now);
    assert(m.key_event(key, now).filtered() == after.filtered());
    assert(after.cursor_follows() ==> m.key_event(key, now).cursor_follows());
    if m.key_goes_to_search(key, now) {
        lemma_search_key_keeps_cursor_following(m, key, now);
    } else if m.in_global_view() && (key.code == Key::Char('q') || key.code == Key::Esc) {
    } else if m.in_global_view() && key.code == Key::Char('/') {
    } else if key.code == Key::Char('/') && m.current_view is Lists {
    } else if key.code == Key::Char('/') && m.current_view is Reminders {
    } else {
        match m.current_view {
            AppViewModel::Loading => {},
            AppViewModel::Lists => lemma_lists_key_keeps_cursor_following(m, key),
            AppViewModel::Reminders { list_id } => lemma_reminders_key_keeps_cursor_following(
                m,
                key,
                list_id,
                now,
            ),
            AppViewModel::CreateReminder => lemma_form_key_keeps_cursor_following(m, key),
        }
    }
}

/// The cursor agrees with what is shown from the start, and whatever the
/// host supplies.
pub proof fn lemma_host_data_keeps_cursor_following(
    m: AppModel,
    lists: Seq<ReminderListModel>,
    reminders: Seq<ReminderModel>,
    index: Seq<(ReminderModel, Seq<char>)>,
    line: Seq<char>,
    flag: bool,
    now: u64,
)
    requires
        m.cursor_follows(),
    ensures
        AppModel::initial(lists).cursor_follows(),
        m.set_lists(lists).cursor_follows(),
        m.set_reminders(reminders).cursor_follows(),
        m.set_reminders_with_global_data(reminders, index).cursor_follows(),
        m.set_all_reminders(index).cursor_follows(),
        m.with_status(line).cursor_follows(),
        m.set_loading(flag, line).cursor_follows(),
        m.without_actions().cursor_follows(),
        m.animation_tick(now).cursor_follows(),
{
    assert(m.set_lists(lists).filtered() == m.filtered());
    assert(m.with_status(line).filtered() == m.filtered());
    assert(m.set_loading(flag, line).filtered() == m.filtered());
    assert(m.without_actions().filtered() == m.filtered());
    assert(m.animation_tick(now).filtered() == m.filtered());
}

/// Moving the selection on the screen of reminders keeps it in step with
/// what is shown.
pub proof fn lemma_navigation_keeps_cursor_in_step(m: AppModel, key: KeyPress, now: u64)
    requires
        m.cursor_in_step(),
        m.current_view is Reminders,
        !m.key_goes_to_search(key, now),
        key.code == Key::Up || key.code == Key::Down || key.code == Key::Char('k') || key.code
            == Key::Char('j'),
    ensures
        m.key_event(key, now).cursor_in_step(),
        m.key_event(key, now).filtered() == m.filtered(),
{
    let after = m.dispatched(key, now);
    let list_id = m.current_view->list_id;
    assert(after == m.reminders_key(key, list_id, now));
    assert(after.filtered() == m.filtered());
}

/// `/` on the screen of lists opens the global search: the screen of
/// reminders under the global id, an active search with an empty query, and
/// the intent to load every reminder.
pub proof fn lemma_slash_opens_global_search(m: AppModel, now: u64)
    requires
        !m.search.is_active,
        m.current_view is Lists,
    ensures
        ({
            let after = m.key_event(KeyPress { code: Key::Char('/'), ctrl: false }, now);
            &&& after.current_view == AppViewModel::Reminders { list_id: GLOBAL_LIST_ID@ }
            &&& after.search == SearchModel::started(true)
            &&& after.actions == m.actions.push(
                TuiActionModel::GlobalSearch { query: Seq::empty() },
            )
        }),
{
}

/// While the state machine waits for its first lists, no key but `q` and
/// Escape changes anything but the memory of the last key.
pub proof fn lemma_loading_ignores_keys(m: AppModel, key: KeyPress, now: u64)
    requires
        !m.search.is_active,
        m.current_view is Loading,
        key.code != Key::Char('q'),
        key.code != Key::Esc,
    ensures
        m.key_event(key, now) == (AppModel { keys: m.key_event(key, now).keys, ..m }),
{
}

/// What is shown never depends on the selection, the screen, or the log:
/// only on the reminders, the search and the visibility of completed ones.
pub proof fn lemma_filtered_depends_on(a: AppModel, b: AppModel)
    requires
        a.current_reminders == b.current_reminders,
        a.all_reminders == b.all_reminders,
        a.search.query == b.search.query,
        a.search.is_global == b.search.is_global,
        a.show_completed_todos == b.show_completed_todos,
    ensures
        a.filtered() == b.filtered(),
{
}

} // verus!

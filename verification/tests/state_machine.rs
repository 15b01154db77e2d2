use rem_core::clock::{elapsed_between, is_within_window, reading_of_millis, Clock};
use rem_core::form::{find_list, CreateReminderForm, FormEvent};
use rem_core::keys::{Key, KeyPress, KeySequenceTracker};
use rem_core::search::{folded_match, SearchState};
use rem_core::text::{same_text, text_is_blank};
use rem_core::tui::app::AppView;
use rem_core::tui::TUIApp;
use rem_core::{RemError, Reminder, ReminderList, TuiAction};

fn list(id: &str, name: &str) -> ReminderList {
    ReminderList { id: id.to_string(), name: name.to_string(), color: "#FF0000".to_string(), count: 0 }
}

fn reminder(id: &str, title: &str, notes: Option<&str>, completed: bool) -> Reminder {
    Reminder {
        id: id.to_string(),
        title: title.to_string(),
        notes: notes.map(|n| n.to_string()),
        completed,
        priority: 0,
        due_date: None,
    }
}

fn press(app: &mut TUIApp, key: Key, at: u64) {
    app.handle_key_event_at(KeyPress::plain(key), at);
}

fn type_text(app: &mut TUIApp, text: &str, at: u64) {
    for c in text.chars() {
        press(app, Key::Char(c), at);
    }
}

fn titles(app: &TUIApp) -> Vec<String> {
    app.get_filtered_reminders().iter().map(|r| r.title.clone()).collect()
}

fn open_list(app: &mut TUIApp, reminders: Vec<Reminder>) {
    press(app, Key::Enter, 0);
    app.begin_run();
    app.set_reminders(reminders);
}

fn three_items() -> Vec<Reminder> {
    vec![
        reminder("rem-1", "Complete task", Some("This is done"), true),
        reminder("rem-2", "Incomplete task", None, false),
        reminder("rem-3", "Another incomplete", None, false),
    ]
}

#[test]
fn starts_loading_without_lists() {
    let app = TUIApp::new(vec![]).unwrap();
    assert!(matches!(app.get_current_view(), AppView::Loading));
    assert_eq!(app.list_cursor(), None);
    assert_eq!(app.selected_index(), 0);
    assert!(!app.should_exit());
    assert!(app.pending_actions().is_empty());
    assert!(app.status_log().is_empty());
}

#[test]
fn starts_on_lists_with_first_selected() {
    let app = TUIApp::new(vec![list("a", "A"), list("b", "B")]).unwrap();
    assert!(matches!(app.get_current_view(), AppView::Lists));
    assert_eq!(app.list_cursor(), Some(0));
    assert_eq!(app.lists().len(), 2);
    assert!(!app.show_completed_todos());
    assert!(!app.is_search_active());
    assert!(!app.is_global_search());
    assert!(!app.has_search_results());
    assert_eq!(app.get_search_query(), "");
}

#[test]
fn loading_accepts_only_quit() {
    let mut app = TUIApp::new(vec![]).unwrap();
    for key in [Key::Enter, Key::Up, Key::Down, Key::Char('c'), Key::Char('h'), Key::Char('/'), Key::Tab] {
        press(&mut app, key, 0);
    }
    assert!(matches!(app.get_current_view(), AppView::Loading));
    assert!(app.pending_actions().is_empty());
    assert!(!app.should_exit());
    assert!(!app.is_search_active());
    press(&mut app, Key::Char('q'), 0);
    assert!(app.should_exit());
    assert!(matches!(app.pending_actions().as_slice(), [TuiAction::Quit]));
}

#[test]
fn loading_escape_quits() {
    let mut app = TUIApp::new(vec![]).unwrap();
    press(&mut app, Key::Esc, 0);
    assert!(app.should_exit());
    assert!(matches!(app.pending_actions().as_slice(), [TuiAction::Quit]));
    assert!(app.step_ends_run());
}

#[test]
fn set_lists_leaves_loading_screen() {
    let mut app = TUIApp::new(vec![]).unwrap();
    app.set_lists(vec![]);
    assert!(matches!(app.get_current_view(), AppView::Loading));
    assert!(app.status_log().is_empty());
    app.set_lists(vec![list("a", "A")]);
    assert!(matches!(app.get_current_view(), AppView::Lists));
    assert_eq!(app.status_log().as_slice(), ["✅ Lists loaded successfully".to_string()]);
    app.set_lists(vec![list("b", "B")]);
    assert_eq!(app.status_log().len(), 1);
    assert_eq!(app.lists()[0].id, "b");
}

#[test]
fn status_log_keeps_last_five() {
    let mut app = TUIApp::new(vec![]).unwrap();
    for i in 0..7 {
        app.add_status_log(format!("line {}", i));
    }
    let expected: Vec<String> = (2..7).map(|i| format!("line {}", i)).collect();
    assert_eq!(app.status_log(), &expected);
}

#[test]
fn set_loading_notes_the_message() {
    let mut app = TUIApp::new(vec![]).unwrap();
    app.set_loading(true, "Fetching".to_string());
    assert!(app.is_loading());
    assert_eq!(app.loading_message(), "Fetching");
    assert_eq!(app.status_log().as_slice(), ["⏳ Fetching".to_string()]);
    app.set_loading(false, "Done".to_string());
    assert!(!app.is_loading());
    assert_eq!(app.loading_message(), "Done");
    assert_eq!(app.status_log().len(), 1);
}

#[test]
fn lists_navigation_wraps_around() {
    let mut app = TUIApp::new(vec![list("a", "A"), list("b", "B"), list("c", "C")]).unwrap();
    press(&mut app, Key::Up, 0);
    assert_eq!(app.selected_index(), 2);
    assert_eq!(app.list_cursor(), Some(2));
    press(&mut app, Key::Down, 0);
    assert_eq!(app.selected_index(), 0);
    press(&mut app, Key::Char('j'), 0);
    assert_eq!(app.selected_index(), 1);
    press(&mut app, Key::Char('k'), 0);
    assert_eq!(app.selected_index(), 0);
    assert_eq!(app.list_cursor(), Some(0));
    assert!(app.pending_actions().is_empty());
}

#[test]
fn enter_on_lists_selects_the_list() {
    let mut app = TUIApp::new(vec![list("a", "A"), list("b", "B")]).unwrap();
    press(&mut app, Key::Down, 0);
    press(&mut app, Key::Enter, 0);
    match app.get_current_view() {
        AppView::Reminders { list_id } => assert_eq!(list_id, "b"),
        other => panic!("unexpected view {:?}", other),
    }
    let actions = app.pending_actions();
    assert_eq!(actions.len(), 1);
    match &actions[0] {
        TuiAction::SelectList { list_id } => assert_eq!(list_id, "b"),
        other => panic!("unexpected action {:?}", other),
    }
    assert_eq!(app.status_log().as_slice(), ["📋 Loading reminders...".to_string()]);
    assert!(app.step_ends_run());
}

#[test]
fn quit_from_lists() {
    let mut app = TUIApp::new(vec![list("a", "A")]).unwrap();
    press(&mut app, Key::Char('q'), 0);
    assert!(app.should_exit());
    assert!(matches!(app.pending_actions().as_slice(), [TuiAction::Quit]));
}

#[test]
fn h_on_lists_toggles_without_intent() {
    let mut app = TUIApp::new(vec![list("a", "A")]).unwrap();
    press(&mut app, Key::Char('h'), 0);
    assert!(app.show_completed_todos());
    assert!(app.pending_actions().is_empty());
    assert_eq!(app.status_log().as_slice(), ["👁️ Completed todos shown".to_string()]);
    press(&mut app, Key::Char('h'), 0);
    assert!(!app.show_completed_todos());
    assert_eq!(app.status_log()[1], "👁️ Completed todos hidden");
}

#[test]
fn default_view_hides_completed_and_toggle_round_trips() {
    let mut app = TUIApp::new(vec![list("a", "A")]).unwrap();
    open_list(&mut app, three_items());
    let before = titles(&app);
    assert_eq!(before, vec!["Incomplete task", "Another incomplete"]);
    press(&mut app, Key::Char('h'), 0);
    assert_eq!(titles(&app), vec!["Complete task", "Incomplete task", "Another incomplete"]);
    press(&mut app, Key::Char('h'), 0);
    assert_eq!(titles(&app), before);
    assert!(app.pending_actions().is_empty());
}

#[test]
fn toggle_keeps_source_order() {
    let mut app = TUIApp::new(vec![list("a", "A")]).unwrap();
    open_list(
        &mut app,
        vec![
            reminder("1", "z", None, false),
            reminder("2", "a", None, true),
            reminder("3", "m", None, false),
            reminder("4", "b", None, true),
        ],
    );
    assert_eq!(titles(&app), vec!["z", "m"]);
    app.set_show_completed_todos(true);
    assert_eq!(titles(&app), vec!["z", "a", "m", "b"]);
    app.set_show_completed_todos(false);
    assert_eq!(titles(&app), vec!["z", "m"]);
}

#[test]
fn search_matches_notes_whatever_the_case() {
    let mut app = TUIApp::new(vec![list("a", "A")]).unwrap();
    open_list(
        &mut app,
        vec![
            reminder("1", "Call dentist", Some("Schedule appointment"), false),
            reminder("2", "Buy milk", None, false),
        ],
    );
    press(&mut app, Key::Char('/'), 0);
    type_text(&mut app, "APPO", 0);
    assert_eq!(app.get_search_query(), "APPO");
    assert_eq!(titles(&app), vec!["Call dentist"]);
}

#[test]
fn two_d_within_a_second_delete_once() {
    let mut app = TUIApp::new(vec![list("a", "A")]).unwrap();
    open_list(&mut app, three_items());
    press(&mut app, Key::Char('d'), 10_000);
    assert!(app.pending_actions().is_empty());
    press(&mut app, Key::Char('d'), 10_500);
    let actions = app.pending_actions();
    assert_eq!(actions.len(), 1);
    match &actions[0] {
        TuiAction::DeleteReminder { reminder_id } => assert_eq!(reminder_id, "rem-2"),
        other => panic!("unexpected action {:?}", other),
    }
}

#[test]
fn two_d_too_far_apart_delete_nothing() {
    let mut app = TUIApp::new(vec![list("a", "A")]).unwrap();
    open_list(&mut app, three_items());
    press(&mut app, Key::Char('d'), 10_000);
    press(&mut app, Key::Char('d'), 11_500);
    assert!(app.pending_actions().is_empty());
}

#[test]
fn chord_window_is_below_one_second() {
    let mut app = TUIApp::new(vec![list("a", "A")]).unwrap();
    open_list(&mut app, three_items());
    press(&mut app, Key::Char('d'), 5_000);
    press(&mut app, Key::Char('d'), 6_000);
    assert!(app.pending_actions().is_empty());
    press(&mut app, Key::Char('d'), 6_999);
    assert_eq!(app.pending_actions().len(), 1);
}

#[test]
fn other_key_between_resets_the_chord() {
    let mut app = TUIApp::new(vec![list("a", "A")]).unwrap();
    open_list(&mut app, three_items());
    press(&mut app, Key::Char('d'), 0);
    press(&mut app, Key::Char('x'), 100);
    press(&mut app, Key::Char('d'), 200);
    assert!(app.pending_actions().is_empty());
}

#[test]
fn keys_taken_by_the_search_reset_the_chord() {
    let mut app = TUIApp::new(vec![list("a", "A")]).unwrap();
    open_list(&mut app, three_items());
    press(&mut app, Key::Char('d'), 0);
    press(&mut app, Key::Char('/'), 100);
    press(&mut app, Key::Esc, 200);
    press(&mut app, Key::Char('d'), 300);
    assert!(app.pending_actions().is_empty());
    press(&mut app, Key::Char('d'), 400);
    assert_eq!(app.pending_actions().len(), 1);
}

#[test]
fn chord_without_selection_does_nothing() {
    let mut app = TUIApp::new(vec![list("a", "A")]).unwrap();
    open_list(&mut app, vec![reminder("1", "Done", None, true)]);
    press(&mut app, Key::Char('d'), 0);
    press(&mut app, Key::Char('d'), 100);
    press(&mut app, Key::Delete, 200);
    press(&mut app, Key::Enter, 300);
    assert!(app.pending_actions().is_empty());
}

#[test]
fn delete_key_deletes_at_once() {
    let mut app = TUIApp::new(vec![list("a", "A")]).unwrap();
    open_list(&mut app, three_items());
    press(&mut app, Key::Down, 0);
    press(&mut app, Key::Delete, 0);
    let actions = app.pending_actions();
    assert_eq!(actions.len(), 1);
    match &actions[0] {
        TuiAction::DeleteReminder { reminder_id } => assert_eq!(reminder_id, "rem-3"),
        other => panic!("unexpected action {:?}", other),
    }
}

#[test]
fn enter_and_space_toggle_selected_reminder() {
    let mut app = TUIApp::new(vec![list("a", "A")]).unwrap();
    open_list(&mut app, three_items());
    press(&mut app, Key::Enter, 0);
    press(&mut app, Key::Char(' '), 0);
    let actions = app.pending_actions();
    assert_eq!(actions.len(), 2);
    for action in &actions {
        match action {
            TuiAction::ToggleReminder { reminder_id } => assert_eq!(reminder_id, "rem-2"),
            other => panic!("unexpected action {:?}", other),
        }
    }
    assert_eq!(app.status_log().last().unwrap(), "✅ Toggling reminder...");
}

#[test]
fn reminders_navigation_wraps_within_filtered() {
    let mut app = TUIApp::new(vec![list("a", "A")]).unwrap();
    open_list(&mut app, three_items());
    press(&mut app, Key::Up, 0);
    assert_eq!(app.selected_index(), 1);
    press(&mut app, Key::Down, 0);
    assert_eq!(app.selected_index(), 0);
    assert_eq!(app.list_cursor(), Some(0));
}

#[test]
fn cursor_clamps_when_filter_shrinks() {
    let mut app = TUIApp::new(vec![list("a", "A")]).unwrap();
    open_list(
        &mut app,
        vec![
            reminder("1", "one", None, false),
            reminder("2", "two", None, false),
            reminder("3", "three", None, true),
        ],
    );
    press(&mut app, Key::Char('h'), 0);
    press(&mut app, Key::Up, 0);
    assert_eq!(app.selected_index(), 2);
    press(&mut app, Key::Char('h'), 0);
    assert_eq!(app.get_filtered_reminders().len(), 2);
    assert_eq!(app.selected_index(), 1);
    assert_eq!(app.list_cursor(), Some(1));
}

#[test]
fn cursor_is_none_when_nothing_is_shown() {
    let mut app = TUIApp::new(vec![list("a", "A")]).unwrap();
    open_list(&mut app, vec![reminder("1", "one", None, false), reminder("2", "two", None, false)]);
    press(&mut app, Key::Down, 0);
    press(&mut app, Key::Char('/'), 0);
    type_text(&mut app, "zzz", 0);
    assert!(app.get_filtered_reminders().is_empty());
    assert_eq!(app.list_cursor(), None);
    assert_eq!(app.selected_index(), 0);
    press(&mut app, Key::Backspace, 0);
    press(&mut app, Key::Backspace, 0);
    press(&mut app, Key::Backspace, 0);
    assert_eq!(app.get_filtered_reminders().len(), 2);
    assert_eq!(app.list_cursor(), Some(0));
}

#[test]
fn typing_narrows_and_clamps_cursor() {
    let mut app = TUIApp::new(vec![list("a", "A")]).unwrap();
    open_list(
        &mut app,
        vec![
            reminder("1", "alpha", None, false),
            reminder("2", "beta", None, false),
            reminder("3", "gamma", None, false),
        ],
    );
    press(&mut app, Key::Up, 0);
    assert_eq!(app.selected_index(), 2);
    press(&mut app, Key::Char('/'), 0);
    type_text(&mut app, "et", 0);
    assert_eq!(titles(&app), vec!["beta"]);
    assert_eq!(app.selected_index(), 0);
    assert_eq!(app.list_cursor(), Some(0));
    assert_eq!(app.status_log().last().unwrap(), "🔍 list search: 'et'");
}

#[test]
fn keys_go_to_the_query_while_searching() {
    let mut app = TUIApp::new(vec![list("a", "A")]).unwrap();
    open_list(&mut app, three_items());
    press(&mut app, Key::Char('/'), 0);
    for c in ['q', 'h', 'j', 'k', 'd', 'c', '/', ' '] {
        press(&mut app, Key::Char(c), 0);
    }
    press(&mut app, Key::Up, 0);
    press(&mut app, Key::Delete, 0);
    press(&mut app, Key::Tab, 0);
    assert_eq!(app.get_search_query(), "qhjkdc/ ");
    assert!(app.is_search_active());
    assert!(app.pending_actions().is_empty());
    assert!(!app.show_completed_todos());
    assert!(matches!(app.get_current_view(), AppView::Reminders { .. }));
}

#[test]
fn enter_confirms_query() {
    let mut app = TUIApp::new(vec![list("a", "A")]).unwrap();
    open_list(&mut app, three_items());
    press(&mut app, Key::Char('/'), 0);
    type_text(&mut app, "another", 0);
    press(&mut app, Key::Enter, 0);
    assert!(!app.is_search_active());
    assert!(app.has_search_results());
    assert_eq!(app.get_search_query(), "another");
    assert_eq!(titles(&app), vec!["Another incomplete"]);
    assert_eq!(app.status_log().last().unwrap(), "🔍 Search for 'another' applied");
}

#[test]
fn enter_on_empty_query_clears() {
    let mut app = TUIApp::new(vec![list("a", "A")]).unwrap();
    open_list(&mut app, three_items());
    press(&mut app, Key::Char('/'), 0);
    press(&mut app, Key::Enter, 0);
    assert!(!app.is_search_active());
    assert!(!app.has_search_results());
    assert_eq!(app.status_log().last().unwrap(), "🔍 Search cleared");
    assert_eq!(titles(&app).len(), 2);
}

#[test]
fn global_search_from_lists() {
    let mut app = TUIApp::new(vec![list("work", "Work"), list("home", "Home")]).unwrap();
    press(&mut app, Key::Char('/'), 0);
    match app.get_current_view() {
        AppView::Reminders { list_id } => assert_eq!(list_id, "global"),
        other => panic!("unexpected view {:?}", other),
    }
    assert!(app.is_in_global_search_view());
    assert!(app.is_search_active());
    assert!(app.is_global_search());
    let actions = app.pending_actions();
    assert_eq!(actions.len(), 1);
    match &actions[0] {
        TuiAction::GlobalSearch { query } => assert_eq!(query, ""),
        other => panic!("unexpected action {:?}", other),
    }
    app.begin_run();
    app.set_all_reminders(vec![
        (reminder("1", "Buy groceries", None, false), "Home".to_string()),
        (reminder("2", "Buy gift", None, true), "Home".to_string()),
    ]);
    type_text(&mut app, "buy", 0);
    assert_eq!(titles(&app), vec!["Buy groceries"]);
    app.set_show_completed_todos(true);
    assert_eq!(titles(&app), vec!["Buy groceries", "Buy gift"]);
    assert_eq!(app.status_log().last().unwrap(), "🔍 global search: 'buy'");
}

#[test]
fn escape_once_keeps_query_twice_clears() {
    let mut app = TUIApp::new(vec![list("a", "A")]).unwrap();
    open_list(&mut app, three_items());
    press(&mut app, Key::Char('/'), 1_000);
    type_text(&mut app, "test", 1_000);
    assert!(app.is_search_active());
    press(&mut app, Key::Esc, 2_000);
    assert!(!app.is_search_active());
    assert!(app.has_search_results());
    assert_eq!(app.get_search_query(), "test");
    assert!(matches!(app.get_current_view(), AppView::Reminders { .. }));
    assert!(app.pending_actions().is_empty());
    press(&mut app, Key::Esc, 2_600);
    assert_eq!(app.get_search_query(), "");
    assert!(!app.has_search_results());
    assert!(!app.is_search_active());
    assert!(!app.is_global_search());
    assert!(matches!(app.get_current_view(), AppView::Reminders { .. }));
    assert_eq!(app.status_log().last().unwrap(), "🔍 Search cleared");
    assert_eq!(titles(&app).len(), 2);
}

#[test]
fn late_second_escape_goes_back_and_keeps_query() {
    let mut app = TUIApp::new(vec![list("a", "A")]).unwrap();
    open_list(&mut app, three_items());
    press(&mut app, Key::Char('/'), 0);
    type_text(&mut app, "test", 0);
    press(&mut app, Key::Esc, 1_000);
    press(&mut app, Key::Esc, 2_000);
    assert!(matches!(app.get_current_view(), AppView::Lists));
    assert!(matches!(app.pending_actions().as_slice(), [TuiAction::Back]));
    assert_eq!(app.get_search_query(), "test");
    assert!(app.has_search_results());
}

#[test]
fn first_escape_in_global_search_keeps_the_screen() {
    let mut app = TUIApp::new(vec![list("a", "A")]).unwrap();
    press(&mut app, Key::Char('/'), 0);
    app.begin_run();
    type_text(&mut app, "test", 0);
    press(&mut app, Key::Esc, 100);
    assert!(app.is_in_global_search_view());
    assert!(app.pending_actions().is_empty());
    assert!(!app.is_search_active());
    assert!(app.has_search_results());
    assert!(app.is_global_search());
    assert_eq!(app.get_search_query(), "test");
    assert_eq!(app.status_log().last().unwrap(), "🔍 Search mode exited (ESC again to clear)");
}

#[test]
fn second_escape_in_global_search_returns_to_lists() {
    let mut app = TUIApp::new(vec![list("a", "A")]).unwrap();
    press(&mut app, Key::Char('/'), 0);
    app.begin_run();
    type_text(&mut app, "x", 0);
    press(&mut app, Key::Esc, 100);
    press(&mut app, Key::Esc, 300);
    assert!(matches!(app.get_current_view(), AppView::Lists));
    assert!(matches!(app.pending_actions().as_slice(), [TuiAction::Back]));
    assert_eq!(app.get_search_query(), "");
    assert!(!app.has_search_results());
    assert!(!app.is_global_search());
    assert!(!app.should_exit());
    assert_eq!(app.status_log().last().unwrap(), "🔍 Global search closed");
    app.begin_run();
    press(&mut app, Key::Esc, 400);
    assert!(app.should_exit());
    assert!(matches!(app.pending_actions().as_slice(), [TuiAction::Quit]));
}

#[test]
fn late_second_escape_in_global_search_returns_to_lists() {
    let mut app = TUIApp::new(vec![list("a", "A")]).unwrap();
    press(&mut app, Key::Char('/'), 0);
    app.begin_run();
    type_text(&mut app, "x", 0);
    press(&mut app, Key::Esc, 100);
    press(&mut app, Key::Esc, 1_100);
    assert!(matches!(app.get_current_view(), AppView::Lists));
    assert!(matches!(app.pending_actions().as_slice(), [TuiAction::Back]));
    assert_eq!(app.get_search_query(), "");
    assert!(!app.is_global_search());
}

#[test]
fn escape_quits_from_loading_even_after_an_escape() {
    let mut app = TUIApp::new(vec![]).unwrap();
    app.start_list_search();
    app.add_search_char('x');
    press(&mut app, Key::Esc, 0);
    assert!(!app.is_search_active());
    assert!(matches!(app.get_current_view(), AppView::Loading));
    press(&mut app, Key::Esc, 100);
    assert!(app.should_exit());
    assert!(matches!(app.pending_actions().as_slice(), [TuiAction::Quit]));
    assert_eq!(app.get_search_query(), "x");
}

#[test]
fn escape_quits_from_lists_even_after_an_escape() {
    let mut app = TUIApp::new(vec![list("a", "A")]).unwrap();
    app.start_list_search();
    app.add_search_char('x');
    press(&mut app, Key::Esc, 0);
    assert!(matches!(app.get_current_view(), AppView::Lists));
    assert!(app.pending_actions().is_empty());
    press(&mut app, Key::Esc, 100);
    assert!(app.should_exit());
    assert!(matches!(app.pending_actions().as_slice(), [TuiAction::Quit]));
}

#[test]
fn escape_on_the_form_cancels_even_after_an_escape() {
    let mut app = TUIApp::new(vec![list("a", "A")]).unwrap();
    open_list(&mut app, three_items());
    press(&mut app, Key::Char('/'), 0);
    press(&mut app, Key::Char('t'), 0);
    press(&mut app, Key::Esc, 100);
    press(&mut app, Key::Char('c'), 200);
    assert!(matches!(app.get_current_view(), AppView::CreateReminder));
    press(&mut app, Key::Esc, 300);
    assert!(matches!(app.get_current_view(), AppView::Reminders { .. }));
    assert!(matches!(app.pending_actions().as_slice(), [TuiAction::Back]));
    assert_eq!(app.get_search_query(), "t");
}

#[test]
fn no_row_is_highlighted_when_every_reminder_is_hidden() {
    let mut app = TUIApp::new(vec![list("a", "A")]).unwrap();
    press(&mut app, Key::Enter, 0);
    app.set_reminders(vec![reminder("1", "done", None, true)]);
    assert!(app.get_filtered_reminders().is_empty());
    assert_eq!(app.list_cursor(), None);
    assert_eq!(app.selected_index(), 0);
    app.set_reminders_with_global_data(
        vec![reminder("1", "done", None, true), reminder("2", "too", None, true)],
        vec![],
    );
    assert_eq!(app.list_cursor(), None);
    app.set_show_completed_todos(true);
    app.set_reminders(vec![reminder("1", "done", None, true)]);
    assert_eq!(app.list_cursor(), Some(0));
}

#[test]
fn global_index_brings_the_cursor_in_step() {
    let mut app = TUIApp::new(vec![list("a", "A")]).unwrap();
    press(&mut app, Key::Char('/'), 0);
    assert_eq!(app.list_cursor(), None);
    app.set_all_reminders(vec![
        (reminder("1", "one", None, false), "A".to_string()),
        (reminder("2", "two", None, false), "A".to_string()),
    ]);
    assert_eq!(app.list_cursor(), Some(0));
    type_text(&mut app, "zz", 0);
    assert_eq!(app.list_cursor(), None);
    press(&mut app, Key::Enter, 0);
    press(&mut app, Key::Char('/'), 0);
    assert_eq!(app.get_search_query(), "");
    assert_eq!(app.get_filtered_reminders().len(), 2);
    assert_eq!(app.list_cursor(), Some(0));
}

#[test]
fn opening_a_list_brings_the_cursor_in_step() {
    let mut app = TUIApp::new(vec![list("a", "A"), list("b", "B"), list("c", "C")]).unwrap();
    press(&mut app, Key::Up, 0);
    assert_eq!(app.selected_index(), 2);
    press(&mut app, Key::Enter, 0);
    assert_eq!(app.list_cursor(), None);
    assert_eq!(app.selected_index(), 0);
    app.set_reminders(three_items());
    press(&mut app, Key::Down, 0);
    press(&mut app, Key::Char('c'), 0);
    app.set_all_reminders(vec![]);
    assert_eq!(app.list_cursor(), Some(1));
    press(&mut app, Key::Esc, 0);
    assert_eq!(app.list_cursor(), Some(1));
    assert_eq!(app.selected_index(), 1);
}

#[test]
fn q_in_idle_global_view_clears_and_goes_back() {
    let mut app = TUIApp::new(vec![list("a", "A")]).unwrap();
    press(&mut app, Key::Char('/'), 0);
    app.begin_run();
    type_text(&mut app, "x", 0);
    press(&mut app, Key::Enter, 0);
    assert!(app.is_in_global_search_view());
    assert!(!app.is_search_active());
    press(&mut app, Key::Char('q'), 5_000);
    assert!(matches!(app.get_current_view(), AppView::Lists));
    assert!(matches!(app.pending_actions().as_slice(), [TuiAction::Back]));
    assert_eq!(app.get_search_query(), "");
    assert!(!app.is_global_search());
}

#[test]
fn slash_in_idle_global_view_reopens_query_line() {
    let mut app = TUIApp::new(vec![list("a", "A")]).unwrap();
    press(&mut app, Key::Char('/'), 0);
    type_text(&mut app, "x", 0);
    press(&mut app, Key::Enter, 0);
    app.begin_run();
    press(&mut app, Key::Char('/'), 5_000);
    assert!(app.is_search_active());
    assert!(app.is_global_search());
    assert_eq!(app.get_search_query(), "");
    assert!(app.pending_actions().is_empty());
    assert_eq!(app.status_log().last().unwrap(), "🔍 Global search reactivated...");
}

#[test]
fn back_from_reminders() {
    let mut app = TUIApp::new(vec![list("a", "A")]).unwrap();
    open_list(&mut app, three_items());
    press(&mut app, Key::Char('q'), 0);
    assert!(matches!(app.get_current_view(), AppView::Lists));
    assert!(matches!(app.pending_actions().as_slice(), [TuiAction::Back]));
    assert!(!app.should_exit());
}

#[test]
fn set_reminders_in_global_context_uses_placeholder_name() {
    let mut app = TUIApp::new(vec![list("a", "A")]).unwrap();
    app.start_global_search();
    app.set_reminders(vec![reminder("1", "one", None, false)]);
    assert_eq!(app.get_list_name_for_reminder("1"), Some("Unknown List"));
    assert_eq!(app.all_reminders().len(), 1);
    assert_eq!(app.current_reminders().len(), 1);
    assert_eq!(app.list_cursor(), Some(0));
}

#[test]
fn set_reminders_outside_global_context_keeps_index() {
    let mut app = TUIApp::new(vec![list("a", "A")]).unwrap();
    app.set_all_reminders(vec![(reminder("9", "nine", None, false), "Work".to_string())]);
    app.set_reminders(vec![]);
    assert_eq!(app.get_list_name_for_reminder("9"), Some("Work"));
    assert_eq!(app.get_list_name_for_reminder("1"), None);
    assert_eq!(app.list_cursor(), None);
}

#[test]
fn list_name_lookup_takes_first_entry() {
    let mut app = TUIApp::new(vec![]).unwrap();
    app.set_all_reminders(vec![
        (reminder("1", "one", None, false), "First".to_string()),
        (reminder("1", "uno", None, false), "Second".to_string()),
    ]);
    assert_eq!(app.get_list_name_for_reminder("1"), Some("First"));
}

#[test]
fn set_reminders_with_global_data_sets_both() {
    let mut app = TUIApp::new(vec![list("a", "A")]).unwrap();
    press(&mut app, Key::Down, 0);
    app.set_reminders_with_global_data(
        vec![reminder("1", "one", None, false)],
        vec![(reminder("1", "one", None, false), "Work".to_string())],
    );
    assert_eq!(app.selected_index(), 0);
    assert_eq!(app.list_cursor(), Some(0));
    assert_eq!(app.get_list_name_for_reminder("1"), Some("Work"));
}

fn open_form_from_lists(app: &mut TUIApp) {
    press(app, Key::Char('c'), 0);
}

#[test]
fn form_opens_with_selected_list() {
    let mut app = TUIApp::new(vec![list("a", "A"), list("b", "B")]).unwrap();
    press(&mut app, Key::Down, 0);
    open_form_from_lists(&mut app);
    assert!(matches!(app.get_current_view(), AppView::CreateReminder));
    let form = app.create_form().as_ref().unwrap();
    assert_eq!(form.selected_list_id(), "b");
    assert_eq!(form.current_field(), 0);
    assert_eq!(form.priority(), 0);
    assert_eq!(form.title(), "");
}

#[test]
fn form_opens_from_reminders_with_that_list() {
    let mut app = TUIApp::new(vec![list("a", "A"), list("b", "B")]).unwrap();
    open_list(&mut app, three_items());
    press(&mut app, Key::Char('c'), 0);
    assert_eq!(app.create_form().as_ref().unwrap().selected_list_id(), "a");
    press(&mut app, Key::Esc, 0);
    match app.get_current_view() {
        AppView::Reminders { list_id } => assert_eq!(list_id, "a"),
        other => panic!("unexpected view {:?}", other),
    }
    assert!(matches!(app.pending_actions().as_slice(), [TuiAction::Back]));
    assert!(app.create_form().is_none());
}

#[test]
fn form_submit_builds_the_reminder() {
    let mut app = TUIApp::new(vec![list("a", "A"), list("b", "B")]).unwrap();
    open_form_from_lists(&mut app);
    type_text(&mut app, "Pay rent", 0);
    press(&mut app, Key::Tab, 0);
    type_text(&mut app, "by bank", 0);
    press(&mut app, Key::Tab, 0);
    press(&mut app, Key::Tab, 0);
    press(&mut app, Key::Down, 0);
    press(&mut app, Key::Tab, 0);
    press(&mut app, Key::Up, 0);
    press(&mut app, Key::Up, 0);
    app.handle_key_event_at(KeyPress::with_ctrl(Key::Char('s')), 0);
    let actions = app.pending_actions();
    assert_eq!(actions.len(), 1);
    match &actions[0] {
        TuiAction::CreateReminder { new_reminder } => {
            assert_eq!(new_reminder.title, "Pay rent");
            assert_eq!(new_reminder.notes.as_deref(), Some("by bank"));
            assert_eq!(new_reminder.due_date, None);
            assert_eq!(new_reminder.list_id, "b");
            assert_eq!(new_reminder.priority, 2);
        },
        other => panic!("unexpected action {:?}", other),
    }
    assert!(matches!(app.get_current_view(), AppView::Lists));
    assert!(app.create_form().is_none());
}

#[test]
fn form_submit_needs_a_title() {
    let mut app = TUIApp::new(vec![list("a", "A")]).unwrap();
    open_form_from_lists(&mut app);
    type_text(&mut app, "  \t ", 0);
    app.handle_key_event_at(KeyPress::with_ctrl(Key::Char('s')), 0);
    assert!(app.pending_actions().is_empty());
    assert!(matches!(app.get_current_view(), AppView::CreateReminder));
    assert_eq!(app.create_form().as_ref().unwrap().title(), "  \t ");
}

#[test]
fn form_plain_s_is_typed() {
    let mut app = TUIApp::new(vec![list("a", "A")]).unwrap();
    open_form_from_lists(&mut app);
    type_text(&mut app, "sos", 0);
    assert_eq!(app.create_form().as_ref().unwrap().title(), "sos");
    assert!(app.pending_actions().is_empty());
}

#[test]
fn form_q_cancels() {
    let mut app = TUIApp::new(vec![list("a", "A")]).unwrap();
    open_form_from_lists(&mut app);
    type_text(&mut app, "abc", 0);
    press(&mut app, Key::Char('q'), 0);
    assert!(matches!(app.get_current_view(), AppView::Lists));
    assert!(matches!(app.pending_actions().as_slice(), [TuiAction::Back]));
    assert!(app.create_form().is_none());
}

#[test]
fn form_fields_cycle_both_ways() {
    let mut app = TUIApp::new(vec![list("a", "A")]).unwrap();
    open_form_from_lists(&mut app);
    press(&mut app, Key::BackTab, 0);
    assert_eq!(app.create_form().as_ref().unwrap().current_field(), 4);
    press(&mut app, Key::Tab, 0);
    assert_eq!(app.create_form().as_ref().unwrap().current_field(), 0);
    for expected in [1, 2, 3, 4, 0] {
        press(&mut app, Key::Tab, 0);
        assert_eq!(app.create_form().as_ref().unwrap().current_field(), expected);
    }
}

#[test]
fn form_backspace_erases_active_field() {
    let mut app = TUIApp::new(vec![list("a", "A")]).unwrap();
    open_form_from_lists(&mut app);
    type_text(&mut app, "ab", 0);
    press(&mut app, Key::Tab, 0);
    type_text(&mut app, "xy", 0);
    press(&mut app, Key::Backspace, 0);
    press(&mut app, Key::Tab, 0);
    press(&mut app, Key::Backspace, 0);
    type_text(&mut app, "2030", 0);
    let form = app.create_form().as_ref().unwrap();
    assert_eq!(form.title(), "ab");
    assert_eq!(form.notes(), "x");
    assert_eq!(form.due_date(), "2030");
}

#[test]
fn form_priority_stays_within_range() {
    let mut app = TUIApp::new(vec![list("a", "A")]).unwrap();
    open_form_from_lists(&mut app);
    press(&mut app, Key::BackTab, 0);
    press(&mut app, Key::Down, 0);
    assert_eq!(app.create_form().as_ref().unwrap().priority(), 0);
    for _ in 0..12 {
        press(&mut app, Key::Up, 0);
    }
    assert_eq!(app.create_form().as_ref().unwrap().priority(), 9);
    press(&mut app, Key::Down, 0);
    assert_eq!(app.create_form().as_ref().unwrap().priority(), 8);
}

#[test]
fn form_list_picker_cycles() {
    let mut app = TUIApp::new(vec![list("a", "A"), list("b", "B"), list("c", "C")]).unwrap();
    open_form_from_lists(&mut app);
    for _ in 0..3 {
        press(&mut app, Key::Tab, 0);
    }
    press(&mut app, Key::Up, 0);
    assert_eq!(app.create_form().as_ref().unwrap().selected_list_id(), "c");
    press(&mut app, Key::Down, 0);
    assert_eq!(app.create_form().as_ref().unwrap().selected_list_id(), "a");
    press(&mut app, Key::Down, 0);
    assert_eq!(app.create_form().as_ref().unwrap().selected_list_id(), "b");
    type_text(&mut app, "zzz", 0);
    assert_eq!(app.create_form().as_ref().unwrap().title(), "");
}

#[test]
fn form_arrows_do_nothing_on_text_fields() {
    let mut app = TUIApp::new(vec![list("a", "A"), list("b", "B")]).unwrap();
    open_form_from_lists(&mut app);
    press(&mut app, Key::Up, 0);
    press(&mut app, Key::Down, 0);
    let form = app.create_form().as_ref().unwrap();
    assert_eq!(form.selected_list_id(), "a");
    assert_eq!(form.priority(), 0);
}

#[test]
fn form_new_selects_a_known_list() {
    let lists = vec![list("a", "A"), list("b", "B")];
    assert_eq!(CreateReminderForm::new(&lists, None).selected_list_id(), "a");
    assert_eq!(CreateReminderForm::new(&lists, Some("b".to_string())).selected_list_id(), "b");
    assert_eq!(CreateReminderForm::new(&lists, Some("zz".to_string())).selected_list_id(), "a");
    assert_eq!(CreateReminderForm::new(&lists, Some("global".to_string())).selected_list_id(), "a");
    assert_eq!(CreateReminderForm::new(&lists, Some("".to_string())).selected_list_id(), "a");
    assert_eq!(CreateReminderForm::new(&vec![], None).selected_list_id(), "");
    assert_eq!(CreateReminderForm::new(&vec![], Some("zz".to_string())).selected_list_id(), "");
}

#[test]
fn form_without_lists_does_not_move() {
    let mut form = CreateReminderForm::new(&vec![], Some("global".to_string()));
    for _ in 0..3 {
        form.next_field();
    }
    form.arrow(&vec![], true);
    form.arrow(&vec![], false);
    assert_eq!(form.selected_list_id(), "");
    let lists = vec![list("a", "A"), list("b", "B")];
    form.arrow(&lists, true);
    form.arrow(&lists, false);
    assert_eq!(form.selected_list_id(), "");
}

#[test]
fn form_from_global_search_creates_in_the_first_list() {
    let mut app = TUIApp::new(vec![list("a", "A"), list("b", "B")]).unwrap();
    press(&mut app, Key::Char('/'), 0);
    press(&mut app, Key::Enter, 0);
    app.begin_run();
    assert!(app.is_in_global_search_view());
    press(&mut app, Key::Char('c'), 0);
    assert_eq!(app.create_form().as_ref().unwrap().selected_list_id(), "a");
    type_text(&mut app, "x", 0);
    app.handle_key_event_at(KeyPress::with_ctrl(Key::Char('s')), 0);
    let actions = app.pending_actions();
    assert_eq!(actions.len(), 1);
    match &actions[0] {
        TuiAction::CreateReminder { new_reminder } => {
            assert_eq!(new_reminder.title, "x");
            assert_eq!(new_reminder.list_id, "a");
        },
        other => panic!("unexpected action {:?}", other),
    }
    assert!(app.is_in_global_search_view());
}

#[test]
fn white_space_is_the_unicode_property() {
    let white = |n: u32| {
        (0x09..=0x0d).contains(&n)
            || n == 0x20
            || n == 0x85
            || n == 0xa0
            || n == 0x1680
            || (0x2000..=0x200a).contains(&n)
            || n == 0x2028
            || n == 0x2029
            || n == 0x202f
            || n == 0x205f
            || n == 0x3000
    };
    let mut count = 0;
    for n in 0..=0x10ffffu32 {
        if let Some(c) = char::from_u32(n) {
            let mut text = String::new();
            text.push(c);
            assert_eq!(text_is_blank(&text), white(n), "U+{:04X}", n);
            if white(n) {
                count += 1;
            }
        }
    }
    assert_eq!(count, 25);
    assert!(!text_is_blank("x"));
    assert!(!text_is_blank(" \u{200b}"));
    assert!(!text_is_blank("\u{180e}"));
}

#[test]
fn form_handle_key_reports_events() {
    let lists = vec![list("a", "A")];
    let mut form = CreateReminderForm::new(&lists, None);
    assert!(matches!(form.handle_key(&lists, KeyPress::plain(Key::Char('x'))), FormEvent::Stay));
    assert!(matches!(form.handle_key(&lists, KeyPress::plain(Key::Esc)), FormEvent::Cancel));
    match form.handle_key(&lists, KeyPress::with_ctrl(Key::Char('s'))) {
        FormEvent::Submit(new_reminder) => {
            assert_eq!(new_reminder.title, "x");
            assert_eq!(new_reminder.notes, None);
            assert_eq!(new_reminder.list_id, "a");
        },
        other => panic!("unexpected event {:?}", other),
    }
    assert!(form.submission().is_some());
}

#[test]
fn find_list_gives_first_place() {
    let lists = vec![list("a", "A"), list("b", "B"), list("b", "B2")];
    assert_eq!(find_list(&lists, "b"), Some(1));
    assert_eq!(find_list(&lists, "a"), Some(0));
    assert_eq!(find_list(&lists, "c"), None);
    assert_eq!(find_list(&vec![], "a"), None);
}

#[test]
fn animation_advances_every_150_ms() {
    let mut app = TUIApp::new(vec![]).unwrap();
    app.tick_animation_at(1_000);
    assert_eq!(app.loading_animation_state(), 0);
    app.tick_animation_at(1_149);
    assert_eq!(app.loading_animation_state(), 0);
    app.tick_animation_at(1_150);
    assert_eq!(app.loading_animation_state(), 1);
    app.tick_animation_at(1_299);
    assert_eq!(app.loading_animation_state(), 1);
    for i in 0..7u64 {
        app.tick_animation_at(2_000 + i * 150);
    }
    assert_eq!(app.loading_animation_state(), 0);
}

#[test]
fn begin_run_drops_old_intents() {
    let mut app = TUIApp::new(vec![list("a", "A")]).unwrap();
    press(&mut app, Key::Enter, 0);
    assert!(app.step_ends_run());
    app.begin_run();
    assert!(app.pending_actions().is_empty());
    assert!(!app.step_ends_run());
}

#[test]
fn handle_key_event_reads_the_clock() {
    let mut app = TUIApp::new(vec![list("a", "A")]).unwrap();
    app.handle_key_event(KeyPress::plain(Key::Enter));
    app.begin_run();
    app.set_reminders(three_items());
    app.handle_key_event(KeyPress::plain(Key::Char('d')));
    app.handle_key_event(KeyPress::plain(Key::Char('d')));
    assert_eq!(app.pending_actions().len(), 1);
    app.tick_animation();
    assert_eq!(app.loading_animation_state(), 0);
}

#[test]
fn clock_readings_do_not_go_back() {
    let clock = Clock::start();
    let a = clock.now_ms();
    let b = clock.now_ms();
    assert!(a <= b);
    assert!(a < 60_000);
}

#[test]
fn readings_saturate_at_the_top() {
    assert_eq!(reading_of_millis(0), 0);
    assert_eq!(reading_of_millis(1_500), 1_500);
    assert_eq!(reading_of_millis(u64::MAX as u128), u64::MAX);
    assert_eq!(reading_of_millis(u64::MAX as u128 + 1), u64::MAX);
    assert_eq!(reading_of_millis(u128::MAX), u64::MAX);
}

#[test]
fn elapsed_saturates_at_zero() {
    assert_eq!(elapsed_between(10, 25), 15);
    assert_eq!(elapsed_between(25, 10), 0);
    assert!(is_within_window(Some(100), 1_099, 1_000));
    assert!(!is_within_window(Some(100), 1_100, 1_000));
    assert!(is_within_window(Some(100), 50, 1_000));
    assert!(!is_within_window(None, 50, 1_000));
}

#[test]
fn tracker_recognises_repeat_within_window() {
    let mut tracker = KeySequenceTracker::new();
    assert!(!tracker.completes_chord(Key::Char('d'), 0));
    tracker.record(Key::Char('d'), 100);
    assert!(tracker.completes_chord(Key::Char('d'), 1_099));
    assert!(!tracker.completes_chord(Key::Char('d'), 1_100));
    assert!(!tracker.completes_chord(Key::Char('x'), 200));
    tracker.record(Key::Up, 300);
    assert!(!tracker.completes_chord(Key::Char('d'), 400));
    assert_eq!(tracker.last_key, Some(Key::Up));
    assert_eq!(tracker.last_key_time, Some(300));
}

#[test]
fn search_state_operations() {
    let mut s = SearchState::new();
    assert!(!s.is_active() && !s.is_global() && !s.has_results());
    assert_eq!(s.query(), "");
    s.add_char('x');
    assert_eq!(s.query(), "");
    s.remove_char();
    assert!(!s.has_results());
    s.start_search(true);
    assert!(s.is_active() && s.is_global() && !s.has_results());
    s.remove_char();
    assert_eq!(s.query(), "");
    s.add_char('a');
    s.add_char('b');
    assert!(s.has_results());
    assert_eq!(s.query(), "ab");
    s.remove_char();
    assert!(s.has_results());
    s.remove_char();
    assert!(!s.has_results());
    s.add_char('z');
    s.exit_search();
    assert!(!s.is_active() && s.has_results() && s.is_global());
    assert_eq!(s.query(), "z");
    s.add_char('y');
    assert_eq!(s.query(), "z");
    s.escape(500);
    assert_eq!(s.last_escape_time(), Some(500));
    assert!(s.escape_pending(1_499));
    assert!(!s.escape_pending(1_500));
    s.clear_search();
    assert!(!s.is_active() && !s.has_results() && !s.is_global());
    assert_eq!(s.query(), "");
    assert_eq!(s.last_escape_time(), None);
    s.refresh_results();
    assert!(!s.has_results());
}

#[test]
fn search_state_flag_follows_query_under_edits() {
    let mut s = SearchState::new();
    s.start_search(false);
    let edits = "ab\u{8}\u{8}\u{8}c\u{8}de\u{8}";
    for c in edits.chars() {
        if c == '\u{8}' {
            s.remove_char();
        } else {
            s.add_char(c);
        }
        assert_eq!(s.has_results(), !s.query().is_empty());
    }
    assert_eq!(s.query(), "d");
}

#[test]
fn search_state_filters_sources() {
    let mut s = SearchState::new();
    let source = vec![
        reminder("1", "Buy MILK", None, false),
        reminder("2", "walk", Some("to the milkman"), true),
        reminder("3", "sleep", None, false),
    ];
    assert_eq!(s.filtered(&source, false).len(), 2);
    assert_eq!(s.filtered(&source, true).len(), 3);
    s.start_search(false);
    for c in "Milk".chars() {
        s.add_char(c);
    }
    let open: Vec<&str> = s.filtered(&source, false).iter().map(|r| r.id.as_str()).collect();
    assert_eq!(open, vec!["1"]);
    let all: Vec<&str> = s.filtered(&source, true).iter().map(|r| r.id.as_str()).collect();
    assert_eq!(all, vec!["1", "2"]);
    assert!(s.shows(&source[0], false));
    assert!(!s.shows(&source[1], false));
    assert!(s.shows(&source[1], true));
    assert!(!s.shows(&source[2], true));
    let index: Vec<(Reminder, String)> = source.iter().map(|r| (r.clone(), "L".to_string())).collect();
    let from_index: Vec<&str> = s.filtered_index(&index, true).iter().map(|r| r.id.as_str()).collect();
    assert_eq!(from_index, vec!["1", "2"]);
}

#[test]
fn text_helpers() {
    assert!(text_is_blank(""));
    assert!(text_is_blank(" \t\n\u{a0}\u{3000}"));
    assert!(!text_is_blank("  x "));
    assert!(same_text("abc", "abc"));
    assert!(!same_text("abc", "abd"));
    assert!(!same_text("abc", "ab"));
    assert!(folded_match("milk", "buy milk", None));
    assert!(folded_match("milk", "walk", Some("milkman")));
    assert!(!folded_match("milk", "walk", Some("mil")));
    assert!(!folded_match("Milk", "buy milk", None));
    assert!(!folded_match("milk", "walk", None));
}

#[test]
fn error_messages() {
    assert_eq!(RemError::PermissionDenied.message(), "Permission denied");
    assert_eq!(
        RemError::DataAccessError { message: "no store".to_string() }.message(),
        "Data access error: no store"
    );
    assert_eq!(RemError::TUIError { message: "no tty".to_string() }.message(), "TUI error: no tty");
}

#[test]
fn search_setters_on_the_app() {
    let mut app = TUIApp::new(vec![list("a", "A")]).unwrap();
    app.add_search_char('x');
    assert_eq!(app.get_search_query(), "");
    app.start_list_search();
    app.add_search_char('x');
    app.update_search_results();
    assert_eq!(app.status_log().last().unwrap(), "🔍 list search: 'x'");
    app.remove_search_char();
    app.update_search_results();
    assert_eq!(app.status_log().len(), 1);
    app.set_current_view(AppView::CreateReminder);
    assert!(matches!(app.get_current_view(), AppView::CreateReminder));
    press(&mut app, Key::Tab, 0);
    assert!(matches!(app.get_current_view(), AppView::CreateReminder));
}

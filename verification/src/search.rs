//! The search engine: the query being typed, its scope, and the filter that
//! decides which reminders are shown.

use crate::clock::{is_within_window, within_window, CHORD_WINDOW_MS};
use crate::text::{contains_ignoring_case, is_substring, lowercase, str_contains};
use crate::types::{Reminder, ReminderModel};
use vstd::prelude::*;

verus! {

/// Model of a [`SearchState`].
pub struct SearchModel {
    /// The user is typing a query.
    pub is_active: bool,
    pub query: Seq<char>,
    /// The search spans every list rather than the open one.
    pub is_global: bool,
    /// A query is in force.
    pub has_results: bool,
    /// When Escape last closed the query line, if the search was not started
    /// or cleared since.
    pub last_escape_time: Option<u64>,
}

/// One edit of the query.
pub enum SearchEdit {
    Push(char),
    Pop,
}

impl SearchModel {
    /// No search: inactive, empty query, local scope.
    pub open spec fn initial() -> SearchModel {
        SearchModel {
            is_active: false,
            query: Seq::empty(),
            is_global: false,
            has_results: false,
            last_escape_time: None,
        }
    }

    /// A fresh, active search in the given scope.
    pub open spec fn started(is_global: bool) -> SearchModel {
        SearchModel {
            is_active: true,
            query: Seq::empty(),
            is_global,
            has_results: false,
            last_escape_time: None,
        }
    }

    /// Typing a character: appended to the query of an active search.
    pub open spec fn add_char(self, c: char) -> SearchModel {
        if self.is_active {
            SearchModel { query: self.query.push(c), has_results: true, ..self }
        } else {
            self
        }
    }

    /// Backspace: the last character of the query of an active search goes.
    pub open spec fn remove_char(self) -> SearchModel {
        if self.is_active && self.query.len() > 0 {
            SearchModel {
                query: self.query.drop_last(),
                has_results: self.query.len() > 1,
                ..self
            }
        } else {
            self
        }
    }

    /// Leaving the query line while keeping the query in force.
    pub open spec fn exited(self) -> SearchModel {
        SearchModel { is_active: false, ..self }
    }

    /// Leaving the query line on Escape at `now`: as [`Self::exited`], and
    /// the time is remembered for a second Escape.
    pub open spec fn escaped(self, now: u64) -> SearchModel {
        SearchModel { is_active: false, last_escape_time: Some(now), ..self }
    }

    /// The flag is brought in line with the query.
    pub open spec fn refreshed(self) -> SearchModel {
        SearchModel { has_results: self.query.len() > 0, ..self }
    }

    /// The flag says whether a query is in force.
    pub open spec fn consistent(self) -> bool {
        self.has_results == (self.query.len() > 0)
    }

    /// Escape at `now` is the second of two: the first closed the query line
    /// less than a second ago.
    pub open spec fn escape_pending(self, now: u64) -> bool {
        within_window(self.last_escape_time, now, CHORD_WINDOW_MS)
    }

    pub open spec fn edit(self, e: SearchEdit) -> SearchModel {
        match e {
            SearchEdit::Push(c) => self.add_char(c),
            SearchEdit::Pop => self.remove_char(),
        }
    }

    /// The state after a run of edits, first to last.
    pub open spec fn edit_all(self, edits: Seq<SearchEdit>) -> SearchModel
        decreases edits.len(),
    {
        if edits.len() == 0 {
            self
        } else {
            self.edit_all(edits.drop_last()).edit(edits.last())
        }
    }
}

/// A reminder matches a query when its title or its notes contain the query,
/// letter case aside.
pub open spec fn matches_query(r: ReminderModel, query: Seq<char>) -> bool {
    contains_ignoring_case(r.title, query) || (r.notes matches Some(notes)
        && contains_ignoring_case(notes, query))
}

/// A reminder is shown when it is open or completed ones are shown too, and
/// it matches the query if there is one.
pub open spec fn is_shown(r: ReminderModel, query: Seq<char>, show_completed: bool) -> bool {
    (!r.completed || show_completed) && (query.len() == 0 || matches_query(r, query))
}

/// The reminders of `source` that are shown, in the order of `source`.
pub open spec fn filtered(
    source: Seq<ReminderModel>,
    query: Seq<char>,
    show_completed: bool,
) -> Seq<ReminderModel> {
    source.filter(|r: ReminderModel| is_shown(r, query, show_completed))
}

/// The reminders of a global index, without the names of their lists.
pub open spec fn reminders_of(index: Seq<(ReminderModel, Seq<char>)>) -> Seq<ReminderModel> {
    index.map_values(|entry: (ReminderModel, Seq<char>)| entry.0)
}

/// Whether a folded query occurs in a folded title or in folded notes. The
/// arguments are expected in lower case; the comparison itself is exact.
pub fn folded_match(folded_query: &str, folded_title: &str, folded_notes: Option<&str>) -> (found:
    bool)
    ensures
        found == (is_substring(folded_query@, folded_title@) || (folded_notes matches Some(notes)
            && is_substring(folded_query@, notes@))),
{
    if str_contains(folded_title, folded_query) {
        true
    } else {
        match folded_notes {
            Some(notes) => str_contains(notes, folded_query),
            None => false,
        }
    }
}

/// Whether `reminder` matches a query whose lower-case form is
/// `folded_query`.
fn matches_folded(reminder: &Reminder, folded_query: &str, query: Ghost<Seq<char>>) -> (found: bool)
    requires
        folded_query@ == lowercase(query@),
    ensures
        found == matches_query(reminder@, query@),
{
    let folded_title = reminder.title.to_lowercase();
    match &reminder.notes {
        Some(notes) => {
            let folded_notes = notes.to_lowercase();
            folded_match(folded_query, folded_title.as_str(), Some(folded_notes.as_str()))
        },
        None => folded_match(folded_query, folded_title.as_str(), None),
    }
}

/// The state of the search engine.
#[derive(Debug)]
pub struct SearchState {
    is_active: bool,
    query: String,
    is_global: bool,
    has_results: bool,
    last_escape_time: Option<u64>,
}

impl View for SearchState {
    type V = SearchModel;

    closed spec fn view(&self) -> SearchModel {
        SearchModel {
            is_active: self.is_active,
            query: self.query@,
            is_global: self.is_global,
            has_results: self.has_results,
            last_escape_time: self.last_escape_time,
        }
    }
}

impl Clone for SearchState {
    fn clone(&self) -> (copy: Self)
        ensures
            copy@ == self@,
    {
        SearchState {
            is_active: self.is_active,
            query: self.query.clone(),
            is_global: self.is_global,
            has_results: self.has_results,
            last_escape_time: self.last_escape_time,
        }
    }
}

impl SearchState {
    pub fn new() -> (state: SearchState)
        ensures
            state@ == SearchModel::initial(),
            state@.consistent(),
    {
        SearchState {
            is_active: false,
            query: String::new(),
            is_global: false,
            has_results: false,
            last_escape_time: None,
        }
    }

    /// Starts a search in the given scope with an empty query.
    pub fn start_search(&mut self, is_global: bool)
        ensures
            final(self)@ == SearchModel::started(is_global),
            final(self)@.consistent(),
    {
        self.is_active = true;
        self.is_global = is_global;
        self.query.clear();
        self.has_results = false;
        self.last_escape_time = None;
    }

    /// Appends a character to the query; does nothing while no query is
    /// being typed.
    pub fn add_char(&mut self, c: char)
        ensures
            final(self)@ == old(self)@.add_char(c),
            old(self)@.is_active || old(self)@.consistent() ==> final(self)@.consistent(),
    {
        if self.is_active {
            self.query.push(c);
            self.has_results = !self.query.as_str().is_empty();
        }
    }

    /// Removes the last character of the query; does nothing while no query
    /// is being typed or when the query is empty.
    pub fn remove_char(&mut self)
        ensures
            final(self)@ == old(self)@.remove_char(),
            (old(self)@.is_active && old(self)@.query.len() > 0) || old(self)@.consistent()
                ==> final(self)@.consistent(),
    {
        if self.is_active && !self.query.as_str().is_empty() {
            self.query.pop();
            self.has_results = !self.query.as_str().is_empty();
        }
    }

    /// Leaves the query line; the query stays in force.
    pub fn exit_search(&mut self)
        ensures
            final(self)@ == old(self)@.exited(),
            final(self)@.consistent() == old(self)@.consistent(),
    {
        self.is_active = false;
    }

    /// Forgets the search: inactive, empty query, no results, local scope.
    pub fn clear_search(&mut self)
        ensures
            final(self)@ == SearchModel::initial(),
            !final(self)@.is_active,
            final(self)@.query.len() == 0,
            !final(self)@.has_results,
            !final(self)@.is_global,
            final(self)@.consistent(),
    {
        self.is_active = false;
        self.query.clear();
        self.has_results = false;
        self.is_global = false;
        self.last_escape_time = None;
    }

    /// Leaves the query line on Escape at `now` and remembers the time.
    pub fn escape(&mut self, now: u64)
        ensures
            final(self)@ == old(self)@.escaped(now),
            final(self)@.consistent() == old(self)@.consistent(),
    {
        self.is_active = false;
        self.last_escape_time = Some(now);
    }

    /// Brings the flag in line with the query.
    pub fn refresh_results(&mut self)
        ensures
            final(self)@ == old(self)@.refreshed(),
            final(self)@.consistent(),
    {
        self.has_results = !self.query.as_str().is_empty();
    }

    pub fn is_active(&self) -> (active: bool)
        ensures
            active == self@.is_active,
    {
        self.is_active
    }

    pub fn is_global(&self) -> (global: bool)
        ensures
            global == self@.is_global,
    {
        self.is_global
    }

    pub fn has_results(&self) -> (flag: bool)
        ensures
            flag == self@.has_results,
    {
        self.has_results
    }

    pub fn query(&self) -> (query: &str)
        ensures
            query@ == self@.query,
    {
        self.query.as_str()
    }

    pub fn last_escape_time(&self) -> (time: Option<u64>)
        ensures
            time == self@.last_escape_time,
    {
        self.last_escape_time
    }

    /// Whether an Escape at `now` would be the second of two.
    pub fn escape_pending(&self, now: u64) -> (pending: bool)
        ensures
            pending == self@.escape_pending(now),
    {
        is_within_window(self.last_escape_time, now, CHORD_WINDOW_MS)
    }

    /// Whether `reminder` is shown under this query.
    pub fn shows(&self, reminder: &Reminder, show_completed: bool) -> (shown: bool)
        ensures
            shown == is_shown(reminder@, self@.query, show_completed),
    {
        if reminder.completed && !show_completed {
            false
        } else if self.query.as_str().is_empty() {
            true
        } else {
            let folded_query = self.query.to_lowercase();
            matches_folded(reminder, folded_query.as_str(), Ghost(self.query@))
        }
    }

    /// The reminders of `source` that are shown under this query, in the
    /// order of `source`.
    pub fn filtered<'a>(&self, source: &'a Vec<Reminder>, show_completed: bool) -> (shown: Vec<
        &'a Reminder,
    >)
        ensures
            shown.deep_view() == filtered(source.deep_view(), self@.query, show_completed),
    {
        let folded_query = self.query.to_lowercase();
        let no_query = self.query.as_str().is_empty();
        let ghost pred = |r: ReminderModel| is_shown(r, self@.query, show_completed);
        let mut shown: Vec<&'a Reminder> = Vec::new();
        let mut i: usize = 0;
        while i < source.len()
            invariant
                i <= source.len(),
                folded_query@ == lowercase(self.query@),
                no_query == (self.query@.len() == 0),
                pred == (|r: ReminderModel| is_shown(r, self@.query, show_completed)),
                shown.deep_view() == source.deep_view().take(i as int).filter(pred),
            decreases source.len() - i,
        {
            let reminder = &source[i];
            let keep = (!reminder.completed || show_completed) && (no_query || matches_folded(
                reminder,
                folded_query.as_str(),
                Ghost(self.query@),
            ));
            proof {
                let before = source.deep_view().take(i as int);
                assert(source.deep_view().take(i + 1) == before.push(reminder@));
                before.lemma_filter_push(reminder@, pred);
            }
            if keep {
                let ghost old_shown = shown.deep_view();
                shown.push(reminder);
                assert(shown.deep_view() == old_shown.push(reminder@));
            }
            i += 1;
        }
        assert(source.deep_view().take(source.len() as int) == source.deep_view());
        shown
    }

    /// The reminders of a global index that are shown under this query, in
    /// the order of the index.
    pub fn filtered_index<'a>(
        &self,
        index: &'a Vec<(Reminder, String)>,
        show_completed: bool,
    ) -> (shown: Vec<&'a Reminder>)
        ensures
            shown.deep_view() == filtered(
                reminders_of(index.deep_view()),
                self@.query,
                show_completed,
            ),
    {
        let folded_query = self.query.to_lowercase();
        let no_query = self.query.as_str().is_empty();
        let ghost pred = |r: ReminderModel| is_shown(r, self@.query, show_completed);
        let ghost all = reminders_of(index.deep_view());
        let mut shown: Vec<&'a Reminder> = Vec::new();
        let mut i: usize = 0;
        while i < index.len()
            invariant
                i <= index.len(),
                folded_query@ == lowercase(self.query@),
                no_query == (self.query@.len() == 0),
                pred == (|r: ReminderModel| is_shown(r, self@.query, show_completed)),
                all == reminders_of(index.deep_view()),
                shown.deep_view() == all.take(i as int).filter(pred),
            decreases index.len() - i,
        {
            let reminder = &index[i].0;
            let keep = (!reminder.completed || show_completed) && (no_query || matches_folded(
                reminder,
                folded_query.as_str(),
                Ghost(self.query@),
            ));
            proof {
                let before = all.take(i as int);
                assert(all.take(i + 1) == before.push(reminder@));
                before.lemma_filter_push(reminder@, pred);
            }
            if keep {
                let ghost old_shown = shown.deep_view();
                shown.push(reminder);
                assert(shown.deep_view() == old_shown.push(reminder@));
            }
            i += 1;
        }
        assert(all.take(all.len() as int) == all);
        shown
    }
}

/// Whatever is typed and erased, the flag says whether a query is in force.
pub proof fn lemma_edits_keep_flag(s: SearchModel, edits: Seq<SearchEdit>)
    requires
        s.consistent(),
    ensures
        s.edit_all(edits).consistent(),
    decreases edits.len(),
{
    if edits.len() > 0 {
        lemma_edits_keep_flag(s, edits.drop_last());
    }
}

/// A search that was just started, in either scope, has the flag in line
/// with its query, and keeps it so under every run of edits.
pub proof fn lemma_started_search_keeps_flag(is_global: bool, edits: Seq<SearchEdit>)
    ensures
        SearchModel::started(is_global).edit_all(edits).consistent(),
        SearchModel::started(is_global).edit_all(edits).has_results == (SearchModel::started(
            is_global,
        ).edit_all(edits).query.len() > 0),
{
    lemma_edits_keep_flag(SearchModel::started(is_global), edits);
}

/// What is shown while completed reminders are hidden is what is shown with
/// them, less the completed ones, in the same order. So hiding them again
/// after showing them gives back the very list that was shown before.
pub proof fn lemma_hiding_drops_only_completed(source: Seq<ReminderModel>, query: Seq<char>)
    ensures
        filtered(source, query, false) == filtered(source, query, true).filter(
            |r: ReminderModel| !r.completed,
        ),
    decreases source.len(),
{
    let hide = |r: ReminderModel| is_shown(r, query, false);
    let show = |r: ReminderModel| is_shown(r, query, true);
    let open = |r: ReminderModel| !r.completed;
    if source.len() > 0 {
        let head = source.drop_last();
        let last = source.last();
        lemma_hiding_drops_only_completed(head, query);
        assert(source == head.push(last));
        head.lemma_filter_push(last, hide);
        head.lemma_filter_push(last, show);
        if is_shown(last, query, true) {
            head.filter(show).lemma_filter_push(last, open);
        }
    } else {
        assert(source.filter(hide) == Seq::<ReminderModel>::empty());
        assert(source.filter(show).filter(open) == Seq::<ReminderModel>::empty());
    }
}

/// The filter adds nothing and drops nothing it should keep: a shown
/// reminder stands in the source and passes the test, and a reminder of the
/// source that passes the test is shown.
pub proof fn lemma_filtered_is_selection(
    source: Seq<ReminderModel>,
    query: Seq<char>,
    show_completed: bool,
)
    ensures
        filtered(source, query, show_completed).len() <= source.len(),
        forall|i: int|
            0 <= i < filtered(source, query, show_completed).len() ==> {
                &&& source.contains(#[trigger] filtered(source, query, show_completed)[i])
                &&& is_shown(filtered(source, query, show_completed)[i], query, show_completed)
            },
        forall|j: int|
            0 <= j < source.len() && is_shown(#[trigger] source[j], query, show_completed)
                ==> filtered(source, query, show_completed).contains(source[j]),
{
    let pred = |r: ReminderModel| is_shown(r, query, show_completed);
    let shown = source.filter(pred);
    source.lemma_filter_len(pred);
    assert forall|i: int| 0 <= i < shown.len() implies source.contains(#[trigger] shown[i])
        && is_shown(shown[i], query, show_completed) by {
        source.lemma_filter_pred(pred, i);
        assert(shown.contains(shown[i]));
        source.lemma_filter_contains_rev(pred, shown[i]);
    }
    assert forall|j: int|
        0 <= j < source.len() && is_shown(
            #[trigger] source[j],
            query,
            show_completed,
        ) implies shown.contains(source[j]) by {
        source.lemma_filter_contains(pred, j);
    }
}

/// The filter keeps the order of its source: of two reminders that are
/// shown, the one shown first stands first in the source. The places the two
/// have in the source are returned.
pub proof fn lemma_filtered_keeps_order(
    source: Seq<ReminderModel>,
    query: Seq<char>,
    show_completed: bool,
    i: int,
    j: int,
) -> (places: (int, int))
    requires
        0 <= i < j < filtered(source, query, show_completed).len(),
    ensures
        0 <= places.0 < places.1 < source.len(),
        source[places.0] == filtered(source, query, show_completed)[i],
        source[places.1] == filtered(source, query, show_completed)[j],
    decreases source.len(),
{
    let pred = |r: ReminderModel| is_shown(r, query, show_completed);
    assert(source.len() > 0) by {
        source.lemma_filter_len(pred);
    }
    let head = source.drop_last();
    let last = source.last();
    assert(source == head.push(last));
    head.lemma_filter_push(last, pred);
    head.lemma_filter_len(pred);
    let shown_head = head.filter(pred);
    if j < shown_head.len() {
        let places = lemma_filtered_keeps_order(head, query, show_completed, i, j);
        places
    } else {
        assert(shown_head.contains(shown_head[i]));
        head.lemma_filter_contains_rev(pred, shown_head[i]);
        let a = choose|a: int| 0 <= a < head.len() && head[a] == shown_head[i];
        (a, source.len() - 1)
    }
}

/// Letter case does not matter to the search: two queries with the same
/// lower-case form show the same reminders.
pub proof fn lemma_query_case_is_ignored(
    source: Seq<ReminderModel>,
    query: Seq<char>,
    other: Seq<char>,
    show_completed: bool,
)
    requires
        lowercase(query) == lowercase(other),
        query.len() > 0,
        other.len() > 0,
    ensures
        filtered(source, query, show_completed) == filtered(source, other, show_completed),
{
    let p = |r: ReminderModel| is_shown(r, query, show_completed);
    let q = |r: ReminderModel| is_shown(r, other, show_completed);
    assert forall|r: ReminderModel| #[trigger] p(r) == q(r) by {}
    assert(p == q);
}

} // verus!

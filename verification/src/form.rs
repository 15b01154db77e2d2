//! The form in which a new reminder is written: five fields, one of them
//! active, cycled with Tab.

use crate::keys::{Key, KeyPress};
use crate::text::{is_blank, same_text, text_is_blank};
use crate::types::{NewReminder, NewReminderModel, ReminderList, ReminderListModel};
use vstd::prelude::*;

verus! {

/// Number of fields of the form: title, notes, due date, list, priority.
pub const FIELD_COUNT: usize = 5;

/// Index of the field that picks the list.
pub const LIST_FIELD: usize = 3;

/// Index of the field that sets the priority.
pub const PRIORITY_FIELD: usize = 4;

/// Highest priority that the form can set.
pub const MAX_PRIORITY: u8 = 9;

/// `i` is the place of the first list of `lists` with the id `id`.
pub open spec fn is_first_with_id(lists: Seq<ReminderListModel>, id: Seq<char>, i: int) -> bool {
    &&& 0 <= i < lists.len()
    &&& lists[i].id == id
    &&& forall|j: int| 0 <= j < i ==> (#[trigger] lists[j]).id != id
}

/// The place of the first list with the id `id`, if there is one.
pub open spec fn position_of(lists: Seq<ReminderListModel>, id: Seq<char>) -> Option<int> {
    if exists|i: int| is_first_with_id(lists, id, i) {
        Some(choose|i: int| is_first_with_id(lists, id, i))
    } else {
        None
    }
}

/// The id of the first list, or the empty text if there is no list.
pub open spec fn first_list_id(lists: Seq<ReminderListModel>) -> Seq<char> {
    if lists.len() > 0 {
        lists[0].id
    } else {
        Seq::empty()
    }
}

/// There is only one first place.
pub proof fn lemma_position_of(lists: Seq<ReminderListModel>, id: Seq<char>, i: int)
    requires
        is_first_with_id(lists, id, i),
    ensures
        position_of(lists, id) == Some(i),
{
    let chosen = choose|k: int| is_first_with_id(lists, id, k);
    if chosen < i {
        assert(lists[chosen].id != id);
    } else if i < chosen {
        assert(lists[i].id != id);
    }
}

/// Model of a [`CreateReminderForm`].
pub struct FormModel {
    pub title: Seq<char>,
    pub notes: Seq<char>,
    pub due_date: Seq<char>,
    pub selected_list_id: Seq<char>,
    pub priority: u8,
    pub current_field: usize,
}

/// What a key press in the form asks of the screen around it.
pub enum FormEventModel {
    /// The form stays open.
    Stay,
    /// The form is given up.
    Cancel,
    /// The form is done, and this reminder is to be created.
    Submit(NewReminderModel),
}

impl FormModel {
    /// An empty form. It selects the list `default_list_id` if that is the
    /// id of one of the lists, else the first list, else no list.
    pub open spec fn opened(
        lists: Seq<ReminderListModel>,
        default_list_id: Option<Seq<char>>,
    ) -> FormModel {
        FormModel {
            title: Seq::empty(),
            notes: Seq::empty(),
            due_date: Seq::empty(),
            selected_list_id: match default_list_id {
                Some(id) => if position_of(lists, id) is Some {
                    id
                } else {
                    first_list_id(lists)
                },
                None => first_list_id(lists),
            },
            priority: 0,
            current_field: 0,
        }
    }

    /// The active field is one of the five, and the priority is at most 9.
    pub open spec fn wf(self) -> bool {
        self.current_field < FIELD_COUNT && self.priority <= MAX_PRIORITY
    }

    /// Tab: the next field, the first after the last.
    pub open spec fn next_field(self) -> FormModel {
        FormModel { current_field: ((self.current_field + 1) % 5) as usize, ..self }
    }

    /// Shift-Tab: the field before, the last before the first.
    pub open spec fn previous_field(self) -> FormModel {
        FormModel { current_field: ((self.current_field + 4) % 5) as usize, ..self }
    }

    /// A character typed: appended to the active field if that is the title,
    /// the notes or the due date.
    pub open spec fn typed(self, c: char) -> FormModel {
        if self.current_field == 0 {
            FormModel { title: self.title.push(c), ..self }
        } else if self.current_field == 1 {
            FormModel { notes: self.notes.push(c), ..self }
        } else if self.current_field == 2 {
            FormModel { due_date: self.due_date.push(c), ..self }
        } else {
            self
        }
    }

    /// Backspace: the active text field loses its last character, if any.
    pub open spec fn erased(self) -> FormModel {
        if self.current_field == 0 && self.title.len() > 0 {
            FormModel { title: self.title.drop_last(), ..self }
        } else if self.current_field == 1 && self.notes.len() > 0 {
            FormModel { notes: self.notes.drop_last(), ..self }
        } else if self.current_field == 2 && self.due_date.len() > 0 {
            FormModel { due_date: self.due_date.drop_last(), ..self }
        } else {
            self
        }
    }

    /// Up or Down on the list field: the selection moves to the list before
    /// or after the selected one, around the ends. Without lists, or when the
    /// selected id is none of theirs, nothing moves.
    pub open spec fn list_moved(self, lists: Seq<ReminderListModel>, up: bool) -> FormModel {
        match position_of(lists, self.selected_list_id) {
            Some(i) => {
                let target = if up {
                    if i == 0 {
                        lists.len() - 1
                    } else {
                        i - 1
                    }
                } else {
                    (i + 1) % (lists.len() as int)
                };
                FormModel { selected_list_id: lists[target].id, ..self }
            },
            None => self,
        }
    }

    /// Up or Down on the priority field: one more or one less, within 0
    /// to 9.
    pub open spec fn priority_moved(self, up: bool) -> FormModel {
        if up && self.priority < MAX_PRIORITY {
            FormModel { priority: (self.priority + 1) as u8, ..self }
        } else if !up && self.priority > 0 {
            FormModel { priority: (self.priority - 1) as u8, ..self }
        } else {
            self
        }
    }

    /// Up or Down: acts on the list field or on the priority field, whichever
    /// is active, and on no other.
    pub open spec fn arrow(self, lists: Seq<ReminderListModel>, up: bool) -> FormModel {
        if self.current_field == LIST_FIELD {
            self.list_moved(lists, up)
        } else if self.current_field == PRIORITY_FIELD {
            self.priority_moved(up)
        } else {
            self
        }
    }

    /// The reminder that the form describes, if its title is not blank.
    /// Blank notes and a blank due date count as absent.
    pub open spec fn submission(self) -> Option<NewReminderModel> {
        if is_blank(self.title) {
            None
        } else {
            Some(
                NewReminderModel {
                    title: self.title,
                    notes: if is_blank(self.notes) {
                        None
                    } else {
                        Some(self.notes)
                    },
                    due_date: if is_blank(self.due_date) {
                        None
                    } else {
                        Some(self.due_date)
                    },
                    list_id: self.selected_list_id,
                    priority: self.priority,
                },
            )
        }
    }

    /// The form after a key press.
    pub open spec fn after_key(self, lists: Seq<ReminderListModel>, key: KeyPress) -> FormModel {
        match key.code {
            Key::Char('q') | Key::Esc => self,
            Key::Tab => self.next_field(),
            Key::BackTab => self.previous_field(),
            Key::Char(c) => if c == 's' && key.ctrl {
                self
            } else {
                self.typed(c)
            },
            Key::Backspace => self.erased(),
            Key::Up => self.arrow(lists, true),
            Key::Down => self.arrow(lists, false),
            _ => self,
        }
    }

    /// What a key press asks of the screen around the form: `q` and Escape
    /// give the form up, Control-S submits it if the title is not blank, and
    /// every other key leaves it open.
    pub open spec fn event_of(self, key: KeyPress) -> FormEventModel {
        match key.code {
            Key::Char('q') | Key::Esc => FormEventModel::Cancel,
            Key::Char(c) => if c == 's' && key.ctrl {
                match self.submission() {
                    Some(new_reminder) => FormEventModel::Submit(new_reminder),
                    None => FormEventModel::Stay,
                }
            } else {
                FormEventModel::Stay
            },
            _ => FormEventModel::Stay,
        }
    }
}

/// The form after a run of key presses, first to last.
pub open spec fn after_keys(
    form: FormModel,
    lists: Seq<ReminderListModel>,
    keys: Seq<KeyPress>,
) -> FormModel
    decreases keys.len(),
{
    if keys.len() == 0 {
        form
    } else {
        after_keys(form, lists, keys.drop_last()).after_key(lists, keys.last())
    }
}

/// What a key press in the form asks of the screen around it.
#[derive(Debug)]
pub enum FormEvent {
    Stay,
    Cancel,
    Submit(NewReminder),
}

impl View for FormEvent {
    type V = FormEventModel;

    open spec fn view(&self) -> FormEventModel {
        match self {
            FormEvent::Stay => FormEventModel::Stay,
            FormEvent::Cancel => FormEventModel::Cancel,
            FormEvent::Submit(new_reminder) => FormEventModel::Submit(new_reminder@),
        }
    }
}

/// The place of the first list with the id `id`, if there is one.
pub fn find_list(lists: &Vec<ReminderList>, id: &str) -> (found: Option<usize>)
    ensures
        match found {
            Some(i) => is_first_with_id(lists.deep_view(), id@, i as int),
            None => forall|k: int| !is_first_with_id(lists.deep_view(), id@, k),
        },
        position_of(lists.deep_view(), id@) == match found {
            Some(i) => Some(i as int),
            None => None,
        },
{
    let mut i: usize = 0;
    while i < lists.len()
        invariant
            i <= lists.len(),
            lists.deep_view().len() == lists.len(),
            forall|j: int| 0 <= j < i ==> (#[trigger] lists.deep_view()[j]).id != id@,
        decreases lists.len() - i,
    {
        assert(lists.deep_view()[i as int] == lists[i as int]@);
        if same_text(lists[i].id.as_str(), id) {
            proof {
                lemma_position_of(lists.deep_view(), id@, i as int);
            }
            return Some(i);
        }
        i += 1;
    }
    proof {
        assert forall|k: int| !is_first_with_id(lists.deep_view(), id@, k) by {
            if 0 <= k < lists.len() {
                assert(lists.deep_view()[k].id != id@);
            }
        }
    }
    None
}

/// The form in which a new reminder is written.
#[derive(Debug)]
pub struct CreateReminderForm {
    title: String,
    notes: String,
    due_date: String,
    selected_list_id: String,
    priority: u8,
    current_field: usize,
}

impl View for CreateReminderForm {
    type V = FormModel;

    closed spec fn view(&self) -> FormModel {
        FormModel {
            title: self.title@,
            notes: self.notes@,
            due_date: self.due_date@,
            selected_list_id: self.selected_list_id@,
            priority: self.priority,
            current_field: self.current_field,
        }
    }
}

impl DeepView for CreateReminderForm {
    type V = FormModel;

    open spec fn deep_view(&self) -> FormModel {
        self@
    }
}

impl Clone for CreateReminderForm {
    fn clone(&self) -> (copy: Self)
        ensures
            copy@ == self@,
    {
        CreateReminderForm {
            title: self.title.clone(),
            notes: self.notes.clone(),
            due_date: self.due_date.clone(),
            selected_list_id: self.selected_list_id.clone(),
            priority: self.priority,
            current_field: self.current_field,
        }
    }
}

impl CreateReminderForm {
    /// Opens an empty form. It selects `default_list_id` if that is the id
    /// of one of `lists`, else the first of `lists`, else no list: the
    /// selected list is always one of the lists, if there is any.
    pub fn new(lists: &Vec<ReminderList>, default_list_id: Option<String>) -> (form:
        CreateReminderForm)
        ensures
            form@ == FormModel::opened(lists.deep_view(), default_list_id.deep_view()),
            form@.wf(),
            lists.len() > 0 ==> position_of(lists.deep_view(), form@.selected_list_id) is Some,
            lists.len() == 0 ==> form@.selected_list_id == Seq::<char>::empty(),
    {
        let known = match default_list_id {
            Some(id) => match find_list(lists, id.as_str()) {
                Some(_) => Some(id),
                None => None,
            },
            None => None,
        };
        let selected_list_id = match known {
            Some(id) => id,
            None => if lists.len() > 0 {
                proof {
                    assert(lists.deep_view()[0] == lists[0]@);
                    lemma_some_list_has_id(lists.deep_view(), lists[0]@.id, 0);
                }
                lists[0].id.clone()
            } else {
                String::new()
            },
        };
        CreateReminderForm {
            title: String::new(),
            notes: String::new(),
            due_date: String::new(),
            selected_list_id,
            priority: 0,
            current_field: 0,
        }
    }

    pub fn title(&self) -> (text: &str)
        ensures
            text@ == self@.title,
    {
        self.title.as_str()
    }

    pub fn notes(&self) -> (text: &str)
        ensures
            text@ == self@.notes,
    {
        self.notes.as_str()
    }

    pub fn due_date(&self) -> (text: &str)
        ensures
            text@ == self@.due_date,
    {
        self.due_date.as_str()
    }

    pub fn selected_list_id(&self) -> (id: &str)
        ensures
            id@ == self@.selected_list_id,
    {
        self.selected_list_id.as_str()
    }

    pub fn priority(&self) -> (priority: u8)
        ensures
            priority == self@.priority,
    {
        self.priority
    }

    pub fn current_field(&self) -> (field: usize)
        ensures
            field == self@.current_field,
    {
        self.current_field
    }

    /// Tab: makes the next field active.
    pub fn next_field(&mut self)
        ensures
            final(self)@ == old(self)@.next_field(),
    {
        self.current_field = (self.current_field % 5 + 1) % 5;
    }

    /// Shift-Tab: makes the field before active.
    pub fn previous_field(&mut self)
        ensures
            final(self)@ == old(self)@.previous_field(),
    {
        self.current_field = (self.current_field % 5 + 4) % 5;
    }

    /// Appends a typed character to the active text field.
    pub fn type_char(&mut self, c: char)
        ensures
            final(self)@ == old(self)@.typed(c),
    {
        if self.current_field == 0 {
            self.title.push(c);
        } else if self.current_field == 1 {
            self.notes.push(c);
        } else if self.current_field == 2 {
            self.due_date.push(c);
        }
    }

    /// Removes the last character of the active text field.
    pub fn erase_char(&mut self)
        ensures
            final(self)@ == old(self)@.erased(),
    {
        if self.current_field == 0 {
            self.title.pop();
        } else if self.current_field == 1 {
            self.notes.pop();
        } else if self.current_field == 2 {
            self.due_date.pop();
        }
    }

    /// Up or Down: moves the selected list or the priority, whichever field
    /// is active.
    pub fn arrow(&mut self, lists: &Vec<ReminderList>, up: bool)
        ensures
            final(self)@ == old(self)@.arrow(lists.deep_view(), up),
    {
        if self.current_field == LIST_FIELD {
            match find_list(lists, self.selected_list_id.as_str()) {
                Some(i) => {
                    let target = if up {
                        if i == 0 {
                            lists.len() - 1
                        } else {
                            i - 1
                        }
                    } else {
                        if i == lists.len() - 1 {
                            0
                        } else {
                            i + 1
                        }
                    };
                    proof {
                        let n = lists.len() as int;
                        assert(lists.deep_view().len() == n);
                        assert(lists.deep_view()[target as int] == lists[target as int]@);
                        if !up {
                            assert((i + 1) % n == target) by (nonlinear_arith)
                                requires
                                    0 <= i < n,
                                    target == if i == n - 1 {
                                        0
                                    } else {
                                        i + 1
                                    },
                            ;
                        }
                    }
                    self.selected_list_id = lists[target].id.clone();
                },
                None => {},
            }
        } else if self.current_field == PRIORITY_FIELD {
            if up && self.priority < MAX_PRIORITY {
                self.priority = self.priority + 1;
            } else if !up && self.priority > 0 {
                self.priority = self.priority - 1;
            }
        }
    }

    /// The reminder that the form describes, if its title is not blank.
    pub fn submission(&self) -> (new_reminder: Option<NewReminder>)
        ensures
            new_reminder.deep_view() == self@.submission(),
    {
        if text_is_blank(self.title.as_str()) {
            None
        } else {
            Some(
                NewReminder {
                    title: self.title.clone(),
                    notes: if text_is_blank(self.notes.as_str()) {
                        None
                    } else {
                        Some(self.notes.clone())
                    },
                    due_date: if text_is_blank(self.due_date.as_str()) {
                        None
                    } else {
                        Some(self.due_date.clone())
                    },
                    list_id: self.selected_list_id.clone(),
                    priority: self.priority,
                },
            )
        }
    }

    /// Handles one key press: changes the form as the key says and reports
    /// what the key asks of the screen around the form.
    pub fn handle_key(&mut self, lists: &Vec<ReminderList>, key: KeyPress) -> (event: FormEvent)
        ensures
            final(self)@ == old(self)@.after_key(lists.deep_view(), key),
            event@ == old(self)@.event_of(key),
    {
        match key.code {
            Key::Char('q') | Key::Esc => FormEvent::Cancel,
            Key::Tab => {
                self.next_field();
                FormEvent::Stay
            },
            Key::BackTab => {
                self.previous_field();
                FormEvent::Stay
            },
            Key::Char(c) => {
                if c == 's' && key.ctrl {
                    match self.submission() {
                        Some(new_reminder) => FormEvent::Submit(new_reminder),
                        None => FormEvent::Stay,
                    }
                } else {
                    self.type_char(c);
                    FormEvent::Stay
                }
            },
            Key::Backspace => {
                self.erase_char();
                FormEvent::Stay
            },
            Key::Up => {
                self.arrow(lists, true);
                FormEvent::Stay
            },
            Key::Down => {
                self.arrow(lists, false);
                FormEvent::Stay
            },
            _ => FormEvent::Stay,
        }
    }
}

/// No key press leads the form out of its five fields or its range of
/// priorities.
pub proof fn lemma_form_stays_well_formed(
    form: FormModel,
    lists: Seq<ReminderListModel>,
    key: KeyPress,
)
    requires
        form.wf(),
    ensures
        form.after_key(lists, key).wf(),
{
}

/// Tab walks through the five fields in a circle: five presses lead back to
/// the field they started from, and Shift-Tab undoes Tab.
pub proof fn lemma_fields_cycle(form: FormModel)
    requires
        form.wf(),
    ensures
        form.next_field().next_field().next_field().next_field().next_field() == form,
        form.next_field().previous_field() == form,
        form.previous_field().next_field() == form,
{
}

/// The list that the form selects after Up or Down on the list field is one
/// of the lists it was given, whenever the list it selected before was.
pub proof fn lemma_picker_stays_in_lists(
    form: FormModel,
    lists: Seq<ReminderListModel>,
    up: bool,
)
    requires
        position_of(lists, form.selected_list_id) is Some,
    ensures
        position_of(lists, form.list_moved(lists, up).selected_list_id) is Some,
{
    let i = choose|i: int| is_first_with_id(lists, form.selected_list_id, i);
    let target = if up {
        if i == 0 {
            lists.len() - 1
        } else {
            i - 1
        }
    } else {
        (i + 1) % (lists.len() as int)
    };
    lemma_some_list_has_id(lists, lists[target].id, target);
}

/// The form always selects one of the lists it was opened on, if there is
/// any: whatever default it was given, and whatever is typed. Without lists
/// it selects none.
pub proof fn lemma_form_selects_a_known_list(
    lists: Seq<ReminderListModel>,
    default_list_id: Option<Seq<char>>,
    keys: Seq<KeyPress>,
)
    ensures
        lists.len() > 0 ==> position_of(
            lists,
            after_keys(FormModel::opened(lists, default_list_id), lists, keys).selected_list_id,
        ) is Some,
        lists.len() == 0 ==> after_keys(
            FormModel::opened(lists, default_list_id),
            lists,
            keys,
        ).selected_list_id == Seq::<char>::empty(),
    decreases keys.len(),
{
    if keys.len() == 0 {
        if lists.len() > 0 {
            lemma_some_list_has_id(lists, lists[0].id, 0);
        }
    } else {
        lemma_form_selects_a_known_list(lists, default_list_id, keys.drop_last());
        let before = after_keys(FormModel::opened(lists, default_list_id), lists, keys.drop_last());
        if lists.len() > 0 {
            lemma_picker_stays_in_lists(before, lists, true);
            lemma_picker_stays_in_lists(before, lists, false);
        } else {
            assert forall|i: int| !is_first_with_id(lists, before.selected_list_id, i) by {}
        }
    }
}

/// If some list has the id, a first one has it.
pub proof fn lemma_some_list_has_id(lists: Seq<ReminderListModel>, id: Seq<char>, k: int)
    requires
        0 <= k < lists.len(),
        lists[k].id == id,
    ensures
        position_of(lists, id) is Some,
    decreases k,
{
    if exists|j: int| 0 <= j < k && (#[trigger] lists[j]).id == id {
        let j = choose|j: int| 0 <= j < k && (#[trigger] lists[j]).id == id;
        lemma_some_list_has_id(lists, id, j);
    } else {
        assert(is_first_with_id(lists, id, k));
    }
}

} // verus!

//! The reminder store as the program reads it: the lists and reminders it
//! hands over, the state of the permission to read them, and the reading of
//! the texts in which a script reports them.
//!
//! The calls into the store are the host's; what is here takes their results
//! as plain values.

use crate::text::{
    decimal_text, lowercase, parse_usize, push_decimal, same_text, split_parts, str_split,
    str_strip_prefix, trim_of, usize_value,
};
use vstd::arithmetic::div_mod::{lemma_add_mod_noop, lemma_mul_mod_noop_left};
use vstd::prelude::*;
use vstd::std_specs::convert::FromSpecImpl;

verus! {

/// The records of a report are joined by this mark.
pub const RECORD_SEPARATOR: &'static str = "~REMINDER~";

/// The fields of a record are joined by this mark.
pub const FIELD_SEPARATOR: &'static str = "|";

/// A report that begins with this mark tells of a failure.
pub const ERROR_PREFIX: &'static str = "ERROR:";

/// How a record writes that a reminder is completed.
pub const TRUE_WORD: &'static str = "true";

pub const ID_HEAD: &'static str = "reminder-";

pub const ID_JOINT: &'static str = "-";

/// Model of a [`ReminderList`].
pub struct ReminderListModel {
    pub id: Seq<char>,
    pub title: Seq<char>,
    pub color: Seq<char>,
    pub reminder_count: usize,
}

/// A list of the store.
#[derive(Debug)]
pub struct ReminderList {
    pub id: String,
    pub title: String,
    pub color: String,
    pub reminder_count: usize,
}

impl View for ReminderList {
    type V = ReminderListModel;

    open spec fn view(&self) -> ReminderListModel {
        ReminderListModel {
            id: self.id@,
            title: self.title@,
            color: self.color@,
            reminder_count: self.reminder_count,
        }
    }
}

impl DeepView for ReminderList {
    type V = ReminderListModel;

    open spec fn deep_view(&self) -> ReminderListModel {
        self@
    }
}

impl Clone for ReminderList {
    fn clone(&self) -> (copy: Self)
        ensures
            copy == *self,
    {
        ReminderList {
            id: self.id.clone(),
            title: self.title.clone(),
            color: self.color.clone(),
            reminder_count: self.reminder_count,
        }
    }
}

/// Model of a [`Reminder`].
pub struct ReminderModel {
    pub id: Seq<char>,
    pub title: Seq<char>,
    pub notes: Option<Seq<char>>,
    pub completed: bool,
    pub priority: u8,
    pub due_date: Option<Seq<char>>,
}

/// A reminder of the store.
#[derive(Debug)]
pub struct Reminder {
    pub id: String,
    pub title: String,
    pub notes: Option<String>,
    pub completed: bool,
    pub priority: u8,
    pub due_date: Option<String>,
}

impl View for Reminder {
    type V = ReminderModel;

    open spec fn view(&self) -> ReminderModel {
        ReminderModel {
            id: self.id@,
            title: self.title@,
            notes: self.notes.deep_view(),
            completed: self.completed,
            priority: self.priority,
            due_date: self.due_date.deep_view(),
        }
    }
}

impl DeepView for Reminder {
    type V = ReminderModel;

    open spec fn deep_view(&self) -> ReminderModel {
        self@
    }
}

impl Clone for Reminder {
    fn clone(&self) -> (copy: Self)
        ensures
            copy == *self,
    {
        Reminder {
            id: self.id.clone(),
            title: self.title.clone(),
            notes: self.notes.clone(),
            completed: self.completed,
            priority: self.priority,
            due_date: self.due_date.clone(),
        }
    }
}

/// Whether the program may read the reminders.
#[derive(Clone, Copy, Debug, PartialEq, Eq, Structural)]
pub enum PermissionStatus {
    NotDetermined,
    Denied,
    Authorized,
    Restricted,
}

impl DeepView for PermissionStatus {
    type V = PermissionStatus;

    open spec fn deep_view(&self) -> PermissionStatus {
        *self
    }
}

impl FromSpecImpl<i64> for PermissionStatus {
    open spec fn obeys_from_spec() -> bool {
        true
    }

    /// The store's code for the status: 1 is restricted, 2 denied, 3
    /// authorized, and every other number not determined.
    open spec fn from_spec(value: i64) -> PermissionStatus {
        if value == 1 {
            PermissionStatus::Restricted
        } else if value == 2 {
            PermissionStatus::Denied
        } else if value == 3 {
            PermissionStatus::Authorized
        } else {
            PermissionStatus::NotDetermined
        }
    }
}

impl From<i64> for PermissionStatus {
    fn from(value: i64) -> (status: PermissionStatus) {
        match value {
            0 => PermissionStatus::NotDetermined,
            1 => PermissionStatus::Restricted,
            2 => PermissionStatus::Denied,
            3 => PermissionStatus::Authorized,
            _ => PermissionStatus::NotDetermined,
        }
    }
}

/// One part of the colour given to the list at the place `index`.
pub open spec fn color_part(index: usize, step: int, base: int) -> int {
    (index * step + base) % 255
}

/// The character of a hexadecimal digit, in lower case.
pub open spec fn hex_digit_char(d: int) -> char {
    if d < 10 {
        (48 + d) as char
    } else {
        (87 + d) as char
    }
}

/// A number below 256 as two hexadecimal digits.
pub open spec fn hex_pair(n: int) -> Seq<char> {
    seq![hex_digit_char(n / 16), hex_digit_char(n % 16)]
}

/// The colour text given to the list at the place `index`: the store does
/// not report colours, so the lists are told apart by their place.
pub open spec fn list_color_text(index: usize) -> Seq<char> {
    seq!['#'] + hex_pair(color_part(index, 60, 100)) + hex_pair(color_part(index, 120, 50))
        + hex_pair(color_part(index, 180, 150))
}

fn hex_digit(d: u64) -> (c: char)
    requires
        d < 16,
    ensures
        c == hex_digit_char(d as int),
{
    if d < 10 {
        (48u8 + d as u8) as char
    } else {
        (87u8 + d as u8) as char
    }
}

fn part_of_color(index: usize, step: u64, base: u64) -> (part: u64)
    requires
        step < 255,
        base < 255,
    ensures
        part == color_part(index, step as int, base as int),
        part < 255,
{
    let reduced = (index as u64) % 255;
    assert(reduced * step <= 254 * 254) by (nonlinear_arith)
        requires
            reduced <= 254,
            step <= 254,
    ;
    let part = (reduced * step + base) % 255;
    proof {
        let i = index as int;
        let s = step as int;
        let b = base as int;
        lemma_mul_mod_noop_left(i, s, 255);
        lemma_add_mod_noop(i * s, b, 255);
        lemma_add_mod_noop((i % 255) * s, b, 255);
    }
    part
}

fn push_hex_pair(out: &mut String, n: u64)
    requires
        n < 256,
    ensures
        final(out)@ == old(out)@ + hex_pair(n as int),
{
    out.push(hex_digit(n / 16));
    out.push(hex_digit(n % 16));
}

/// The colour text given to the list at the place `index`.
pub fn list_color(index: usize) -> (color: String)
    ensures
        color@ == list_color_text(index),
{
    let mut color = String::new();
    color.push('#');
    push_hex_pair(&mut color, part_of_color(index, 60, 100));
    push_hex_pair(&mut color, part_of_color(index, 120, 50));
    push_hex_pair(&mut color, part_of_color(index, 180, 150));
    color
}

/// The number of reminders that a report of a count gives: the number it
/// holds once trimmed, or zero if it holds none.
pub open spec fn count_of_report(report: Seq<char>) -> usize {
    match usize_value(trim_of(report)) {
        Some(count) => count,
        None => 0,
    }
}

/// Reads the number of reminders from the report of a count.
pub fn parse_reminder_count(report: &str) -> (count: usize)
    ensures
        count == count_of_report(report@),
{
    count_or_zero(parse_usize(report.trim()))
}

/// The count that was read, or zero if none was.
pub fn count_or_zero(read: Option<usize>) -> (count: usize)
    ensures
        count == match read {
            Some(count) => count,
            None => 0,
        },
{
    match read {
        Some(count) => count,
        None => 0,
    }
}

/// The id given to the reminder at the place `index` of the report on a
/// list, whose name in lower case is `folded_list_name`.
pub open spec fn reminder_id_text(folded_list_name: Seq<char>, index: usize) -> Seq<char> {
    ID_HEAD@ + folded_list_name + ID_JOINT@ + decimal_text(index as nat)
}

/// The reminder that a record describes, if it describes one: a record of
/// at least two fields, of which the first is the title, the second says
/// whether the reminder is completed, and the third, if it is there and not
/// empty, holds the notes.
pub open spec fn reminder_of_fields(
    fields: Seq<Seq<char>>,
    folded_list_name: Seq<char>,
    index: usize,
) -> Option<ReminderModel> {
    if fields.len() >= 2 {
        Some(
            ReminderModel {
                id: reminder_id_text(folded_list_name, index),
                title: fields[0],
                notes: if fields.len() > 2 && fields[2].len() > 0 {
                    Some(fields[2])
                } else {
                    None
                },
                completed: fields[1] == TRUE_WORD@,
                priority: 0,
                due_date: None,
            },
        )
    } else {
        None
    }
}

/// The reminder that a record describes, if it describes one. An empty
/// record describes none.
pub open spec fn reminder_of_record(
    record: Seq<char>,
    folded_list_name: Seq<char>,
    index: usize,
) -> Option<ReminderModel> {
    if record.len() == 0 {
        None
    } else {
        reminder_of_fields(split_parts(record, FIELD_SEPARATOR@), folded_list_name, index)
    }
}

/// The reminders that the first `upto` records describe, in order.
pub open spec fn reminders_of_records(
    records: Seq<Seq<char>>,
    folded_list_name: Seq<char>,
    upto: nat,
) -> Seq<ReminderModel>
    decreases upto,
{
    if upto == 0 {
        Seq::empty()
    } else {
        let before = reminders_of_records(records, folded_list_name, (upto - 1) as nat);
        match reminder_of_record(records[upto - 1], folded_list_name, (upto - 1) as usize) {
            Some(reminder) => before.push(reminder),
            None => before,
        }
    }
}

/// The reminders that a report describes. A report of a failure describes
/// none.
pub open spec fn reminders_of_report(report: Seq<char>, list_name: Seq<char>) -> Seq<
    ReminderModel,
> {
    let trimmed = trim_of(report);
    if ERROR_PREFIX@.is_prefix_of(trimmed) {
        Seq::empty()
    } else {
        let records = split_parts(trimmed, RECORD_SEPARATOR@);
        reminders_of_records(records, lowercase(list_name), records.len())
    }
}

/// Builds the reminder that the fields of a record describe.
pub fn reminder_from_fields(fields: &Vec<&str>, folded_list_name: &str, index: usize) -> (reminder:
    Option<Reminder>)
    ensures
        reminder.deep_view() == reminder_of_fields(fields.deep_view(), folded_list_name@, index),
{
    assert(fields.deep_view().len() == fields.len());
    if fields.len() >= 2 {
        assert(fields.deep_view()[0] == fields[0]@);
        assert(fields.deep_view()[1] == fields[1]@);
        let notes = if fields.len() > 2 {
            assert(fields.deep_view()[2] == fields[2]@);
            if fields[2].is_empty() {
                None
            } else {
                Some(fields[2].to_owned())
            }
        } else {
            None
        };
        let mut id = ID_HEAD.to_owned();
        id.append(folded_list_name);
        id.append(ID_JOINT);
        push_decimal(&mut id, index as u64);
        Some(
            Reminder {
                id,
                title: fields[0].to_owned(),
                notes,
                completed: same_text(fields[1], TRUE_WORD),
                priority: 0,
                due_date: None,
            },
        )
    } else {
        None
    }
}

/// Reads the reminders of the list `list_name` from the report of a script.
pub fn parse_reminders(report: &str, list_name: &str) -> (reminders: Vec<Reminder>)
    ensures
        reminders.deep_view() == reminders_of_report(report@, list_name@),
{
    let trimmed = report.trim();
    let mut reminders: Vec<Reminder> = Vec::new();
    match str_strip_prefix(trimmed, ERROR_PREFIX) {
        Some(_) => {
            return reminders;
        },
        None => {},
    }
    let folded = list_name.to_lowercase();
    let records = str_split(trimmed, RECORD_SEPARATOR);
    let ghost all = records.deep_view();
    let mut i: usize = 0;
    while i < records.len()
        invariant
            i <= records.len(),
            all == records.deep_view(),
            all.len() == records.len(),
            folded@ == lowercase(list_name@),
            reminders.deep_view() == reminders_of_records(all, folded@, i as nat),
        decreases records.len() - i,
    {
        let record = records[i];
        assert(all[i as int] == record@);
        if !record.is_empty() {
            let fields = str_split(record, FIELD_SEPARATOR);
            match reminder_from_fields(&fields, folded.as_str(), i) {
                Some(reminder) => {
                    let ghost before = reminders.deep_view();
                    reminders.push(reminder);
                    assert(reminders.deep_view() == before.push(reminder@));
                },
                None => {},
            }
        }
        i += 1;
    }
    reminders
}

} // verus!

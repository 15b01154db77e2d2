//! State machine and search engine of a terminal front-end for reminder
//! lists, with every transition stated as a contract and proved.

pub mod action;
pub mod clock;
pub mod color;
pub mod components;
pub mod eventkit;
pub mod form;
pub mod keys;
pub mod search;
pub mod session;
pub mod shell;
pub mod text;
pub mod tui;
pub mod types;
pub mod widget;

pub use types::{NewReminder, RemError, Reminder, ReminderList, TuiAction};

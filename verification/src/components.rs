//! The three panels of the stand-alone program: the permission dialog, the
//! panel of lists and the panel of reminders. Each is a small state machine
//! that takes key presses and the results of the host's calls, and answers
//! with the message to send on.

pub mod lists;
pub mod permission;
pub mod reminders;

//! The interactive state machine: which screen is shown, what each key does
//! on it, and which intents go out to the host.

pub mod app;
pub mod laws;
pub mod model;
pub mod screen;

pub use app::{AppView, TUIApp};

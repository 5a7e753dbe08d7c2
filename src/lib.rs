//! A two-pane terminal viewer: a scrollable list of submitted entries and a
//! popup text field, with the state and event handling verified.

pub mod input;
pub mod layout;
pub mod scroll;
pub mod session;

pub use input::{Edit, Input, InputMode};
pub use layout::{Area, centered_rect, cursor_cell, panes, popup_area, visible_range};
pub use scroll::ScrollState;
pub use session::{Action, App, Event, KeyCode, Session};

//! Page navigation and display-mode state for the Plistr project site.
//!
//! The rendering front end asks this library what to draw (menu entries,
//! the footer's "Next" target, the home page layout) and hands it the
//! controls that were activated; the library answers with the new state
//! and at most one request for the front end to carry out.

pub mod laws;
pub mod page;
pub mod program;
pub mod settings;

pub use page::Page;
pub use program::{home_layout, Action, Event, HomeLayout, Program};
pub use settings::{Document, Settings};

//! Game states.

pub mod ui;

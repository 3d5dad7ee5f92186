//! Application state for a desktop front end to a `cargo test` runner: the open
//! projects, the active one, its latest results and the selected test, the alert
//! banner and the run arguments, with the transitions between them.

pub mod alert;
pub mod conditional;
pub mod detail;
pub mod laws;
pub mod layout;
pub mod lists;
pub mod model;
pub mod paths;
pub mod persist;
pub mod platform;
pub mod project;
pub mod results;
pub mod run;
pub mod run_args;
pub mod state;
pub mod style;
pub mod text;

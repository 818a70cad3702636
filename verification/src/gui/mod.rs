//! Panel navigation, the interactive-rebase screen, and what each key
//! command asks the user or runs.

pub mod context;
pub mod controller;
pub mod keys;
pub mod popup;
pub mod rebase_mode;
pub mod input_trace;
pub mod presentation;

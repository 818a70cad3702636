//! What each panel's commands show or run, decided from the selection and
//! the model. `None` leaves the current popup as it is.

pub mod commits;
pub mod rebase_mode;
pub mod remotes;
pub mod stash;
pub mod submodules;
pub mod tags;

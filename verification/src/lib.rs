//! Status model and decision logic of a desktop monitor for local Codex sessions.
//!
//! The library holds everything that decides: how rollout events map to a status,
//! which threads are shown, how a snapshot is summarised, where the floating window
//! goes on a monitor, and how the settings evolve. The application crate performs
//! the file, database, process and window work around it.
pub mod model;
pub mod text;
pub mod events;
pub mod provider;
pub mod window;
pub mod session;

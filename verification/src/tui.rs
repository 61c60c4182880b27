//! The interactive mode: its events, its state and the loop that redraws
//! it, and the session that holds the terminal while it runs.

pub mod app;
pub mod event;
pub mod session;

pub use app::App;
pub use event::{Event, EventHandler};

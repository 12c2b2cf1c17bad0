//! The state, the view model and the rules of a keyboard-driven task browser.

pub mod actions;
pub mod app;
pub mod config_laws;
pub mod context;
pub mod draw_laws;
pub mod gesture_laws;
pub mod grouping;
pub mod help;
pub mod invariants;
pub mod keys;
pub mod launch;
pub mod laws;
pub mod layout;
pub mod list_laws;
pub mod listing;
pub mod model;
pub mod move_laws;
pub mod moving;
pub mod order;
pub mod paths;
pub mod prompts;
pub mod record_laws;
pub mod reorder_laws;
pub mod rows;
pub mod screen;
pub mod session;
pub mod spans;
pub mod sync;
pub mod sync_laws;
pub mod task;
pub mod text;
pub mod text_laws;
pub mod theme;
pub mod view_laws;
pub mod writes;

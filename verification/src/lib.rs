//! The logic of a small desktop markdown editor, kept apart from its widgets.
//!
//! A shell owns the toolkit objects. It reports what happened by calling a
//! method of [`MyMarkdownWindow`] and carries out the [`Command`]s that the
//! method hands back, in order. A command that asks for something names the
//! method that takes the answer. Everything the editor decides is decided
//! here, and each decision is stated by the contract of its method.

pub mod actions;
pub mod application;
pub mod command;
pub mod confirm;
pub mod document;
pub mod laws;
pub mod paths;
pub mod preview;
pub mod startup;
pub mod text;
pub mod view_mode;
pub mod window;

pub use actions::WindowAction;
pub use application::MyMarkdownApp;
pub use command::{Command, DialogResponse, PendingAction, Propagation, Reaction, SaveChoice};
pub use view_mode::ViewMode;
pub use window::MyMarkdownWindow;

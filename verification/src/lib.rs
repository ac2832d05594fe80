//! Best-effort capture of the text currently selected in the focused
//! application, mediated by the system clipboard.
//!
//! The protocol saves the clipboard's content, clears it, synthesizes the
//! platform's copy gesture, polls the clipboard until the copied selection
//! appears or a deadline passes, restores the saved content, and returns
//! whatever text was found.  The protocol logic is verified against a pure
//! model of the clipboard and of the polling clock; the operating-system
//! services themselves sit behind narrow ports (clipboard, clock) and
//! plain functions (copy trigger, sleep).

pub mod capture;
pub mod clock;
pub mod config;
pub mod image;
pub mod model;
pub mod ports;
pub mod script;
pub mod laws;
pub mod snapshot;
pub mod system;
pub mod trigger;

pub use capture::get_selection_text;
pub use trigger::copy;

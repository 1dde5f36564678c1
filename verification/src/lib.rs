//! Core of the Nazad study tracker: the goal registry of a user profile,
//! its diagnostics record, the study log and the quick-action category,
//! with what the views decide on a click or an input.
//! Nothing here touches a screen or a file; the caller renders and reads.

pub mod actions;
pub mod dashboard;
pub mod date;
pub mod diagnostics;
pub mod editor;
pub mod goal;
pub mod json;
pub mod laws;
pub mod log;
pub mod panel;
pub mod text;
pub mod user;

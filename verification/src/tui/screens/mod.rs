//! Per-screen rules: which rows a screen lists, in what order, and what the
//! keys do to its state.
pub mod dashboard;
pub mod downloads;
pub mod library;
pub mod missing;
pub mod modal;
pub mod search;

//! Terminal UI state and the rules the screens follow; drawing and the event
//! loop sit on top of these.
pub mod app;
pub mod event;
pub mod fetch;
pub mod keys;
pub mod screens;
pub mod theme;

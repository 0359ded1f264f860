//! Events and input actions.
pub mod event_dispatch;
pub mod events;
pub mod input;

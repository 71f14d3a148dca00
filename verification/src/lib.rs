//! The core of a text agent: the decisions behind a hidden text input that
//! traps a platform's composition and keyboard events for an application
//! drawing its own interface.
//!
//! Nothing here touches the platform. Each function takes what was observed
//! (a notification, the focus state, a geometry snapshot) and returns what is
//! to be done (operations on the proxy control, an event for the application).

pub mod agent;
pub mod control;
pub mod event;
pub mod geometry;
pub mod platform;
pub mod setup;
pub mod translator;

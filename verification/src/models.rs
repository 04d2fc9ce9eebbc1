//! The data the handlers work on.

pub mod api;
pub mod session;
pub mod user;

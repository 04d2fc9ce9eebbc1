//! Session lifecycle and password authentication for a small web backend.
//!
//! A user registers with a password, logs in, and then presents a session
//! token in a cookie. The modules hold the session store, the credential
//! checks, the decisions of each request handler and of the session guard,
//! the statements that store a user, and the seed data. Calls into other
//! crates stand in `trusted`.

pub mod credentials;
pub mod handlers;
pub mod middlewares;
pub mod migrations;
pub mod models;
pub mod statements;
pub mod trusted;

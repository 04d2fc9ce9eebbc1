//! The migrations of the database that are made by code.

pub mod v2_add_users;

//! The data side of the server, as far as it decides who may do what, in
//! which order failures are reported, and how often an insert is tried.

pub mod auth;
pub mod database;
pub mod graphql;
pub mod structures;

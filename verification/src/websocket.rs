//! The streaming side of the server: roles, frames, channels, the hub that
//! all sessions share, and the life of one session.

pub mod auth;
pub mod channel;
pub mod handler;
pub mod hub;
pub mod laws;
pub mod session;
pub mod structures;

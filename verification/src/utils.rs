//! What the streaming side and the data side share.

pub mod auth;

//! The rules of a server that distributes real-time updates from exactly one
//! authorized producer to many authorized consumers.
//!
//! The heart is the broadcast hub under [`websocket`]: it gives every
//! accepted connection an identity and a role, lets one publisher in at a
//! time, fans the publisher's text out to the subscribers registered at that
//! moment, keeps connections alive with heartbeats, and takes a session out
//! of the shared state again however it ends. [`utils`] and [`database`]
//! hold the credential rules and the few decisions of the data side.
//!
//! Nothing here waits or touches a socket: the program around this library
//! reads, writes and sleeps, and asks the library what to do in between.

pub mod database;
pub mod utils;
pub mod websocket;

//! The rules of the query and mutation roots.

pub mod mutation;
pub mod query;

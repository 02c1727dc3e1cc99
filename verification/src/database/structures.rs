//! The permission levels of the data side.

use vstd::prelude::*;

verus! {

/// How much a bearer may do on the data side.
#[derive(Clone, Copy, Debug, PartialEq, Eq, Structural)]
pub enum PermissionLevel {
    /// May read and write.
    Admin,
    /// May read.
    User,
}

/// A permission level as handed over by credential resolution.
pub struct Permission(pub PermissionLevel);

} // verus!

//! Who content comes from or is meant for.
use vstd::prelude::*;

verus! {

/// The origin or intended reader of content.
#[derive(Clone, Copy, Debug, PartialEq, Eq, Structural)]
pub enum Role {
    /// The user.
    User,
    /// The assistant.
    Assistant,
}

} // verus!

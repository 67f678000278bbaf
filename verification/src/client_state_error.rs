//! Errors reported by the session store.

use vstd::prelude::*;

verus! {

/// Failure of a store operation: the guild key was already reserved, or no
/// record exists for it.
#[derive(Debug, Clone, Copy, PartialEq, Eq, Structural)]
pub enum ClientStateError {
    ReservedClientID,
    NonExistentClientID,
}

impl ClientStateError {
    /// A short description, usable wherever the error is rendered as text.
    pub fn message(&self) -> (r: String)
        ensures
            self is ReservedClientID ==> r@ == "a session record already exists for this guild"@,
            self is NonExistentClientID ==> r@ == "no session record exists for this guild"@,
    {
        match self {
            ClientStateError::ReservedClientID => String::from_str(
                "a session record already exists for this guild",
            ),
            ClientStateError::NonExistentClientID => String::from_str(
                "no session record exists for this guild",
            ),
        }
    }
}

} // verus!

//! Error type shared by the library.
//!
//! The kinds mirror how failures propagate: transport and decode failures
//! abort a whole query, entity and repository failures are confined to one
//! project or one repository, and command failures are reported results
//! rather than errors.

use vstd::prelude::*;

verus! {

/// An error of the Gerrit workflow, carrying a human-readable message.
#[derive(Debug)]
pub enum GGRError {
    /// Entity, repository or other general failure.
    General(String),
    /// Network or HTTP failure of the query call.
    Transport(String),
    /// Response body did not match the expected change shape; the message
    /// carries the raw body for diagnosis.
    Decode(String),
}

impl GGRError {
    /// The message carried by this error.
    pub fn message(&self) -> (r: &String)
        ensures
            r@ == self.spec_message(),
    {
        match self {
            GGRError::General(m) => m,
            GGRError::Transport(m) => m,
            GGRError::Decode(m) => m,
        }
    }

    /// The message carried by this error.
    pub open spec fn spec_message(&self) -> Seq<char> {
        match self {
            GGRError::General(m) => m@,
            GGRError::Transport(m) => m@,
            GGRError::Decode(m) => m@,
        }
    }
}

} // verus!

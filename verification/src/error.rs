//! The library's error taxonomy: transport and structural failures are both
//! carried as `FetchError`, lookup misses and date faults get their own
//! variants. Each error renders to a single human-readable message.

use vstd::prelude::*;

verus! {

use crate::strutil::concat2;

/// An error from fetching or normalizing upstream data.
#[derive(Debug, Clone, PartialEq, Eq)]
pub enum SportError {
    TeamNotFound(String),
    GameNotFound(String),
    PlayerNotFound(String),
    DateError(String),
    FetchError(String),
}

impl SportError {
    /// The rendered message of this error.
    pub open spec fn spec_message(&self) -> Seq<char> {
        match self {
            SportError::TeamNotFound(m) => "Team not found: "@ + m@,
            SportError::GameNotFound(m) => "Game not found: "@ + m@,
            SportError::PlayerNotFound(m) => "Player not found: "@ + m@,
            SportError::DateError(m) => "Invalid date format: "@ + m@,
            SportError::FetchError(m) => "Failed to fetch data: "@ + m@,
        }
    }

    /// Renders the error as a message line.
    pub fn message(&self) -> (r: String)
        ensures
            r@ == self.spec_message(),
    {
        match self {
            SportError::TeamNotFound(m) => concat2("Team not found: ", m.as_str()),
            SportError::GameNotFound(m) => concat2("Game not found: ", m.as_str()),
            SportError::PlayerNotFound(m) => concat2("Player not found: ", m.as_str()),
            SportError::DateError(m) => concat2("Invalid date format: ", m.as_str()),
            SportError::FetchError(m) => concat2("Failed to fetch data: ", m.as_str()),
        }
    }
}

} // verus!

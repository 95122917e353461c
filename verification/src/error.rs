use vstd::prelude::*;

verus! {

/// Why a lifecycle operation was not carried out.
#[derive(Debug, PartialEq, Eq)]
pub enum LifecycleError {
    /// No record has the id that was given.
    NotFound,
    /// A record with the same id, or of the same engine, exists already.
    Conflict(String),
    /// The record is in a state in which the operation makes no sense.
    InvalidState(String),
    /// A tool outside this library failed; the text is what it reported.
    Provisioning(String),
    /// The registry file could not be read or written.
    Persistence(String),
    /// A directory could not be made or removed.
    Filesystem(String),
}

impl LifecycleError {
    /// The text that is shown for an error.
    pub open spec fn spec_message(self) -> Seq<char> {
        match self {
            LifecycleError::NotFound => "Database not found"@,
            LifecycleError::Conflict(text) => text@,
            LifecycleError::InvalidState(text) => text@,
            LifecycleError::Provisioning(text) => text@,
            LifecycleError::Persistence(text) => text@,
            LifecycleError::Filesystem(text) => text@,
        }
    }

    /// The text that is shown for this error.
    pub fn message(&self) -> (text: String)
        ensures
            text@ == self.spec_message(),
    {
        match self {
            LifecycleError::NotFound => "Database not found".to_string(),
            LifecycleError::Conflict(text) => text.clone(),
            LifecycleError::InvalidState(text) => text.clone(),
            LifecycleError::Provisioning(text) => text.clone(),
            LifecycleError::Persistence(text) => text.clone(),
            LifecycleError::Filesystem(text) => text.clone(),
        }
    }
}

} // verus!

use vstd::prelude::*;

verus! {

/// The ways a request on a workspace can fail.
#[derive(Debug, Clone, Copy, PartialEq, Eq, Structural)]
pub enum BackendError {
    /// No blob, or no lock, is stored under the name.
    NotFound,
    /// A lock is already held on the workspace.
    Conflict,
    /// The workspace is locked and the request did not present its token.
    LockMismatch,
    /// A lock record carries no creation time, under which its audit copy
    /// would be filed.
    MissingCreated,
    /// Reading or writing the stored blobs or audit records failed.
    StorageFailure,
}

impl BackendError {
    /// The HTTP status that reports this failure.
    pub open spec fn spec_status(self) -> u16 {
        match self {
            BackendError::NotFound => 404,
            BackendError::Conflict => 409,
            BackendError::LockMismatch => 423,
            BackendError::MissingCreated => 400,
            BackendError::StorageFailure => 500,
        }
    }

    /// The HTTP status that reports this failure.
    pub fn status(&self) -> (r: u16)
        ensures
            r == self.spec_status(),
    {
        match self {
            BackendError::NotFound => 404,
            BackendError::Conflict => 409,
            BackendError::LockMismatch => 423,
            BackendError::MissingCreated => 400,
            BackendError::StorageFailure => 500,
        }
    }
}

} // verus!

use vstd::prelude::*;

verus! {

/// The kinds of failure the update workflow distinguishes.
#[derive(Clone, Copy, Debug, PartialEq, Eq, Structural)]
pub enum ErrorKind {
    /// Unreachable host or non-success response.
    Network,
    /// Malformed response body or missing expected field.
    Parse,
    /// Filesystem read/write/create failure.
    Io,
    /// Corrupt or unreadable archive container.
    Archive,
    /// An archive entry whose path would escape the destination root.
    ArchivePath,
}

/// A failure of the update workflow: its kind plus context for logging.
#[derive(Debug, Clone)]
pub struct UpdateError {
    pub kind: ErrorKind,
    pub detail: String,
}

impl UpdateError {
    pub fn new(kind: ErrorKind, detail: String) -> (r: UpdateError)
        ensures
            r.kind == kind,
            r.detail@ == detail@,
    {
        UpdateError { kind, detail }
    }

    /// A short description for callers that log or display the failure.
    pub fn message(&self) -> (r: String)
        ensures
            r@ == self.detail@,
    {
        self.detail.clone()
    }
}

} // verus!

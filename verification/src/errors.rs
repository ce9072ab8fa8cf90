use vstd::prelude::*;

verus! {

/// Classification of every failure the journal engine can report.
#[derive(Clone, Copy, Debug, PartialEq, Eq, Structural)]
pub enum ErrorKind {
    /// The initialization target already holds a repository.
    AlreadyExists,
    /// A repository, entry, or the recipient metadata file is missing.
    NotFound,
    /// The editor or cipher executable could not be located.
    ToolNotFound,
    /// An external tool ran but exited unsuccessfully.
    ToolFailed,
    /// A version-control primitive failed (index, tree, HEAD, commit).
    StoreFailure,
    /// A filesystem failure not otherwise classified.
    IoFailure,
}

/// An error surfaced by the journal engine: a kind for callers that
/// branch on the failure, a human-readable message, and — for a tool
/// that ran and failed — the exit code it carried, when the system
/// reported one.
#[derive(Debug, Eq)]
pub struct DearyError {
    pub kind: ErrorKind,
    pub message: String,
    pub status: Option<i32>,
}

impl DearyError {
    /// General constructor; failures built this way carry the
    /// catch-all `IoFailure` classification and no exit status.
    pub fn new(msg: &str) -> (r: DearyError)
        ensures
            r.kind == ErrorKind::IoFailure,
            r.message@ == msg@,
            r.status is None,
    {
        DearyError { kind: ErrorKind::IoFailure, message: String::from_str(msg), status: None }
    }

    /// Constructor that fixes the classification.
    pub fn with_kind(kind: ErrorKind, msg: &str) -> (r: DearyError)
        ensures
            r.kind == kind,
            r.message@ == msg@,
            r.status is None,
    {
        DearyError { kind, message: String::from_str(msg), status: None }
    }

    /// A failed external tool, carrying the exit code it reported.
    pub fn tool_failed(msg: &str, code: Option<i32>) -> (r: DearyError)
        ensures
            r.kind == ErrorKind::ToolFailed,
            r.message@ == msg@,
            r.status == code,
    {
        DearyError { kind: ErrorKind::ToolFailed, message: String::from_str(msg), status: code }
    }

    /// The failure classification.
    pub fn kind(&self) -> (r: ErrorKind)
        ensures
            r == self.kind,
    {
        self.kind
    }

    /// The human-readable description of the failure.
    pub fn message(&self) -> (r: String)
        ensures
            r@ == self.message@,
    {
        self.message.clone()
    }

    /// The exit code of the failed tool, where one was reported.
    pub fn status(&self) -> (r: Option<i32>)
        ensures
            r == self.status,
    {
        self.status
    }
}

impl PartialEq for DearyError {
    fn eq(&self, other: &DearyError) -> (r: bool) {
        let same_status = match (self.status, other.status) {
            (None, None) => true,
            (Some(a), Some(b)) => a == b,
            _ => false,
        };
        self.kind == other.kind && self.message == other.message && same_status
    }
}

impl vstd::std_specs::cmp::PartialEqSpecImpl for DearyError {
    open spec fn obeys_eq_spec() -> bool {
        true
    }

    open spec fn eq_spec(&self, other: &DearyError) -> bool {
        self.kind == other.kind && self.message@ == other.message@ && self.status == other.status
    }
}

} // verus!

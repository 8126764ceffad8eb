use vstd::prelude::*;

verus! {

/// Why an archiver run, or one call within it, failed.
#[derive(Clone, Copy, Debug, PartialEq, Eq, Structural)]
pub enum ArchiveError {
    /// Network or HTTP-layer failure.
    Transport,
    /// A response could not be parsed as the expected shape, or the upstream
    /// reported an explicit failure flag.
    Protocol,
    /// Database connectivity failure or constraint violation.
    Storage,
    /// No record in the recent listing is old enough to be safe to ingest.
    NoFrontier,
}

impl ArchiveError {
    /// A short, fixed description of the error kind, for logs.
    pub fn describe(&self) -> (r: &'static str)
        ensures
            self is Transport ==> r@ == "transport failure"@,
            self is Protocol ==> r@ == "protocol failure"@,
            self is Storage ==> r@ == "storage failure"@,
            self is NoFrontier ==> r@ == "no safe frontier"@,
    {
        match self {
            ArchiveError::Transport => "transport failure",
            ArchiveError::Protocol => "protocol failure",
            ArchiveError::Storage => "storage failure",
            ArchiveError::NoFrontier => "no safe frontier",
        }
    }
}

} // verus!

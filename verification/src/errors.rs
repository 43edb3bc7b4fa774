//! The error taxonomy of the library: every operation fails fast with one of
//! these, and the boundary renders the carried text.
use vstd::prelude::*;
use vstd::string::StringExecFns;

verus! {

/// Why a repository operation failed.
#[derive(Clone, Debug)]
pub enum GitServiceError {
    /// A repository, reference or remote is missing.
    NotFound(String),
    /// `HEAD` (or another required piece of repository state) does not
    /// resolve.
    InvalidState(String),
    /// The negotiation subprocess exited nonzero; carries its diagnostic
    /// text.
    SubprocessFailure(String),
    /// A requested file path is absolute or contains a parent-directory
    /// segment.
    PathTraversal(String),
    /// The repository's current branch differs from the requested one:
    /// current, then requested.
    BranchMismatch(String, String),
    /// The local branch and the fetched tip have diverged; only fast-forward
    /// merges are automated.
    ManualMergeRequired,
    /// A reference failed to update during a push into the bare copy.
    PushRefUpdate(String),
    /// The target of an init already exists.
    AlreadyExists(String),
    /// A filesystem-level step (scratch directory, path resolution) failed.
    FilesystemIo(String),
    /// Any other error text surfaced verbatim from the underlying git
    /// library.
    Upstream(String),
}

impl GitServiceError {
    /// The rendered message of each variant.
    pub open spec fn message_spec(&self) -> Seq<char> {
        match self {
            GitServiceError::NotFound(what) => "not found: "@ + what@,
            GitServiceError::InvalidState(what) => "invalid repository state: "@ + what@,
            GitServiceError::SubprocessFailure(text) => "git-upload-pack failed: "@ + text@,
            GitServiceError::PathTraversal(path) => "invalid file path: "@ + path@,
            GitServiceError::BranchMismatch(current, requested) => "branch mismatch: current "@
                + current@ + ", requested "@ + requested@,
            GitServiceError::ManualMergeRequired => "manual merge required: histories have diverged"@,
            GitServiceError::PushRefUpdate(text) => "failed to update pushed reference: "@ + text@,
            GitServiceError::AlreadyExists(name) => "repository already exists: "@ + name@,
            GitServiceError::FilesystemIo(text) => "filesystem operation failed: "@ + text@,
            GitServiceError::Upstream(text) => "git operation failed: "@ + text@,
        }
    }

    /// Renders the error as text for the boundary to return.
    pub fn message(&self) -> (r: String)
        ensures
            r@ == self.message_spec(),
    {
        match self {
            GitServiceError::NotFound(what) => {
                let mut s = String::from_str("not found: ");
                s.append(what.as_str());
                s
            },
            GitServiceError::InvalidState(what) => {
                let mut s = String::from_str("invalid repository state: ");
                s.append(what.as_str());
                s
            },
            GitServiceError::SubprocessFailure(text) => {
                let mut s = String::from_str("git-upload-pack failed: ");
                s.append(text.as_str());
                s
            },
            GitServiceError::PathTraversal(path) => {
                let mut s = String::from_str("invalid file path: ");
                s.append(path.as_str());
                s
            },
            GitServiceError::BranchMismatch(current, requested) => {
                let mut s = String::from_str("branch mismatch: current ");
                s.append(current.as_str());
                s.append(", requested ");
                s.append(requested.as_str());
                s
            },
            GitServiceError::ManualMergeRequired => {
                String::from_str("manual merge required: histories have diverged")
            },
            GitServiceError::PushRefUpdate(text) => {
                let mut s = String::from_str("failed to update pushed reference: ");
                s.append(text.as_str());
                s
            },
            GitServiceError::AlreadyExists(name) => {
                let mut s = String::from_str("repository already exists: ");
                s.append(name.as_str());
                s
            },
            GitServiceError::FilesystemIo(text) => {
                let mut s = String::from_str("filesystem operation failed: ");
                s.append(text.as_str());
                s
            },
            GitServiceError::Upstream(text) => {
                let mut s = String::from_str("git operation failed: ");
                s.append(text.as_str());
                s
            },
        }
    }
}

} // verus!

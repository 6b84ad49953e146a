//! What a tool call can fail with.

use vstd::prelude::*;

verus! {

/// What a tool call fails with, over the type of texts.
#[derive(Debug)]
#[allow(inconsistent_fields)]
pub enum ToolErrorOf<T> {
    /// No database is open.
    NoDatabaseOpen,
    /// Another database is open.
    DatabaseAlreadyOpen(T),
    /// Another process holds the database.
    DatabaseLocked(T),
    /// The database could not be opened.
    OpenFailed(T),
    /// The path is not usable.
    InvalidPath(T),
    /// The address cannot be read.
    InvalidAddress(T),
    /// The parameters are not usable.
    InvalidParams(T),
    /// The request is not supported.
    NotSupported(T),
    /// The disassembler reported an error.
    IdaError(T),
    /// The runtime does not fit the build.
    SdkVersionMismatch(T),
    /// The call took longer than so many seconds.
    Timeout(u64),
    /// The call took too long.
    TimeoutDetailed(T),
    /// The call was cancelled.
    Cancelled(T),
    /// A worker died during an operation.
    WorkerCrashed { worker_id: usize, last_op: T },
    /// A worker answered in an unexpected way.
    RemoteProtocol(T),
    /// A worker is gone.
    WorkerClosed,
    /// All workers are taken.
    PoolExhausted { active: usize, max: usize },
}

/// What a tool call fails with.
pub type ToolError = ToolErrorOf<String>;

/// What a [`ToolError`] is.
pub type ToolErrorV = ToolErrorOf<Seq<char>>;

impl View for ToolErrorOf<String> {
    type V = ToolErrorV;

    open spec fn view(&self) -> ToolErrorV {
        match self {
            ToolErrorOf::NoDatabaseOpen => ToolErrorOf::NoDatabaseOpen,
            ToolErrorOf::DatabaseAlreadyOpen(t) => ToolErrorOf::DatabaseAlreadyOpen(t@),
            ToolErrorOf::DatabaseLocked(t) => ToolErrorOf::DatabaseLocked(t@),
            ToolErrorOf::OpenFailed(t) => ToolErrorOf::OpenFailed(t@),
            ToolErrorOf::InvalidPath(t) => ToolErrorOf::InvalidPath(t@),
            ToolErrorOf::InvalidAddress(t) => ToolErrorOf::InvalidAddress(t@),
            ToolErrorOf::InvalidParams(t) => ToolErrorOf::InvalidParams(t@),
            ToolErrorOf::NotSupported(t) => ToolErrorOf::NotSupported(t@),
            ToolErrorOf::IdaError(t) => ToolErrorOf::IdaError(t@),
            ToolErrorOf::SdkVersionMismatch(t) => ToolErrorOf::SdkVersionMismatch(t@),
            ToolErrorOf::Timeout(n) => ToolErrorOf::Timeout(*n),
            ToolErrorOf::TimeoutDetailed(t) => ToolErrorOf::TimeoutDetailed(t@),
            ToolErrorOf::Cancelled(t) => ToolErrorOf::Cancelled(t@),
            ToolErrorOf::WorkerCrashed { worker_id, last_op } => ToolErrorOf::WorkerCrashed {
                worker_id: *worker_id,
                last_op: last_op@,
            },
            ToolErrorOf::RemoteProtocol(t) => ToolErrorOf::RemoteProtocol(t@),
            ToolErrorOf::WorkerClosed => ToolErrorOf::WorkerClosed,
            ToolErrorOf::PoolExhausted { active, max } => ToolErrorOf::PoolExhausted {
                active: *active,
                max: *max,
            },
        }
    }
}

} // verus!

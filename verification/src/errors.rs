use vstd::prelude::*;

verus! {

/// Every way a job can fail. Each task's first failure is fatal to that task;
/// the orchestrator surfaces the first one it meets in join order.
#[derive(Debug, PartialEq, Eq)]
pub enum JobError {
    /// The input could not be opened for reading; holds the input path.
    OpenInputFailed(String),
    /// An output target could not be created; holds the target path.
    CreateOutputFailed(String),
    /// A read from the input source failed; holds the input path.
    ReadFailed(String),
    /// A write to an output target failed.
    WriteFailed,
    /// The durable flush of an output target failed.
    SyncFailed,
    /// The input's current offset could not be determined; holds the input path.
    QueryPositionFailed(String),
    /// The input's total length could not be determined; holds the input path.
    QueryLengthFailed(String),
    /// A worker thread ended abnormally instead of returning a result.
    JoinFailed,
}

} // verus!

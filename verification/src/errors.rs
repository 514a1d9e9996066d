//! Errors of the scheduler and of the payment connector.
use vstd::prelude::*;

verus! {

/// Failures of the key-value store that holds the scheduler's streams and lock.
#[derive(Clone, Copy, Debug, PartialEq, Eq, Structural)]
pub enum RedisError {
    RedisConnectionError,
    SetNxFailed,
    DeleteFailed,
    StreamAppendFailed,
    StreamReadFailed,
    StreamAcknowledgeFailed,
    StreamDeleteFailed,
    UnknownResult,
}

/// Failures of the process-tracker scheduler.
#[derive(Clone, Copy, Debug, PartialEq, Eq, Structural)]
pub enum ProcessTrackerError {
    ProcessFetchingFailed,
    ProcessUpdateFailed,
    BatchInsertionFailed,
    BatchUpdateFailed,
    BatchDeleteFailed,
    BatchNotFound,
    UnexpectedFlow,
    SerializationFailed,
    DeserializationFailed,
    ERedisError(RedisError),
}

/// An error with, where a second operation failed while recovering from
/// it, the error of that operation too.
#[derive(Clone, Copy, Debug, PartialEq, Eq, Structural)]
pub struct ErrorStack {
    pub context: ProcessTrackerError,
    pub extended: Option<ProcessTrackerError>,
}

} // verus!

//! The end of a unit of work that ran on the worker pool.

use vstd::prelude::*;
use crate::constants::STATUS_OK;
use crate::model::errors::GlobalServiceError;

verus! {

/// Why a unit of work handed to the worker pool gave no result.
#[derive(Debug, Clone, PartialEq, Eq)]
pub enum BlockingError<E> {
    /// The work ran and failed.
    Error(E),
    /// The work was cancelled before it finished.
    Canceled,
}

/// A successful response: its status and what is sent as JSON with it.
#[derive(Debug, Clone, PartialEq, Eq)]
pub struct HttpReply<T> {
    pub status: u16,
    pub body: T,
}

/// What a handler answers once its work on the pool has ended: the result
/// with status 200, the work's own error, or an internal error where the
/// work was cancelled. A cancelled unit is never passed over in silence.
pub open spec fn settled<T>(outcome: Result<T, BlockingError<GlobalServiceError>>) -> Result<
    HttpReply<T>,
    GlobalServiceError,
> {
    match outcome {
        Ok(body) => Ok(HttpReply { status: STATUS_OK, body }),
        Err(BlockingError::Error(e)) => Err(e),
        Err(BlockingError::Canceled) => Err(GlobalServiceError::InternalServerError),
    }
}

pub fn settle<T>(outcome: Result<T, BlockingError<GlobalServiceError>>) -> (r: Result<
    HttpReply<T>,
    GlobalServiceError,
>)
    ensures
        r == settled(outcome),
{
    match outcome {
        Ok(body) => Ok(HttpReply { status: STATUS_OK, body }),
        Err(BlockingError::Error(e)) => Err(e),
        Err(BlockingError::Canceled) => Err(GlobalServiceError::InternalServerError),
    }
}

} // verus!

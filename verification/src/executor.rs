//! The executors.

use std::marker::PhantomData;

use crate::error::BlockingError;
use crate::spawn::{
    ExecuteImmediate, Scope, SpawnBlocking, SpawnBlockingLocal, SpawnBlockingScoped,
};
use vstd::prelude::*;

verus! {

/// Declares `tokio::task::JoinError`; nothing is claimed of what it holds.
#[verifier::external_type_specification]
#[verifier::external_body]
pub struct ExJoinError(tokio::task::JoinError);

/// Runs jobs on the blocking threads of a Tokio runtime.
#[derive(Debug, Clone, Copy)]
pub struct TokioExecutor;

impl TokioExecutor {
    /// What a job handed to the runtime comes to, from what its join handle gave:
    /// its value, or, without one, that it panicked.
    pub open spec fn joined_to<T>(outcome: Result<T, tokio::task::JoinError>) -> Result<
        T,
        BlockingError,
    > {
        match outcome {
            Ok(value) => Ok(value),
            Err(_) => Err(BlockingError::TaskPanicked),
        }
    }

    /// Turns what the join handle of a job gave into what the job comes to.
    pub fn joined<T>(outcome: Result<T, tokio::task::JoinError>) -> (r: Result<T, BlockingError>)
        ensures
            r == Self::joined_to(outcome),
    {
        match outcome {
            Ok(value) => Ok(value),
            Err(_) => Err(BlockingError::TaskPanicked),
        }
    }
}

/// Runs jobs at once, on the calling thread.
pub struct ImmediateExecutor;

impl ExecuteImmediate for ImmediateExecutor {

}

impl SpawnBlocking for ImmediateExecutor {
    open spec fn may_report(error: Option<BlockingError>) -> bool {
        error is None
    }

    fn spawn_blocking<F, T>(f: F) -> (r: Result<T, BlockingError>) where
        F: FnOnce() -> T + Send + 'static,
        T: Send + 'static,
    {
        Ok(f())
    }
}

/// Runs jobs on the blocking threads of async-std.
#[derive(Debug, Clone, Copy)]
pub struct AsyncStdExecutor;

/// Runs jobs on the blocking threads of smol.
#[derive(Debug, Clone, Copy)]
pub struct SmolExecutor;

/// Runs jobs on the calling thread, for values that must stay there.
#[derive(Debug, Clone, Copy)]
pub struct LocalExecutor;

impl SpawnBlockingLocal for LocalExecutor {
    open spec fn may_report(error: Option<BlockingError>) -> bool {
        error is None
    }

    fn spawn_blocking_local<F, T>(f: F) -> (r: Result<T, BlockingError>) where
        F: FnOnce() -> T + 'static,
        T: 'static,
    {
        Ok(f())
    }
}

/// Runs jobs inside a Crossbeam scope.
pub struct CrossbeamExecutor;

/// Calls `crossbeam::scope` with a closure that runs `f` and spawns no thread.
///
/// Claimed of it: it hands back what the closure returned. It would report an
/// error only for a thread of the scope that panicked, and there is none.
#[verifier::external_body]
fn in_crossbeam_scope<F, R>(f: F) -> (r: Option<R>) where F: FnOnce() -> R
    requires
        call_requires(f, ()),
    ensures
        r is Some,
        call_ensures(f, (), r->0),
{
    crossbeam::scope(|_| f()).ok()
}

impl SpawnBlocking for CrossbeamExecutor {
    open spec fn may_report(error: Option<BlockingError>) -> bool {
        error is None
    }

    fn spawn_blocking<F, T>(f: F) -> (r: Result<T, BlockingError>) where
        F: FnOnce() -> T + Send + 'static,
        T: Send + 'static,
    {
        match in_crossbeam_scope(f) {
            Some(value) => Ok(value),
            None => Err(BlockingError::TaskPanicked),
        }
    }
}

impl SpawnBlockingScoped for CrossbeamExecutor {
    fn scope<'scope, F, R>(f: F) -> (r: R) where F: FnOnce(&Scope<'scope>) -> R {
        let job = move || -> (value: R)
            ensures
                exists|scope: &Scope<'scope>| #[trigger] call_ensures(f, (scope,), value),
        {
            let scope = Scope { _lifetime: PhantomData };
            f(&scope)
        };
        in_crossbeam_scope(job).unwrap()
    }
}

/// A job on Tokio comes to a value exactly where its join handle gave that value, and
/// else is reported as one that panicked.
pub proof fn law_join_handle_decides<T>(outcome: Result<T, tokio::task::JoinError>, value: T)
    ensures
        TokioExecutor::joined_to(outcome) == Ok::<T, BlockingError>(value) <==> outcome == Ok::<
            T,
            tokio::task::JoinError,
        >(value),
        outcome is Err ==> TokioExecutor::joined_to(outcome) == Err::<T, BlockingError>(
            BlockingError::TaskPanicked,
        ),
{
}

} // verus!

//! The ways of running a job.
//!
//! A job is a closure. Each trait says how an executor runs one, and its
//! contract says what every executor owes: the value handed back is one that
//! the job returned.

use std::marker::PhantomData;

use crate::error::BlockingError;
use vstd::prelude::*;

verus! {

/// The error that an executor reported for a job, or `None` where it reported the
/// value.
pub open spec fn reported<T>(outcome: Result<T, BlockingError>) -> Option<BlockingError> {
    match outcome {
        Ok(_) => None,
        Err(error) => Some(error),
    }
}

/// Running a job that may move to another thread, and waiting for its end.
pub trait SpawnBlocking: Send + Sync + 'static {
    /// Whether the executor may give `outcome` for a job: a value of the job, or an
    /// error in its place.
    open spec fn may_give<T>(outcome: Result<T, BlockingError>) -> bool {
        true
    }

    /// Whether the executor may report `error` in place of the value of a job, or, for
    /// `None`, report the value.
    open spec fn may_report(error: Option<BlockingError>) -> bool {
        true
    }

    /// Runs `f` to its end.
    fn spawn_blocking<F, T>(f: F) -> (r: Result<T, BlockingError>) where
        F: FnOnce() -> T + Send + 'static,
        T: Send + 'static,

        requires
            call_requires(f, ()),
        ensures
            r matches Ok(value) ==> call_ensures(f, (), value),
            Self::may_give(r),
            Self::may_report(reported(r)),
    ;
}

/// Running a job that stays on its thread, and waiting for its end.
pub trait SpawnBlockingLocal: Send + Sync + 'static {
    /// Whether the executor may give `outcome` for a job: a value of the job, or an
    /// error in its place.
    open spec fn may_give<T>(outcome: Result<T, BlockingError>) -> bool {
        true
    }

    /// Whether the executor may report `error` in place of the value of a job, or, for
    /// `None`, report the value.
    open spec fn may_report(error: Option<BlockingError>) -> bool {
        true
    }

    /// Runs `f` to its end.
    fn spawn_blocking_local<F, T>(f: F) -> (r: Result<T, BlockingError>) where
        F: FnOnce() -> T + 'static,
        T: 'static,

        requires
            call_requires(f, ()),
        ensures
            r matches Ok(value) ==> call_ensures(f, (), value),
            Self::may_give(r),
            Self::may_report(reported(r)),
    ;
}

/// A scope within which jobs may borrow from the stack.
pub struct Scope<'scope> {
    pub _lifetime: PhantomData<&'scope ()>,
}

impl<'scope> Scope<'scope> {
    /// Runs `f` within the scope.
    pub fn spawn<F, T>(&self, f: F) -> (r: Result<T, BlockingError>) where
        F: FnOnce() -> T + Send + 'scope,
        T: Send + 'scope,

        requires
            call_requires(f, ()),
        ensures
            r matches Ok(value) && call_ensures(f, (), value),
    {
        Ok(f())
    }
}

/// Opening a scope for jobs with lifetimes shorter than `'static`.
pub trait SpawnBlockingScoped {
    /// Opens a scope, runs `f` with it, and hands back what `f` returned.
    fn scope<'scope, F, R>(f: F) -> (r: R) where F: FnOnce(&Scope<'scope>) -> R
        requires
            forall|scope: &Scope<'scope>| #[trigger] call_requires(f, (scope,)),
        ensures
            exists|scope: &Scope<'scope>| #[trigger] call_ensures(f, (scope,), r),
    ;
}

/// Running a job on the spot.
pub trait ExecuteImmediate {
    /// Runs `f` and hands back what it returned.
    fn execute<T>(f: impl FnOnce() -> T) -> (r: T)
        requires
            call_requires(f, ()),
        ensures
            call_ensures(f, (), r),
    {
        f()
    }
}

/// Running two jobs, possibly at the same time.
pub trait SpawnParallel: Send + Sync + 'static {
    /// Whether the executor may give `outcome` for two jobs: a value of each.
    open spec fn may_give<RA, RB>(outcome: (RA, RB)) -> bool {
        true
    }

    /// Runs both jobs to their end and hands back both values, in the order of
    /// the arguments. It opens no invariant of its own, so that a caller can be
    /// held to open none.
    fn join<A, B, RA, RB>(oper_a: A, oper_b: B) -> (r: (RA, RB)) where
        A: FnOnce() -> RA + Send,
        B: FnOnce() -> RB + Send,
        RA: Send,
        RB: Send,

        requires
            call_requires(oper_a, ()),
            call_requires(oper_b, ()),
        ensures
            call_ensures(oper_a, (), r.0),
            call_ensures(oper_b, (), r.1),
            Self::may_give(r),
        opens_invariants none
    ;
}

} // verus!

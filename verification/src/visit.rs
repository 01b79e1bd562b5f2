//! The visit of a job to the pool.
//!
//! A job asks its pool for one connection, while it holds no other. The types see to
//! it: asking uses up a `Turn`, a turn uses up a `Visit`, and a visit can neither be
//! made nor copied here.

use crate::error::DatabaseError;
use crate::pool::{
    check_with, checked_on_loan, is_body, ran_on_loan, run_with, transact_with,
    transacted_on_loan, Visit,
};
use crate::sqlite::SqlitePool;
use vstd::prelude::*;

verus! {

/// The right to ask a pool for one connection.
pub struct Turn {
    _visit: Visit,
}

/// Checks, in one visit, that the pool has a connection to give.
pub fn check_once(visit: Visit, pool: &SqlitePool) -> (r: Result<(), DatabaseError>)
    ensures
        checked_on_loan(*pool, r),
{
    check_with(pool.get(Turn { _visit: visit }))
}

/// Runs `f`, in one visit, on a connection of the pool.
pub fn run_once<F, T>(visit: Visit, pool: &SqlitePool, f: F) -> (r: Result<
    T,
    DatabaseError,
>) where F: FnOnce(&rusqlite::Connection) -> Result<T, DatabaseError>
    requires
        forall|connection: &rusqlite::Connection| #[trigger] call_requires(f, (connection,)),
    ensures
        ran_on_loan(*pool, f, r),
{
    run_with(pool.get(Turn { _visit: visit }), f)
}

/// Runs a transaction with the body `f`, in one visit, on a connection of the pool.
pub fn transact_once<F, T>(visit: Visit, pool: &SqlitePool, f: F) -> (r: Result<
    T,
    DatabaseError,
>) where F: FnOnce(&mut rusqlite::Transaction<'_>) -> Result<T, DatabaseError>
    requires
        is_body(f),
    ensures
        transacted_on_loan(*pool, f, r),
{
    transact_with(pool.get(Turn { _visit: visit }), f)
}

} // verus!

//! An adapter that runs SQLite work on a connection pool through a choice of
//! executors.
//!
//! A job is a closure over a connection or a transaction. The adapter takes a
//! connection from its pool, runs the job where its executor runs things, and
//! folds every way in which that can fail into one `DatabaseError`.
//!
//! * `config`: what a database is opened with.
//! * `error`: the errors, and how nested results are folded into one.
//! * `spawn`: the ways of running a job.
//! * `executor`: the executors.
//! * `sqlite`: the outside types and calls that the rest stands on.
//! * `transaction`: the course of a transaction, step by step.
//! * `pool`: jobs on a connection of the pool.
//! * `visit`: the one request for a connection that each job makes.
//! * `adapter`: the adapter itself.

pub mod adapter;
pub mod config;
pub mod error;
pub mod executor;
pub mod pool;
pub mod spawn;
pub mod sqlite;
pub mod transaction;
pub mod visit;

pub use adapter::SQLiteAdapter;
pub use config::DatabaseConfig;
pub use executor::{
    AsyncStdExecutor, CrossbeamExecutor, ImmediateExecutor, LocalExecutor, SmolExecutor,
    TokioExecutor,
};

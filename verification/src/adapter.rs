//! The adapter.

use std::marker::PhantomData;
use std::sync::Arc;

use crate::config::DatabaseConfig;
use crate::error::{pair, paired, settle, settled, BlockingError, DatabaseError};
use crate::executor::{CrossbeamExecutor, ImmediateExecutor, LocalExecutor, TokioExecutor};
use crate::pool::{
    checked, is_body, law_check_tells_what_the_pool_gave, law_opening_builds_the_pool,
    law_transaction_ends_as_its_body_does, open, opened, ran, transacted,
};
use crate::spawn::{
    reported, Scope, SpawnBlocking, SpawnBlockingLocal, SpawnBlockingScoped, SpawnParallel,
};
use crate::sqlite::{
    abandoned, ended, file_manager, given_back, law_manager_reads_writes_and_creates,
    law_pool_keeps_what_it_was_built_with, lease_connection, lease_pool, manager_for,
    manager_with_flags, pool_limit, pool_manager, Lease, SqlitePool,
};
use vstd::prelude::*;

verus! {

/// Runs jobs on the connections of a pool, through an executor `E`.
pub struct SQLiteAdapter<E> {
    pool: Arc<SqlitePool>,
    _executor: PhantomData<E>,
}

impl<E> View for SQLiteAdapter<E> {
    type V = SqlitePool;

    /// The pool that the adapter runs jobs on.
    closed spec fn view(&self) -> SqlitePool {
        *self.pool
    }
}

impl<E> Clone for SQLiteAdapter<E> {
    /// Another adapter on the same pool.
    fn clone(&self) -> (adapter: Self)
        ensures
            adapter@ == self@,
    {
        SQLiteAdapter { pool: Arc::clone(&self.pool), _executor: PhantomData }
    }
}

impl<E> SQLiteAdapter<E> {
    /// The pool that the adapter runs jobs on.
    pub fn pool(&self) -> (pool: Arc<SqlitePool>)
        ensures
            *pool == self@,
    {
        Arc::clone(&self.pool)
    }

    /// The adapter on `pool`, where checking it came to `checked`.
    pub fn from_check(pool: Arc<SqlitePool>, checked: Result<(), DatabaseError>) -> (r: Result<
        Self,
        DatabaseError,
    >)
        ensures
            match checked {
                Ok(_) => r matches Ok(adapter) && adapter@ == *pool,
                Err(error) => r == Err::<Self, DatabaseError>(error),
            },
    {
        match checked {
            Ok(_) => Ok(SQLiteAdapter { pool, _executor: PhantomData }),
            Err(error) => Err(error),
        }
    }

    /// `r` is what an adapter on `pool` comes to, where the executor gave `outcome` for
    /// a check of the pool.
    pub open spec fn starts_to(
        pool: SqlitePool,
        outcome: Result<Result<(), DatabaseError>, BlockingError>,
        r: Result<Self, DatabaseError>,
    ) -> bool {
        &&& outcome matches Ok(check) ==> checked(pool, check)
        &&& match settled(outcome) {
            Ok(_) => r matches Ok(adapter) && adapter@ == pool,
            Err(error) => r == Err::<Self, DatabaseError>(error),
        }
    }
}

impl<E: SpawnBlockingScoped> SQLiteAdapter<E> {
    /// Opens a scope for jobs that borrow from the stack.
    pub fn with_scope<'scope, F, R>(&self, f: F) -> (r: R) where F: FnOnce(&Scope<'scope>) -> R
        requires
            forall|scope: &Scope<'scope>| #[trigger] call_requires(f, (scope,)),
        ensures
            call_ensures(E::scope::<F, R>, (f,), r),
            exists|scope: &Scope<'scope>| #[trigger] call_ensures(f, (scope,), r),
    {
        E::scope(f)
    }

    /// Runs a job that may borrow from the stack.
    pub fn execute_scoped<'scope, F, T>(&self, scope: &Scope<'scope>, f: F) -> (r: Result<
        T,
        DatabaseError,
    >) where
        F: FnOnce(&rusqlite::Connection) -> Result<T, DatabaseError> + Send + 'scope,
        T: Send + 'scope,

        requires
            forall|connection: &rusqlite::Connection| #[trigger] call_requires(f, (connection,)),
        ensures
            ran(self@, f, r),
    {
        let pool = Arc::clone(&self.pool);
        let job = move || -> (r: Result<T, DatabaseError>)
            ensures
                ran(*pool, f, r),
        { pool.run(f) };
        settle(scope.spawn(job))
    }
}

impl<E: SpawnParallel> SQLiteAdapter<E> {
    /// Runs two jobs, possibly at the same time, each on a connection that it asks the
    /// pool for.
    ///
    /// It opens no invariant, and so makes no call that is not held to the same. None
    /// of the calls that reach the pool is: a connection is asked for inside the jobs
    /// or not at all.
    pub fn execute_parallel<F1, F2, T1, T2>(&self, f1: F1, f2: F2) -> (r: Result<
        (T1, T2),
        DatabaseError,
    >) where
        F1: FnOnce(&rusqlite::Connection) -> Result<T1, DatabaseError> + Send,
        F2: FnOnce(&rusqlite::Connection) -> Result<T2, DatabaseError> + Send,
        T1: Send,
        T2: Send,

        requires
            forall|connection: &rusqlite::Connection| #[trigger] call_requires(f1, (connection,)),
            forall|connection: &rusqlite::Connection| #[trigger] call_requires(f2, (connection,)),
        ensures
            exists|outcome: (Result<T1, DatabaseError>, Result<T2, DatabaseError>)| #[trigger]
                E::may_give(outcome) && ran(self@, f1, outcome.0) && ran(self@, f2, outcome.1) && r
                    == paired(outcome.0, outcome.1),
        opens_invariants none
    {
        let pool = &self.pool;
        let job1 = move || -> (r: Result<T1, DatabaseError>)
            ensures
                ran(**pool, f1, r),
        { pool.run(f1) };
        let job2 = move || -> (r: Result<T2, DatabaseError>)
            ensures
                ran(**pool, f2, r),
        { pool.run(f2) };
        let outcome = E::join(job1, job2);
        assert(ran(self@, f1, outcome.0) && ran(self@, f2, outcome.1));
        pair(outcome.0, outcome.1)
    }
}

impl<E: SpawnBlocking> SQLiteAdapter<E> {
    /// `r` is what opening `config` comes to: the pool is built, and, where it is,
    /// checked on the executor.
    pub open spec fn opens_to(config: DatabaseConfig, r: Result<Self, DatabaseError>) -> bool {
        exists|built: Result<SqlitePool, DatabaseError>| #[trigger]
            opened(config, built) && match built {
                Ok(pool) => exists|outcome: Result<Result<(), DatabaseError>, BlockingError>|
                    #[trigger]
                    E::may_give(outcome) && E::may_report(reported(outcome)) && Self::starts_to(
                        pool,
                        outcome,
                        r,
                    ),
                Err(error) => r == Err::<Self, DatabaseError>(error),
            }
    }

    /// `r` is what running `f` on `pool` through the executor comes to: the
    /// executor gave what the job came to, or an error in its place.
    pub open spec fn executes_to<F, T>(
        pool: SqlitePool,
        f: F,
        r: Result<T, DatabaseError>,
    ) -> bool where F: FnOnce(&rusqlite::Connection) -> Result<T, DatabaseError> {
        exists|outcome: Result<Result<T, DatabaseError>, BlockingError>| #[trigger]
            E::may_give(outcome) && E::may_report(reported(outcome)) && (outcome matches Ok(result)
                ==> ran(pool, f, result)) && r == settled(outcome)
    }

    /// `r` is what a transaction with the body `f` on `pool` through the executor
    /// comes to: the executor gave what the transaction came to, or an error in its
    /// place.
    pub open spec fn transacts_to<F, T>(
        pool: SqlitePool,
        f: F,
        r: Result<T, DatabaseError>,
    ) -> bool where F: FnOnce(&mut rusqlite::Transaction<'_>) -> Result<T, DatabaseError> {
        exists|outcome: Result<Result<T, DatabaseError>, BlockingError>| #[trigger]
            E::may_give(outcome) && E::may_report(reported(outcome)) && (outcome matches Ok(result)
                ==> transacted(pool, f, result)) && r == settled(outcome)
    }

    /// Opens the database of `config`, and checks on the executor that it has a
    /// connection to give.
    pub fn new_threaded(config: DatabaseConfig) -> (r: Result<Self, DatabaseError>)
        requires
            config.max_connections > 0,
        ensures
            Self::opens_to(config, r),
            r matches Ok(adapter) ==> pool_manager(adapter@) == manager_for(config.path),
            r matches Ok(adapter) ==> pool_manager(adapter@) == manager_with_flags(
                file_manager(config.path),
                6,
            ),
            r matches Ok(adapter) ==> pool_limit(adapter@) == config.max_connections,
    {
        match open(&config) {
            Ok(pool) => {
                let pool = Arc::new(pool);
                let pool_clone = Arc::clone(&pool);
                let job = move || -> (r: Result<(), DatabaseError>)
                    ensures
                        checked(*pool_clone, r),
                { pool_clone.check() };
                Self::from_check(pool, settle(E::spawn_blocking(job)))
            },
            Err(error) => Err(error),
        }
    }

    /// Runs a job.
    pub fn execute<F, T>(&self, f: F) -> (r: Result<T, DatabaseError>) where
        F: FnOnce(&rusqlite::Connection) -> Result<T, DatabaseError> + Send + 'static,
        T: Send + 'static,

        requires
            forall|connection: &rusqlite::Connection| #[trigger] call_requires(f, (connection,)),
        ensures
            Self::executes_to(self@, f, r),
    {
        let pool = Arc::clone(&self.pool);
        let job = move || -> (r: Result<T, DatabaseError>)
            ensures
                ran(*pool, f, r),
        { pool.run(f) };
        settle(E::spawn_blocking(job))
    }

    /// Runs a transaction with the body `f`. It is committed where the body
    /// succeeds, and abandoned where it fails. The body must not set it to panic
    /// when dropped.
    pub fn transaction<F, T>(&self, f: F) -> (r: Result<T, DatabaseError>) where
        F: FnOnce(&mut rusqlite::Transaction<'_>) -> Result<T, DatabaseError> + Send + 'static,
        T: Send + 'static,

        requires
            is_body(f),
        ensures
            Self::transacts_to(self@, f, r),
            r is Ok ==> exists|
                handed: &mut rusqlite::Transaction<'_>,
                committed: Result<(), rusqlite::Error>,
            |
                #[trigger] call_ensures(f, (handed,), r) && #[trigger] ended(
                    *final(handed),
                    committed,
                ) && committed is Ok,
            r matches Err(error) ==> error is Pool || error is Sqlite || error is Blocking
                || exists|handed: &mut rusqlite::Transaction<'_>|
                #[trigger] call_ensures(f, (handed,), r) && abandoned(*final(handed)),
    {
        let pool = Arc::clone(&self.pool);
        let job = move || -> (r: Result<T, DatabaseError>)
            ensures
                transacted(*pool, f, r),
        { pool.transact(f) };
        let r = settle(E::spawn_blocking(job));
        proof {
            if !(r matches Err(DatabaseError::Blocking(_))) {
                law_transaction_ends_as_its_body_does(self@, f, r);
            }
        }
        r
    }
}

impl<E: SpawnBlockingLocal> SQLiteAdapter<E> {
    /// `r` is what opening `config` comes to: the pool is built, and, where it is,
    /// checked on the executor.
    pub open spec fn opens_locally_to(
        config: DatabaseConfig,
        r: Result<Self, DatabaseError>,
    ) -> bool {
        exists|built: Result<SqlitePool, DatabaseError>| #[trigger]
            opened(config, built) && match built {
                Ok(pool) => exists|outcome: Result<Result<(), DatabaseError>, BlockingError>|
                    #[trigger]
                    E::may_give(outcome) && E::may_report(reported(outcome)) && Self::starts_to(
                        pool,
                        outcome,
                        r,
                    ),
                Err(error) => r == Err::<Self, DatabaseError>(error),
            }
    }

    /// `r` is what running `f` on `pool` through the executor comes to: the
    /// executor gave what the job came to, or an error in its place.
    pub open spec fn executes_locally_to<F, T>(
        pool: SqlitePool,
        f: F,
        r: Result<T, DatabaseError>,
    ) -> bool where F: FnOnce(&rusqlite::Connection) -> Result<T, DatabaseError> {
        exists|outcome: Result<Result<T, DatabaseError>, BlockingError>| #[trigger]
            E::may_give(outcome) && E::may_report(reported(outcome)) && (outcome matches Ok(result)
                ==> ran(pool, f, result)) && r == settled(outcome)
    }

    /// `r` is what a transaction with the body `f` on `pool` through the executor
    /// comes to: the executor gave what the transaction came to, or an error in its
    /// place.
    pub open spec fn transacts_locally_to<F, T>(
        pool: SqlitePool,
        f: F,
        r: Result<T, DatabaseError>,
    ) -> bool where F: FnOnce(&mut rusqlite::Transaction<'_>) -> Result<T, DatabaseError> {
        exists|outcome: Result<Result<T, DatabaseError>, BlockingError>| #[trigger]
            E::may_give(outcome) && E::may_report(reported(outcome)) && (outcome matches Ok(result)
                ==> transacted(pool, f, result)) && r == settled(outcome)
    }

    /// Opens the database of `config`, and checks on the executor that it has a
    /// connection to give.
    pub fn new_local(config: DatabaseConfig) -> (r: Result<Self, DatabaseError>)
        requires
            config.max_connections > 0,
        ensures
            Self::opens_locally_to(config, r),
            r matches Ok(adapter) ==> pool_manager(adapter@) == manager_for(config.path),
            r matches Ok(adapter) ==> pool_manager(adapter@) == manager_with_flags(
                file_manager(config.path),
                6,
            ),
            r matches Ok(adapter) ==> pool_limit(adapter@) == config.max_connections,
    {
        match open(&config) {
            Ok(pool) => {
                let pool = Arc::new(pool);
                let pool_clone = Arc::clone(&pool);
                let job = move || -> (r: Result<(), DatabaseError>)
                    ensures
                        checked(*pool_clone, r),
                { pool_clone.check() };
                Self::from_check(pool, settle(E::spawn_blocking_local(job)))
            },
            Err(error) => Err(error),
        }
    }

    /// Runs a job whose values stay on the thread.
    pub fn execute_local<F, T>(&self, f: F) -> (r: Result<T, DatabaseError>) where
        F: FnOnce(&rusqlite::Connection) -> Result<T, DatabaseError> + 'static,
        T: 'static,

        requires
            forall|connection: &rusqlite::Connection| #[trigger] call_requires(f, (connection,)),
        ensures
            Self::executes_locally_to(self@, f, r),
    {
        let pool = Arc::clone(&self.pool);
        let job = move || -> (r: Result<T, DatabaseError>)
            ensures
                ran(*pool, f, r),
        { pool.run(f) };
        settle(E::spawn_blocking_local(job))
    }

    /// Runs a transaction whose body stays on the thread. It is committed where the
    /// body succeeds, and abandoned where it fails. The body must not set it to panic
    /// when dropped.
    pub fn transaction_local<F, T>(&self, f: F) -> (r: Result<T, DatabaseError>) where
        F: FnOnce(&mut rusqlite::Transaction<'_>) -> Result<T, DatabaseError> + 'static,
        T: 'static,

        requires
            is_body(f),
        ensures
            Self::transacts_locally_to(self@, f, r),
            r is Ok ==> exists|
                handed: &mut rusqlite::Transaction<'_>,
                committed: Result<(), rusqlite::Error>,
            |
                #[trigger] call_ensures(f, (handed,), r) && #[trigger] ended(
                    *final(handed),
                    committed,
                ) && committed is Ok,
            r matches Err(error) ==> error is Pool || error is Sqlite || error is Blocking
                || exists|handed: &mut rusqlite::Transaction<'_>|
                #[trigger] call_ensures(f, (handed,), r) && abandoned(*final(handed)),
    {
        let pool = Arc::clone(&self.pool);
        let job = move || -> (r: Result<T, DatabaseError>)
            ensures
                transacted(*pool, f, r),
        { pool.transact(f) };
        let r = settle(E::spawn_blocking_local(job));
        proof {
            if !(r matches Err(DatabaseError::Blocking(_))) {
                law_transaction_ends_as_its_body_does(self@, f, r);
            }
        }
        r
    }
}

/// Two attempts to open a database came to the same: adapters on one pool, or one
/// error.
pub open spec fn same_start<E1, E2>(
    r1: Result<SQLiteAdapter<E1>, DatabaseError>,
    r2: Result<SQLiteAdapter<E2>, DatabaseError>,
) -> bool {
    match (r1, r2) {
        (Ok(a), Ok(b)) => a@ == b@,
        (Err(a), Err(b)) => a == b,
        _ => false,
    }
}

/// Of a configuration only the path and the number of connections have influence:
/// with the same two, opening comes to the same.
pub proof fn law_only_path_and_limit_have_influence<E: SpawnBlocking>(
    c1: DatabaseConfig,
    c2: DatabaseConfig,
    r: Result<SQLiteAdapter<E>, DatabaseError>,
)
    requires
        c1.path == c2.path,
        c1.max_connections == c2.max_connections,
    ensures
        SQLiteAdapter::<E>::opens_to(c1, r) <==> SQLiteAdapter::<E>::opens_to(c2, r),
{
    assert forall|built: Result<SqlitePool, DatabaseError>|
        #![trigger opened(c1, built)]
        #![trigger opened(c2, built)]
        opened(c1, built) == opened(c2, built) by {}
}

/// The same of opening on an executor that stays on its thread.
pub proof fn law_only_path_and_limit_have_influence_locally<E: SpawnBlockingLocal>(
    c1: DatabaseConfig,
    c2: DatabaseConfig,
    r: Result<SQLiteAdapter<E>, DatabaseError>,
)
    requires
        c1.path == c2.path,
        c1.max_connections == c2.max_connections,
    ensures
        SQLiteAdapter::<E>::opens_locally_to(c1, r) <==> SQLiteAdapter::<E>::opens_locally_to(
            c2,
            r,
        ),
{
    assert forall|built: Result<SqlitePool, DatabaseError>|
        #![trigger opened(c1, built)]
        #![trigger opened(c2, built)]
        opened(c1, built) == opened(c2, built) by {}
}

/// A database that is open has the path, the flags and the number of connections of
/// its configuration.
pub proof fn law_open_database_is_that_of_its_config<E: SpawnBlocking>(
    config: DatabaseConfig,
    adapter: SQLiteAdapter<E>,
)
    requires
        SQLiteAdapter::<E>::opens_to(config, Ok(adapter)),
    ensures
        pool_manager(adapter@) == manager_for(config.path),
        pool_manager(adapter@) == manager_with_flags(file_manager(config.path), 6),
        pool_limit(adapter@) == config.max_connections,
{
    law_manager_reads_writes_and_creates(config.path);
    let r = Ok::<SQLiteAdapter<E>, DatabaseError>(adapter);
    let built = choose|built: Result<SqlitePool, DatabaseError>| #[trigger]
        opened(config, built) && match built {
            Ok(pool) => exists|outcome: Result<Result<(), DatabaseError>, BlockingError>| #[trigger]
                E::may_give(outcome) && E::may_report(reported(outcome)) && SQLiteAdapter::<
                    E,
                >::starts_to(pool, outcome, r),
            Err(error) => r == Err::<SQLiteAdapter<E>, DatabaseError>(error),
        };
    law_pool_keeps_what_it_was_built_with(
        config.max_connections,
        manager_for(config.path),
        built->Ok_0,
    );
}

/// Opening on the local executor and opening on the immediate one come to the same,
/// and fail only with an error of the pool.
pub proof fn law_local_opening_agrees(
    config: DatabaseConfig,
    local: Result<SQLiteAdapter<LocalExecutor>, DatabaseError>,
    immediate: Result<SQLiteAdapter<ImmediateExecutor>, DatabaseError>,
)
    requires
        same_start(local, immediate),
    ensures
        SQLiteAdapter::<LocalExecutor>::opens_locally_to(config, local) <==> SQLiteAdapter::<
            ImmediateExecutor,
        >::opens_to(config, immediate),
        SQLiteAdapter::<LocalExecutor>::opens_locally_to(config, local) ==> (local matches Err(
            error,
        ) ==> error is Pool),
{
    assert forall|outcome: Result<Result<(), DatabaseError>, BlockingError>|
        #![trigger <ImmediateExecutor as SpawnBlocking>::may_give(outcome)]
        #![trigger <LocalExecutor as SpawnBlockingLocal>::may_give(outcome)]
        <ImmediateExecutor as SpawnBlocking>::may_give(outcome)
            == <LocalExecutor as SpawnBlockingLocal>::may_give(outcome) by {}
}

/// A job on the local executor and the same job on the immediate one come to the
/// same.
pub proof fn law_local_job_agrees<F, T>(pool: SqlitePool, f: F, r: Result<T, DatabaseError>) where
    F: FnOnce(&rusqlite::Connection) -> Result<T, DatabaseError>,

    ensures
        SQLiteAdapter::<LocalExecutor>::executes_locally_to(pool, f, r) <==> SQLiteAdapter::<
            ImmediateExecutor,
        >::executes_to(pool, f, r),
        SQLiteAdapter::<ImmediateExecutor>::executes_to(pool, f, r) <==> ran(pool, f, r),
{
    let outcome = Ok::<Result<T, DatabaseError>, BlockingError>(r);
    assert(<ImmediateExecutor as SpawnBlocking>::may_give(outcome));
    assert(<LocalExecutor as SpawnBlockingLocal>::may_give(outcome));
}

/// A transaction on the local executor and the same transaction on the immediate
/// one come to the same.
pub proof fn law_local_transaction_agrees<F, T>(
    pool: SqlitePool,
    f: F,
    r: Result<T, DatabaseError>,
) where F: FnOnce(&mut rusqlite::Transaction<'_>) -> Result<T, DatabaseError>
    ensures
        SQLiteAdapter::<LocalExecutor>::transacts_locally_to(pool, f, r) <==> SQLiteAdapter::<
            ImmediateExecutor,
        >::transacts_to(pool, f, r),
        SQLiteAdapter::<ImmediateExecutor>::transacts_to(pool, f, r) <==> transacted(pool, f, r),
{
    let outcome = Ok::<Result<T, DatabaseError>, BlockingError>(r);
    assert(<ImmediateExecutor as SpawnBlocking>::may_give(outcome));
    assert(<LocalExecutor as SpawnBlockingLocal>::may_give(outcome));
}

/// The choice of executor does not show: what a job comes to on one executor that
/// gives no error in its place, it comes to by itself and on every other executor
/// that may give that result.
pub proof fn law_choice_of_executor_does_not_show<E1: SpawnBlocking, E2: SpawnBlocking, F, T>(
    pool: SqlitePool,
    f: F,
    r: Result<T, DatabaseError>,
) where F: FnOnce(&rusqlite::Connection) -> Result<T, DatabaseError>
    requires
        SQLiteAdapter::<E1>::executes_to(pool, f, r),
        !(r matches Err(DatabaseError::Blocking(_))),
        E2::may_give(Ok::<Result<T, DatabaseError>, BlockingError>(r)),
        E2::may_report(None),
    ensures
        ran(pool, f, r),
        SQLiteAdapter::<E2>::executes_to(pool, f, r),
{
}

/// Nor does the choice of executor show in a transaction.
pub proof fn law_choice_of_executor_does_not_show_in_transactions<
    E1: SpawnBlocking,
    E2: SpawnBlocking,
    F,
    T,
>(pool: SqlitePool, f: F, r: Result<T, DatabaseError>) where
    F: FnOnce(&mut rusqlite::Transaction<'_>) -> Result<T, DatabaseError>,

    requires
        SQLiteAdapter::<E1>::transacts_to(pool, f, r),
        !(r matches Err(DatabaseError::Blocking(_))),
        E2::may_give(Ok::<Result<T, DatabaseError>, BlockingError>(r)),
        E2::may_report(None),
    ensures
        transacted(pool, f, r),
        SQLiteAdapter::<E2>::transacts_to(pool, f, r),
{
}

/// Nor does it show that an executor is awaited: a job that was run anywhere, and
/// for which the awaited executor gave its result, comes to what it comes to on the
/// immediate executor. On Tokio, that is a job whose join handle gave its result.
pub proof fn law_awaited_job_agrees<F, T>(
    pool: SqlitePool,
    f: F,
    result: Result<T, DatabaseError>,
) where F: FnOnce(&rusqlite::Connection) -> Result<T, DatabaseError>
    requires
        ran(pool, f, result),
    ensures
        SQLiteAdapter::<ImmediateExecutor>::executes_to(pool, f, settled(Ok(result))),
        SQLiteAdapter::<ImmediateExecutor>::executes_to(
            pool,
            f,
            settled(TokioExecutor::joined_to(Ok(result))),
        ),
{
    law_local_job_agrees(pool, f, result);
}

/// The same of a transaction.
pub proof fn law_awaited_transaction_agrees<F, T>(
    pool: SqlitePool,
    f: F,
    result: Result<T, DatabaseError>,
) where F: FnOnce(&mut rusqlite::Transaction<'_>) -> Result<T, DatabaseError>
    requires
        transacted(pool, f, result),
    ensures
        SQLiteAdapter::<ImmediateExecutor>::transacts_to(pool, f, settled(Ok(result))),
        SQLiteAdapter::<ImmediateExecutor>::transacts_to(
            pool,
            f,
            settled(TokioExecutor::joined_to(Ok(result))),
        ),
{
    law_local_transaction_agrees(pool, f, result);
}

/// An executor that gives an error in place of every value makes every job fail
/// with that error.
pub proof fn law_refusing_executor_is_reported<E: SpawnBlocking, F, T>(
    pool: SqlitePool,
    f: F,
    r: Result<T, DatabaseError>,
) where F: FnOnce(&rusqlite::Connection) -> Result<T, DatabaseError>
    requires
        SQLiteAdapter::<E>::executes_to(pool, f, r),
        !E::may_report(None),
    ensures
        r == Err::<T, DatabaseError>(DatabaseError::Blocking(BlockingError::TaskPanicked)),
{
}

/// A database is open only where its pool was built and gave a connection, which was
/// given back; the adapter is on that very pool. Otherwise the pool was not built, it
/// gave no connection, or the executor reported an error in place of the check.
pub proof fn law_open_database_gave_a_connection<E: SpawnBlocking>(
    config: DatabaseConfig,
    r: Result<SQLiteAdapter<E>, DatabaseError>,
)
    requires
        SQLiteAdapter::<E>::opens_to(config, r),
    ensures
        match r {
            Ok(adapter) => SqlitePool::came_of(
                config.max_connections,
                manager_with_flags(file_manager(config.path), 6),
                Ok(adapter@),
            ) && exists|lease: Lease| #[trigger]
                adapter@.gave(Ok(lease)) && lease_pool(lease) == adapter@ && given_back(lease),
            Err(error) => {
                ||| exists|cause: r2d2::Error| #[trigger]
                    SqlitePool::came_of(
                        config.max_connections,
                        manager_with_flags(file_manager(config.path), 6),
                        Err(cause),
                    ) && error == DatabaseError::Pool(cause)
                ||| exists|pool: SqlitePool, cause: r2d2::Error|
                    SqlitePool::came_of(
                        config.max_connections,
                        manager_with_flags(file_manager(config.path), 6),
                        Ok(pool),
                    ) && #[trigger] pool.gave(Err(cause)) && error == DatabaseError::Pool(cause)
                ||| exists|panic: BlockingError|
                    #[trigger] E::may_report(Some(panic)) && error == DatabaseError::Blocking(panic)
            },
        },
{
    let built = choose|built: Result<SqlitePool, DatabaseError>| #[trigger]
        opened(config, built) && match built {
            Ok(pool) => exists|outcome: Result<Result<(), DatabaseError>, BlockingError>| #[trigger]
                E::may_give(outcome) && E::may_report(reported(outcome)) && SQLiteAdapter::<
                    E,
                >::starts_to(pool, outcome, r),
            Err(error) => r == Err::<SQLiteAdapter<E>, DatabaseError>(error),
        };
    law_opening_builds_the_pool(config, built);
    if let Ok(pool) = built {
        let outcome = choose|outcome: Result<Result<(), DatabaseError>, BlockingError>| #[trigger]
            E::may_give(outcome) && E::may_report(reported(outcome)) && SQLiteAdapter::<
                E,
            >::starts_to(pool, outcome, r);
        match outcome {
            Ok(check) => {
                law_check_tells_what_the_pool_gave(pool, check);
            },
            Err(panic) => {
                assert(E::may_report(Some(panic)));
            },
        }
    }
}

/// A job on an executor comes to what it comes to by itself, where the executor reports
/// its value, and else to the error that the executor reports in its place, whatever
/// the job does.
pub proof fn law_job_or_error_of_the_executor<E: SpawnBlocking, F, T>(
    pool: SqlitePool,
    f: F,
    r: Result<T, DatabaseError>,
) where F: FnOnce(&rusqlite::Connection) -> Result<T, DatabaseError>
    ensures
        SQLiteAdapter::<E>::executes_to(pool, f, r) <==> {
            ||| E::may_give(Ok::<Result<T, DatabaseError>, BlockingError>(r)) && E::may_report(None)
                && ran(pool, f, r)
            ||| exists|panic: BlockingError|
                E::may_give(Err::<Result<T, DatabaseError>, BlockingError>(panic))
                    && #[trigger] E::may_report(Some(panic)) && r == Err::<T, DatabaseError>(
                    DatabaseError::Blocking(panic),
                )
        },
{
    if SQLiteAdapter::<E>::executes_to(pool, f, r) {
        let outcome = choose|outcome: Result<Result<T, DatabaseError>, BlockingError>| #[trigger]
            E::may_give(outcome) && E::may_report(reported(outcome)) && (outcome matches Ok(result)
                ==> ran(pool, f, result)) && r == settled(outcome);
        if let Err(panic) = outcome {
            assert(E::may_report(Some(panic)));
        }
    }
}

/// The same of a transaction.
pub proof fn law_transaction_or_error_of_the_executor<E: SpawnBlocking, F, T>(
    pool: SqlitePool,
    f: F,
    r: Result<T, DatabaseError>,
) where F: FnOnce(&mut rusqlite::Transaction<'_>) -> Result<T, DatabaseError>
    ensures
        SQLiteAdapter::<E>::transacts_to(pool, f, r) <==> {
            ||| E::may_give(Ok::<Result<T, DatabaseError>, BlockingError>(r)) && E::may_report(None)
                && transacted(pool, f, r)
            ||| exists|panic: BlockingError|
                E::may_give(Err::<Result<T, DatabaseError>, BlockingError>(panic))
                    && #[trigger] E::may_report(Some(panic)) && r == Err::<T, DatabaseError>(
                    DatabaseError::Blocking(panic),
                )
        },
{
    if SQLiteAdapter::<E>::transacts_to(pool, f, r) {
        let outcome = choose|outcome: Result<Result<T, DatabaseError>, BlockingError>| #[trigger]
            E::may_give(outcome) && E::may_report(reported(outcome)) && (outcome matches Ok(result)
                ==> transacted(pool, f, result)) && r == settled(outcome);
        if let Err(panic) = outcome {
            assert(E::may_report(Some(panic)));
        }
    }
}

/// The same of opening on an executor that stays on its thread.
pub proof fn law_open_database_gave_a_connection_locally<E: SpawnBlockingLocal>(
    config: DatabaseConfig,
    r: Result<SQLiteAdapter<E>, DatabaseError>,
)
    requires
        SQLiteAdapter::<E>::opens_locally_to(config, r),
    ensures
        match r {
            Ok(adapter) => SqlitePool::came_of(
                config.max_connections,
                manager_with_flags(file_manager(config.path), 6),
                Ok(adapter@),
            ) && exists|lease: Lease| #[trigger]
                adapter@.gave(Ok(lease)) && lease_pool(lease) == adapter@ && given_back(lease),
            Err(error) => {
                ||| exists|cause: r2d2::Error| #[trigger]
                    SqlitePool::came_of(
                        config.max_connections,
                        manager_with_flags(file_manager(config.path), 6),
                        Err(cause),
                    ) && error == DatabaseError::Pool(cause)
                ||| exists|pool: SqlitePool, cause: r2d2::Error|
                    SqlitePool::came_of(
                        config.max_connections,
                        manager_with_flags(file_manager(config.path), 6),
                        Ok(pool),
                    ) && #[trigger] pool.gave(Err(cause)) && error == DatabaseError::Pool(cause)
                ||| exists|panic: BlockingError|
                    #[trigger] E::may_report(Some(panic)) && error == DatabaseError::Blocking(panic)
            },
        },
{
    let built = choose|built: Result<SqlitePool, DatabaseError>| #[trigger]
        opened(config, built) && match built {
            Ok(pool) => exists|outcome: Result<Result<(), DatabaseError>, BlockingError>| #[trigger]
                E::may_give(outcome) && E::may_report(reported(outcome)) && SQLiteAdapter::<
                    E,
                >::starts_to(pool, outcome, r),
            Err(error) => r == Err::<SQLiteAdapter<E>, DatabaseError>(error),
        };
    law_opening_builds_the_pool(config, built);
    if let Ok(pool) = built {
        let outcome = choose|outcome: Result<Result<(), DatabaseError>, BlockingError>| #[trigger]
            E::may_give(outcome) && E::may_report(reported(outcome)) && SQLiteAdapter::<
                E,
            >::starts_to(pool, outcome, r);
        match outcome {
            Ok(check) => {
                law_check_tells_what_the_pool_gave(pool, check);
            },
            Err(panic) => {
                assert(E::may_report(Some(panic)));
            },
        }
    }
}

/// The same of a job on an executor that stays on its thread.
pub proof fn law_job_or_error_of_the_executor_locally<E: SpawnBlockingLocal, F, T>(
    pool: SqlitePool,
    f: F,
    r: Result<T, DatabaseError>,
) where F: FnOnce(&rusqlite::Connection) -> Result<T, DatabaseError>
    ensures
        SQLiteAdapter::<E>::executes_locally_to(pool, f, r) <==> {
            ||| E::may_give(Ok::<Result<T, DatabaseError>, BlockingError>(r)) && E::may_report(None)
                && ran(pool, f, r)
            ||| exists|panic: BlockingError|
                E::may_give(Err::<Result<T, DatabaseError>, BlockingError>(panic))
                    && #[trigger] E::may_report(Some(panic)) && r == Err::<T, DatabaseError>(
                    DatabaseError::Blocking(panic),
                )
        },
{
    if SQLiteAdapter::<E>::executes_locally_to(pool, f, r) {
        let outcome = choose|outcome: Result<Result<T, DatabaseError>, BlockingError>| #[trigger]
            E::may_give(outcome) && E::may_report(reported(outcome)) && (outcome matches Ok(result)
                ==> ran(pool, f, result)) && r == settled(outcome);
        if let Err(panic) = outcome {
            assert(E::may_report(Some(panic)));
        }
    }
}

/// The same of a transaction on an executor that stays on its thread.
pub proof fn law_transaction_or_error_of_the_executor_locally<E: SpawnBlockingLocal, F, T>(
    pool: SqlitePool,
    f: F,
    r: Result<T, DatabaseError>,
) where F: FnOnce(&mut rusqlite::Transaction<'_>) -> Result<T, DatabaseError>
    ensures
        SQLiteAdapter::<E>::transacts_locally_to(pool, f, r) <==> {
            ||| E::may_give(Ok::<Result<T, DatabaseError>, BlockingError>(r)) && E::may_report(None)
                && transacted(pool, f, r)
            ||| exists|panic: BlockingError|
                E::may_give(Err::<Result<T, DatabaseError>, BlockingError>(panic))
                    && #[trigger] E::may_report(Some(panic)) && r == Err::<T, DatabaseError>(
                    DatabaseError::Blocking(panic),
                )
        },
{
    if SQLiteAdapter::<E>::transacts_locally_to(pool, f, r) {
        let outcome = choose|outcome: Result<Result<T, DatabaseError>, BlockingError>| #[trigger]
            E::may_give(outcome) && E::may_report(reported(outcome)) && (outcome matches Ok(result)
                ==> transacted(pool, f, result)) && r == settled(outcome);
        if let Err(panic) = outcome {
            assert(E::may_report(Some(panic)));
        }
    }
}

/// A job inside a Crossbeam scope comes to what it comes to by itself.
pub proof fn law_scoped_job_agrees<F, T>(pool: SqlitePool, f: F, r: Result<T, DatabaseError>) where
    F: FnOnce(&rusqlite::Connection) -> Result<T, DatabaseError>,

    ensures
        SQLiteAdapter::<CrossbeamExecutor>::executes_to(pool, f, r) <==> ran(pool, f, r),
{
    let outcome = Ok::<Result<T, DatabaseError>, BlockingError>(r);
    assert(<CrossbeamExecutor as SpawnBlocking>::may_give(outcome));
}

/// The same of a transaction.
pub proof fn law_scoped_transaction_agrees<F, T>(
    pool: SqlitePool,
    f: F,
    r: Result<T, DatabaseError>,
) where F: FnOnce(&mut rusqlite::Transaction<'_>) -> Result<T, DatabaseError>
    ensures
        SQLiteAdapter::<CrossbeamExecutor>::transacts_to(pool, f, r) <==> transacted(pool, f, r),
{
    let outcome = Ok::<Result<T, DatabaseError>, BlockingError>(r);
    assert(<CrossbeamExecutor as SpawnBlocking>::may_give(outcome));
}

} // verus!

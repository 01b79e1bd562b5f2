//! Jobs on a connection of the pool.
//!
//! Each function here blocks: it is what an executor runs. A function whose name
//! ends in `_with` takes what the pool gave as an argument and says what comes
//! of it; the one without makes the call.

use crate::config::DatabaseConfig;
use crate::error::DatabaseError;
use crate::sqlite::{
    abandon, abandoned, commit, drop_action, ended, file_manager, give_back, given_back,
    law_loan_is_from_the_pool, law_manager_reads_writes_and_creates,
    law_transaction_begins_ready_to_roll_back, lease_connection, lease_pool, manager_for,
    manager_with_flags, pool_limit, pool_manager, transaction_connection, DropAction, Lease,
    SqlitePool,
};
use crate::transaction::{lemma_one_more_answer, Answer, Stage};
use crate::visit::{check_once, run_once, transact_once};
use vstd::prelude::*;

verus! {

/// `r` is what running `f` comes to, where the pool gave `acquired`: what `f`
/// returned on the connection, which was then given back, or the pool's error.
pub open spec fn ran_with<F, T>(
    acquired: Result<Lease, r2d2::Error>,
    f: F,
    r: Result<T, DatabaseError>,
) -> bool where F: FnOnce(&rusqlite::Connection) -> Result<T, DatabaseError> {
    match acquired {
        Ok(lease) => call_ensures(f, (&lease_connection(lease),), r) && given_back(lease),
        Err(error) => r == Err::<T, DatabaseError>(DatabaseError::Pool(error)),
    }
}

/// `r` is what running `f` comes to on what `pool` gave.
pub open spec fn ran_on_loan<F, T>(
    pool: SqlitePool,
    f: F,
    r: Result<T, DatabaseError>,
) -> bool where F: FnOnce(&rusqlite::Connection) -> Result<T, DatabaseError> {
    exists|acquired: Result<Lease, r2d2::Error>| #[trigger]
        pool.gave(acquired) && ran_with(acquired, f, r)
}

/// `r` is what running `f` on a connection of `pool` comes to, in one visit to the pool.
pub open spec fn ran<F, T>(pool: SqlitePool, f: F, r: Result<T, DatabaseError>) -> bool where
    F: FnOnce(&rusqlite::Connection) -> Result<T, DatabaseError>,
 {
    &&& ran_on_loan(pool, f, r)
    &&& exists|visit: Visit| #[trigger] call_ensures(run_once::<F, T>, (visit, &pool, f), r)
}

/// What running a body on a transaction gave.
pub struct BodyEnd<'conn, T> {
    /// What the body returned.
    pub result: Result<T, DatabaseError>,
    /// The transaction as the body left it.
    pub tx: rusqlite::Transaction<'conn>,
}

/// Runs the body `f` on the transaction `tx`.
pub fn run_body<'conn, F, T>(f: F, tx: rusqlite::Transaction<'conn>) -> (end: BodyEnd<
    'conn,
    T,
>) where F: FnOnce(&mut rusqlite::Transaction<'_>) -> Result<T, DatabaseError>
    requires
        forall|handed: &mut rusqlite::Transaction<'_>|
            *handed == tx ==> #[trigger] call_requires(f, (handed,)),
    ensures
        exists|handed: &mut rusqlite::Transaction<'_>|
            *handed == tx && *final(handed) == end.tx && #[trigger] call_ensures(
                f,
                (handed,),
                end.result,
            ),
{
    let mut tx = tx;
    let result = f(&mut tx);
    BodyEnd { result, tx }
}

/// The body `f`, given the transaction `tx`, came to `end`.
pub open spec fn body_gave<F, T>(
    f: F,
    tx: rusqlite::Transaction<'_>,
    end: BodyEnd<'_, T>,
) -> bool where F: FnOnce(&mut rusqlite::Transaction<'_>) -> Result<T, DatabaseError> {
    call_ensures(run_body::<F, T>, (f, tx), end)
}

/// `f` accepts every transaction that is rolled back when dropped, and sets none
/// of them to panic when dropped.
pub open spec fn is_body<F, T>(f: F) -> bool where
    F: FnOnce(&mut rusqlite::Transaction<'_>) -> Result<T, DatabaseError>,
 {
    &&& forall|tx: &mut rusqlite::Transaction<'_>|
        drop_action(*tx) == DropAction::Rollback ==> #[trigger] call_requires(f, (tx,))
    &&& forall|tx: rusqlite::Transaction<'_>, end: BodyEnd<'_, T>|
        drop_action(tx) == DropAction::Rollback && #[trigger] body_gave(f, tx, end)
            ==> drop_action(end.tx) != DropAction::Panic
}

/// `r` is what a transaction comes to whose body came to `end`: what committing it
/// gave, or, once it was abandoned, the error of the body.
pub open spec fn closed_with<T>(end: BodyEnd<'_, T>, r: Result<T, DatabaseError>) -> bool {
    match end.result {
        Ok(value) => exists|committed: Result<(), rusqlite::Error>| #[trigger]
            ended(end.tx, committed) && r == match committed {
                Ok(_) => Ok::<T, DatabaseError>(value),
                Err(error) => Err(DatabaseError::Sqlite(error)),
            },
        Err(_) => abandoned(end.tx) && r == end.result,
    }
}

/// `r` is what a transaction with the body `f` comes to, where beginning it gave
/// `begun`.
pub open spec fn transacted_in<F, T>(
    begun: Result<rusqlite::Transaction<'_>, rusqlite::Error>,
    f: F,
    r: Result<T, DatabaseError>,
) -> bool where F: FnOnce(&mut rusqlite::Transaction<'_>) -> Result<T, DatabaseError> {
    match begun {
        Ok(tx) => exists|end: BodyEnd<'_, T>| #[trigger]
            body_gave(f, tx, end) && closed_with(end, r),
        Err(error) => r == Err::<T, DatabaseError>(DatabaseError::Sqlite(error)),
    }
}

/// The loan came to its end: the connection was given back to the pool.
pub open spec fn loan_ended(lease: Lease) -> bool {
    exists|back: Lease| #[trigger]
        given_back(back) && lease_pool(back) == lease_pool(lease) && lease_connection(back)
            == lease_connection(lease)
}

/// `r` is what a transaction with the body `f` comes to, where the pool gave
/// `acquired`. A connection that it gave was given back.
pub open spec fn transacted_with<F, T>(
    acquired: Result<Lease, r2d2::Error>,
    f: F,
    r: Result<T, DatabaseError>,
) -> bool where F: FnOnce(&mut rusqlite::Transaction<'_>) -> Result<T, DatabaseError> {
    match acquired {
        Ok(lease) => loan_ended(lease) && exists|
            begun: Result<rusqlite::Transaction<'_>, rusqlite::Error>,
        | #[trigger]
            lease.began(begun) && transacted_in(begun, f, r),
        Err(error) => r == Err::<T, DatabaseError>(DatabaseError::Pool(error)),
    }
}

/// `r` is what a transaction with the body `f` comes to on what `pool` gave.
pub open spec fn transacted_on_loan<F, T>(
    pool: SqlitePool,
    f: F,
    r: Result<T, DatabaseError>,
) -> bool where F: FnOnce(&mut rusqlite::Transaction<'_>) -> Result<T, DatabaseError> {
    exists|acquired: Result<Lease, r2d2::Error>| #[trigger]
        pool.gave(acquired) && transacted_with(acquired, f, r)
}

/// `r` is what a transaction with the body `f` on a connection of `pool` comes to, in
/// one visit to the pool.
pub open spec fn transacted<F, T>(pool: SqlitePool, f: F, r: Result<T, DatabaseError>) -> bool where
    F: FnOnce(&mut rusqlite::Transaction<'_>) -> Result<T, DatabaseError>,
 {
    &&& transacted_on_loan(pool, f, r)
    &&& exists|visit: Visit| #[trigger]
        call_ensures(transact_once::<F, T>, (visit, &pool, f), r)
}

/// Runs `f` on the connection that the pool gave.
pub fn run_with<F, T>(acquired: Result<Lease, r2d2::Error>, f: F) -> (r: Result<
    T,
    DatabaseError,
>) where F: FnOnce(&rusqlite::Connection) -> Result<T, DatabaseError>
    requires
        acquired matches Ok(lease) ==> call_requires(f, (&lease_connection(lease),)),
    ensures
        ran_with(acquired, f, r),
{
    match acquired {
        Ok(lease) => {
            let r = f(lease.connection());
            give_back(lease);
            r
        },
        Err(error) => Err(DatabaseError::Pool(error)),
    }
}

/// Runs a transaction with the body `f` on the connection that the pool gave.
pub fn transact_with<F, T>(acquired: Result<Lease, r2d2::Error>, f: F) -> (r: Result<
    T,
    DatabaseError,
>) where F: FnOnce(&mut rusqlite::Transaction<'_>) -> Result<T, DatabaseError>
    requires
        is_body(f),
    ensures
        transacted_with(acquired, f, r),
{
    let stage: Stage<T> = Stage::Connect;
    match acquired {
        Ok(mut lease) => {
            let stage = stage.advance(Answer::Connected);
            let r = match lease.transaction() {
                Ok(tx) => {
                    let stage = stage.advance(Answer::Begun);
                    let end = run_body(f, tx);
                    assert(body_gave(f, tx, end));
                    let stage = stage.advance(Answer::Returned(end.result));
                    if stage.asks_for_commit() {
                        match commit(&stage, end.tx) {
                            Ok(_) => stage.advance(Answer::Committed).result(),
                            Err(error) => stage.advance(Answer::NotCommitted(error)).result(),
                        }
                    } else {
                        abandon(&stage, end.tx);
                        stage.advance(Answer::Abandoned).result()
                    }
                },
                Err(error) => stage.advance(Answer::NotBegun(error)).result(),
            };
            give_back(lease);
            r
        },
        Err(error) => stage.advance(Answer::NotConnected(error)).result(),
    }
}

/// The result of a request to the pool, with its error as one of the library.
pub open spec fn from_pool<T>(result: Result<T, r2d2::Error>) -> Result<T, DatabaseError> {
    match result {
        Ok(value) => Ok(value),
        Err(error) => Err(DatabaseError::Pool(error)),
    }
}

/// Turns the error of a request to the pool into one of the library.
pub fn or_pool_error<T>(result: Result<T, r2d2::Error>) -> (r: Result<T, DatabaseError>)
    ensures
        r == from_pool(result),
{
    match result {
        Ok(value) => Ok(value),
        Err(error) => Err(DatabaseError::Pool(error)),
    }
}

/// `r` is what opening the database of `config` comes to.
pub open spec fn opened(config: DatabaseConfig, r: Result<SqlitePool, DatabaseError>) -> bool {
    exists|built: Result<SqlitePool, r2d2::Error>| #[trigger]
        SqlitePool::came_of(config.max_connections, manager_for(config.path), built) && r
            == from_pool(built)
}

/// Opens the database of `config`: builds the pool and waits until it is full.
pub fn open(config: &DatabaseConfig) -> (r: Result<SqlitePool, DatabaseError>)
    requires
        config.max_connections > 0,
    ensures
        opened(*config, r),
        r matches Ok(pool) ==> pool_manager(pool) == manager_for(config.path),
        r matches Ok(pool) ==> pool_manager(pool) == manager_with_flags(
            file_manager(config.path),
            6,
        ),
        r matches Ok(pool) ==> pool_limit(pool) == config.max_connections,
{
    or_pool_error(SqlitePool::for_file(&config.path, config.max_connections))
}

/// What a check of the pool comes to, where the pool gave `acquired`.
pub open spec fn check_of(acquired: Result<Lease, r2d2::Error>) -> Result<(), DatabaseError> {
    match acquired {
        Ok(_) => Ok(()),
        Err(error) => Err(DatabaseError::Pool(error)),
    }
}

/// `r` is what a check comes to on what `pool` gave. A connection that it gave was given
/// back.
pub open spec fn checked_on_loan(pool: SqlitePool, r: Result<(), DatabaseError>) -> bool {
    exists|acquired: Result<Lease, r2d2::Error>| #[trigger]
        pool.gave(acquired) && r == check_of(acquired) && (acquired matches Ok(lease)
            ==> given_back(lease))
}

/// `r` is what a check of `pool` comes to, in one visit to the pool.
pub open spec fn checked(pool: SqlitePool, r: Result<(), DatabaseError>) -> bool {
    &&& checked_on_loan(pool, r)
    &&& exists|visit: Visit| #[trigger] call_ensures(check_once, (visit, &pool), r)
}

/// Gives back what the pool gave, and says whether it was a connection.
pub fn check_with(acquired: Result<Lease, r2d2::Error>) -> (r: Result<(), DatabaseError>)
    ensures
        r == check_of(acquired),
        acquired matches Ok(lease) ==> given_back(lease),
{
    match acquired {
        Ok(lease) => {
            give_back(lease);
            Ok(())
        },
        Err(error) => Err(DatabaseError::Pool(error)),
    }
}

/// The visit of one job to a pool, in which it may ask for one connection.
///
/// A visit begins in this module, where nothing can ask for a connection, and is used up
/// in the one that asks, where no visit can begin: what holds a connection there has no
/// second visit to ask in.
pub struct Visit {
    _one: (),
}

impl SqlitePool {
    /// Checks that the pool has a connection to give.
    pub fn check(&self) -> (r: Result<(), DatabaseError>)
        ensures
            checked(*self, r),
            exists|visit: Visit| #[trigger] call_ensures(check_once, (visit, self), r),
    {
        check_once(Visit { _one: () }, self)
    }

    /// Runs `f` on a connection of the pool.
    pub fn run<F, T>(&self, f: F) -> (r: Result<T, DatabaseError>) where
        F: FnOnce(&rusqlite::Connection) -> Result<T, DatabaseError>,

        requires
            forall|connection: &rusqlite::Connection| #[trigger] call_requires(f, (connection,)),
        ensures
            ran(*self, f, r),
            exists|visit: Visit| #[trigger]
                call_ensures(run_once::<F, T>, (visit, self, f), r),
    {
        run_once(Visit { _one: () }, self, f)
    }

    /// Runs a transaction with the body `f` on a connection of the pool. It is
    /// committed where the body succeeds, and abandoned where it fails.
    pub fn transact<F, T>(&self, f: F) -> (r: Result<T, DatabaseError>) where
        F: FnOnce(&mut rusqlite::Transaction<'_>) -> Result<T, DatabaseError>,

        requires
            is_body(f),
        ensures
            transacted(*self, f, r),
            exists|visit: Visit| #[trigger]
                call_ensures(transact_once::<F, T>, (visit, self, f), r),
            r is Ok ==> exists|
                handed: &mut rusqlite::Transaction<'_>,
                committed: Result<(), rusqlite::Error>,
            |
                #[trigger] call_ensures(f, (handed,), r) && #[trigger] ended(
                    *final(handed),
                    committed,
                ) && committed is Ok,
            r matches Err(error) ==> error is Pool || error is Sqlite || exists|
                handed: &mut rusqlite::Transaction<'_>,
            |
                #[trigger] call_ensures(f, (handed,), r) && abandoned(*final(handed)),
    {
        let r = transact_once(Visit { _one: () }, self, f);
        proof {
            law_transaction_ends_as_its_body_does(*self, f, r);
        }
        r
    }
}

/// A job either ran on the connection that the pool gave, which was on loan from that
/// pool and was then given back, or was not run for want of one, with the pool's error.
pub proof fn law_job_runs_on_the_pool<F, T>(pool: SqlitePool, f: F, r: Result<T, DatabaseError>)
    where F: FnOnce(&rusqlite::Connection) -> Result<T, DatabaseError>
    requires
        ran(pool, f, r),
    ensures
        (exists|lease: Lease| #[trigger]
            pool.gave(Ok(lease)) && lease_pool(lease) == pool && call_ensures(
                f,
                (&lease_connection(lease),),
                r,
            ) && given_back(lease)) || (
        exists|error: r2d2::Error| #[trigger]
            pool.gave(Err(error)) && r == Err::<T, DatabaseError>(DatabaseError::Pool(error))),
{
    let acquired = choose|acquired: Result<Lease, r2d2::Error>| #[trigger]
        pool.gave(acquired) && ran_with(acquired, f, r);
    match acquired {
        Ok(lease) => {
            law_loan_is_from_the_pool(pool, lease);
            assert(pool.gave(Ok(lease)));
        },
        Err(error) => {
            assert(pool.gave(Err(error)));
        },
    }
}

/// What a job comes to is what its own visit to the pool gave: nothing that another
/// visit gave, an error of the pool among it, stands in for that.
pub proof fn law_job_is_one_visit<F, T>(pool: SqlitePool, f: F, r: Result<T, DatabaseError>) where
    F: FnOnce(&rusqlite::Connection) -> Result<T, DatabaseError>,

    requires
        ran(pool, f, r),
    ensures
        exists|visit: Visit| #[trigger] call_ensures(run_once::<F, T>, (visit, &pool, f), r),
{
}

/// The same of a transaction.
pub proof fn law_transaction_is_one_visit<F, T>(
    pool: SqlitePool,
    f: F,
    r: Result<T, DatabaseError>,
) where F: FnOnce(&mut rusqlite::Transaction<'_>) -> Result<T, DatabaseError>
    requires
        transacted(pool, f, r),
    ensures
        exists|visit: Visit| #[trigger]
            call_ensures(transact_once::<F, T>, (visit, &pool, f), r),
{
}

/// The same of a check.
pub proof fn law_check_is_one_visit(pool: SqlitePool, r: Result<(), DatabaseError>)
    requires
        checked(pool, r),
    ensures
        exists|visit: Visit| #[trigger] call_ensures(check_once, (visit, &pool), r),
{
}

/// Where the pool has a connection for every request, a job is run, and comes to what
/// it returned.
pub proof fn law_job_runs_where_the_pool_gives<F, T>(
    pool: SqlitePool,
    f: F,
    r: Result<T, DatabaseError>,
) where F: FnOnce(&rusqlite::Connection) -> Result<T, DatabaseError>
    requires
        ran(pool, f, r),
        forall|acquired: Result<Lease, r2d2::Error>| #[trigger]
            pool.gave(acquired) ==> acquired is Ok,
    ensures
        exists|connection: &rusqlite::Connection| #[trigger] call_ensures(f, (connection,), r),
{
    law_job_runs_on_the_pool(pool, f, r);
}

/// A check succeeds exactly where the pool gave a connection, which was then given
/// back, and fails only with the pool's error.
pub proof fn law_check_tells_what_the_pool_gave(pool: SqlitePool, r: Result<(), DatabaseError>)
    requires
        checked(pool, r),
    ensures
        match r {
            Ok(_) => exists|lease: Lease| #[trigger]
                pool.gave(Ok(lease)) && lease_pool(lease) == pool && given_back(lease),
            Err(error) => exists|cause: r2d2::Error| #[trigger]
                pool.gave(Err(cause)) && error == DatabaseError::Pool(cause),
        },
{
    let acquired = choose|acquired: Result<Lease, r2d2::Error>| #[trigger]
        pool.gave(acquired) && r == check_of(acquired) && (acquired matches Ok(lease)
            ==> given_back(lease));
    match acquired {
        Ok(lease) => {
            law_loan_is_from_the_pool(pool, lease);
            assert(pool.gave(Ok(lease)));
        },
        Err(cause) => {
            assert(pool.gave(Err(cause)));
        },
    }
}

/// What the pool gave comes out as it was, and its error comes out under `Pool`.
pub proof fn law_no_error_of_the_pool_is_lost<T>(
    result: Result<T, r2d2::Error>,
    value: T,
    error: DatabaseError,
)
    ensures
        from_pool(result) == Ok::<T, DatabaseError>(value) <==> result == Ok::<T, r2d2::Error>(
            value,
        ),
        from_pool(result) == Err::<T, DatabaseError>(error) <==> result is Err && error
            == DatabaseError::Pool(result->Err_0),
{
}

/// A database was opened where the pool was built, with the limit of the configuration
/// and the flags for reading, writing and creating its file, and was not where that
/// failed, with the pool's error.
pub proof fn law_opening_builds_the_pool(
    config: DatabaseConfig,
    r: Result<SqlitePool, DatabaseError>,
)
    requires
        opened(config, r),
    ensures
        match r {
            Ok(pool) => SqlitePool::came_of(
                config.max_connections,
                manager_with_flags(file_manager(config.path), 6),
                Ok(pool),
            ),
            Err(error) => exists|cause: r2d2::Error| #[trigger]
                SqlitePool::came_of(
                    config.max_connections,
                    manager_with_flags(file_manager(config.path), 6),
                    Err(cause),
                ) && error == DatabaseError::Pool(cause),
        },
{
    law_manager_reads_writes_and_creates(config.path);
    let built = choose|built: Result<SqlitePool, r2d2::Error>| #[trigger]
        SqlitePool::came_of(config.max_connections, manager_for(config.path), built) && r
            == from_pool(built);
    if let Err(cause) = built {
        assert(SqlitePool::came_of(
            config.max_connections,
            manager_with_flags(file_manager(config.path), 6),
            Err(cause),
        ));
    }
}

/// A transaction that comes to a value began on a connection of the pool, had
/// that value from its body, and was committed as the body left it.
pub proof fn law_success_is_committed<F, T>(pool: SqlitePool, f: F, value: T) where
    F: FnOnce(&mut rusqlite::Transaction<'_>) -> Result<T, DatabaseError>,

    requires
        transacted(pool, f, Ok::<T, DatabaseError>(value)),
    ensures
        exists|
            lease: Lease,
            tx: rusqlite::Transaction<'_>,
            end: BodyEnd<'_, T>,
            committed: Result<(), rusqlite::Error>,
        |
            lease_pool(lease) == pool && #[trigger] lease.began(Ok(tx)) && #[trigger] body_gave(
                f,
                tx,
                end,
            ) && end.result == Ok::<T, DatabaseError>(value) && #[trigger] ended(end.tx, committed)
                && committed is Ok,
{
    let r = Ok::<T, DatabaseError>(value);
    let acquired = choose|acquired: Result<Lease, r2d2::Error>| #[trigger]
        pool.gave(acquired) && transacted_with(acquired, f, r);
    let lease = acquired->Ok_0;
    law_loan_is_from_the_pool(pool, lease);
    let begun = choose|begun: Result<rusqlite::Transaction<'_>, rusqlite::Error>| #[trigger]
        lease.began(begun) && transacted_in(begun, f, r);
    let tx = begun->Ok_0;
    let end = choose|end: BodyEnd<'_, T>| #[trigger]
        body_gave(f, tx, end) && closed_with(end, r);
    assert(lease.began(Ok(tx)));
    assert(body_gave(f, tx, end));
}

/// A transaction that fails has one of four causes: the pool gave no connection,
/// the transaction did not begin, its body failed and it was abandoned, or its
/// commit failed.
pub proof fn law_failure_has_a_cause<F, T>(pool: SqlitePool, f: F, error: DatabaseError) where
    F: FnOnce(&mut rusqlite::Transaction<'_>) -> Result<T, DatabaseError>,

    requires
        transacted(pool, f, Err::<T, DatabaseError>(error)),
    ensures
        ({
            ||| exists|cause: r2d2::Error| #[trigger]
                pool.gave(Err(cause)) && error == DatabaseError::Pool(cause)
            ||| exists|lease: Lease, cause: rusqlite::Error|
                lease_pool(lease) == pool && #[trigger] lease.began(Err(cause)) && error
                    == DatabaseError::Sqlite(cause)
            ||| exists|lease: Lease, tx: rusqlite::Transaction<'_>, end: BodyEnd<'_, T>|
                lease_pool(lease) == pool && #[trigger] lease.began(Ok(tx)) && #[trigger] body_gave(
                    f,
                    tx,
                    end,
                ) && end.result == Err::<T, DatabaseError>(error) && abandoned(end.tx)
            ||| exists|
                lease: Lease,
                tx: rusqlite::Transaction<'_>,
                end: BodyEnd<'_, T>,
                cause: rusqlite::Error,
            |
                lease_pool(lease) == pool && #[trigger] lease.began(Ok(tx)) && #[trigger] body_gave(
                    f,
                    tx,
                    end,
                ) && end.result is Ok && #[trigger] ended(end.tx, Err(cause)) && error
                    == DatabaseError::Sqlite(cause)
        }),
{
    let r = Err::<T, DatabaseError>(error);
    let acquired = choose|acquired: Result<Lease, r2d2::Error>| #[trigger]
        pool.gave(acquired) && transacted_with(acquired, f, r);
    if let Err(cause) = acquired {
        assert(pool.gave(Err(cause)));
    } else {
        let lease = acquired->Ok_0;
        law_loan_is_from_the_pool(pool, lease);
        let begun = choose|begun: Result<rusqlite::Transaction<'_>, rusqlite::Error>| #[trigger]
            lease.began(begun) && transacted_in(begun, f, r);
        if let Err(cause) = begun {
            assert(lease.began(Err(cause)));
        } else {
            let tx = begun->Ok_0;
            let end = choose|end: BodyEnd<'_, T>| #[trigger]
                body_gave(f, tx, end) && closed_with(end, r);
            assert(lease.began(Ok(tx)));
            assert(body_gave(f, tx, end));
            if end.result is Ok {
                let committed = choose|committed: Result<(), rusqlite::Error>| #[trigger]
                    ended(end.tx, committed) && r == match committed {
                        Ok(_) => Ok::<T, DatabaseError>(end.result->Ok_0),
                        Err(error) => Err(DatabaseError::Sqlite(error)),
                    };
                assert(ended(end.tx, Err(committed->Err_0)));
            }
        }
    }
}

/// A transaction ends as its body does. One that comes to a value was committed as its
/// body left it, and the commit succeeded. One that comes to an error was dropped as its
/// body left it where that error is the body's; otherwise the pool gave no connection,
/// the transaction did not begin, or it was its commit that failed.
pub proof fn law_transaction_ends_as_its_body_does<F, T>(
    pool: SqlitePool,
    f: F,
    r: Result<T, DatabaseError>,
) where F: FnOnce(&mut rusqlite::Transaction<'_>) -> Result<T, DatabaseError>
    requires
        transacted(pool, f, r),
    ensures
        r is Ok ==> exists|
            handed: &mut rusqlite::Transaction<'_>,
            committed: Result<(), rusqlite::Error>,
        |
            #[trigger] call_ensures(f, (handed,), r) && #[trigger] ended(*final(handed), committed)
                && committed is Ok,
        r matches Err(error) ==> {
            ||| exists|handed: &mut rusqlite::Transaction<'_>|
                #[trigger] call_ensures(f, (handed,), r) && abandoned(*final(handed))
            ||| exists|cause: r2d2::Error| #[trigger]
                pool.gave(Err(cause)) && error == DatabaseError::Pool(cause)
            ||| exists|lease: Lease, cause: rusqlite::Error|
                lease_pool(lease) == pool && #[trigger] lease.began(Err(cause)) && error
                    == DatabaseError::Sqlite(cause)
            ||| exists|
                handed: &mut rusqlite::Transaction<'_>,
                value: T,
                cause: rusqlite::Error,
            |
                #[trigger] call_ensures(f, (handed,), Ok::<T, DatabaseError>(value)) && #[trigger]
                    ended(*final(handed), Err(cause)) && error == DatabaseError::Sqlite(cause)
        },
{
    if let Ok(value) = r {
        law_success_is_committed(pool, f, value);
        let (lease, tx, end, committed) = choose|
            lease: Lease,
            tx: rusqlite::Transaction<'_>,
            end: BodyEnd<'_, T>,
            committed: Result<(), rusqlite::Error>,
        |
            lease_pool(lease) == pool && #[trigger] lease.began(Ok(tx)) && #[trigger] body_gave(
                f,
                tx,
                end,
            ) && end.result == Ok::<T, DatabaseError>(value) && #[trigger] ended(end.tx, committed)
                && committed is Ok;
        law_end_is_what_the_body_gave(f, tx, end);
        let handed = choose|handed: &mut rusqlite::Transaction<'_>|
            *handed == tx && *final(handed) == end.tx && #[trigger] call_ensures(
                f,
                (handed,),
                end.result,
            );
        assert(call_ensures(f, (handed,), r) && ended(*final(handed), committed));
    } else {
        let error = r->Err_0;
        law_failure_has_a_cause::<F, T>(pool, f, error);
        assert forall|tx: rusqlite::Transaction<'_>, end: BodyEnd<'_, T>| #[trigger]
            body_gave(f, tx, end) implies exists|handed: &mut rusqlite::Transaction<'_>|
            *handed == tx && *final(handed) == end.tx && #[trigger] call_ensures(
                f,
                (handed,),
                end.result,
            ) by {
            law_end_is_what_the_body_gave(f, tx, end);
        }
        assert forall|end: BodyEnd<'_, T>| end.result is Ok implies #[trigger] end.result == Ok::<
            T,
            DatabaseError,
        >(end.result->Ok_0) by {}
    }
}

/// A transaction holds on to nothing: a connection that the pool gave for it was
/// given back, and a transaction that began on that connection was ended, by a
/// commit or by being dropped.
pub proof fn law_transaction_leaves_nothing_behind<F, T>(
    pool: SqlitePool,
    f: F,
    r: Result<T, DatabaseError>,
) where F: FnOnce(&mut rusqlite::Transaction<'_>) -> Result<T, DatabaseError>
    requires
        transacted(pool, f, r),
    ensures
        exists|acquired: Result<Lease, r2d2::Error>| #[trigger]
            pool.gave(acquired) && (acquired matches Ok(lease) ==> {
                &&& exists|back: Lease| #[trigger]
                    given_back(back) && lease_pool(back) == pool && lease_connection(back)
                        == lease_connection(lease)
                &&& exists|begun: Result<rusqlite::Transaction<'_>, rusqlite::Error>| #[trigger]
                    lease.began(begun) && (begun matches Ok(tx) ==> {
                        &&& transaction_connection(tx) == lease_connection(lease)
                        &&& exists|end: BodyEnd<'_, T>| #[trigger]
                            body_gave(f, tx, end) && (abandoned(end.tx) || exists|
                                committed: Result<(), rusqlite::Error>,
                            | #[trigger]
                                ended(end.tx, committed))
                    })
            }),
{
    let acquired = choose|acquired: Result<Lease, r2d2::Error>| #[trigger]
        pool.gave(acquired) && transacted_with(acquired, f, r);
    if acquired is Ok {
        let lease = acquired->Ok_0;
        law_loan_is_from_the_pool(pool, lease);
        let begun = choose|begun: Result<rusqlite::Transaction<'_>, rusqlite::Error>| #[trigger]
            lease.began(begun) && transacted_in(begun, f, r);
        if begun is Ok {
            law_transaction_begins_ready_to_roll_back(lease, begun->Ok_0);
        }
    }
}

/// What the calls of one transaction gave, each made on what the one before it
/// gave. Of a call that was not made, the field says nothing.
pub struct Course<'conn, T> {
    /// What the pool gave.
    pub acquired: Result<Lease, r2d2::Error>,
    /// What beginning on that connection gave.
    pub begun: Result<rusqlite::Transaction<'conn>, rusqlite::Error>,
    /// What the body gave on that transaction.
    pub end: BodyEnd<'conn, T>,
    /// What committing that transaction as the body left it gave.
    pub committed: Result<(), rusqlite::Error>,
}

impl<'conn, T> Course<'conn, T> {
    /// `answer` tells of a call of this transaction, which was made on a connection
    /// of `pool` and with the body `f`: the call was made, and gave just that.
    pub open spec fn tells<F>(self, pool: SqlitePool, f: F, answer: Answer<T>) -> bool where
        F: FnOnce(&mut rusqlite::Transaction<'_>) -> Result<T, DatabaseError>,
     {
        let connected = pool.gave(self.acquired) && self.acquired is Ok;
        let open = connected && self.acquired->Ok_0.began(self.begun) && self.begun is Ok;
        let returned = open && body_gave(f, self.begun->Ok_0, self.end);
        match answer {
            Answer::Connected => connected,
            Answer::NotConnected(error) => pool.gave(self.acquired) && self.acquired == Err::<
                Lease,
                r2d2::Error,
            >(error),
            Answer::Begun => open,
            Answer::NotBegun(error) => connected && self.acquired->Ok_0.began(self.begun)
                && self.begun == Err::<rusqlite::Transaction<'_>, rusqlite::Error>(error),
            Answer::Returned(result) => returned && self.end.result == result,
            Answer::Committed => returned && ended(self.end.tx, self.committed)
                && self.committed is Ok,
            Answer::NotCommitted(error) => returned && ended(self.end.tx, self.committed)
                && self.committed == Err::<(), rusqlite::Error>(error),
            Answer::Abandoned => returned && abandoned(self.end.tx),
        }
    }

    /// `answers` are what this transaction was given, and take it from its first
    /// stage to the end, where it has come to `r`.
    pub open spec fn leads_to<F>(
        self,
        pool: SqlitePool,
        f: F,
        answers: Seq<Answer<T>>,
        r: Result<T, DatabaseError>,
    ) -> bool where F: FnOnce(&mut rusqlite::Transaction<'_>) -> Result<T, DatabaseError> {
        &&& Stage::<T>::Connect.awaits_all(answers)
        &&& Stage::<T>::Connect.after_all(answers) == Stage::Finished(r)
        &&& forall|i: int| 0 <= i < answers.len() ==> self.tells(pool, f, #[trigger] answers[i])
    }
}

/// A transaction goes from stage to stage by the answers that it was given, all of
/// which tell of one connection and one transaction on it, and comes to the result
/// of the last stage.
pub proof fn law_transaction_follows_its_stages<F, T>(
    pool: SqlitePool,
    f: F,
    r: Result<T, DatabaseError>,
) where F: FnOnce(&mut rusqlite::Transaction<'_>) -> Result<T, DatabaseError>
    requires
        transacted(pool, f, r),
    ensures
        exists|course: Course<'_, T>, answers: Seq<Answer<T>>| #[trigger]
            course.leads_to(pool, f, answers, r),
{
    let acquired = choose|acquired: Result<Lease, r2d2::Error>| #[trigger]
        pool.gave(acquired) && transacted_with(acquired, f, r);
    let none = Seq::<Answer<T>>::empty();
    let lease = acquired->Ok_0;
    let begun = choose|begun: Result<rusqlite::Transaction<'_>, rusqlite::Error>| #[trigger]
        lease.began(begun) && transacted_in(begun, f, r);
    let tx = begun->Ok_0;
    let end = choose|end: BodyEnd<'_, T>| #[trigger]
        body_gave(f, tx, end) && closed_with(end, r);
    let value = end.result->Ok_0;
    let committed = choose|committed: Result<(), rusqlite::Error>| #[trigger]
        ended(end.tx, committed) && r == match committed {
            Ok(_) => Ok::<T, DatabaseError>(value),
            Err(error) => Err(DatabaseError::Sqlite(error)),
        };
    let course = Course { acquired, begun, end, committed };
    let one = none.push(Answer::Connected);
    let two = one.push(Answer::Begun);
    let three = two.push(Answer::Returned(end.result));
    if let Err(error) = acquired {
        lemma_one_more_answer(none, Answer::NotConnected(error));
        assert(course.leads_to(pool, f, none.push(Answer::NotConnected(error)), r));
    } else {
        lemma_one_more_answer(none, Answer::Connected);
        if let Err(error) = begun {
            lemma_one_more_answer(one, Answer::NotBegun(error));
            assert(course.leads_to(pool, f, one.push(Answer::NotBegun(error)), r));
        } else {
            lemma_one_more_answer(one, Answer::Begun);
            lemma_one_more_answer(two, Answer::Returned(end.result));
            if end.result is Err {
                lemma_one_more_answer(three, Answer::Abandoned);
                assert(course.leads_to(pool, f, three.push(Answer::Abandoned), r));
            } else if let Err(error) = committed {
                lemma_one_more_answer(three, Answer::NotCommitted(error));
                assert(course.leads_to(pool, f, three.push(Answer::NotCommitted(error)), r));
            } else {
                lemma_one_more_answer(three, Answer::Committed);
                assert(course.leads_to(pool, f, three.push(Answer::Committed), r));
            }
        }
    }
}

/// A job that is a function of its connection comes to one result on what the pool
/// gave.
pub proof fn law_same_loan_gives_the_same_result<F, T>(
    acquired: Result<Lease, r2d2::Error>,
    f: F,
    r1: Result<T, DatabaseError>,
    r2: Result<T, DatabaseError>,
) where F: FnOnce(&rusqlite::Connection) -> Result<T, DatabaseError>
    requires
        ran_with(acquired, f, r1),
        ran_with(acquired, f, r2),
        forall|
            connection: &rusqlite::Connection,
            a: Result<T, DatabaseError>,
            b: Result<T, DatabaseError>,
        |
            #[trigger] call_ensures(f, (connection,), a) && #[trigger] call_ensures(
                f,
                (connection,),
                b,
            ) ==> a == b,
    ensures
        r1 == r2,
{
}

/// A transaction whose body is a function of what it is handed, on a database that
/// answers the same request in one way, comes to one result on what the pool gave.
pub proof fn law_same_answers_give_the_same_result<F, T>(
    acquired: Result<Lease, r2d2::Error>,
    f: F,
    r1: Result<T, DatabaseError>,
    r2: Result<T, DatabaseError>,
) where F: FnOnce(&mut rusqlite::Transaction<'_>) -> Result<T, DatabaseError>
    requires
        transacted_with(acquired, f, r1),
        transacted_with(acquired, f, r2),
        forall|
            lease: Lease,
            a: Result<rusqlite::Transaction<'_>, rusqlite::Error>,
            b: Result<rusqlite::Transaction<'_>, rusqlite::Error>,
        | #[trigger]
            lease.began(a) && #[trigger] lease.began(b) ==> a == b,
        forall|tx: rusqlite::Transaction<'_>, a: BodyEnd<'_, T>, b: BodyEnd<'_, T>| #[trigger]
            body_gave(f, tx, a) && #[trigger] body_gave(f, tx, b) ==> a == b,
        forall|
            tx: rusqlite::Transaction<'_>,
            a: Result<(), rusqlite::Error>,
            b: Result<(), rusqlite::Error>,
        | #[trigger]
            ended(tx, a) && #[trigger] ended(tx, b) ==> a == b,
    ensures
        r1 == r2,
{
}

/// What a body came to is what it returned on the transaction that it was handed,
/// with that transaction as it left it.
pub proof fn law_end_is_what_the_body_gave<F, T>(
    f: F,
    tx: rusqlite::Transaction<'_>,
    end: BodyEnd<'_, T>,
) where F: FnOnce(&mut rusqlite::Transaction<'_>) -> Result<T, DatabaseError>
    requires
        body_gave(f, tx, end),
    ensures
        exists|handed: &mut rusqlite::Transaction<'_>|
            *handed == tx && *final(handed) == end.tx && #[trigger] call_ensures(
                f,
                (handed,),
                end.result,
            ),
{
}

/// A closure or function is a body where it accepts every transaction that is
/// rolled back when dropped, and leaves each of them with a drop action other than
/// to panic.
pub proof fn law_body_by_its_drop_action<F, T>(f: F) where
    F: FnOnce(&mut rusqlite::Transaction<'_>) -> Result<T, DatabaseError>,

    requires
        forall|tx: &mut rusqlite::Transaction<'_>|
            drop_action(*tx) == DropAction::Rollback ==> #[trigger] call_requires(f, (tx,)),
        forall|tx: &mut rusqlite::Transaction<'_>, r: Result<T, DatabaseError>|
            drop_action(*tx) == DropAction::Rollback && #[trigger] call_ensures(f, (tx,), r)
                ==> drop_action(*final(tx)) != DropAction::Panic,
    ensures
        is_body(f),
{
}

} // verus!

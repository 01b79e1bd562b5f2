use std::path::PathBuf;
use std::rc::Rc;
use std::sync::Arc;

use async_sqlite::error::{settle, BlockingError, DatabaseError};
use async_sqlite::pool::open;
use async_sqlite::spawn::{SpawnBlocking, SpawnBlockingLocal, SpawnParallel};
use async_sqlite::{
    CrossbeamExecutor, DatabaseConfig, ImmediateExecutor, LocalExecutor, SQLiteAdapter,
    TokioExecutor,
};

fn small(max_connections: u32) -> DatabaseConfig {
    DatabaseConfig {
        max_connections,
        ..DatabaseConfig::default()
    }
}

fn on_file(name: &str, max_connections: u32) -> DatabaseConfig {
    DatabaseConfig {
        path: PathBuf::from(name),
        max_connections,
        ..DatabaseConfig::default()
    }
}

fn count(conn: &rusqlite::Connection) -> Result<i64, DatabaseError> {
    Ok(conn.query_row("SELECT COUNT(*) FROM test", [], |row| row.get(0))?)
}

/// An executor that never gets a job done.
struct Refusing;

impl SpawnBlocking for Refusing {
    fn spawn_blocking<F, T>(_f: F) -> Result<T, BlockingError>
    where
        F: FnOnce() -> T + Send + 'static,
        T: Send + 'static,
    {
        Err(BlockingError::TaskPanicked)
    }
}

impl SpawnBlockingLocal for Refusing {
    fn spawn_blocking_local<F, T>(_f: F) -> Result<T, BlockingError>
    where
        F: FnOnce() -> T + 'static,
        T: 'static,
    {
        Err(BlockingError::TaskPanicked)
    }
}

/// An executor that runs two jobs on two threads.
struct Threads;

impl SpawnParallel for Threads {
    fn join<A, B, RA, RB>(oper_a: A, oper_b: B) -> (RA, RB)
    where
        A: FnOnce() -> RA + Send,
        B: FnOnce() -> RB + Send,
        RA: Send,
        RB: Send,
    {
        crossbeam::scope(|s| {
            let a = s.spawn(|_| oper_a());
            let b = oper_b();
            (a.join().unwrap(), b)
        })
        .unwrap()
    }
}

fn threads_on(pool: Arc<async_sqlite::sqlite::SqlitePool>) -> SQLiteAdapter<Threads> {
    SQLiteAdapter::from_check(pool, Ok(())).unwrap()
}

#[test]
fn test_tokio_adapter() -> Result<(), DatabaseError> {
    let runtime = tokio::runtime::Runtime::new().unwrap();
    runtime.block_on(async {
        let config = DatabaseConfig::default();
        let pool = Arc::new(open(&config)?);
        let checked_pool = Arc::clone(&pool);
        let check = tokio::task::spawn_blocking(move || checked_pool.check()).await;
        let db = SQLiteAdapter::<TokioExecutor>::from_check(
            pool,
            settle(TokioExecutor::joined(check)),
        )?;

        // Must be Send + 'static
        let pool = db.pool();
        let created = tokio::task::spawn_blocking(move || {
            pool.run(|conn| {
                conn.execute_batch("CREATE TABLE test (id INTEGER PRIMARY KEY)")?;
                Ok(())
            })
        })
        .await;
        settle(TokioExecutor::joined(created))?;

        Ok(())
    })
}

#[test]
fn test_local_adapter() {
    let res = async_std::task::block_on(async {
        let config = DatabaseConfig::default();
        let db = SQLiteAdapter::<LocalExecutor>::new_local(config)?;

        // Can use !Send types
        let rc = Rc::new(42);
        db.execute_local(move |conn| {
            let _rc = rc.clone();
            conn.execute_batch("CREATE TABLE test (id INTEGER PRIMARY KEY)")?;
            Ok(())
        })?;

        Ok::<_, DatabaseError>(())
    });

    assert!(res.is_ok());
}

#[test]
fn execute_hands_back_what_the_job_returned() {
    let db = SQLiteAdapter::<ImmediateExecutor>::new_threaded(small(1)).unwrap();
    let sum: i64 = db
        .execute(|conn| Ok(conn.query_row("SELECT 40 + 2", [], |row| row.get(0))?))
        .unwrap();
    assert_eq!(sum, 42);
}

#[test]
fn execute_hands_back_the_error_of_the_job() {
    let db = SQLiteAdapter::<ImmediateExecutor>::new_threaded(small(1)).unwrap();
    let refused = db.execute(|conn| {
        conn.execute_batch("NOT SQL")?;
        Ok(())
    });
    assert!(matches!(refused, Err(DatabaseError::Sqlite(_))));
    let migration: Result<(), DatabaseError> =
        db.execute(|_| Err(DatabaseError::Migration(String::from("step 3"))));
    assert!(matches!(migration, Err(DatabaseError::Migration(reason)) if reason == "step 3"));
}

#[test]
fn execute_lends_as_many_connections_as_the_pool_holds() {
    let db = SQLiteAdapter::<ImmediateExecutor>::new_threaded(small(2)).unwrap();
    let inner = db.clone();
    let nested = db.execute(move |conn| {
        conn.execute_batch("CREATE TABLE test (id INTEGER PRIMARY KEY)")?;
        // The other connection has a database in memory of its own.
        let other = inner.execute(count);
        assert!(matches!(other, Err(DatabaseError::Sqlite(_))));
        count(conn)
    });
    assert!(matches!(nested, Ok(0)));
}

#[test]
fn connection_goes_back_to_the_pool_after_each_job() {
    let db = SQLiteAdapter::<CrossbeamExecutor>::new_threaded(small(1)).unwrap();
    db.execute(|conn| {
        conn.execute_batch("CREATE TABLE test (id INTEGER PRIMARY KEY)")?;
        Ok(())
    })
    .unwrap();
    for i in 0..5 {
        assert_eq!(db.execute(count).unwrap(), i);
        db.execute(|conn| Ok(conn.execute("INSERT INTO test DEFAULT VALUES", [])?))
            .unwrap();
    }
}

#[test]
fn clone_shares_the_pool() {
    let db = SQLiteAdapter::<ImmediateExecutor>::new_threaded(small(1)).unwrap();
    let other = db.clone();
    db.execute(|conn| {
        conn.execute_batch("CREATE TABLE test (id INTEGER PRIMARY KEY); INSERT INTO test VALUES (7)")?;
        Ok(())
    })
    .unwrap();
    assert_eq!(other.execute(count).unwrap(), 1);
    assert!(Arc::ptr_eq(&db.pool(), &other.pool()));
}

#[test]
fn transaction_commits_where_the_body_succeeds() {
    let db = SQLiteAdapter::<ImmediateExecutor>::new_threaded(small(1)).unwrap();
    let rows = db.transaction(|tx| {
        tx.execute_batch("CREATE TABLE test (id INTEGER PRIMARY KEY)")?;
        Ok(tx.execute("INSERT INTO test VALUES (1), (2), (3)", [])?)
    });
    assert!(matches!(rows, Ok(3)));
    assert_eq!(db.execute(count).unwrap(), 3);
}

#[test]
fn transaction_rolls_back_where_the_body_fails() {
    let db = SQLiteAdapter::<ImmediateExecutor>::new_threaded(small(1)).unwrap();
    db.execute(|conn| {
        conn.execute_batch("CREATE TABLE test (id INTEGER PRIMARY KEY)")?;
        Ok(())
    })
    .unwrap();
    let failed: Result<(), DatabaseError> = db.transaction(|tx| {
        tx.execute("INSERT INTO test VALUES (1)", [])?;
        Err(DatabaseError::Migration(String::from("changed my mind")))
    });
    assert!(
        matches!(failed, Err(DatabaseError::Migration(reason)) if reason == "changed my mind")
    );
    assert_eq!(db.execute(count).unwrap(), 0);
    assert!(db.execute(|conn| Ok(conn.is_autocommit())).unwrap());
}

#[test]
fn transaction_reports_a_commit_that_fails() {
    let db = SQLiteAdapter::<ImmediateExecutor>::new_threaded(small(1)).unwrap();
    db.execute(|conn| {
        conn.execute_batch(
            "PRAGMA foreign_keys = ON;
             CREATE TABLE test (id INTEGER PRIMARY KEY);
             CREATE TABLE part (whole INTEGER REFERENCES test (id) DEFERRABLE INITIALLY DEFERRED)",
        )?;
        Ok(())
    })
    .unwrap();
    let committed = db.transaction(|tx| Ok(tx.execute("INSERT INTO part VALUES (9)", [])?));
    assert!(matches!(committed, Err(DatabaseError::Sqlite(_))));
    let parts: i64 = db
        .execute(|conn| Ok(conn.query_row("SELECT COUNT(*) FROM part", [], |row| row.get(0))?))
        .unwrap();
    assert_eq!(parts, 0);
}

#[test]
fn transaction_reports_a_begin_that_fails() {
    let db = SQLiteAdapter::<ImmediateExecutor>::new_threaded(small(1)).unwrap();
    db.execute(|conn| {
        conn.execute_batch("BEGIN")?;
        Ok(())
    })
    .unwrap();
    let nested: Result<(), DatabaseError> = db.transaction(|_| panic!("the body must not run"));
    assert!(matches!(nested, Err(DatabaseError::Sqlite(_))));
}

#[test]
fn transaction_starts_out_rolling_back_when_dropped() {
    let db = SQLiteAdapter::<LocalExecutor>::new_local(small(1)).unwrap();
    let behavior = db.transaction_local(|tx| Ok(tx.drop_behavior())).unwrap();
    assert_eq!(behavior, rusqlite::DropBehavior::Rollback);
}

#[test]
fn abandoned_transaction_ends_as_its_body_chose() {
    let db = SQLiteAdapter::<ImmediateExecutor>::new_threaded(small(1)).unwrap();
    db.execute(|conn| {
        conn.execute_batch("CREATE TABLE test (id INTEGER PRIMARY KEY)")?;
        Ok(())
    })
    .unwrap();
    let failed: Result<(), DatabaseError> = db.transaction(|tx| {
        tx.set_drop_behavior(rusqlite::DropBehavior::Commit);
        tx.execute("INSERT INTO test VALUES (1)", [])?;
        Err(DatabaseError::Migration(String::from("keep what there is")))
    });
    assert!(matches!(failed, Err(DatabaseError::Migration(_))));
    assert_eq!(db.execute(count).unwrap(), 1);
}

#[test]
fn local_transaction_commits_and_rolls_back() {
    let db = SQLiteAdapter::<LocalExecutor>::new_local(small(1)).unwrap();
    let rc = Rc::new(5_i64);
    let kept = Rc::clone(&rc);
    let value = db.transaction_local(move |tx| {
        tx.execute_batch("CREATE TABLE test (id INTEGER PRIMARY KEY)")?;
        tx.execute("INSERT INTO test VALUES (?)", [*kept])?;
        Ok(kept)
    });
    assert_eq!(value.unwrap(), rc);
    let failed: Result<(), DatabaseError> = db.transaction_local(|tx| {
        tx.execute("DELETE FROM test", [])?;
        tx.execute_batch("NOT SQL")?;
        Ok(())
    });
    assert!(matches!(failed, Err(DatabaseError::Sqlite(_))));
    assert_eq!(db.execute_local(count).unwrap(), 1);
}

#[test]
fn scoped_job_borrows_from_the_stack() {
    let db = SQLiteAdapter::<CrossbeamExecutor>::new_threaded(small(1)).unwrap();
    let name = String::from("borrowed");
    let length = db.with_scope(|scope| {
        db.execute_scoped(scope, |conn| {
            let length: i64 =
                conn.query_row("SELECT LENGTH(?)", [&name], |row| row.get(0))?;
            Ok(length)
        })
    });
    assert_eq!(length.unwrap(), 8);
    assert_eq!(name, "borrowed");
}

#[test]
fn scoped_job_fails_with_its_own_error() {
    let db = SQLiteAdapter::<CrossbeamExecutor>::new_threaded(small(1)).unwrap();
    let failed = db.with_scope(|scope| db.execute_scoped(scope, count));
    assert!(matches!(failed, Err(DatabaseError::Sqlite(_))));
}

#[test]
fn parallel_jobs_hand_back_both_values() {
    let db = threads_on(Arc::new(open(&small(2)).unwrap()));
    let both = db.execute_parallel(
        |conn| Ok(conn.query_row("SELECT 1", [], |row| row.get::<_, i64>(0))?),
        |conn| Ok(conn.query_row("SELECT 'two'", [], |row| row.get::<_, String>(0))?),
    );
    assert_eq!(both.unwrap(), (1, String::from("two")));
}

#[test]
fn parallel_jobs_fail_with_the_first_error() {
    let db = threads_on(Arc::new(open(&small(2)).unwrap()));
    let first: Result<((), ()), DatabaseError> = db.execute_parallel(
        |_| Err(DatabaseError::Migration(String::from("first"))),
        |_| Err(DatabaseError::Migration(String::from("second"))),
    );
    assert!(matches!(first, Err(DatabaseError::Migration(reason)) if reason == "first"));
    let second: Result<(u8, ()), DatabaseError> = db.execute_parallel(
        |_| Ok(1),
        |_| Err(DatabaseError::Migration(String::from("second"))),
    );
    assert!(matches!(second, Err(DatabaseError::Migration(reason)) if reason == "second"));
}

#[test]
fn executor_that_refuses_is_reported_as_blocking() {
    let opened = SQLiteAdapter::<Refusing>::new_threaded(small(1));
    assert!(matches!(
        opened,
        Err(DatabaseError::Blocking(BlockingError::TaskPanicked))
    ));
    let local = SQLiteAdapter::<Refusing>::new_local(small(1));
    assert!(matches!(
        local,
        Err(DatabaseError::Blocking(BlockingError::TaskPanicked))
    ));
    let db: SQLiteAdapter<Refusing> =
        SQLiteAdapter::from_check(Arc::new(open(&small(1)).unwrap()), Ok(())).unwrap();
    assert!(matches!(
        db.execute(|_| Ok(())),
        Err(DatabaseError::Blocking(BlockingError::TaskPanicked))
    ));
    assert!(matches!(
        db.transaction(|_| Ok(())),
        Err(DatabaseError::Blocking(BlockingError::TaskPanicked))
    ));
    assert!(matches!(
        db.execute_local(|_| Ok(())),
        Err(DatabaseError::Blocking(BlockingError::TaskPanicked))
    ));
    assert!(matches!(
        db.transaction_local(|_| Ok(())),
        Err(DatabaseError::Blocking(BlockingError::TaskPanicked))
    ));
}

#[test]
fn adapter_is_not_made_where_the_check_failed() {
    let pool = Arc::new(open(&small(1)).unwrap());
    let failed = SQLiteAdapter::<ImmediateExecutor>::from_check(
        pool,
        Err(DatabaseError::Migration(String::from("no connection"))),
    );
    assert!(matches!(failed, Err(DatabaseError::Migration(reason)) if reason == "no connection"));
}

#[test]
fn file_is_created_and_shared_by_the_connections() {
    let config = on_file("/tmp/async_sqlite_shared.db", 2);
    let db = SQLiteAdapter::<ImmediateExecutor>::new_threaded(config).unwrap();
    let inner = db.clone();
    let seen = db
        .execute(move |conn| {
            assert_eq!(conn.path(), Some("/tmp/async_sqlite_shared.db"));
            assert!(!conn.is_readonly(rusqlite::DatabaseName::Main)?);
            conn.execute_batch(
                "DROP TABLE IF EXISTS test;
                 CREATE TABLE test (id INTEGER PRIMARY KEY);
                 INSERT INTO test VALUES (1), (2)",
            )?;
            inner.execute(count)
        })
        .unwrap();
    assert_eq!(seen, 2);
}

#[test]
fn unused_settings_have_no_influence() {
    let plain = small(2);
    let other = DatabaseConfig {
        enable_foreign_keys: false,
        busy_timeout: std::time::Duration::from_millis(1),
        ..small(2)
    };
    for config in [plain, other] {
        let db = SQLiteAdapter::<ImmediateExecutor>::new_threaded(config).unwrap();
        let product: i64 = db
            .execute(|conn| Ok(conn.query_row("SELECT 6 * 7", [], |row| row.get(0))?))
            .unwrap();
        assert_eq!(product, 42);
        let path = db.execute(|conn| Ok(conn.path().map(String::from))).unwrap();
        assert_eq!(path, Some(String::new()));
    }
}

#[test]
fn local_and_immediate_adapters_agree() {
    let local = SQLiteAdapter::<LocalExecutor>::new_local(small(1)).unwrap();
    let immediate = SQLiteAdapter::<ImmediateExecutor>::new_threaded(small(1)).unwrap();
    fn fill(tx: &mut rusqlite::Transaction<'_>) -> Result<usize, DatabaseError> {
        tx.execute_batch("CREATE TABLE test (id INTEGER PRIMARY KEY)")?;
        Ok(tx.execute("INSERT INTO test VALUES (3), (4)", [])?)
    }
    assert_eq!(local.transaction_local(fill).unwrap(), 2);
    assert_eq!(immediate.transaction(fill).unwrap(), 2);
    assert_eq!(local.execute_local(count).unwrap(), 2);
    assert_eq!(immediate.execute(count).unwrap(), 2);
    // A second time both fail alike, and leave what there is.
    assert!(matches!(local.transaction_local(fill), Err(DatabaseError::Sqlite(_))));
    assert!(matches!(immediate.transaction(fill), Err(DatabaseError::Sqlite(_))));
    assert_eq!(local.execute_local(count).unwrap(), 2);
    assert_eq!(immediate.execute(count).unwrap(), 2);
}

#[test]
fn choice_of_executor_does_not_show() {
    let immediate = SQLiteAdapter::<ImmediateExecutor>::new_threaded(small(1)).unwrap();
    let crossbeam: SQLiteAdapter<CrossbeamExecutor> =
        SQLiteAdapter::from_check(immediate.pool(), Ok(())).unwrap();
    immediate
        .execute(|conn| {
            conn.execute_batch("CREATE TABLE test (id INTEGER PRIMARY KEY)")?;
            Ok(())
        })
        .unwrap();
    assert_eq!(immediate.execute(count).unwrap(), 0);
    assert_eq!(crossbeam.execute(count).unwrap(), 0);
}

#[test]
fn transactions_leave_the_one_connection_ready() {
    let db = SQLiteAdapter::<ImmediateExecutor>::new_threaded(small(1)).unwrap();
    db.transaction(|tx| Ok(tx.execute_batch("CREATE TABLE test (id INTEGER PRIMARY KEY)")?))
        .unwrap();
    for i in 0..4_i64 {
        let r = db.transaction(move |tx| {
            tx.execute("INSERT INTO test VALUES (?)", [i])?;
            if i % 2 == 0 {
                Ok(i)
            } else {
                Err(DatabaseError::Migration(String::from("odd")))
            }
        });
        assert_eq!(r.is_ok(), i % 2 == 0);
        assert!(db.execute(|conn| Ok(conn.is_autocommit())).unwrap());
    }
    assert_eq!(db.execute(count).unwrap(), 2);
}

#[test]
fn later_job_reads_what_an_earlier_one_wrote() {
    let config = on_file("/tmp/async_sqlite_later.db", 3);
    let db = SQLiteAdapter::<ImmediateExecutor>::new_threaded(config).unwrap();
    db.execute(|conn| {
        conn.execute_batch(
            "DROP TABLE IF EXISTS test;
             CREATE TABLE test (id INTEGER PRIMARY KEY);
             INSERT INTO test VALUES (1), (2), (3)",
        )?;
        Ok(())
    })
    .unwrap();
    let inner = db.clone();
    let counts = db
        .execute(move |conn| Ok((count(conn)?, inner.execute(count)?)))
        .unwrap();
    assert_eq!(counts, (3, 3));
}

use async_sqlite::error::{labelled, pair, settle, BlockingError, DatabaseError};
use async_sqlite::pool::{check_with, or_pool_error, run_with, transact_with};
use async_sqlite::TokioExecutor;

/// The error of a pool that waited in vain for a connection.
fn pool_error() -> r2d2::Error {
    let manager = r2d2_sqlite::SqliteConnectionManager::file("/nonexistent/directory/file.db");
    r2d2::Pool::builder()
        .max_size(1)
        .connection_timeout(std::time::Duration::from_millis(50))
        .error_handler(Box::new(r2d2::NopErrorHandler))
        .build(manager)
        .unwrap_err()
}

#[test]
fn every_error_becomes_one_of_the_library() {
    assert!(matches!(
        DatabaseError::from(rusqlite::Error::QueryReturnedNoRows),
        DatabaseError::Sqlite(rusqlite::Error::QueryReturnedNoRows)
    ));
    assert!(matches!(
        DatabaseError::from(pool_error()),
        DatabaseError::Pool(_)
    ));
    assert!(matches!(
        DatabaseError::from(BlockingError::TaskPanicked),
        DatabaseError::Blocking(BlockingError::TaskPanicked)
    ));
    let missing = std::io::Error::from(std::io::ErrorKind::NotFound);
    assert!(matches!(
        DatabaseError::from(missing),
        DatabaseError::Io(error) if error.kind() == std::io::ErrorKind::NotFound
    ));
}

#[test]
fn messages_name_the_kind_and_the_cause() {
    let sqlite = DatabaseError::Sqlite(rusqlite::Error::QueryReturnedNoRows);
    assert_eq!(sqlite.message(), "SQLite error: Query returned no rows");
    let pool = DatabaseError::Pool(pool_error()).message();
    assert!(
        pool.starts_with("Pool error: timed out waiting for connection"),
        "{}",
        pool
    );
    let blocking = DatabaseError::Blocking(BlockingError::TaskPanicked);
    assert_eq!(
        blocking.message(),
        "Blocking task error: Blocking task panicked"
    );
    let io = DatabaseError::Io(std::io::Error::new(std::io::ErrorKind::Other, "disk full"));
    assert_eq!(io.message(), "IO error: disk full");
    let migration = DatabaseError::Migration(String::from("version 2"));
    assert_eq!(migration.message(), "Migration error: version 2");
    assert_eq!(BlockingError::TaskPanicked.message(), "Blocking task panicked");
    assert_eq!(labelled("a: ", "b"), "a: b");
    assert_eq!(labelled("", ""), "");
}

#[test]
fn settle_keeps_the_result_of_the_job() {
    assert!(matches!(settle(Ok(Ok(3))), Ok(3)));
    let failed: Result<(), DatabaseError> =
        settle(Ok(Err(DatabaseError::Migration(String::from("x")))));
    assert!(matches!(failed, Err(DatabaseError::Migration(reason)) if reason == "x"));
}

#[test]
fn settle_reports_a_panic_as_blocking() {
    let lost: Result<(), DatabaseError> = settle(Err(BlockingError::TaskPanicked));
    assert!(matches!(
        lost,
        Err(DatabaseError::Blocking(BlockingError::TaskPanicked))
    ));
}

#[test]
fn pair_needs_both_and_prefers_the_first_error() {
    let error = |reason: &str| DatabaseError::Migration(String::from(reason));
    assert!(matches!(pair(Ok(1), Ok('b')), Ok((1, 'b'))));
    assert!(matches!(
        pair::<u8, u8>(Err(error("first")), Err(error("second"))),
        Err(DatabaseError::Migration(reason)) if reason == "first"
    ));
    assert!(matches!(
        pair::<u8, u8>(Err(error("first")), Ok(2)),
        Err(DatabaseError::Migration(reason)) if reason == "first"
    ));
    assert!(matches!(
        pair::<u8, u8>(Ok(1), Err(error("second"))),
        Err(DatabaseError::Migration(reason)) if reason == "second"
    ));
}

#[test]
fn joined_counts_a_missing_value_as_a_panic() {
    let runtime = tokio::runtime::Runtime::new().unwrap();
    let value = runtime.block_on(async { tokio::task::spawn_blocking(|| 8).await });
    assert!(matches!(TokioExecutor::joined(value), Ok(8)));
    let panicked = runtime.block_on(async {
        tokio::task::spawn_blocking(|| -> u8 { panic!("on purpose") }).await
    });
    assert!(matches!(
        TokioExecutor::joined(panicked),
        Err(BlockingError::TaskPanicked)
    ));
}

#[test]
fn without_a_connection_nothing_is_run() {
    let run: Result<(), DatabaseError> =
        run_with(Err(pool_error()), |_| panic!("the job must not run"));
    assert!(matches!(run, Err(DatabaseError::Pool(_))));
    let transacted: Result<(), DatabaseError> =
        transact_with(Err(pool_error()), |_| panic!("the body must not run"));
    assert!(matches!(transacted, Err(DatabaseError::Pool(_))));
    assert!(matches!(
        check_with(Err(pool_error())),
        Err(DatabaseError::Pool(_))
    ));
    assert!(matches!(
        or_pool_error::<u8>(Err(pool_error())),
        Err(DatabaseError::Pool(_))
    ));
    assert!(matches!(or_pool_error(Ok(4)), Ok(4)));
}

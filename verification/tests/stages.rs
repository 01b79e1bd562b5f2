use async_sqlite::error::DatabaseError;
use async_sqlite::transaction::{Answer, Stage};

fn sqlite_error() -> rusqlite::Error {
    rusqlite::Error::ExecuteReturnedResults
}

fn at_body() -> Stage<u8> {
    let stage: Stage<u8> = Stage::Connect;
    stage.advance(Answer::Connected).advance(Answer::Begun)
}

#[test]
fn stages_come_in_order() {
    let stage: Stage<u8> = Stage::Connect;
    let stage = stage.advance(Answer::Connected);
    assert!(matches!(stage, Stage::Begin));
    let stage = stage.advance(Answer::Begun);
    assert!(matches!(stage, Stage::Body));
    assert!(!stage.asks_for_commit());
    let stage = stage.advance(Answer::Returned(Ok(5)));
    assert!(matches!(stage, Stage::Commit(5)));
    assert!(stage.asks_for_commit());
    let stage = stage.advance(Answer::Committed);
    assert!(!stage.asks_for_commit());
    assert!(matches!(stage.result(), Ok(5)));
}

#[test]
fn failed_body_is_abandoned_and_not_committed() {
    let stage = at_body().advance(Answer::Returned(Err(DatabaseError::Migration(
        String::from("no"),
    ))));
    assert!(!stage.asks_for_commit());
    assert!(matches!(&stage, Stage::Abandon(DatabaseError::Migration(reason)) if reason == "no"));
    let stage = stage.advance(Answer::Abandoned);
    assert!(matches!(stage.result(), Err(DatabaseError::Migration(reason)) if reason == "no"));
}

#[test]
fn failed_begin_runs_no_body() {
    let stage: Stage<u8> = Stage::Connect;
    let stage = stage
        .advance(Answer::Connected)
        .advance(Answer::NotBegun(sqlite_error()));
    assert!(matches!(
        stage.result(),
        Err(DatabaseError::Sqlite(
            rusqlite::Error::ExecuteReturnedResults
        ))
    ));
}

#[test]
fn failed_connection_begins_nothing() {
    let error = r2d2::Pool::builder()
        .max_size(1)
        .connection_timeout(std::time::Duration::from_millis(50))
        .error_handler(Box::new(r2d2::NopErrorHandler))
        .build(r2d2_sqlite::SqliteConnectionManager::file(
            "/nonexistent/directory/file.db",
        ))
        .unwrap_err();
    let stage: Stage<u8> = Stage::Connect;
    let stage = stage.advance(Answer::NotConnected(error));
    assert!(matches!(stage.result(), Err(DatabaseError::Pool(_))));
}

#[test]
fn failed_commit_loses_the_value() {
    let stage = at_body()
        .advance(Answer::Returned(Ok(5)))
        .advance(Answer::NotCommitted(sqlite_error()));
    assert!(matches!(
        stage.result(),
        Err(DatabaseError::Sqlite(
            rusqlite::Error::ExecuteReturnedResults
        ))
    ));
}

use std::marker::PhantomData;
use std::path::PathBuf;
use std::time::Duration;

use async_sqlite::spawn::{
    ExecuteImmediate, Scope, SpawnBlocking, SpawnBlockingLocal, SpawnBlockingScoped,
};
use async_sqlite::sqlite::{OPEN_CREATE, OPEN_READ_WRITE};
use async_sqlite::{CrossbeamExecutor, DatabaseConfig, ImmediateExecutor, LocalExecutor};

#[test]
fn default_config_is_a_small_database_in_memory() {
    let config = DatabaseConfig::default();
    assert_eq!(config.path, PathBuf::from(":memory:"));
    assert_eq!(config.max_connections, 10);
    assert!(config.enable_foreign_keys);
    assert_eq!(config.busy_timeout, Duration::from_secs(30));
}

#[test]
fn cloned_config_is_the_same() {
    let config = DatabaseConfig {
        path: PathBuf::from("some/file.db"),
        max_connections: 3,
        enable_foreign_keys: false,
        busy_timeout: Duration::from_millis(1500),
    };
    let clone = config.clone();
    assert_eq!(clone.path, PathBuf::from("some/file.db"));
    assert_eq!(clone.max_connections, 3);
    assert!(!clone.enable_foreign_keys);
    assert_eq!(clone.busy_timeout, Duration::from_millis(1500));
}

#[test]
fn open_flags_are_those_of_sqlite() {
    let flags = rusqlite::OpenFlags::SQLITE_OPEN_CREATE
        | rusqlite::OpenFlags::SQLITE_OPEN_READ_WRITE;
    assert_eq!(OPEN_CREATE | OPEN_READ_WRITE, flags.bits());
    assert_eq!(OPEN_CREATE, rusqlite::OpenFlags::SQLITE_OPEN_CREATE.bits());
}

#[test]
fn jobs_run_at_once_on_the_immediate_executor() {
    assert_eq!(ImmediateExecutor::execute(|| 3 + 4), 7);
    assert!(matches!(ImmediateExecutor::spawn_blocking(|| 'x'), Ok('x')));
}

#[test]
fn local_jobs_may_hold_values_of_the_thread() {
    let rc = std::rc::Rc::new(11);
    assert!(matches!(
        LocalExecutor::spawn_blocking_local(move || *rc),
        Ok(11)
    ));
}

#[test]
fn crossbeam_scope_hands_back_the_value() {
    assert!(matches!(
        CrossbeamExecutor::spawn_blocking(|| vec![1, 2].len()),
        Ok(2)
    ));
    let text = String::from("abc");
    let length = CrossbeamExecutor::scope(|scope| scope.spawn(|| text.len()));
    assert!(matches!(length, Ok(3)));
}

#[test]
fn scope_runs_what_it_spawns() {
    let scope = Scope {
        _lifetime: PhantomData,
    };
    assert!(matches!(scope.spawn(|| 2 * 21), Ok(42)));
}

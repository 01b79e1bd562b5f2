//! What a database is opened with.

use std::path::PathBuf;
use std::time::Duration;

use vstd::prelude::*;

verus! {

/// Declares `std::path::PathBuf`; nothing is claimed of what it holds.
#[verifier::external_type_specification]
#[verifier::external_body]
pub struct ExPathBuf(PathBuf);

/// The path that `PathBuf::from` makes of a text.
pub uninterp spec fn path_from(text: Seq<char>) -> PathBuf;

/// Calls `PathBuf::from`.
///
/// Claimed of it: the path depends on the text alone.
#[verifier::external_body]
fn make_path(text: &str) -> (path: PathBuf)
    ensures
        path == path_from(text@),
{
    PathBuf::from(text)
}

/// `PathBuf::clone`. Claimed of it: the clone is the same path.
pub assume_specification[ <PathBuf as Clone>::clone ](path: &PathBuf) -> (r: PathBuf)
    ensures
        r == *path,
;

/// The duration that `Duration::from_secs` makes of a number of seconds.
pub uninterp spec fn duration_from_secs(seconds: u64) -> Duration;

/// Calls `Duration::from_secs`.
///
/// Claimed of it: the duration depends on the number of seconds alone.
#[verifier::external_body]
fn make_duration(seconds: u64) -> (duration: Duration)
    ensures
        duration == duration_from_secs(seconds),
{
    Duration::from_secs(seconds)
}

/// What a database is opened with.
#[derive(Debug)]
pub struct DatabaseConfig {
    /// The file that holds the database, or `:memory:`.
    pub path: PathBuf,
    /// How many connections the pool holds at most.
    pub max_connections: u32,
    /// Whether foreign keys are to be enforced. Opening a database does not act
    /// on it.
    pub enable_foreign_keys: bool,
    /// How long a connection is to wait for a lock. Opening a database does not
    /// act on it.
    pub busy_timeout: Duration,
}

impl Clone for DatabaseConfig {
    fn clone(&self) -> (config: Self)
        ensures
            config == *self,
    {
        DatabaseConfig {
            path: self.path.clone(),
            max_connections: self.max_connections,
            enable_foreign_keys: self.enable_foreign_keys,
            busy_timeout: self.busy_timeout,
        }
    }
}

impl Default for DatabaseConfig {
    /// A database in memory, with ten connections, foreign keys and half a
    /// minute of patience.
    fn default() -> (config: Self)
        ensures
            config.path == path_from(":memory:"@),
            config.max_connections == 10,
            config.enable_foreign_keys,
            config.busy_timeout == duration_from_secs(30),
    {
        DatabaseConfig {
            path: make_path(":memory:"),
            max_connections: 10,
            enable_foreign_keys: true,
            busy_timeout: make_duration(30),
        }
    }
}

} // verus!

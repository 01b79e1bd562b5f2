//! The outside types and calls that the library stands on: the connection pool
//! of `r2d2` over the connections of `rusqlite`.
//!
//! What a call into the pool or the database gives back depends on the machine:
//! on the file, on locks, on who else holds a connection. The contracts here say
//! only what holds of every outcome.

use std::path::PathBuf;

use r2d2::{Pool, PooledConnection};
use r2d2_sqlite::SqliteConnectionManager;

use crate::transaction::Stage;
use crate::visit::Turn;
use vstd::prelude::*;

verus! {

/// Declares `r2d2_sqlite::SqliteConnectionManager`, which opens connections.
#[verifier::external_type_specification]
#[verifier::external_body]
pub struct ExSqliteConnectionManager(SqliteConnectionManager);

/// Declares `rusqlite::Connection`.
#[verifier::external_type_specification]
#[verifier::external_body]
pub struct ExConnection(rusqlite::Connection);

/// Declares `rusqlite::Transaction`.
#[verifier::external_type_specification]
#[verifier::external_body]
pub struct ExTransaction<'conn>(rusqlite::Transaction<'conn>);

/// SQLite's flag for opening a database for reading and writing.
pub const OPEN_READ_WRITE: i32 = 2;

/// SQLite's flag for creating a database that does not exist yet.
pub const OPEN_CREATE: i32 = 4;

/// The manager that `SqliteConnectionManager::file` makes of a path.
pub uninterp spec fn file_manager(path: PathBuf) -> SqliteConnectionManager;

/// Calls `SqliteConnectionManager::file`.
///
/// Claimed of it: the manager depends on the path alone.
#[verifier::external_body]
fn make_file_manager(path: &PathBuf) -> (manager: SqliteConnectionManager)
    ensures
        manager == file_manager(*path),
{
    SqliteConnectionManager::file(path)
}

/// The manager that `SqliteConnectionManager::with_flags` makes of a manager and
/// the bits of the flags to open connections with.
pub uninterp spec fn manager_with_flags(
    manager: SqliteConnectionManager,
    flags: i32,
) -> SqliteConnectionManager;

/// Calls `SqliteConnectionManager::with_flags` with the flags that have these
/// bits.
///
/// Claimed of it: the manager depends on the given manager and the bits alone.
#[verifier::external_body]
fn set_flags(manager: SqliteConnectionManager, flags: i32) -> (r:
    SqliteConnectionManager)
    ensures
        r == manager_with_flags(manager, flags),
{
    manager.with_flags(rusqlite::OpenFlags::from_bits_retain(flags))
}

/// The manager that opens the file `path` for reading and writing, and creates
/// it where it is missing.
pub open spec fn manager_for(path: PathBuf) -> SqliteConnectionManager {
    manager_with_flags(file_manager(path), OPEN_CREATE | OPEN_READ_WRITE)
}

/// A pool of SQLite connections: `r2d2::Pool` over `SqliteConnectionManager`.
///
/// Cloning a handle to it or using it through a shared reference changes which
/// connections are idle, never what it was built with. It is opaque because
/// `Pool` is bounded by a trait, `r2d2::ManageConnection`, that the verifier does
/// not know.
#[verifier::external_body]
pub struct SqlitePool {
    inner: Pool<SqliteConnectionManager>,
}

/// The manager that a pool was built with.
pub uninterp spec fn pool_manager(pool: SqlitePool) -> SqliteConnectionManager;

/// The number of connections that a pool holds at most, which `Pool::max_size`
/// gives.
pub uninterp spec fn pool_limit(pool: SqlitePool) -> u32;

/// A connection on loan from a pool, to which it goes back when dropped:
/// `r2d2::PooledConnection` over `SqliteConnectionManager`. It is opaque for the
/// same reason.
#[verifier::external_body]
pub struct Lease {
    inner: PooledConnection<SqliteConnectionManager>,
}

/// The pool that a connection is on loan from.
pub uninterp spec fn lease_pool(lease: Lease) -> SqlitePool;

/// The connection on loan.
pub uninterp spec fn lease_connection(lease: Lease) -> rusqlite::Connection;

/// What becomes of a transaction that is dropped before it ended, as in
/// `rusqlite::DropBehavior`.
pub enum DropAction {
    /// It is rolled back.
    Rollback,
    /// It is committed.
    Commit,
    /// It stays open.
    Ignore,
    /// The program panics.
    Panic,
}

/// What becomes of a transaction that is dropped before it ended, which
/// `Transaction::drop_behavior` gives.
pub uninterp spec fn drop_action(tx: rusqlite::Transaction<'_>) -> DropAction;

/// The connection that a transaction is on.
pub uninterp spec fn transaction_connection(tx: rusqlite::Transaction<'_>) -> rusqlite::Connection;

impl SqlitePool {
    /// Calls `r2d2::Builder::build` on a builder whose `max_size` is `limit`, which
    /// must not be zero. It waits until the pool is full.
    ///
    /// Claimed of it: a pool that comes back holds the manager and the limit.
    /// Whether one comes back depends on the database.
    #[verifier::external_body]
    fn build(limit: u32, manager: SqliteConnectionManager) -> (r: Result<SqlitePool, r2d2::Error>)
        requires
            limit > 0,
        ensures
            r matches Ok(pool) ==> pool_manager(pool) == manager,
            r matches Ok(pool) ==> pool_limit(pool) == limit,
    {
        match Pool::builder().max_size(limit).build(manager) {
            Ok(inner) => Ok(SqlitePool { inner }),
            Err(error) => Err(error),
        }
    }

    /// `built` is what building a pool for at most `limit` connections of `manager`
    /// gave.
    pub closed spec fn came_of(
        limit: u32,
        manager: SqliteConnectionManager,
        built: Result<SqlitePool, r2d2::Error>,
    ) -> bool {
        call_ensures(SqlitePool::build, (limit, manager), built)
    }

    /// Builds a pool for at most `limit` connections to the file `path`.
    pub fn for_file(path: &PathBuf, limit: u32) -> (built: Result<SqlitePool, r2d2::Error>)
        requires
            limit > 0,
        ensures
            SqlitePool::came_of(limit, manager_for(*path), built),
            SqlitePool::came_of(limit, manager_with_flags(file_manager(*path), 6), built),
            built matches Ok(pool) ==> pool_manager(pool) == manager_for(*path),
            built matches Ok(pool) ==> pool_manager(pool) == manager_with_flags(
                file_manager(*path),
                6,
            ),
            built matches Ok(pool) ==> pool_limit(pool) == limit,
    {
        proof {
            law_manager_reads_writes_and_creates(*path);
        }
        let manager = set_flags(make_file_manager(path), OPEN_CREATE | OPEN_READ_WRITE);
        SqlitePool::build(limit, manager)
    }

    /// Calls `r2d2::Pool::get`. It waits for a connection until the pool's timeout.
    ///
    /// Claimed of it: a connection that comes back is on loan from this pool.
    /// Whether one comes back depends on the database and on the other loans.
    #[verifier::external_body]
    fn acquire(&self) -> (r: Result<Lease, r2d2::Error>)
        ensures
            r matches Ok(lease) ==> lease_pool(lease) == *self,
    {
        match self.inner.get() {
            Ok(inner) => Ok(Lease { inner }),
            Err(error) => Err(error),
        }
    }

    /// `acquired` is what the pool gave when it was asked for a connection.
    pub closed spec fn gave(self, acquired: Result<Lease, r2d2::Error>) -> bool {
        call_ensures(SqlitePool::acquire, (&self,), acquired)
    }

    /// Asks for a connection, which uses up the turn to ask.
    pub fn get(&self, _turn: Turn) -> (acquired: Result<Lease, r2d2::Error>)
        ensures
            self.gave(acquired),
            acquired matches Ok(lease) ==> lease_pool(lease) == *self,
    {
        self.acquire()
    }
}

impl Lease {
    /// Calls `r2d2::PooledConnection::deref`.
    ///
    /// Claimed of it: it is the connection on loan.
    #[verifier::external_body]
    pub(crate) fn connection(&self) -> (connection: &rusqlite::Connection)
        ensures
            *connection == lease_connection(*self),
    {
        &self.inner
    }

    /// Calls `rusqlite::Connection::transaction` on the connection on loan.
    ///
    /// Claimed of it: a transaction that comes back is on this connection and is
    /// rolled back when dropped; the loan stays what it is. Whether one comes back
    /// depends on the database.
    #[verifier::external_body]
    fn begin<'conn>(&'conn mut self) -> (r: Result<
        rusqlite::Transaction<'conn>,
        rusqlite::Error,
    >)
        ensures
            r matches Ok(tx) ==> transaction_connection(tx) == lease_connection(*old(self)),
            r matches Ok(tx) ==> drop_action(tx) == DropAction::Rollback,
            lease_pool(*final(self)) == lease_pool(*old(self)),
            lease_connection(*final(self)) == lease_connection(*old(self)),
    {
        self.inner.transaction()
    }

    /// `begun` is what beginning a transaction on the connection on loan gave.
    pub closed spec fn began(
        self,
        begun: Result<rusqlite::Transaction<'_>, rusqlite::Error>,
    ) -> bool {
        exists|lease: &mut Lease|
            *lease == self && #[trigger] call_ensures(Lease::begin, (lease,), begun)
    }

    /// Begins a transaction on the connection on loan.
    pub fn transaction<'conn>(&'conn mut self) -> (begun: Result<
        rusqlite::Transaction<'conn>,
        rusqlite::Error,
    >)
        ensures
            old(self).began(begun),
            begun matches Ok(tx) ==> transaction_connection(tx) == lease_connection(*old(self)),
            begun matches Ok(tx) ==> drop_action(tx) == DropAction::Rollback,
            lease_pool(*final(self)) == lease_pool(*old(self)),
            lease_connection(*final(self)) == lease_connection(*old(self)),
    {
        self.begin()
    }
}

/// Drops a loan, which runs `drop` of `r2d2::PooledConnection`: the connection goes
/// back to the pool that it is on loan from.
///
/// There is no result to claim anything of.
#[verifier::external_body]
fn put_back(lease: Lease) {
    drop(lease)
}

/// The connection on loan was given back to its pool.
pub closed spec fn given_back(lease: Lease) -> bool {
    call_ensures(put_back, (lease,), ())
}

/// Gives a connection back to its pool.
pub fn give_back(lease: Lease)
    ensures
        given_back(lease),
{
    put_back(lease)
}

/// Calls `rusqlite::Transaction::commit`.
///
/// A transaction set to panic when dropped would panic where the commit fails,
/// so it is left out. Nothing is claimed of the result: whether the commit
/// succeeds depends on the database.
#[verifier::external_body]
fn end(tx: rusqlite::Transaction<'_>) -> (r: Result<(), rusqlite::Error>)
    requires
        drop_action(tx) != DropAction::Panic,
{
    tx.commit()
}

/// `committed` is what committing the transaction gave.
pub closed spec fn ended(
    tx: rusqlite::Transaction<'_>,
    committed: Result<(), rusqlite::Error>,
) -> bool {
    call_ensures(end, (tx,), committed)
}

/// Commits a transaction, which is to be done at no stage but the one that asks
/// for it.
pub fn commit<T>(_stage: &Stage<T>, tx: rusqlite::Transaction<'_>) -> (committed: Result<
    (),
    rusqlite::Error,
>)
    requires
        _stage is Commit,
        drop_action(tx) != DropAction::Panic,
    ensures
        ended(tx, committed),
{
    end(tx)
}

/// Drops a transaction, which runs `drop` of `rusqlite::Transaction`: where the
/// transaction is still open, it is ended as its drop action says.
///
/// A transaction set to panic when dropped would panic, so it is left out. There is
/// no result to claim anything of: the drop keeps a complaint of the database to
/// itself.
#[verifier::external_body]
fn let_go(tx: rusqlite::Transaction<'_>)
    requires
        drop_action(tx) != DropAction::Panic,
{
    drop(tx)
}

/// The transaction was dropped, and so ended as its drop action says: rolled back,
/// unless its body chose otherwise.
pub closed spec fn abandoned(tx: rusqlite::Transaction<'_>) -> bool {
    call_ensures(let_go, (tx,), ())
}

/// Abandons a transaction, which is to be done at no stage but the one that asks
/// for it.
pub fn abandon<T>(_stage: &Stage<T>, tx: rusqlite::Transaction<'_>)
    requires
        _stage is Abandon,
        drop_action(tx) != DropAction::Panic,
    ensures
        abandoned(tx),
{
    let_go(tx)
}

/// A pool that was built, or the error in its place, is what `Builder::build` gave for
/// that limit and manager.
proof fn law_pool_is_what_the_builder_gave(
    limit: u32,
    manager: SqliteConnectionManager,
    built: Result<SqlitePool, r2d2::Error>,
)
    ensures
        SqlitePool::came_of(limit, manager, built) <==> call_ensures(
            SqlitePool::build,
            (limit, manager),
            built,
        ),
{
}

/// A connection on loan, or the error in its place, is what `Pool::get` gave when it was
/// called on that pool.
proof fn law_loan_is_what_the_pool_gave(pool: SqlitePool, acquired: Result<Lease, r2d2::Error>)
    ensures
        pool.gave(acquired) <==> call_ensures(SqlitePool::acquire, (&pool,), acquired),
{
}

/// A transaction that began, or the error in its place, is what
/// `Connection::transaction` gave when it was called on the connection on loan.
proof fn law_transaction_is_what_the_connection_gave(
    lease: Lease,
    begun: Result<rusqlite::Transaction<'_>, rusqlite::Error>,
)
    requires
        lease.began(begun),
    ensures
        exists|borrowed: &mut Lease|
            *borrowed == lease && #[trigger] call_ensures(Lease::begin, (borrowed,), begun),
{
}

/// What committing a transaction gave is what `Transaction::commit` gave when it was
/// called on that transaction: one that was dropped instead was not committed.
proof fn law_commit_is_what_the_database_gave(
    tx: rusqlite::Transaction<'_>,
    committed: Result<(), rusqlite::Error>,
)
    ensures
        ended(tx, committed) <==> call_ensures(end, (tx,), committed),
{
}

/// A transaction that was abandoned was dropped as it was. The drop takes the
/// transaction, so nothing is left that could be committed.
proof fn law_abandoned_transaction_was_dropped(tx: rusqlite::Transaction<'_>)
    ensures
        abandoned(tx) <==> call_ensures(let_go, (tx,), ()),
{
}

/// A loan that was given back was dropped, which is what hands it to its pool.
proof fn law_loan_given_back_was_dropped(lease: Lease)
    ensures
        given_back(lease) <==> call_ensures(put_back, (lease,), ()),
{
}

/// A file is opened with two flags and no other: for reading and writing, which is 2 in
/// SQLite, and to be created where it is missing, which is 4.
pub proof fn law_manager_reads_writes_and_creates(path: PathBuf)
    ensures
        manager_for(path) == manager_with_flags(file_manager(path), 6),
        manager_for(path) == manager_with_flags(file_manager(path), 2i32 | 4i32),
{
    assert(4i32 | 2i32 == 6i32) by (bit_vector);
    assert(2i32 | 4i32 == 6i32) by (bit_vector);
}

/// A connection that a pool gives is on loan from that pool.
pub proof fn law_loan_is_from_the_pool(pool: SqlitePool, lease: Lease)
    requires
        pool.gave(Ok(lease)),
    ensures
        lease_pool(lease) == pool,
{
}

/// A transaction begins on the connection on loan, and is rolled back unless it
/// is brought to another end.
pub proof fn law_transaction_begins_ready_to_roll_back(
    lease: Lease,
    tx: rusqlite::Transaction<'_>,
)
    requires
        lease.began(Ok(tx)),
    ensures
        transaction_connection(tx) == lease_connection(lease),
        drop_action(tx) == DropAction::Rollback,
{
}

/// A pool that was built has the manager and the limit that it was built with.
pub proof fn law_pool_keeps_what_it_was_built_with(
    limit: u32,
    manager: SqliteConnectionManager,
    pool: SqlitePool,
)
    requires
        SqlitePool::came_of(limit, manager, Ok(pool)),
    ensures
        pool_limit(pool) == limit,
        pool_manager(pool) == manager,
{
}

} // verus!

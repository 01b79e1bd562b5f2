# async_sqlite

SQLite work on a pool of connections, run through a choice of executors.

A job is a closure over a connection or a transaction. The adapter takes a
connection from its pool, runs the job where its executor runs things, and folds
every way in which that can fail into one error.

* `src/` is the library, verified with Verus. Its jobs block: they are what an
  executor runs. `src/sqlite.rs` holds the calls into the pool and the database,
  with what is taken for granted of each.
* `app/` awaits those jobs on Tokio, async-std, smol and the rest.
* `tests/` runs the library on real databases.

What is proved, in short:

* A job goes through the executor of its adapter and runs on a connection of the
  adapter's own pool, and its value or error comes out as it is. The connection is
  then given back. Without a connection the job is not run, and the pool's error
  comes out.
* What an executor reports in place of a value comes out under `Blocking`. Apart
  from that, the choice of executor does not show.
* A transaction that comes to a value began, had that value from its body and was
  committed. Where the body fails, no commit is asked for: the transaction is
  dropped, which rolls it back unless the body chose another drop behaviour, and
  the error of the body comes out.
* Of two parallel jobs, both values come out, or the error of the first that
  failed.
* Of a configuration only the path and the number of connections have influence on
  what is opened.

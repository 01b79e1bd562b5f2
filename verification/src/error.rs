//! The errors of the library.

use vstd::prelude::*;
use vstd::string::StringExecFns;

verus! {

/// Declares `rusqlite::Error`; nothing is claimed of what it holds.
#[verifier::external_type_specification]
#[verifier::external_body]
pub struct ExSqliteError(rusqlite::Error);

/// Declares `r2d2::Error`; nothing is claimed of what it holds.
#[verifier::external_type_specification]
#[verifier::external_body]
pub struct ExPoolError(r2d2::Error);

/// Declares `std::io::Error`; nothing is claimed of what it holds.
#[verifier::external_type_specification]
#[verifier::external_body]
pub struct ExIoError(std::io::Error);

/// What can go wrong with a job.
#[derive(Debug)]
pub enum DatabaseError {
    /// SQLite refused a statement, or a transaction did not begin or commit.
    Sqlite(rusqlite::Error),
    /// The pool could not be built or had no connection to give.
    Pool(r2d2::Error),
    /// The executor did not bring the job to an end.
    Blocking(BlockingError),
    /// Input or output failed.
    Io(std::io::Error),
    /// A migration failed, for the reason given.
    Migration(String),
}

/// What can go wrong with running a job on an executor.
#[derive(Debug)]
pub enum BlockingError {
    /// The job panicked.
    TaskPanicked,
}

impl From<rusqlite::Error> for DatabaseError {
    fn from(error: rusqlite::Error) -> (r: Self) {
        DatabaseError::Sqlite(error)
    }
}

impl vstd::std_specs::convert::FromSpecImpl<rusqlite::Error> for DatabaseError {
    open spec fn obeys_from_spec() -> bool {
        true
    }

    open spec fn from_spec(error: rusqlite::Error) -> Self {
        DatabaseError::Sqlite(error)
    }
}

impl From<r2d2::Error> for DatabaseError {
    fn from(error: r2d2::Error) -> (r: Self) {
        DatabaseError::Pool(error)
    }
}

impl vstd::std_specs::convert::FromSpecImpl<r2d2::Error> for DatabaseError {
    open spec fn obeys_from_spec() -> bool {
        true
    }

    open spec fn from_spec(error: r2d2::Error) -> Self {
        DatabaseError::Pool(error)
    }
}

impl From<BlockingError> for DatabaseError {
    fn from(error: BlockingError) -> (r: Self) {
        DatabaseError::Blocking(error)
    }
}

impl vstd::std_specs::convert::FromSpecImpl<BlockingError> for DatabaseError {
    open spec fn obeys_from_spec() -> bool {
        true
    }

    open spec fn from_spec(error: BlockingError) -> Self {
        DatabaseError::Blocking(error)
    }
}

impl From<std::io::Error> for DatabaseError {
    fn from(error: std::io::Error) -> (r: Self) {
        DatabaseError::Io(error)
    }
}

impl vstd::std_specs::convert::FromSpecImpl<std::io::Error> for DatabaseError {
    open spec fn obeys_from_spec() -> bool {
        true
    }

    open spec fn from_spec(error: std::io::Error) -> Self {
        DatabaseError::Io(error)
    }
}

/// `label`, then what went wrong.
pub fn labelled(label: &str, detail: &str) -> (text: String)
    ensures
        text@ == label@ + detail@,
{
    let mut text = String::from_str(label);
    text.append(detail);
    text
}

impl BlockingError {
    /// What `message` returns.
    pub open spec fn text(self) -> Seq<char> {
        match self {
            BlockingError::TaskPanicked => "Blocking task panicked"@,
        }
    }

    /// The error in words.
    pub fn message(&self) -> (text: String)
        ensures
            text@ == self.text(),
    {
        match self {
            BlockingError::TaskPanicked => String::from_str("Blocking task panicked"),
        }
    }
}

/// `text` is `label` followed by what the error shows of itself: `shown` is a
/// string that its `to_string` gives.
pub open spec fn shows<T: std::fmt::Display>(label: Seq<char>, error: T, text: Seq<char>) -> bool {
    exists|shown: String|
        #[trigger] vstd::string::to_string_from_display_ensures::<T>(&error, shown) && text == label
            + shown@
}

impl DatabaseError {
    /// `text` is the error in words: its kind, then its cause.
    pub open spec fn described_by(self, text: Seq<char>) -> bool {
        match self {
            DatabaseError::Sqlite(error) => shows("SQLite error: "@, error, text),
            DatabaseError::Pool(error) => shows("Pool error: "@, error, text),
            DatabaseError::Blocking(error) => text == "Blocking task error: "@ + error.text(),
            DatabaseError::Io(error) => shows("IO error: "@, error, text),
            DatabaseError::Migration(reason) => text == "Migration error: "@ + reason@,
        }
    }

    /// The error in words.
    pub fn message(&self) -> (text: String)
        ensures
            self.described_by(text@),
    {
        match self {
            DatabaseError::Sqlite(error) => labelled("SQLite error: ", error.to_string().as_str()),
            DatabaseError::Pool(error) => labelled("Pool error: ", error.to_string().as_str()),
            DatabaseError::Blocking(error) => labelled(
                "Blocking task error: ",
                error.message().as_str(),
            ),
            DatabaseError::Io(error) => labelled("IO error: ", error.to_string().as_str()),
            DatabaseError::Migration(reason) => labelled("Migration error: ", reason.as_str()),
        }
    }
}

/// What a job that was handed to an executor comes to: the job's own result, or
/// the executor's error under `Blocking`.
pub open spec fn settled<T>(
    outcome: Result<Result<T, DatabaseError>, BlockingError>,
) -> Result<T, DatabaseError> {
    match outcome {
        Ok(result) => result,
        Err(error) => Err(DatabaseError::Blocking(error)),
    }
}

/// Folds the result of a job and that of running it into one.
pub fn settle<T>(outcome: Result<Result<T, DatabaseError>, BlockingError>) -> (r: Result<
    T,
    DatabaseError,
>)
    ensures
        r == settled(outcome),
{
    match outcome {
        Ok(result) => result,
        Err(error) => Err(DatabaseError::from(error)),
    }
}

/// What two jobs come to together: both values, or the error of the first that
/// failed, in the order of the arguments.
pub open spec fn paired<T1, T2>(
    first: Result<T1, DatabaseError>,
    second: Result<T2, DatabaseError>,
) -> Result<(T1, T2), DatabaseError> {
    match first {
        Ok(a) => match second {
            Ok(b) => Ok((a, b)),
            Err(error) => Err(error),
        },
        Err(error) => Err(error),
    }
}

/// Folds the results of two jobs into one.
pub fn pair<T1, T2>(
    first: Result<T1, DatabaseError>,
    second: Result<T2, DatabaseError>,
) -> (r: Result<(T1, T2), DatabaseError>)
    ensures
        r == paired(first, second),
    opens_invariants none
{
    match first {
        Ok(a) => match second {
            Ok(b) => Ok((a, b)),
            Err(error) => Err(error),
        },
        Err(error) => Err(error),
    }
}

/// A job succeeds with a value exactly where it ran to its end and returned that
/// value.
pub proof fn law_success_is_the_value_of_the_job<T>(
    outcome: Result<Result<T, DatabaseError>, BlockingError>,
    value: T,
)
    ensures
        settled(outcome) == Ok::<T, DatabaseError>(value) <==> outcome == Ok::<
            Result<T, DatabaseError>,
            BlockingError,
        >(Ok(value)),
{
}

/// An error of the job comes out unchanged, and an error of the executor comes
/// out under `Blocking`.
pub proof fn law_no_error_is_lost<T>(error: DatabaseError, panic: BlockingError)
    ensures
        settled::<T>(Ok(Err(error))) == Err::<T, DatabaseError>(error),
        settled::<T>(Err(panic)) == Err::<T, DatabaseError>(DatabaseError::Blocking(panic)),
{
}

/// Two jobs succeed together exactly where each succeeds, each with its own
/// value.
pub proof fn law_pair_succeeds_where_both_do<T1, T2>(
    first: Result<T1, DatabaseError>,
    second: Result<T2, DatabaseError>,
    a: T1,
    b: T2,
)
    ensures
        paired(first, second) == Ok::<(T1, T2), DatabaseError>((a, b)) <==> first == Ok::<
            T1,
            DatabaseError,
        >(a) && second == Ok::<T2, DatabaseError>(b),
{
}

/// Of two jobs, the error of the first comes out whatever the second did, and
/// the error of the second comes out where the first succeeded.
pub proof fn law_pair_fails_with_the_first_error<T1, T2>(
    first: Result<T1, DatabaseError>,
    second: Result<T2, DatabaseError>,
    error: DatabaseError,
)
    ensures
        paired(first, second) == Err::<(T1, T2), DatabaseError>(error) <==> first == Err::<
            T1,
            DatabaseError,
        >(error) || first is Ok && second == Err::<T2, DatabaseError>(error),
{
}

/// The words for an error are those of its kind followed by those of its cause, for
/// every cause.
pub proof fn law_words_are_the_kind_then_the_cause(error: DatabaseError, text: Seq<char>)
    requires
        error.described_by(text),
    ensures
        match error {
            DatabaseError::Sqlite(cause) => exists|shown: String|
                #[trigger] vstd::string::to_string_from_display_ensures::<rusqlite::Error>(
                    &cause,
                    shown,
                ) && text == "SQLite error: "@ + shown@,
            DatabaseError::Pool(cause) => exists|shown: String|
                #[trigger] vstd::string::to_string_from_display_ensures::<r2d2::Error>(
                    &cause,
                    shown,
                ) && text == "Pool error: "@ + shown@,
            DatabaseError::Blocking(_) => text == "Blocking task error: "@
                + "Blocking task panicked"@,
            DatabaseError::Io(cause) => exists|shown: String|
                #[trigger] vstd::string::to_string_from_display_ensures::<std::io::Error>(
                    &cause,
                    shown,
                ) && text == "IO error: "@ + shown@,
            DatabaseError::Migration(reason) => text == "Migration error: "@ + reason@,
        },
{
}

} // verus!

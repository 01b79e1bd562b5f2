//! The course of a transaction.
//!
//! A transaction is a conversation with the outside: connect, begin, run the
//! body, then commit or abandon. `Stage` says what is to be done next, and each
//! answer moves it on. The stage alone decides how an open transaction ends.

use crate::error::DatabaseError;
use vstd::prelude::*;

verus! {

/// What is to be done next.
pub enum Stage<T> {
    /// Take a connection from the pool.
    Connect,
    /// Begin a transaction on it.
    Begin,
    /// Run the body.
    Body,
    /// Commit; the value is what the body returned.
    Commit(T),
    /// Abandon the transaction, which then ends as its drop action says; the error
    /// is what the body returned.
    Abandon(DatabaseError),
    /// Nothing: the transaction came to this result.
    Finished(Result<T, DatabaseError>),
}

/// What doing it gave.
pub enum Answer<T> {
    /// There is a connection.
    Connected,
    /// There is no connection, for this reason.
    NotConnected(r2d2::Error),
    /// There is an open transaction.
    Begun,
    /// There is no transaction, for this reason.
    NotBegun(rusqlite::Error),
    /// The body returned this.
    Returned(Result<T, DatabaseError>),
    /// The transaction is committed.
    Committed,
    /// The transaction is not committed, for this reason.
    NotCommitted(rusqlite::Error),
    /// The transaction is abandoned.
    Abandoned,
}

impl<T> Stage<T> {
    /// `answer` is an answer to what is to be done at this stage.
    pub open spec fn awaits(self, answer: Answer<T>) -> bool {
        match self {
            Stage::Connect => answer is Connected || answer is NotConnected,
            Stage::Begin => answer is Begun || answer is NotBegun,
            Stage::Body => answer is Returned,
            Stage::Commit(_) => answer is Committed || answer is NotCommitted,
            Stage::Abandon(_) => answer is Abandoned,
            Stage::Finished(_) => false,
        }
    }

    /// The stage after `answer`. An answer that is not awaited changes nothing.
    pub open spec fn after(self, answer: Answer<T>) -> Stage<T> {
        match (self, answer) {
            (Stage::Connect, Answer::Connected) => Stage::Begin,
            (Stage::Connect, Answer::NotConnected(error)) => Stage::Finished(
                Err(DatabaseError::Pool(error)),
            ),
            (Stage::Begin, Answer::Begun) => Stage::Body,
            (Stage::Begin, Answer::NotBegun(error)) => Stage::Finished(
                Err(DatabaseError::Sqlite(error)),
            ),
            (Stage::Body, Answer::Returned(Ok(value))) => Stage::Commit(value),
            (Stage::Body, Answer::Returned(Err(error))) => Stage::Abandon(error),
            (Stage::Commit(value), Answer::Committed) => Stage::Finished(Ok(value)),
            (Stage::Commit(_), Answer::NotCommitted(error)) => Stage::Finished(
                Err(DatabaseError::Sqlite(error)),
            ),
            (Stage::Abandon(error), Answer::Abandoned) => Stage::Finished(Err(error)),
            _ => self,
        }
    }

    /// The stage after all of `answers`, the first first.
    pub open spec fn after_all(self, answers: Seq<Answer<T>>) -> Stage<T>
        decreases answers.len(),
    {
        if answers.len() == 0 {
            self
        } else {
            self.after_all(answers.drop_last()).after(answers.last())
        }
    }

    /// Each of `answers` is awaited when it comes.
    pub open spec fn awaits_all(self, answers: Seq<Answer<T>>) -> bool {
        forall|i: int|
            0 <= i < answers.len() ==> self.after_all(answers.take(i)).awaits(
                #[trigger] answers[i],
            )
    }

    /// Moves on to the stage after `answer`.
    pub fn advance(self, answer: Answer<T>) -> (next: Stage<T>)
        requires
            self.awaits(answer),
        ensures
            next == self.after(answer),
    {
        match (self, answer) {
            (Stage::Connect, Answer::Connected) => Stage::Begin,
            (Stage::Connect, Answer::NotConnected(error)) => Stage::Finished(
                Err(DatabaseError::Pool(error)),
            ),
            (Stage::Begin, Answer::Begun) => Stage::Body,
            (Stage::Begin, Answer::NotBegun(error)) => Stage::Finished(
                Err(DatabaseError::Sqlite(error)),
            ),
            (Stage::Body, Answer::Returned(Ok(value))) => Stage::Commit(value),
            (Stage::Body, Answer::Returned(Err(error))) => Stage::Abandon(error),
            (Stage::Commit(value), Answer::Committed) => Stage::Finished(Ok(value)),
            (Stage::Commit(_), Answer::NotCommitted(error)) => Stage::Finished(
                Err(DatabaseError::Sqlite(error)),
            ),
            (Stage::Abandon(error), Answer::Abandoned) => Stage::Finished(Err(error)),
            (stage, _) => stage,
        }
    }

    /// Whether a commit is to be done next.
    pub fn asks_for_commit(&self) -> (r: bool)
        ensures
            r == (self is Commit),
    {
        match self {
            Stage::Commit(_) => true,
            _ => false,
        }
    }

    /// What the transaction came to.
    pub fn result(self) -> (r: Result<T, DatabaseError>)
        requires
            self is Finished,
        ensures
            self == Stage::Finished(r),
    {
        match self {
            Stage::Finished(r) => r,
            _ => vstd::pervasive::unreached(),
        }
    }
}

/// One more answer moves a transaction on by one stage.
pub proof fn lemma_one_more_answer<T>(answers: Seq<Answer<T>>, answer: Answer<T>)
    requires
        Stage::<T>::Connect.awaits_all(answers),
        Stage::<T>::Connect.after_all(answers).awaits(answer),
    ensures
        Stage::<T>::Connect.awaits_all(answers.push(answer)),
        Stage::<T>::Connect.after_all(answers.push(answer)) == Stage::<T>::Connect.after_all(
            answers,
        ).after(answer),
{
    let more = answers.push(answer);
    assert(more.drop_last() =~= answers);
    assert forall|i: int| 0 <= i < more.len() implies Stage::<T>::Connect.after_all(
        more.take(i),
    ).awaits(#[trigger] more[i]) by {
        assert(more.take(i) =~= answers.take(i));
        if i < answers.len() {
            assert(more[i] == answers[i]);
        } else {
            assert(answers.take(i) =~= answers);
        }
    }
}

/// `answer` tells how an open transaction ended.
pub open spec fn is_ending<T>(answer: Answer<T>) -> bool {
    answer is Committed || answer is NotCommitted || answer is Abandoned
}

/// The stages that a transaction goes through, one answer at a time.
proof fn lemma_stages<T>(answers: Seq<Answer<T>>)
    requires
        Stage::<T>::Connect.awaits_all(answers),
    ensures
        answers.len() <= 4,
        answers.len() == 0 ==> Stage::<T>::Connect.after_all(answers) == Stage::<T>::Connect,
        answers.len() > 0 ==> answers[0] is Connected || answers[0] is NotConnected,
        answers.len() == 1 ==> Stage::<T>::Connect.after_all(answers) == Stage::<T>::Connect.after(
            answers[0],
        ),
        answers.len() > 1 ==> answers[0] is Connected && (answers[1] is Begun
            || answers[1] is NotBegun),
        answers.len() == 2 ==> Stage::<T>::Connect.after_all(answers) == Stage::<T>::Begin.after(
            answers[1],
        ),
        answers.len() > 2 ==> answers[1] is Begun && answers[2] is Returned,
        answers.len() == 3 ==> Stage::<T>::Connect.after_all(answers) == Stage::<T>::Body.after(
            answers[2],
        ),
        answers.len() > 3 ==> is_ending(answers[3]),
        answers.len() > 3 ==> Stage::<T>::Connect.after_all(answers) == Stage::<T>::Body.after(
            answers[2],
        ).after(answers[3]),
        answers.len() > 3 ==> Stage::<T>::Body.after(answers[2]).awaits(answers[3]),
    decreases answers.len(),
{
    if answers.len() > 0 {
        let before = answers.drop_last();
        let last = answers.len() - 1;
        assert forall|i: int| 0 <= i < before.len() implies Stage::<T>::Connect.after_all(
            before.take(i),
        ).awaits(#[trigger] before[i]) by {
            assert(before.take(i) =~= answers.take(i));
            assert(answers[i] == before[i]);
        }
        lemma_stages(before);
        assert(answers.take(last) =~= before);
        assert(Stage::<T>::Connect.after_all(answers.take(last)).awaits(answers[last]));
    }
}

/// The answers to a transaction come in one order: the connection, the begin, the
/// body, the end. So each is given at most once, and there are at most four.
pub proof fn law_answers_come_in_order<T>(answers: Seq<Answer<T>>)
    requires
        Stage::<T>::Connect.awaits_all(answers),
    ensures
        answers.len() <= 4,
        answers.len() > 0 ==> answers[0] is Connected || answers[0] is NotConnected,
        answers.len() > 1 ==> answers[1] is Begun || answers[1] is NotBegun,
        answers.len() > 2 ==> answers[2] is Returned,
        answers.len() > 3 ==> is_ending(answers[3]),
{
    lemma_stages(answers);
}

/// A transaction comes to a value exactly where it got a connection, began, had
/// that value from its body and was committed.
pub proof fn law_success_takes_every_step<T>(answers: Seq<Answer<T>>, value: T)
    requires
        Stage::<T>::Connect.awaits_all(answers),
    ensures
        Stage::<T>::Connect.after_all(answers) == Stage::Finished(Ok::<T, DatabaseError>(value))
            <==> answers =~= seq![
            Answer::Connected,
            Answer::Begun,
            Answer::Returned(Ok(value)),
            Answer::Committed,
        ],
{
    lemma_stages(answers);
}

/// A commit is asked for exactly where the body was run and succeeded, and
/// nothing came after.
pub proof fn law_commit_is_asked_for_only_after_success<T>(answers: Seq<Answer<T>>, value: T)
    requires
        Stage::<T>::Connect.awaits_all(answers),
    ensures
        Stage::<T>::Connect.after_all(answers) == Stage::Commit(value) <==> answers =~= seq![
            Answer::Connected,
            Answer::Begun,
            Answer::Returned(Ok(value)),
        ],
{
    lemma_stages(answers);
}

/// No commit is asked for where the body fails: the transaction is abandoned, and
/// then has come to the error of the body.
pub proof fn law_no_commit_is_asked_for_after_a_failed_body<T>(
    answers: Seq<Answer<T>>,
    i: int,
    error: DatabaseError,
)
    requires
        Stage::<T>::Connect.awaits_all(answers),
        0 <= i < answers.len(),
        answers[i] == Answer::<T>::Returned(Err(error)),
    ensures
        forall|j: int|
            0 <= j < answers.len() ==> !(#[trigger] answers[j] is Committed)
                && !(answers[j] is NotCommitted),
        Stage::<T>::Connect.after_all(answers) == if answers.last() is Abandoned {
            Stage::<T>::Finished(Err(error))
        } else {
            Stage::<T>::Abandon(error)
        },
{
    lemma_stages(answers);
}

/// A transaction that began is not finished before it ended, by a commit where
/// its body succeeded and by being abandoned where it failed.
pub proof fn law_open_transaction_is_ended<T>(answers: Seq<Answer<T>>)
    requires
        Stage::<T>::Connect.awaits_all(answers),
        answers.contains(Answer::Begun),
        Stage::<T>::Connect.after_all(answers) is Finished,
    ensures
        answers.len() == 4,
        answers[2] matches Answer::Returned(result) && if result is Ok {
            answers[3] is Committed || answers[3] is NotCommitted
        } else {
            answers[3] is Abandoned
        },
{
    lemma_stages(answers);
    let i = choose|i: int| 0 <= i < answers.len() && answers[i] == Answer::<T>::Begun;
    assert(i == 1);
}

/// A transaction that fails does so with the error of its last answer, or of its
/// body where it was abandoned.
pub proof fn law_failure_is_the_last_error<T>(answers: Seq<Answer<T>>, error: DatabaseError)
    requires
        Stage::<T>::Connect.awaits_all(answers),
    ensures
        Stage::<T>::Connect.after_all(answers) == Stage::<T>::Finished(Err(error))
            <==> answers.len() > 0 && match answers.last() {
            Answer::NotConnected(cause) => error == DatabaseError::Pool(cause),
            Answer::NotBegun(cause) => error == DatabaseError::Sqlite(cause),
            Answer::NotCommitted(cause) => error == DatabaseError::Sqlite(cause),
            Answer::Abandoned => answers[answers.len() - 2] == Answer::<T>::Returned(Err(error)),
            _ => false,
        },
{
    lemma_stages(answers);
}

/// A transaction that is finished awaits nothing, and one that is not awaits an
/// answer.
pub proof fn law_only_a_finished_transaction_awaits_nothing<T>(stage: Stage<T>)
    ensures
        stage is Finished <==> forall|answer: Answer<T>| !#[trigger] stage.awaits(answer),
{
    let connected: Answer<T> = Answer::Connected;
    let begun: Answer<T> = Answer::Begun;
    let returned: Answer<T> = Answer::Returned(arbitrary());
    let committed: Answer<T> = Answer::Committed;
    let abandoned: Answer<T> = Answer::Abandoned;
    assert(stage is Finished || stage.awaits(connected) || stage.awaits(begun) || stage.awaits(
        returned,
    ) || stage.awaits(committed) || stage.awaits(abandoned));
}

} // verus!

//! The question repository's single-statement operations.
//!
//! Each operation is split into its two pure halves: building the
//! statement to issue (with every bound value), and classifying the
//! outcome the store handed back.  The unverified shell issues the
//! statement in between.  Deletion and like-increment run as transactions
//! and live in [`crate::tx`].

use vstd::prelude::*;

use crate::ids::{uuid_str_valid, uuid_value_of, EntityId, Uuid};
use crate::models::{DbError, NewQuestion, Question, StoreError};
use crate::rows::{question_from_row, question_of_row, questions_from_rows, RawRow};
use crate::store::{FetchOutcome, Statement};

verus! {

/// The insert statement for a new question.  The store assigns the
/// identifier and the creation timestamp; only title and body are bound.
pub fn create_question_statement(new_question: NewQuestion) -> (s: Statement)
    ensures
        s == (Statement::InsertQuestion {
            title: new_question.title,
            question: new_question.question,
        }),
{
    Statement::InsertQuestion { title: new_question.title, question: new_question.question }
}

/// Classifies the insert's outcome: the returned identifier on success,
/// and `Creation` for every way the insert statement could not execute,
/// an unavailable connection included.
pub fn create_question_outcome(outcome: FetchOutcome<Uuid>) -> (r: Result<Uuid, DbError>)
    ensures
        (outcome matches FetchOutcome::Row(u) ==> r == Ok::<Uuid, DbError>(u)),
        (outcome matches FetchOutcome::Missing(e) ==> r == Err::<Uuid, DbError>(
            DbError::Creation(e),
        )),
        (outcome matches FetchOutcome::Failed(e) ==> r == Err::<Uuid, DbError>(
            DbError::Creation(e),
        )),
{
    match outcome {
        FetchOutcome::Row(u) => Ok(u),
        FetchOutcome::Missing(e) => Err(DbError::Creation(e)),
        FetchOutcome::Failed(e) => Err(DbError::Creation(e)),
    }
}

/// The single-row select for one question.  A string that is not in the
/// canonical identifier form fails with `InvalidUuid` at once: no
/// statement is issued.
pub fn get_question_statement(question_id: EntityId) -> (r: Result<Statement, DbError>)
    ensures
        uuid_str_valid(question_id@) ==> r == Ok::<Statement, DbError>(
            Statement::SelectQuestion { id: Uuid { value: uuid_value_of(question_id@) as u128 } },
        ),
        !uuid_str_valid(question_id@) ==> (r matches Err(e) && e matches DbError::InvalidUuid(m)
            && m@ == "unable to parse as uuid"@),
{
    match question_id.resolve() {
        Ok(u) => Ok(Statement::SelectQuestion { id: u }),
        Err(msg) => Err(DbError::InvalidUuid(msg)),
    }
}

/// Classifies the single-row fetch: the mapped question on success, a
/// `FromRow` error for a row that does not carry the declared columns,
/// and `NotFound` both when no row matched and when the fetch itself
/// failed.
pub fn get_question_outcome(outcome: FetchOutcome<RawRow>) -> (r: Result<Question, DbError>)
    ensures
        (outcome matches FetchOutcome::Row(row) ==> (match question_of_row(row.cols@) {
            Some(v) => r matches Ok(q) && q@ == v,
            None => r matches Err(e) && e matches DbError::FromRow(_),
        })),
        (outcome matches FetchOutcome::Missing(e) ==> r == Err::<Question, DbError>(
            DbError::NotFound(e),
        )),
        (outcome matches FetchOutcome::Failed(e) ==> r == Err::<Question, DbError>(
            DbError::NotFound(e),
        )),
{
    match outcome {
        FetchOutcome::Row(row) => question_from_row(&row),
        FetchOutcome::Missing(e) => Err(DbError::NotFound(e)),
        FetchOutcome::Failed(e) => Err(DbError::NotFound(e)),
    }
}

/// The bulk select over the whole questions table.
pub fn get_questions_statement() -> (s: Statement)
    ensures
        s == Statement::SelectQuestions,
{
    Statement::SelectQuestions
}

/// Classifies the bulk read.  A query that could not execute at all is
/// `Access`; an empty table is an empty sequence, not an error; and one
/// unmappable row aborts the whole operation with `FromRow` rather than
/// dropping rows.
pub fn get_questions_outcome(outcome: Result<Vec<RawRow>, StoreError>) -> (r: Result<
    Vec<Question>,
    DbError,
>)
    ensures
        (outcome matches Err(e) ==> r == Err::<Vec<Question>, DbError>(DbError::Access(e))),
        (outcome matches Ok(rows) ==> {
            &&& (r matches Ok(qs) ==> qs@.len() == rows@.len() && (forall|i: int|
                0 <= i < rows@.len() ==> #[trigger] question_of_row(rows@[i].cols@) == Some(
                    qs@[i]@,
                )))
            &&& (r matches Err(e) ==> (e matches DbError::FromRow(_)) && (exists|i: int|
                0 <= i < rows@.len() && #[trigger] question_of_row(rows@[i].cols@) is None))
        }),
{
    match outcome {
        Ok(rows) => questions_from_rows(rows),
        Err(e) => Err(DbError::Access(e)),
    }
}

} // verus!

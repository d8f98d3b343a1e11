//! The answer repository's single-statement operations.
//!
//! The one structural difference from the question repository: creating
//! an answer carries a `question_id` as a plain string, which must itself
//! resolve to a native identifier before any insert is attempted.  The
//! insert's referential-integrity check — that the identifier names an
//! existing question — is the store's, and its failure surfaces as
//! `Creation` like every other insert failure.

use vstd::prelude::*;

use crate::ids::{parse_uuid, uuid_str_valid, uuid_value_of, EntityId, Uuid};
use crate::models::{Answer, DbError, NewAnswer, StoreError};
use crate::rows::{answer_from_row, answer_of_row, answers_from_rows, RawRow};
use crate::store::{FetchOutcome, Statement};

verus! {

/// The insert statement for a new answer.  A `question_id` that is not in
/// the canonical identifier form fails with `InvalidUuid` before any
/// statement is issued; a well-formed one is bound into the insert as the
/// native identifier.
pub fn create_answer_statement(new_answer: NewAnswer) -> (r: Result<Statement, DbError>)
    ensures
        uuid_str_valid(new_answer.question_id@) ==> r == Ok::<Statement, DbError>(
            Statement::InsertAnswer {
                question_id: Uuid { value: uuid_value_of(new_answer.question_id@) as u128 },
                answer: new_answer.answer,
            },
        ),
        !uuid_str_valid(new_answer.question_id@) ==> (r matches Err(e) && e matches
            DbError::InvalidUuid(m) && m@ == "invalid uuid"@),
{
    match parse_uuid(new_answer.question_id.as_str()) {
        Some(question_id) => Ok(
            Statement::InsertAnswer { question_id, answer: new_answer.answer },
        ),
        None => Err(DbError::InvalidUuid("invalid uuid")),
    }
}

/// Classifies the insert's outcome: the returned identifier on success,
/// and `Creation` for every failure of the statement, the store's
/// referential-integrity rejection included.
pub fn create_answer_outcome(outcome: FetchOutcome<Uuid>) -> (r: Result<Uuid, DbError>)
    ensures
        (outcome matches FetchOutcome::Row(u) ==> r == Ok::<Uuid, DbError>(u)),
        (outcome matches FetchOutcome::Missing(e) ==> r == Err::<Uuid, DbError>(
            DbError::Creation(e),
        )),
        (outcome matches FetchOutcome::Failed(e) ==> r == Err::<Uuid, DbError>(
            DbError::Creation(e),
        )),
{
    match outcome {
        FetchOutcome::Row(u) => Ok(u),
        FetchOutcome::Missing(e) => Err(DbError::Creation(e)),
        FetchOutcome::Failed(e) => Err(DbError::Creation(e)),
    }
}

/// The single-row select for one answer.  A malformed identifier fails
/// with `InvalidUuid` at once: no statement is issued.
pub fn get_answer_statement(answer_id: EntityId) -> (r: Result<Statement, DbError>)
    ensures
        uuid_str_valid(answer_id@) ==> r == Ok::<Statement, DbError>(
            Statement::SelectAnswer { id: Uuid { value: uuid_value_of(answer_id@) as u128 } },
        ),
        !uuid_str_valid(answer_id@) ==> (r matches Err(e) && e matches DbError::InvalidUuid(m)
            && m@ == "unable to parse as uuid"@),
{
    match answer_id.resolve() {
        Ok(u) => Ok(Statement::SelectAnswer { id: u }),
        Err(msg) => Err(DbError::InvalidUuid(msg)),
    }
}

/// Classifies the single-row fetch for an answer, under the same rule as
/// for questions: `FromRow` for a malformed row, `NotFound` both when no
/// row matched and when the fetch itself failed.
pub fn get_answer_outcome(outcome: FetchOutcome<RawRow>) -> (r: Result<Answer, DbError>)
    ensures
        (outcome matches FetchOutcome::Row(row) ==> (match answer_of_row(row.cols@) {
            Some(v) => r matches Ok(a) && a@ == v,
            None => r matches Err(e) && e matches DbError::FromRow(_),
        })),
        (outcome matches FetchOutcome::Missing(e) ==> r == Err::<Answer, DbError>(
            DbError::NotFound(e),
        )),
        (outcome matches FetchOutcome::Failed(e) ==> r == Err::<Answer, DbError>(
            DbError::NotFound(e),
        )),
{
    match outcome {
        FetchOutcome::Row(row) => answer_from_row(&row),
        FetchOutcome::Missing(e) => Err(DbError::NotFound(e)),
        FetchOutcome::Failed(e) => Err(DbError::NotFound(e)),
    }
}

/// The bulk select over the answers of one question.  A malformed
/// question identifier fails with `InvalidUuid` at once.
pub fn get_answers_statement(question_id: EntityId) -> (r: Result<Statement, DbError>)
    ensures
        uuid_str_valid(question_id@) ==> r == Ok::<Statement, DbError>(
            Statement::SelectAnswersByQuestion {
                question_id: Uuid { value: uuid_value_of(question_id@) as u128 },
            },
        ),
        !uuid_str_valid(question_id@) ==> (r matches Err(e) && e matches DbError::InvalidUuid(m)
            && m@ == "unable to parse as uuid"@),
{
    match question_id.resolve() {
        Ok(u) => Ok(Statement::SelectAnswersByQuestion { question_id: u }),
        Err(msg) => Err(DbError::InvalidUuid(msg)),
    }
}

/// The bulk select over the whole answers table.
pub fn get_all_answers_statement() -> (s: Statement)
    ensures
        s == Statement::SelectAnswers,
{
    Statement::SelectAnswers
}

/// Classifies a bulk read of answers — scoped to one question or over the
/// whole table alike.  `Access` when the query could not execute, an
/// empty sequence for an empty result, and `FromRow` aborting the whole
/// operation on one unmappable row.
pub fn get_answers_outcome(outcome: Result<Vec<RawRow>, StoreError>) -> (r: Result<
    Vec<Answer>,
    DbError,
>)
    ensures
        (outcome matches Err(e) ==> r == Err::<Vec<Answer>, DbError>(DbError::Access(e))),
        (outcome matches Ok(rows) ==> {
            &&& (r matches Ok(vs) ==> vs@.len() == rows@.len() && (forall|i: int|
                0 <= i < rows@.len() ==> #[trigger] answer_of_row(rows@[i].cols@) == Some(
                    vs@[i]@,
                )))
            &&& (r matches Err(e) ==> (e matches DbError::FromRow(_)) && (exists|i: int|
                0 <= i < rows@.len() && #[trigger] answer_of_row(rows@[i].cols@) is None))
        }),
{
    match outcome {
        Ok(rows) => answers_from_rows(rows),
        Err(e) => Err(DbError::Access(e)),
    }
}

} // verus!

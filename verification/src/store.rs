//! The store interface, as data.
//!
//! The library never talks to the store itself: it hands an unverified
//! shell a description of the statement to issue, and takes the outcome
//! back as a plain value.  A [`Statement`] carries every bound value of a
//! single-statement operation; a [`FetchOutcome`] is the result of a
//! single-row fetch, with "no row matched" kept distinct from "the query
//! itself failed".

use vstd::prelude::*;

use crate::ids::Uuid;
use crate::models::StoreError;

verus! {

/// A single statement, with its bound values, for the shell to issue.
#[derive(Debug)]
pub enum Statement {
    /// `INSERT INTO questions (title, question) VALUES ($1, $2) RETURNING id`
    InsertQuestion { title: String, question: String },
    /// `SELECT * FROM questions WHERE id = $1`
    SelectQuestion { id: Uuid },
    /// `SELECT * FROM questions`
    SelectQuestions,
    /// `INSERT INTO answers (question_id, answer) VALUES ($1, $2) RETURNING id`
    InsertAnswer { question_id: Uuid, answer: String },
    /// `SELECT * FROM answers WHERE id = $1`
    SelectAnswer { id: Uuid },
    /// `SELECT * FROM answers WHERE question_id = $1`
    SelectAnswersByQuestion { question_id: Uuid },
    /// `SELECT * FROM answers`
    SelectAnswers,
}

/// The outcome of fetching a single row.
#[derive(Debug)]
pub enum FetchOutcome<T> {
    /// Exactly one row matched and decoded to `T`.
    Row(T),
    /// No row matched; the store's diagnostic for that.
    Missing(StoreError),
    /// The statement itself could not be executed.
    Failed(StoreError),
}

} // verus!

//! The entity model: questions, answers, their pre-persistence variants,
//! and the closed error taxonomy that every repository operation reports.
//!
//! Timestamps are carried as microseconds since the Unix epoch, the plain
//! value that the store's timestamp column denotes.

use vstd::prelude::*;
use vstd::string::StringExecFns;

use crate::ids::Uuid;

verus! {

/// A new question received from a request.
#[derive(Debug)]
pub struct NewQuestion {
    /// The title of the new question
    pub title: String,
    /// The content of the new question
    pub question: String,
}

/// The mathematical content of a persisted question.
pub struct QuestionView {
    pub id: int,
    pub title: Seq<char>,
    pub question: Seq<char>,
    pub likes: int,
    pub created_at: int,
}

/// A question that has been successfully persisted in the store.
#[derive(Debug)]
pub struct Question {
    /// The unique id of the question
    id: Uuid,
    /// The title of the question
    title: String,
    /// The content of the question
    question: String,
    /// The number of likes the question has received
    likes: i32,
    /// The moment the question was created, in microseconds since the epoch
    created_at: i64,
}

impl View for Question {
    type V = QuestionView;

    closed spec fn view(&self) -> QuestionView {
        QuestionView {
            id: self.id.value as int,
            title: self.title@,
            question: self.question@,
            likes: self.likes as int,
            created_at: self.created_at as int,
        }
    }
}

impl Question {
    pub fn new(id: Uuid, title: String, question: String, likes: i32, created_at: i64) -> (r:
        Self)
        ensures
            r@ == (QuestionView {
                id: id.value as int,
                title: title@,
                question: question@,
                likes: likes as int,
                created_at: created_at as int,
            }),
    {
        Self { id, title, question, likes, created_at }
    }

    pub fn builder() -> (r: QuestionBuilder)
        ensures
            r.id is None,
            r.title is None,
            r.question is None,
            r.likes is None,
            r.created_at is None,
    {
        QuestionBuilder::new()
    }

    pub fn id(&self) -> (r: Uuid)
        ensures
            r.value == self@.id,
    {
        self.id
    }

    pub fn title(&self) -> (r: &String)
        ensures
            r@ == self@.title,
    {
        &self.title
    }

    pub fn question(&self) -> (r: &String)
        ensures
            r@ == self@.question,
    {
        &self.question
    }

    pub fn likes(&self) -> (r: i32)
        ensures
            r == self@.likes,
    {
        self.likes
    }

    pub fn created_at(&self) -> (r: i64)
        ensures
            r == self@.created_at,
    {
        self.created_at
    }
}

/// A question under construction, before every attribute is known.
pub struct QuestionBuilder {
    pub id: Option<Uuid>,
    pub title: Option<String>,
    pub question: Option<String>,
    pub likes: Option<i32>,
    pub created_at: Option<i64>,
}

impl QuestionBuilder {
    fn new() -> (r: Self)
        ensures
            r.id is None,
            r.title is None,
            r.question is None,
            r.likes is None,
            r.created_at is None,
    {
        QuestionBuilder { id: None, title: None, question: None, likes: None, created_at: None }
    }
}

/// A new answer to an associated question received from a request.  The
/// embedded `question_id` is a plain string, not yet verified as a
/// well-formed identifier.
#[derive(Debug)]
pub struct NewAnswer {
    /// The id of the question the new answer is responding to
    pub question_id: String,
    /// The content of the new answer
    pub answer: String,
}

/// The mathematical content of a persisted answer.
pub struct AnswerView {
    pub id: int,
    pub question_id: int,
    pub answer: Seq<char>,
    pub likes: int,
    pub created_at: int,
}

/// An answer that has been successfully persisted in the store.
#[derive(Debug)]
pub struct Answer {
    /// The unique id of the answer
    id: Uuid,
    /// The unique id of the associated question
    question_id: Uuid,
    /// The content of the answer
    answer: String,
    /// The number of likes the answer has received
    likes: i32,
    /// The moment the answer was created, in microseconds since the epoch
    created_at: i64,
}

impl View for Answer {
    type V = AnswerView;

    closed spec fn view(&self) -> AnswerView {
        AnswerView {
            id: self.id.value as int,
            question_id: self.question_id.value as int,
            answer: self.answer@,
            likes: self.likes as int,
            created_at: self.created_at as int,
        }
    }
}

impl Answer {
    pub fn new(id: Uuid, question_id: Uuid, answer: String, likes: i32, created_at: i64) -> (r:
        Self)
        ensures
            r@ == (AnswerView {
                id: id.value as int,
                question_id: question_id.value as int,
                answer: answer@,
                likes: likes as int,
                created_at: created_at as int,
            }),
    {
        Self { id, question_id, answer, likes, created_at }
    }

    pub fn id(&self) -> (r: Uuid)
        ensures
            r.value == self@.id,
    {
        self.id
    }

    pub fn question_id(&self) -> (r: Uuid)
        ensures
            r.value == self@.question_id,
    {
        self.question_id
    }

    pub fn answer(&self) -> (r: &String)
        ensures
            r@ == self@.answer,
    {
        &self.answer
    }

    pub fn likes(&self) -> (r: i32)
        ensures
            r == self@.likes,
    {
        self.likes
    }

    pub fn created_at(&self) -> (r: i64)
        ensures
            r == self@.created_at,
    {
        self.created_at
    }
}

/// A failure reported by the store, reduced to its diagnostic message.
#[derive(Debug)]
pub struct StoreError {
    pub message: String,
}

/// The closed error taxonomy.  Every repository operation surfaces exactly
/// one of these kinds per failure path, wrapping the store's diagnostic
/// where one exists.
#[derive(Debug)]
pub enum DbError {
    /// An insert statement failed.
    Creation(StoreError),
    /// A targeted row does not exist, or a single-row fetch otherwise failed.
    NotFound(StoreError),
    /// A caller-supplied identifier string does not parse; carries a static
    /// diagnostic rather than a store error.
    InvalidUuid(&'static str),
    /// A bulk read or a transaction begin failed.
    Access(StoreError),
    /// A fetched row could not be mapped into its typed entity.
    FromRow(StoreError),
    /// A delete statement failed after existence was confirmed.
    Deletion(StoreError),
    /// The write half of a read-modify-write sequence failed.
    Update(StoreError),
    /// The transaction commit itself failed after all statements succeeded.
    Commit(StoreError),
}

impl DbError {
    /// A human-readable account of the error, one fixed prefix per kind
    /// followed by the wrapped diagnostic.
    pub fn describe(&self) -> (r: String)
        ensures
            match self {
                DbError::Creation(e) => r@ == "Creation error occurred: "@ + e.message@,
                DbError::NotFound(e) => r@ == "Entity not found in database: "@ + e.message@,
                DbError::InvalidUuid(s) => r@ == "Invalid Uuid error: "@ + s@,
                DbError::Access(e) => r@ == "Error when accessing database: "@ + e.message@,
                DbError::FromRow(e) => r@ == "Error when converting entity from database row: "@
                    + e.message@,
                DbError::Deletion(e) => r@ == "Error deleting from database: "@ + e.message@,
                DbError::Update(e) => r@ == "Error updating database: "@ + e.message@,
                DbError::Commit(e) => r@ == "Error committing to database: "@ + e.message@,
            },
    {
        match self {
            DbError::Creation(e) => String::from_str("Creation error occurred: ").concat(
                e.message.as_str(),
            ),
            DbError::NotFound(e) => String::from_str("Entity not found in database: ").concat(
                e.message.as_str(),
            ),
            DbError::InvalidUuid(s) => String::from_str("Invalid Uuid error: ").concat(s),
            DbError::Access(e) => String::from_str("Error when accessing database: ").concat(
                e.message.as_str(),
            ),
            DbError::FromRow(e) => String::from_str(
                "Error when converting entity from database row: ",
            ).concat(e.message.as_str()),
            DbError::Deletion(e) => String::from_str("Error deleting from database: ").concat(
                e.message.as_str(),
            ),
            DbError::Update(e) => String::from_str("Error updating database: ").concat(
                e.message.as_str(),
            ),
            DbError::Commit(e) => String::from_str("Error committing to database: ").concat(
                e.message.as_str(),
            ),
        }
    }
}

} // verus!

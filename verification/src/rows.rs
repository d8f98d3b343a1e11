//! Raw rows and their mapping into typed entities.
//!
//! A fetched row arrives as a list of named, dynamically typed column
//! values.  Mapping a row into an entity is total over the declared
//! columns: every attribute must be populated from a column of the right
//! name and type, and a missing or type-mismatched column is reported as a
//! `FromRow` error, never a panic or a silent default.

use vstd::prelude::*;
use vstd::string::StringExecFns;

use crate::ids::Uuid;
use crate::models::{Answer, AnswerView, DbError, Question, QuestionView, StoreError};

verus! {

/// The column names the two table schemas declare.
#[derive(Clone, Copy, PartialEq, Eq, Structural, Debug)]
pub enum ColName {
    Id,
    QuestionId,
    Title,
    Question,
    Answer,
    Likes,
    CreatedAt,
}

/// A dynamically typed column value, as the store hands it back.
#[derive(Debug)]
pub enum ColValue {
    Uuid(Uuid),
    Text(String),
    Int(i32),
    Timestamp(i64),
}

/// One named column of a fetched row.
#[derive(Debug)]
pub struct ColEntry {
    pub name: ColName,
    pub value: ColValue,
}

/// A fetched row: the columns in the order the store returned them.
#[derive(Debug)]
pub struct RawRow {
    pub cols: Vec<ColEntry>,
}

/// The first value carried under `name` at or after position `i`.
pub open spec fn lookup_from(cols: Seq<ColEntry>, name: ColName, i: int) -> Option<ColValue>
    decreases cols.len() - i,
{
    if i < 0 || i >= cols.len() {
        None
    } else if cols[i].name == name {
        Some(cols[i].value)
    } else {
        lookup_from(cols, name, i + 1)
    }
}

/// The first value carried under `name`, if any.
pub open spec fn lookup(cols: Seq<ColEntry>, name: ColName) -> Option<ColValue> {
    lookup_from(cols, name, 0)
}

/// The question a row denotes: every declared column present with the
/// declared type, or nothing.
pub open spec fn question_of_row(cols: Seq<ColEntry>) -> Option<QuestionView> {
    match (
        lookup(cols, ColName::Id),
        lookup(cols, ColName::Title),
        lookup(cols, ColName::Question),
        lookup(cols, ColName::Likes),
        lookup(cols, ColName::CreatedAt),
    ) {
        (
            Some(ColValue::Uuid(u)),
            Some(ColValue::Text(t)),
            Some(ColValue::Text(q)),
            Some(ColValue::Int(l)),
            Some(ColValue::Timestamp(c)),
        ) => Some(
            QuestionView {
                id: u.value as int,
                title: t@,
                question: q@,
                likes: l as int,
                created_at: c as int,
            },
        ),
        _ => None,
    }
}

/// The answer a row denotes, under the answers table's schema.
pub open spec fn answer_of_row(cols: Seq<ColEntry>) -> Option<AnswerView> {
    match (
        lookup(cols, ColName::Id),
        lookup(cols, ColName::QuestionId),
        lookup(cols, ColName::Answer),
        lookup(cols, ColName::Likes),
        lookup(cols, ColName::CreatedAt),
    ) {
        (
            Some(ColValue::Uuid(u)),
            Some(ColValue::Uuid(qid)),
            Some(ColValue::Text(a)),
            Some(ColValue::Int(l)),
            Some(ColValue::Timestamp(c)),
        ) => Some(
            AnswerView {
                id: u.value as int,
                question_id: qid.value as int,
                answer: a@,
                likes: l as int,
                created_at: c as int,
            },
        ),
        _ => None,
    }
}

/// Finds the first column named `name` in a row.
fn find_col<'a>(row: &'a RawRow, name: ColName) -> (r: Option<&'a ColValue>)
    ensures
        match lookup(row.cols@, name) {
            Some(v) => r matches Some(rv) && *rv == v,
            None => r is None,
        },
{
    let n = row.cols.len();
    let mut i: usize = 0;
    while i < n
        invariant
            n == row.cols@.len(),
            i <= n,
            lookup(row.cols@, name) == lookup_from(row.cols@, name, i as int),
        decreases n - i,
    {
        if row.cols[i].name == name {
            return Some(&row.cols[i].value);
        }
        i = i + 1;
    }
    None
}

/// The diagnostic used when a row cannot be mapped.
fn from_row_error() -> (r: DbError)
    ensures
        r matches DbError::FromRow(_),
{
    DbError::FromRow(StoreError { message: String::from_str("missing or mismatched column") })
}

/// Maps a fetched row into a `Question`, reporting `FromRow` when any
/// declared column is missing or carries the wrong type.
pub fn question_from_row(row: &RawRow) -> (r: Result<Question, DbError>)
    ensures
        match question_of_row(row.cols@) {
            Some(v) => r matches Ok(q) && q@ == v,
            None => r matches Err(e) && e matches DbError::FromRow(_),
        },
{
    let id: Uuid = match find_col(row, ColName::Id) {
        Some(ColValue::Uuid(u)) => *u,
        _ => { return Err(from_row_error()); },
    };
    let title: String = match find_col(row, ColName::Title) {
        Some(ColValue::Text(t)) => t.clone(),
        _ => { return Err(from_row_error()); },
    };
    let question: String = match find_col(row, ColName::Question) {
        Some(ColValue::Text(q)) => q.clone(),
        _ => { return Err(from_row_error()); },
    };
    let likes: i32 = match find_col(row, ColName::Likes) {
        Some(ColValue::Int(l)) => *l,
        _ => { return Err(from_row_error()); },
    };
    let created_at: i64 = match find_col(row, ColName::CreatedAt) {
        Some(ColValue::Timestamp(c)) => *c,
        _ => { return Err(from_row_error()); },
    };
    Ok(Question::new(id, title, question, likes, created_at))
}

/// Maps a fetched row into an `Answer`, under the same totality rule.
pub fn answer_from_row(row: &RawRow) -> (r: Result<Answer, DbError>)
    ensures
        match answer_of_row(row.cols@) {
            Some(v) => r matches Ok(a) && a@ == v,
            None => r matches Err(e) && e matches DbError::FromRow(_),
        },
{
    let id: Uuid = match find_col(row, ColName::Id) {
        Some(ColValue::Uuid(u)) => *u,
        _ => { return Err(from_row_error()); },
    };
    let question_id: Uuid = match find_col(row, ColName::QuestionId) {
        Some(ColValue::Uuid(u)) => *u,
        _ => { return Err(from_row_error()); },
    };
    let answer: String = match find_col(row, ColName::Answer) {
        Some(ColValue::Text(a)) => a.clone(),
        _ => { return Err(from_row_error()); },
    };
    let likes: i32 = match find_col(row, ColName::Likes) {
        Some(ColValue::Int(l)) => *l,
        _ => { return Err(from_row_error()); },
    };
    let created_at: i64 = match find_col(row, ColName::CreatedAt) {
        Some(ColValue::Timestamp(c)) => *c,
        _ => { return Err(from_row_error()); },
    };
    Ok(Answer::new(id, question_id, answer, likes, created_at))
}

/// Maps every fetched row into a `Question`.  A single unmappable row
/// aborts the whole operation with `FromRow`; rows are never dropped
/// silently, and an empty input yields an empty output.
pub fn questions_from_rows(rows: Vec<RawRow>) -> (r: Result<Vec<Question>, DbError>)
    ensures
        r matches Ok(qs) ==> qs@.len() == rows@.len() && (forall|i: int|
            0 <= i < rows@.len() ==> #[trigger] question_of_row(rows@[i].cols@) == Some(
                qs@[i]@,
            )),
        r matches Err(e) ==> (e matches DbError::FromRow(_)) && (exists|i: int|
            0 <= i < rows@.len() && #[trigger] question_of_row(rows@[i].cols@) is None),
{
    let n = rows.len();
    let mut qs: Vec<Question> = Vec::new();
    let mut i: usize = 0;
    while i < n
        invariant
            n == rows@.len(),
            i <= n,
            qs@.len() == i,
            forall|j: int|
                0 <= j < i ==> #[trigger] question_of_row(rows@[j].cols@) == Some(qs@[j]@),
        decreases n - i,
    {
        match question_from_row(&rows[i]) {
            Ok(q) => qs.push(q),
            Err(e) => { return Err(e); },
        }
        i = i + 1;
    }
    Ok(qs)
}

/// Maps every fetched row into an `Answer`, with the same all-or-nothing
/// rule as for questions.
pub fn answers_from_rows(rows: Vec<RawRow>) -> (r: Result<Vec<Answer>, DbError>)
    ensures
        r matches Ok(vs) ==> vs@.len() == rows@.len() && (forall|i: int|
            0 <= i < rows@.len() ==> #[trigger] answer_of_row(rows@[i].cols@) == Some(vs@[i]@)),
        r matches Err(e) ==> (e matches DbError::FromRow(_)) && (exists|i: int|
            0 <= i < rows@.len() && #[trigger] answer_of_row(rows@[i].cols@) is None),
{
    let n = rows.len();
    let mut vs: Vec<Answer> = Vec::new();
    let mut i: usize = 0;
    while i < n
        invariant
            n == rows@.len(),
            i <= n,
            vs@.len() == i,
            forall|j: int| 0 <= j < i ==> #[trigger] answer_of_row(rows@[j].cols@) == Some(vs@[j]@),
        decreases n - i,
    {
        match answer_from_row(&rows[i]) {
            Ok(a) => vs.push(a),
            Err(e) => { return Err(e); },
        }
        i = i + 1;
    }
    Ok(vs)
}

} // verus!

//! The answer repository, driven against an in-memory store that also
//! enforces the referential-integrity rule of the answers table.

use qa_dao::answers::{
    create_answer_outcome, create_answer_statement, get_all_answers_statement,
    get_answer_outcome, get_answer_statement, get_answers_outcome, get_answers_statement,
};
use qa_dao::ids::{EntityId, Uuid};
use qa_dao::models::{Answer, DbError, NewAnswer, StoreError};
use qa_dao::rows::{ColEntry, ColName, ColValue, RawRow};
use qa_dao::store::{FetchOutcome, Statement};
use qa_dao::tx::{DeleteTx, IncrementTx};

struct AnswerRecord {
    id: u128,
    question_id: u128,
    answer: String,
    likes: i32,
    created_at: i64,
}

struct SimStore {
    question_ids: Vec<u128>,
    records: Vec<AnswerRecord>,
    next_id: u128,
    now: i64,
    down: bool,
}

fn new_store() -> SimStore {
    SimStore {
        question_ids: vec![0xb000_0001, 0xb000_0002],
        records: Vec::new(),
        next_id: 0xc000_0001,
        now: 1_700_000_000_000_000,
        down: false,
    }
}

fn conn_err() -> StoreError {
    StoreError { message: "connection closed".to_string() }
}

fn no_rows_err() -> StoreError {
    StoreError { message: "no rows returned by a query that expected to return at least one row".to_string() }
}

fn fk_err() -> StoreError {
    StoreError {
        message: "insert or update on table \"answers\" violates foreign key constraint".to_string(),
    }
}

fn raw_row(r: &AnswerRecord) -> RawRow {
    RawRow {
        cols: vec![
            ColEntry { name: ColName::Id, value: ColValue::Uuid(Uuid { value: r.id }) },
            ColEntry {
                name: ColName::QuestionId,
                value: ColValue::Uuid(Uuid { value: r.question_id }),
            },
            ColEntry { name: ColName::Answer, value: ColValue::Text(r.answer.clone()) },
            ColEntry { name: ColName::Likes, value: ColValue::Int(r.likes) },
            ColEntry { name: ColName::CreatedAt, value: ColValue::Timestamp(r.created_at) },
        ],
    }
}

fn uuid_text(u: u128) -> String {
    let h = format!("{:032x}", u);
    format!("{}-{}-{}-{}-{}", &h[0..8], &h[8..12], &h[12..16], &h[16..20], &h[20..32])
}

fn create_answer(store: &mut SimStore, new_answer: NewAnswer) -> Result<Uuid, DbError> {
    let statement = match create_answer_statement(new_answer) {
        Ok(s) => s,
        Err(e) => return Err(e),
    };
    let outcome = match statement {
        Statement::InsertAnswer { question_id, answer } => {
            if store.down {
                FetchOutcome::Failed(conn_err())
            } else if !store.question_ids.contains(&question_id.value) {
                FetchOutcome::Failed(fk_err())
            } else {
                let id = store.next_id;
                store.next_id += 1;
                store.records.push(AnswerRecord {
                    id,
                    question_id: question_id.value,
                    answer,
                    likes: 0,
                    created_at: store.now,
                });
                FetchOutcome::Row(Uuid { value: id })
            }
        }
        _ => unreachable!(),
    };
    create_answer_outcome(outcome)
}

fn get_answer(store: &SimStore, answer_id: EntityId) -> Result<Answer, DbError> {
    let statement = match get_answer_statement(answer_id) {
        Ok(s) => s,
        Err(e) => return Err(e),
    };
    let outcome = match statement {
        Statement::SelectAnswer { id } => {
            if store.down {
                FetchOutcome::Failed(conn_err())
            } else {
                match store.records.iter().find(|r| r.id == id.value) {
                    Some(r) => FetchOutcome::Row(raw_row(r)),
                    None => FetchOutcome::Missing(no_rows_err()),
                }
            }
        }
        _ => unreachable!(),
    };
    get_answer_outcome(outcome)
}

fn get_answers(store: &SimStore, question_id: EntityId) -> Result<Vec<Answer>, DbError> {
    let statement = match get_answers_statement(question_id) {
        Ok(s) => s,
        Err(e) => return Err(e),
    };
    let outcome = match statement {
        Statement::SelectAnswersByQuestion { question_id } => {
            if store.down {
                Err(conn_err())
            } else {
                Ok(store
                    .records
                    .iter()
                    .filter(|r| r.question_id == question_id.value)
                    .map(raw_row)
                    .collect::<Vec<RawRow>>())
            }
        }
        _ => unreachable!(),
    };
    get_answers_outcome(outcome)
}

fn get_all_answers(store: &SimStore) -> Result<Vec<Answer>, DbError> {
    let outcome = match get_all_answers_statement() {
        Statement::SelectAnswers => {
            if store.down {
                Err(conn_err())
            } else {
                Ok(store.records.iter().map(raw_row).collect::<Vec<RawRow>>())
            }
        }
        _ => unreachable!(),
    };
    get_answers_outcome(outcome)
}

fn delete_answer(store: &mut SimStore, answer_id: EntityId) -> Result<Uuid, DbError> {
    let mut m = DeleteTx::start(answer_id);
    if matches!(m, DeleteTx::Begin { .. }) {
        let outcome = if store.down { Err(conn_err()) } else { Ok(()) };
        m = m.on_begin(outcome);
    }
    if matches!(m, DeleteTx::Check { .. }) {
        let present = match &m {
            DeleteTx::Check { id } => store.records.iter().any(|r| r.id == id.value),
            _ => unreachable!(),
        };
        let outcome =
            if present { FetchOutcome::Row(()) } else { FetchOutcome::Missing(no_rows_err()) };
        m = m.on_check(outcome);
    }
    if matches!(m, DeleteTx::Remove { .. }) {
        let deleted = match &m {
            DeleteTx::Remove { id } => {
                let u = id.value;
                store.records.retain(|r| r.id != u);
                Uuid { value: u }
            }
            _ => unreachable!(),
        };
        m = m.on_remove(FetchOutcome::Row(deleted));
    }
    if matches!(m, DeleteTx::Commit { .. }) {
        m = m.on_commit(Ok(()));
    }
    match m {
        DeleteTx::Done { result } => result,
        _ => unreachable!(),
    }
}

fn increment_answer_likes(store: &mut SimStore, answer_id: EntityId) -> Result<(), DbError> {
    let mut m = IncrementTx::start(answer_id);
    if matches!(m, IncrementTx::Begin { .. }) {
        let outcome = if store.down { Err(conn_err()) } else { Ok(()) };
        m = m.on_begin(outcome);
    }
    if matches!(m, IncrementTx::Read { .. }) {
        let outcome = match &m {
            IncrementTx::Read { id } => match store.records.iter().find(|r| r.id == id.value) {
                Some(r) => FetchOutcome::Row(r.likes),
                None => FetchOutcome::Missing(no_rows_err()),
            },
            _ => unreachable!(),
        };
        m = m.on_read(outcome);
    }
    if matches!(m, IncrementTx::Write { .. }) {
        if let IncrementTx::Write { id, new_likes } = &m {
            let (u, nl) = (id.value, *new_likes);
            for r in store.records.iter_mut() {
                if r.id == u {
                    r.likes = nl;
                }
            }
        }
        m = m.on_write(Ok(()));
    }
    if matches!(m, IncrementTx::Commit) {
        m = m.on_commit(Ok(()));
    }
    match m {
        IncrementTx::Done { result } => result,
        _ => unreachable!(),
    }
}

#[test]
fn create_answer_should_work() {
    let mut store = new_store();
    let question_id = store.question_ids[0];
    let result = create_answer(
        &mut store,
        NewAnswer {
            question_id: uuid_text(question_id),
            answer: "This is a test answer".to_string(),
        },
    );
    assert!(result.is_ok(), "{:?}", result.err());
}

#[test]
fn create_answer_should_fail_with_invalid_uuid() {
    let mut store = new_store();
    let result = create_answer(
        &mut store,
        NewAnswer {
            question_id: "not an identifier".to_string(),
            answer: "This is a test answer".to_string(),
        },
    );
    assert!(matches!(result, Err(DbError::InvalidUuid(_))));
    // Resolution failed before any insert was attempted.
    assert_eq!(store.records.len(), 0);
}

#[test]
fn create_answer_should_fail_on_missing_question() {
    // A well-formed question_id that names no question fails the insert
    // through the store's referential-integrity check, surfaced as
    // `Creation`.
    let mut store = new_store();
    let result = create_answer(
        &mut store,
        NewAnswer {
            question_id: uuid_text(0xdead),
            answer: "This is a test answer".to_string(),
        },
    );
    assert!(matches!(result, Err(DbError::Creation(_))));
    assert_eq!(store.records.len(), 0);
}

#[test]
fn create_answer_should_fail_with_creation_error() {
    let mut store = new_store();
    store.down = true;
    let question_id = store.question_ids[0];
    let result = create_answer(
        &mut store,
        NewAnswer {
            question_id: uuid_text(question_id),
            answer: "This is a test answer".to_string(),
        },
    );
    assert!(matches!(result, Err(DbError::Creation(_))));
}

#[test]
fn get_answer_should_succeed() {
    let mut store = new_store();
    let question_id = store.question_ids[0];
    let id = create_answer(
        &mut store,
        NewAnswer {
            question_id: uuid_text(question_id),
            answer: "This is a test answer".to_string(),
        },
    )
    .unwrap();
    let result = get_answer(&store, EntityId::new(uuid_text(id.value)));
    assert!(result.is_ok(), "{:?}", result.err());
    let answer = result.unwrap();
    assert_eq!(answer.id().value, id.value);
    assert_eq!(answer.question_id().value, question_id);
    assert_eq!(answer.answer().as_str(), "This is a test answer");
    assert_eq!(answer.likes(), 0);
    assert_eq!(answer.created_at(), store.now);
}

#[test]
fn get_answer_should_fail_with_not_found() {
    let store = new_store();
    let result = get_answer(&store, EntityId::new(uuid_text(0xdead)));
    assert!(matches!(result, Err(DbError::NotFound(_))));
}

#[test]
fn get_answers_scopes_to_one_question() {
    let mut store = new_store();
    let q1 = store.question_ids[0];
    let q2 = store.question_ids[1];
    for (q, text) in [(q1, "first"), (q1, "second"), (q2, "other")] {
        create_answer(
            &mut store,
            NewAnswer { question_id: uuid_text(q), answer: text.to_string() },
        )
        .unwrap();
    }
    let result = get_answers(&store, EntityId::new(uuid_text(q1)));
    assert!(result.is_ok(), "{:?}", result.err());
    let answers = result.unwrap();
    assert_eq!(answers.len(), 2);
    assert!(answers.iter().all(|a| a.question_id().value == q1));
    let all = get_all_answers(&store).unwrap();
    assert_eq!(all.len(), 3);
}

#[test]
fn get_answers_should_fail_with_access_error() {
    let mut store = new_store();
    store.down = true;
    let result = get_answers(&store, EntityId::new(uuid_text(store.question_ids[0])));
    assert!(matches!(result, Err(DbError::Access(_))));
}

#[test]
fn get_answers_should_succeed_in_empty_state() {
    let store = new_store();
    let result = get_answers(&store, EntityId::new(uuid_text(store.question_ids[0])));
    assert!(result.is_ok(), "{:?}", result.err());
    assert_eq!(result.unwrap().len(), 0);
}

#[test]
fn delete_answer_should_succeed() {
    let mut store = new_store();
    let question_id = store.question_ids[0];
    let id = create_answer(
        &mut store,
        NewAnswer {
            question_id: uuid_text(question_id),
            answer: "This is a test answer".to_string(),
        },
    )
    .unwrap();
    let result = delete_answer(&mut store, EntityId::new(uuid_text(id.value)));
    assert!(result.is_ok(), "{:?}", result.err());
    assert_eq!(result.unwrap().value, id.value);
    let fetched = get_answer(&store, EntityId::new(uuid_text(id.value)));
    assert!(matches!(fetched, Err(DbError::NotFound(_))));
}

#[test]
fn delete_answer_should_fail_with_not_found() {
    let mut store = new_store();
    let result = delete_answer(&mut store, EntityId::new(uuid_text(0xdead)));
    assert!(matches!(result, Err(DbError::NotFound(_))));
}

#[test]
fn increment_answer_likes_should_succeed() {
    let mut store = new_store();
    let question_id = store.question_ids[0];
    let id = create_answer(
        &mut store,
        NewAnswer {
            question_id: uuid_text(question_id),
            answer: "This is a test answer".to_string(),
        },
    )
    .unwrap();
    for _ in 0..3 {
        increment_answer_likes(&mut store, EntityId::new(uuid_text(id.value))).unwrap();
    }
    let answer = get_answer(&store, EntityId::new(uuid_text(id.value))).unwrap();
    assert_eq!(answer.likes(), 3);
}

#[test]
fn increment_answer_likes_should_fail_with_not_found() {
    let mut store = new_store();
    let result = increment_answer_likes(&mut store, EntityId::new(uuid_text(0xdead)));
    assert!(matches!(result, Err(DbError::NotFound(_))));
}

#[test]
fn answer_row_missing_column_fails_with_from_row() {
    let row = RawRow {
        cols: vec![
            ColEntry { name: ColName::Id, value: ColValue::Uuid(Uuid { value: 9 }) },
            ColEntry { name: ColName::Answer, value: ColValue::Text("a".to_string()) },
            ColEntry { name: ColName::Likes, value: ColValue::Int(0) },
            ColEntry { name: ColName::CreatedAt, value: ColValue::Timestamp(5) },
        ],
    };
    let result = get_answer_outcome(FetchOutcome::Row(row));
    assert!(matches!(result, Err(DbError::FromRow(_))));
}

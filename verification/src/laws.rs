//! Laws of the repository operations, proved over the spec-level
//! protocol transitions and the row mapping.
//!
//! The store itself is outside the library, so these laws quantify over a
//! mathematical table — a map from identifier to record — and over the
//! statement outcomes a conforming store would answer from that table:
//! a single-row fetch answers the row under the requested identifier, or
//! reports that none matched.  Every law then follows for any store that
//! answers this way, whatever its diagnostics.

use vstd::prelude::*;

use crate::ids::Uuid;
use crate::models::{DbError, QuestionView, StoreError};
use crate::rows::{lookup, question_of_row, ColEntry, ColName, ColValue};
use crate::store::FetchOutcome;
use crate::tx::{
    delete_on_begin_spec, delete_on_check_spec, delete_on_commit_spec, delete_on_remove_spec,
    increment_on_begin_spec, increment_on_commit_spec, increment_on_read_spec,
    increment_on_write_spec, DeleteTx, IncrementTx,
};

verus! {

/// Whether a row carries exactly the attributes of `v` under the
/// questions table's schema.
pub open spec fn question_row_matches(cols: Seq<ColEntry>, v: QuestionView) -> bool {
    &&& (lookup(cols, ColName::Id) matches Some(ColValue::Uuid(u)) && u.value == v.id)
    &&& (lookup(cols, ColName::Title) matches Some(ColValue::Text(t)) && t@ == v.title)
    &&& (lookup(cols, ColName::Question) matches Some(ColValue::Text(q)) && q@ == v.question)
    &&& (lookup(cols, ColName::Likes) matches Some(ColValue::Int(l)) && l == v.likes)
    &&& (lookup(cols, ColName::CreatedAt) matches Some(ColValue::Timestamp(c)) && c
        == v.created_at)
}

/// LAW: a created question reads back as itself.  Creating from a new
/// question stores exactly its title and body, a like count of zero and
/// the store-assigned identifier and timestamp; fetching that row maps it
/// to a question with exactly those attributes.  Together with the
/// contracts of `create_question_statement`, `create_question_outcome`,
/// `get_question_statement` and `get_question_outcome`, this says that
/// `create` followed by `get` of the returned identifier yields the
/// question that was put in, with `likes == 0` and `created_at` set.
pub proof fn lemma_create_then_get(
    title: Seq<char>,
    question: Seq<char>,
    id: int,
    created_at: int,
    cols: Seq<ColEntry>,
)
    requires
        question_row_matches(
            cols,
            QuestionView { id, title, question, likes: 0, created_at },
        ),
    ensures
        question_of_row(cols) == Some(QuestionView { id, title, question, likes: 0, created_at }),
{
}

/// The set of identifiers a listing carries.
pub open spec fn listed_ids(qs: Seq<QuestionView>) -> Set<int> {
    Set::new(|u: int| exists|i: int| 0 <= i < qs.len() && qs[i].id == u)
}

/// LAW: listing returns exactly the table's identifiers.  If every listed
/// question is the table's record under its identifier, and every record
/// of the table is listed, then the listed identifiers equal the table's
/// key set — set equality, with no order promised.  The elementwise
/// premise is exactly what `get_questions_outcome` ensures of a
/// conforming store's rows; so after creating N questions into an empty
/// table, `list` returns exactly those N identifiers.
pub proof fn lemma_list_is_table(qs: Seq<QuestionView>, table: Map<int, QuestionView>)
    requires
        forall|i: int|
            0 <= i < qs.len() ==> table.contains_key(#[trigger] qs[i].id) && table[qs[i].id]
                == qs[i],
        forall|u: int|
            #[trigger] table.contains_key(u) ==> exists|i: int|
                0 <= i < qs.len() && qs[i].id == u,
    ensures
        listed_ids(qs) =~= table.dom(),
{
    assert forall|u: int| listed_ids(qs).contains(u) implies table.dom().contains(u) by {
        let i = choose|i: int| 0 <= i < qs.len() && qs[i].id == u;
        assert(table.contains_key(qs[i].id));
    }
    assert forall|u: int| table.dom().contains(u) implies listed_ids(qs).contains(u) by {
        assert(table.contains_key(u));
        let i = choose|i: int| 0 <= i < qs.len() && qs[i].id == u;
        assert(0 <= i < qs.len() && qs[i].id == u);
    }
}

/// The existence check a conforming store answers for an identifier that
/// is, or is not, present in its table.
pub open spec fn existence_event(present: bool, miss: StoreError) -> FetchOutcome<()> {
    if present {
        FetchOutcome::Row(())
    } else {
        FetchOutcome::Missing(miss)
    }
}

/// LAW: deleting an existing identifier succeeds and removes exactly that
/// row.  Against a table containing the identifier, the deletion protocol
/// runs begin, check, remove and commit to a committed end and returns
/// the deleted identifier; the resulting table no longer contains it and
/// keeps every other row, so a subsequent single-row fetch of it answers
/// `Missing` and `get` fails with `NotFound`.
pub proof fn lemma_delete_existing(table: Map<int, QuestionView>, u: Uuid, miss: StoreError)
    requires
        table.contains_key(u.value as int),
    ensures
        ({
            let m1 = delete_on_begin_spec(DeleteTx::Begin { id: u }, Ok(()));
            let m2 = delete_on_check_spec(
                m1,
                existence_event(table.contains_key(u.value as int), miss),
            );
            let m3 = delete_on_remove_spec(m2, FetchOutcome::Row(u));
            let m4 = delete_on_commit_spec(m3, Ok(()));
            m4 == (DeleteTx::Done { result: Ok::<Uuid, DbError>(u) })
        }),
        !table.remove(u.value as int).contains_key(u.value as int),
        forall|w: int|
            w != u.value as int ==> #[trigger] table.remove(u.value as int).contains_key(w)
                == table.contains_key(w),
{
}

/// LAW: deleting a non-existent identifier fails with `NotFound`.  The
/// protocol ends at the existence check, before any delete statement, so
/// the table is untouched.
pub proof fn lemma_delete_missing(table: Map<int, QuestionView>, u: Uuid, miss: StoreError)
    requires
        !table.contains_key(u.value as int),
    ensures
        ({
            let m1 = delete_on_begin_spec(DeleteTx::Begin { id: u }, Ok(()));
            let m2 = delete_on_check_spec(
                m1,
                existence_event(table.contains_key(u.value as int), miss),
            );
            m2 == (DeleteTx::Done { result: Err::<Uuid, DbError>(DbError::NotFound(miss)) })
        }),
{
}

/// The like count a conforming store reads for `u` from the like columns
/// of its table.
pub open spec fn likes_read_event(table: Map<int, i32>, u: Uuid, miss: StoreError) -> FetchOutcome<
    i32,
> {
    if table.contains_key(u.value as int) {
        FetchOutcome::Row(table[u.value as int])
    } else {
        FetchOutcome::Missing(miss)
    }
}

/// The like columns of a table after one committed increment session.
pub open spec fn bump_likes(table: Map<int, i32>, u: int) -> Map<int, i32> {
    if table.contains_key(u) {
        table.insert(
            u,
            if table[u] == i32::MAX {
                i32::MAX
            } else {
                (table[u] + 1) as i32
            },
        )
    } else {
        table
    }
}

/// LAW: one increment on an existing row raises its count by exactly one.
/// Against a table whose count for the identifier is below the i32
/// maximum, the protocol reads the current count, writes back exactly
/// count + 1, commits, and reports success; every other row's count is
/// untouched.  (At the i32 maximum itself the written count saturates
/// instead of overflowing, so that input is excluded here.)
pub proof fn lemma_increment_existing(table: Map<int, i32>, u: Uuid, miss: StoreError)
    requires
        table.contains_key(u.value as int),
        table[u.value as int] < i32::MAX,
    ensures
        ({
            let m1 = increment_on_begin_spec(IncrementTx::Begin { id: u }, Ok(()));
            let m2 = increment_on_read_spec(m1, likes_read_event(table, u, miss));
            m2 == (IncrementTx::Write {
                id: u,
                new_likes: (table[u.value as int] + 1) as i32,
            })
        }),
        ({
            let m1 = increment_on_begin_spec(IncrementTx::Begin { id: u }, Ok(()));
            let m2 = increment_on_read_spec(m1, likes_read_event(table, u, miss));
            let m3 = increment_on_write_spec(m2, Ok(()));
            let m4 = increment_on_commit_spec(m3, Ok(()));
            m4 == (IncrementTx::Done { result: Ok::<(), DbError>(()) })
        }),
        bump_likes(table, u.value as int)[u.value as int] == table[u.value as int] + 1,
        forall|w: int|
            w != u.value as int ==> #[trigger] bump_likes(table, u.value as int).contains_key(w)
                == table.contains_key(w),
        forall|w: int|
            w != u.value as int && table.contains_key(w) ==> #[trigger] bump_likes(
                table,
                u.value as int,
            )[w] == table[w],
{
}

/// LAW: incrementing a non-existent identifier fails with `NotFound` and
/// leaves no side effect: the protocol ends at the read step, before any
/// write statement is issued.
pub proof fn lemma_increment_missing(table: Map<int, i32>, u: Uuid, miss: StoreError)
    requires
        !table.contains_key(u.value as int),
    ensures
        ({
            let m1 = increment_on_begin_spec(IncrementTx::Begin { id: u }, Ok(()));
            let m2 = increment_on_read_spec(m1, likes_read_event(table, u, miss));
            m2 == (IncrementTx::Done { result: Err::<(), DbError>(DbError::NotFound(miss)) })
        }),
{
}

/// The like columns after `k` committed increment sessions on `u`.
pub open spec fn bump_likes_n(table: Map<int, i32>, u: int, k: nat) -> Map<int, i32>
    decreases k,
{
    if k == 0 {
        table
    } else {
        bump_likes(bump_likes_n(table, u, (k - 1) as nat), u)
    }
}

/// LAW: increments accumulate without loss.  K committed increment
/// sessions on the same existing identifier raise its count by exactly K
/// — this covers K sequential calls, and equally M concurrent calls:
/// each session's read-modify-write runs inside one store-managed
/// transaction, so the store's isolation serializes the sessions into
/// some order, and any order of M sessions is the M-fold composition
/// proved here.
pub proof fn lemma_increments_accumulate(table: Map<int, i32>, u: int, k: nat)
    requires
        table.contains_key(u),
        table[u] + k <= i32::MAX,
    ensures
        bump_likes_n(table, u, k).contains_key(u),
        bump_likes_n(table, u, k)[u] == table[u] + k,
    decreases k,
{
    if k > 0 {
        lemma_increments_accumulate(table, u, (k - 1) as nat);
    }
}

} // verus!

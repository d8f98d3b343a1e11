//! The transactional protocols: deletion and like-increment.
//!
//! Deleting a row and incrementing a like counter each issue several
//! statements that must take effect as one atomic unit, so each runs as a
//! store-managed transaction.  The protocol is a state machine: every
//! state names the one step the shell must perform next, and every
//! statement outcome is fed back through a transition that decides the
//! following state.  A machine that reaches [`DeleteTx::Done`] or
//! [`IncrementTx::Done`] before its commit step carries a failure, and the
//! shell must abandon the transaction so the store rolls it back; no
//! failure path leaves a transaction open.
//!
//! The transitions are pure: each is specified exactly by its spec-level
//! twin, and the proofs about whole sessions are stated over the twins in
//! [`crate::laws`].

use vstd::prelude::*;

use crate::ids::{uuid_str_valid, uuid_value_of, EntityId, Uuid};
use crate::models::{DbError, StoreError};
use crate::store::FetchOutcome;

verus! {

/// The deletion protocol.  In order: resolve the identifier, begin a
/// transaction, confirm the row exists, delete it capturing the deleted
/// identifier, commit.  The state names the step the shell performs next:
///
/// - `Begin { id }`: begin a transaction.
/// - `Check { id }`: fetch one row by `id` (`SELECT * FROM <table> WHERE id = $1`).
/// - `Remove { id }`: delete by `id`, returning the deleted identifier
///   (`DELETE FROM <table> WHERE id = $1 RETURNING id`).
/// - `Commit { id }`: commit the transaction.
/// - `Done { result }`: the operation's result; if a failure was reached
///   before the commit step, abandon the transaction.
#[derive(Debug)]
pub enum DeleteTx {
    Begin { id: Uuid },
    Check { id: Uuid },
    Remove { id: Uuid },
    Commit { id: Uuid },
    Done { result: Result<Uuid, DbError> },
}

/// What feeding a begin-transaction outcome to the deletion protocol does.
pub open spec fn delete_on_begin_spec(m: DeleteTx, outcome: Result<(), StoreError>) -> DeleteTx {
    match (m, outcome) {
        (DeleteTx::Begin { id }, Ok(_)) => DeleteTx::Check { id },
        (DeleteTx::Begin { .. }, Err(e)) => DeleteTx::Done { result: Err(DbError::Access(e)) },
        (other, _) => other,
    }
}

/// What feeding the existence check's outcome does: a missing row, or a
/// failed fetch, ends the operation with `NotFound`.
pub open spec fn delete_on_check_spec(m: DeleteTx, outcome: FetchOutcome<()>) -> DeleteTx {
    match (m, outcome) {
        (DeleteTx::Check { id }, FetchOutcome::Row(_)) => DeleteTx::Remove { id },
        (DeleteTx::Check { .. }, FetchOutcome::Missing(e)) => DeleteTx::Done {
            result: Err(DbError::NotFound(e)),
        },
        (DeleteTx::Check { .. }, FetchOutcome::Failed(e)) => DeleteTx::Done {
            result: Err(DbError::NotFound(e)),
        },
        (other, _) => other,
    }
}

/// What feeding the delete statement's outcome does: after existence was
/// confirmed, any failure of the delete itself is `Deletion`, and no
/// commit occurs.
pub open spec fn delete_on_remove_spec(m: DeleteTx, outcome: FetchOutcome<Uuid>) -> DeleteTx {
    match (m, outcome) {
        (DeleteTx::Remove { .. }, FetchOutcome::Row(deleted)) => DeleteTx::Commit { id: deleted },
        (DeleteTx::Remove { .. }, FetchOutcome::Missing(e)) => DeleteTx::Done {
            result: Err(DbError::Deletion(e)),
        },
        (DeleteTx::Remove { .. }, FetchOutcome::Failed(e)) => DeleteTx::Done {
            result: Err(DbError::Deletion(e)),
        },
        (other, _) => other,
    }
}

/// What feeding the commit outcome does: success returns the deleted
/// identifier; a failed commit is reported as `Commit`.
pub open spec fn delete_on_commit_spec(m: DeleteTx, outcome: Result<(), StoreError>) -> DeleteTx {
    match (m, outcome) {
        (DeleteTx::Commit { id }, Ok(_)) => DeleteTx::Done { result: Ok(id) },
        (DeleteTx::Commit { .. }, Err(e)) => DeleteTx::Done { result: Err(DbError::Commit(e)) },
        (other, _) => other,
    }
}

impl DeleteTx {
    /// Starts the deletion protocol.  A string that is not in the
    /// canonical identifier form ends the protocol at once with
    /// `InvalidUuid`: no statement is issued and no transaction is begun.
    pub fn start(id: EntityId) -> (m: DeleteTx)
        ensures
            uuid_str_valid(id@) ==> m == (DeleteTx::Begin {
                id: Uuid { value: uuid_value_of(id@) as u128 },
            }),
            !uuid_str_valid(id@) ==> (m matches DeleteTx::Done { result } && result matches Err(e)
                && e matches DbError::InvalidUuid(msg) && msg@ == "unable to parse as uuid"@),
    {
        match id.resolve() {
            Ok(u) => DeleteTx::Begin { id: u },
            Err(msg) => DeleteTx::Done { result: Err(DbError::InvalidUuid(msg)) },
        }
    }

    pub fn on_begin(self, outcome: Result<(), StoreError>) -> (m: DeleteTx)
        requires
            self is Begin,
        ensures
            m == delete_on_begin_spec(self, outcome),
    {
        match (self, outcome) {
            (DeleteTx::Begin { id }, Ok(_)) => DeleteTx::Check { id },
            (DeleteTx::Begin { .. }, Err(e)) => DeleteTx::Done {
                result: Err(DbError::Access(e)),
            },
            (other, _) => other,
        }
    }

    pub fn on_check(self, outcome: FetchOutcome<()>) -> (m: DeleteTx)
        requires
            self is Check,
        ensures
            m == delete_on_check_spec(self, outcome),
    {
        match (self, outcome) {
            (DeleteTx::Check { id }, FetchOutcome::Row(_)) => DeleteTx::Remove { id },
            (DeleteTx::Check { .. }, FetchOutcome::Missing(e)) => DeleteTx::Done {
                result: Err(DbError::NotFound(e)),
            },
            (DeleteTx::Check { .. }, FetchOutcome::Failed(e)) => DeleteTx::Done {
                result: Err(DbError::NotFound(e)),
            },
            (other, _) => other,
        }
    }

    pub fn on_remove(self, outcome: FetchOutcome<Uuid>) -> (m: DeleteTx)
        requires
            self is Remove,
        ensures
            m == delete_on_remove_spec(self, outcome),
    {
        match (self, outcome) {
            (DeleteTx::Remove { .. }, FetchOutcome::Row(deleted)) => DeleteTx::Commit {
                id: deleted,
            },
            (DeleteTx::Remove { .. }, FetchOutcome::Missing(e)) => DeleteTx::Done {
                result: Err(DbError::Deletion(e)),
            },
            (DeleteTx::Remove { .. }, FetchOutcome::Failed(e)) => DeleteTx::Done {
                result: Err(DbError::Deletion(e)),
            },
            (other, _) => other,
        }
    }

    pub fn on_commit(self, outcome: Result<(), StoreError>) -> (m: DeleteTx)
        requires
            self is Commit,
        ensures
            m == delete_on_commit_spec(self, outcome),
    {
        match (self, outcome) {
            (DeleteTx::Commit { id }, Ok(_)) => DeleteTx::Done { result: Ok(id) },
            (DeleteTx::Commit { .. }, Err(e)) => DeleteTx::Done {
                result: Err(DbError::Commit(e)),
            },
            (other, _) => other,
        }
    }
}

/// The like-increment protocol.  In order: resolve the identifier, begin
/// a transaction, read the current count, write back the incremented
/// count, commit.  Running read and write inside one store-managed
/// transaction is what isolates the read-modify-write from concurrent
/// increments on the same row.  The state names the next step:
///
/// - `Begin { id }`: begin a transaction.
/// - `Read { id }`: fetch the like count by `id`
///   (`SELECT likes FROM <table> WHERE id = $1`).
/// - `Write { id, new_likes }`: write the count back
///   (`UPDATE <table> SET likes = $1 WHERE id = $2` binding `new_likes`).
/// - `Commit`: commit the transaction.
/// - `Done { result }`: the operation's result; on a failure before the
///   commit step, abandon the transaction.
#[derive(Debug)]
pub enum IncrementTx {
    Begin { id: Uuid },
    Read { id: Uuid },
    Write { id: Uuid, new_likes: i32 },
    Commit,
    Done { result: Result<(), DbError> },
}

/// What feeding a begin-transaction outcome to the increment protocol does.
pub open spec fn increment_on_begin_spec(
    m: IncrementTx,
    outcome: Result<(), StoreError>,
) -> IncrementTx {
    match (m, outcome) {
        (IncrementTx::Begin { id }, Ok(_)) => IncrementTx::Read { id },
        (IncrementTx::Begin { .. }, Err(e)) => IncrementTx::Done {
            result: Err(DbError::Access(e)),
        },
        (other, _) => other,
    }
}

/// What feeding the read outcome does.  A present row moves to the write
/// step with the count increased by exactly one (a count already at the
/// i32 maximum is left unchanged rather than overflowed); a missing row,
/// or a failed fetch, ends the operation with `NotFound` before any write
/// is issued.
pub open spec fn increment_on_read_spec(m: IncrementTx, outcome: FetchOutcome<i32>) -> IncrementTx {
    match (m, outcome) {
        (IncrementTx::Read { id }, FetchOutcome::Row(likes)) => IncrementTx::Write {
            id,
            new_likes: if likes == i32::MAX {
                i32::MAX
            } else {
                (likes + 1) as i32
            },
        },
        (IncrementTx::Read { .. }, FetchOutcome::Missing(e)) => IncrementTx::Done {
            result: Err(DbError::NotFound(e)),
        },
        (IncrementTx::Read { .. }, FetchOutcome::Failed(e)) => IncrementTx::Done {
            result: Err(DbError::NotFound(e)),
        },
        (other, _) => other,
    }
}

/// What feeding the update statement's outcome does: a failed write is
/// `Update`, and no commit occurs.
pub open spec fn increment_on_write_spec(
    m: IncrementTx,
    outcome: Result<(), StoreError>,
) -> IncrementTx {
    match (m, outcome) {
        (IncrementTx::Write { .. }, Ok(_)) => IncrementTx::Commit,
        (IncrementTx::Write { .. }, Err(e)) => IncrementTx::Done {
            result: Err(DbError::Update(e)),
        },
        (other, _) => other,
    }
}

/// What feeding the commit outcome does: a failed commit is reported as
/// `Commit`, the more specific kind, so a caller can tell "the change may
/// not be durable" from "the change was rejected".
pub open spec fn increment_on_commit_spec(
    m: IncrementTx,
    outcome: Result<(), StoreError>,
) -> IncrementTx {
    match (m, outcome) {
        (IncrementTx::Commit, Ok(_)) => IncrementTx::Done { result: Ok(()) },
        (IncrementTx::Commit, Err(e)) => IncrementTx::Done { result: Err(DbError::Commit(e)) },
        (other, _) => other,
    }
}

impl IncrementTx {
    /// Starts the increment protocol.  A string that is not in the
    /// canonical identifier form ends the protocol at once with
    /// `InvalidUuid`: no statement is issued and no transaction is begun.
    pub fn start(id: EntityId) -> (m: IncrementTx)
        ensures
            uuid_str_valid(id@) ==> m == (IncrementTx::Begin {
                id: Uuid { value: uuid_value_of(id@) as u128 },
            }),
            !uuid_str_valid(id@) ==> (m matches IncrementTx::Done { result } && result matches Err(
                e,
            ) && e matches DbError::InvalidUuid(msg) && msg@ == "unable to parse as uuid"@),
    {
        match id.resolve() {
            Ok(u) => IncrementTx::Begin { id: u },
            Err(msg) => IncrementTx::Done { result: Err(DbError::InvalidUuid(msg)) },
        }
    }

    pub fn on_begin(self, outcome: Result<(), StoreError>) -> (m: IncrementTx)
        requires
            self is Begin,
        ensures
            m == increment_on_begin_spec(self, outcome),
    {
        match (self, outcome) {
            (IncrementTx::Begin { id }, Ok(_)) => IncrementTx::Read { id },
            (IncrementTx::Begin { .. }, Err(e)) => IncrementTx::Done {
                result: Err(DbError::Access(e)),
            },
            (other, _) => other,
        }
    }

    pub fn on_read(self, outcome: FetchOutcome<i32>) -> (m: IncrementTx)
        requires
            self is Read,
        ensures
            m == increment_on_read_spec(self, outcome),
    {
        match (self, outcome) {
            (IncrementTx::Read { id }, FetchOutcome::Row(likes)) => IncrementTx::Write {
                id,
                new_likes: if likes == i32::MAX {
                    i32::MAX
                } else {
                    likes + 1
                },
            },
            (IncrementTx::Read { .. }, FetchOutcome::Missing(e)) => IncrementTx::Done {
                result: Err(DbError::NotFound(e)),
            },
            (IncrementTx::Read { .. }, FetchOutcome::Failed(e)) => IncrementTx::Done {
                result: Err(DbError::NotFound(e)),
            },
            (other, _) => other,
        }
    }

    pub fn on_write(self, outcome: Result<(), StoreError>) -> (m: IncrementTx)
        requires
            self is Write,
        ensures
            m == increment_on_write_spec(self, outcome),
    {
        match (self, outcome) {
            (IncrementTx::Write { .. }, Ok(_)) => IncrementTx::Commit,
            (IncrementTx::Write { .. }, Err(e)) => IncrementTx::Done {
                result: Err(DbError::Update(e)),
            },
            (other, _) => other,
        }
    }

    pub fn on_commit(self, outcome: Result<(), StoreError>) -> (m: IncrementTx)
        requires
            self is Commit,
        ensures
            m == increment_on_commit_spec(self, outcome),
    {
        match (self, outcome) {
            (IncrementTx::Commit, Ok(_)) => IncrementTx::Done { result: Ok(()) },
            (IncrementTx::Commit, Err(e)) => IncrementTx::Done {
                result: Err(DbError::Commit(e)),
            },
            (other, _) => other,
        }
    }
}

} // verus!

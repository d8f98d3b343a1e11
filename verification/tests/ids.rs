//! Identifier resolution, error descriptions, and the protocol's rarer
//! failure paths.

use qa_dao::ids::{parse_uuid, EntityId, Uuid};
use qa_dao::models::{DbError, StoreError};
use qa_dao::store::FetchOutcome;
use qa_dao::tx::{DeleteTx, IncrementTx};

fn store_err(msg: &str) -> StoreError {
    StoreError { message: msg.to_string() }
}

#[test]
fn resolve_parses_the_canonical_form() {
    let id = EntityId::new("00000000-0000-0000-0000-000000000001".to_string());
    assert_eq!(id.resolve().unwrap().value, 1);
}

#[test]
fn resolve_accepts_both_hex_cases() {
    let id = EntityId::new("DEADBEEF-00aa-11BB-22cc-33DD44ee55FF".to_string());
    let expected = 0xdeadbeef_00aa_11bb_22cc_33dd44ee55ffu128;
    assert_eq!(id.resolve().unwrap().value, expected);
}

#[test]
fn resolve_round_trips_a_rendered_identifier() {
    let value = 0x0123_4567_89ab_cdef_fedc_ba98_7654_3210u128;
    let h = format!("{:032x}", value);
    let text =
        format!("{}-{}-{}-{}-{}", &h[0..8], &h[8..12], &h[12..16], &h[16..20], &h[20..32]);
    assert_eq!(EntityId::new(text).resolve().unwrap().value, value);
}

#[test]
fn resolve_rejects_malformed_strings() {
    for bad in [
        "",
        "invalid Uuid",
        "00000000-0000-0000-0000-00000000001",    // too short
        "00000000-0000-0000-0000-0000000000012",  // too long
        "00000000000000000000000000000001",       // no hyphens
        "{00000000-0000-0000-0000-000000000001}", // braced
        "urn:uuid:00000000-0000-0000-0000-000000000001",
        "00000000_0000_0000_0000_000000000001",   // wrong separators
        "0000000g-0000-0000-0000-000000000001",   // bad digit
        "00000000-0000-0000-0000-00000000000\u{30a2}", // non-ascii tail
    ] {
        let r = EntityId::new(bad.to_string()).resolve();
        assert!(matches!(r, Err("unable to parse as uuid")), "{bad}");
    }
}

#[test]
fn parse_uuid_rejects_hyphens_misplaced() {
    assert!(parse_uuid("000000000-000-0000-0000-000000000001").is_none());
    assert!(parse_uuid("00000000-0000-0000-00-00000000000001").is_none());
}

#[test]
fn to_text_renders_the_canonical_form() {
    assert_eq!(Uuid { value: 1 }.to_text(), "00000000-0000-0000-0000-000000000001");
    assert_eq!(
        Uuid { value: 0xdeadbeef_00aa_11bb_22cc_33dd44ee55ff }.to_text(),
        "deadbeef-00aa-11bb-22cc-33dd44ee55ff"
    );
    assert_eq!(
        Uuid { value: u128::MAX }.to_text(),
        "ffffffff-ffff-ffff-ffff-ffffffffffff"
    );
}

#[test]
fn to_text_then_resolve_round_trips() {
    for v in [
        0u128,
        1,
        0xdead,
        u128::MAX,
        0x0123_4567_89ab_cdef_fedc_ba98_7654_3210,
    ] {
        let text = Uuid { value: v }.to_text();
        assert_eq!(EntityId::new(text).resolve().unwrap().value, v);
    }
}

#[test]
fn describe_spells_out_each_kind() {
    assert_eq!(
        DbError::Creation(store_err("boom")).describe(),
        "Creation error occurred: boom"
    );
    assert_eq!(
        DbError::NotFound(store_err("gone")).describe(),
        "Entity not found in database: gone"
    );
    assert_eq!(
        DbError::InvalidUuid("unable to parse as uuid").describe(),
        "Invalid Uuid error: unable to parse as uuid"
    );
    assert_eq!(
        DbError::Access(store_err("down")).describe(),
        "Error when accessing database: down"
    );
    assert_eq!(
        DbError::FromRow(store_err("bad row")).describe(),
        "Error when converting entity from database row: bad row"
    );
    assert_eq!(
        DbError::Deletion(store_err("kept")).describe(),
        "Error deleting from database: kept"
    );
    assert_eq!(
        DbError::Update(store_err("stale")).describe(),
        "Error updating database: stale"
    );
    assert_eq!(
        DbError::Commit(store_err("torn")).describe(),
        "Error committing to database: torn"
    );
}

#[test]
fn increment_reports_begin_failure_as_access() {
    let m = IncrementTx::Begin { id: Uuid { value: 5 } };
    let m = m.on_begin(Err(store_err("pool timed out")));
    assert!(matches!(m, IncrementTx::Done { result: Err(DbError::Access(_)) }));
}

#[test]
fn increment_reports_write_failure_as_update() {
    let m = IncrementTx::Begin { id: Uuid { value: 5 } };
    let m = m.on_begin(Ok(()));
    let m = m.on_read(FetchOutcome::Row(3));
    assert!(matches!(m, IncrementTx::Write { new_likes: 4, .. }));
    let m = m.on_write(Err(store_err("serialization failure")));
    assert!(matches!(m, IncrementTx::Done { result: Err(DbError::Update(_)) }));
}

#[test]
fn increment_reports_commit_failure_as_commit() {
    let m = IncrementTx::Begin { id: Uuid { value: 5 } };
    let m = m.on_begin(Ok(()));
    let m = m.on_read(FetchOutcome::Row(0));
    let m = m.on_write(Ok(()));
    let m = m.on_commit(Err(store_err("disk full")));
    assert!(matches!(m, IncrementTx::Done { result: Err(DbError::Commit(_)) }));
}

#[test]
fn increment_saturates_at_the_i32_maximum() {
    let m = IncrementTx::Begin { id: Uuid { value: 5 } };
    let m = m.on_begin(Ok(()));
    let m = m.on_read(FetchOutcome::Row(i32::MAX));
    assert!(matches!(m, IncrementTx::Write { new_likes: i32::MAX, .. }));
}

#[test]
fn delete_reports_remove_failure_as_deletion() {
    let m = DeleteTx::Begin { id: Uuid { value: 5 } };
    let m = m.on_begin(Ok(()));
    let m = m.on_check(FetchOutcome::Row(()));
    let m = m.on_remove(FetchOutcome::Failed(store_err("locked")));
    assert!(matches!(m, DeleteTx::Done { result: Err(DbError::Deletion(_)) }));
}

#[test]
fn delete_reports_commit_failure_as_commit() {
    let m = DeleteTx::Begin { id: Uuid { value: 5 } };
    let m = m.on_begin(Ok(()));
    let m = m.on_check(FetchOutcome::Row(()));
    let m = m.on_remove(FetchOutcome::Row(Uuid { value: 5 }));
    let m = m.on_commit(Err(store_err("disk full")));
    assert!(matches!(m, DeleteTx::Done { result: Err(DbError::Commit(_)) }));
}

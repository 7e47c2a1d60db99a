use one_time_share::lifecycle::{consume, create, save_with_token, sweep, ConsumeResult};
use one_time_share::migrate::update_version;
use one_time_share::quota::{validate, DenyReason, QuotaDecision};
use one_time_share::store::{OneTimeShareDb, StoreError};

fn setup_db() -> OneTimeShareDb {
    OneTimeShareDb::connect("test-service").unwrap()
}

#[test]
fn consume_of_unsaved_token_is_not_found() {
    let mut db = setup_db();
    assert_eq!(consume(&mut db, "never-saved"), ConsumeResult::NotFound);

    db.save_message("other", 0, "payload").unwrap();
    assert_eq!(consume(&mut db, "never-saved"), ConsumeResult::NotFound);
}

#[test]
fn first_consume_finds_later_consumes_do_not() {
    let mut db = setup_db();
    db.save_message("tokA", 1000, "hi").unwrap();

    let first = consume(&mut db, "tokA");
    assert_eq!(
        first,
        ConsumeResult::Found { data: "hi".to_owned(), expire_timestamp: 1000 }
    );

    assert_eq!(consume(&mut db, "tokA"), ConsumeResult::NotFound);
    assert_eq!(consume(&mut db, "tokA"), ConsumeResult::NotFound);
}

#[test]
fn consume_ignores_expiry_until_swept() {
    let mut db = setup_db();
    db.save_message("stale", 10, "still here").unwrap();

    // Far past its expiry, but not yet swept: the first consume still
    // returns the full message.
    let r = consume(&mut db, "stale");
    assert_eq!(
        r,
        ConsumeResult::Found { data: "still here".to_owned(), expire_timestamp: 10 }
    );
}

#[test]
fn sweep_removes_exactly_the_expired_window() {
    let mut db = setup_db();
    db.save_message("never", 0, "kept: never expires").unwrap();
    db.save_message("old", 159, "dropped: strictly before the threshold").unwrap();
    db.save_message("boundary", 160, "kept: expires exactly at the threshold").unwrap();
    db.save_message("later", 161, "kept: expires after the threshold").unwrap();

    sweep(&mut db, 160).unwrap();

    assert_eq!(consume(&mut db, "old"), ConsumeResult::NotFound);
    assert!(matches!(consume(&mut db, "never"), ConsumeResult::Found { .. }));
    assert!(matches!(consume(&mut db, "boundary"), ConsumeResult::Found { .. }));
    assert!(matches!(consume(&mut db, "later"), ConsumeResult::Found { .. }));
}

#[test]
fn sweep_leaves_second_message_consumable() {
    let mut db = setup_db();
    db.save_message("m1", 100, "first").unwrap();
    db.save_message("m2", 200, "second").unwrap();

    sweep(&mut db, 160).unwrap();

    assert_eq!(consume(&mut db, "m1"), ConsumeResult::NotFound);
    assert_eq!(
        consume(&mut db, "m2"),
        ConsumeResult::Found { data: "second".to_owned(), expire_timestamp: 200 }
    );
}

#[test]
fn save_of_duplicate_token_is_a_conflict() {
    let mut db = setup_db();
    db.save_message("dup", 0, "first").unwrap();
    assert_eq!(db.save_message("dup", 99, "second"), Err(StoreError::Conflict));

    // The store is unchanged: the first payload is still there.
    let (data, expire) = db.try_consume_message("dup").unwrap();
    assert_eq!(data.unwrap(), "first");
    assert_eq!(expire, 0);
}

#[test]
fn validate_unknown_user_is_not_found() {
    let db = setup_db();
    assert_eq!(
        validate(&db, "nobody", 0, 1, 1000),
        QuotaDecision::Denied(DenyReason::UserNotFound)
    );
}

#[test]
fn validate_cooldown_boundary() {
    let mut db = setup_db();
    db.set_user_limits("u", 0, 0, 5).unwrap();
    db.set_user_last_message_creation_time("u", 10_000).unwrap();

    // Inside the 5-minute cooldown: denied, down to the last second.
    assert_eq!(
        validate(&db, "u", 0, 1, 10_000),
        QuotaDecision::Denied(DenyReason::RateLimited { minutes_left: 5 })
    );
    assert_eq!(
        validate(&db, "u", 0, 1, 10_130),
        QuotaDecision::Denied(DenyReason::RateLimited { minutes_left: 3 })
    );
    assert_eq!(
        validate(&db, "u", 0, 1, 10_299),
        QuotaDecision::Denied(DenyReason::RateLimited { minutes_left: 1 })
    );
    // Exactly the cooldown has elapsed: allowed.
    assert_eq!(validate(&db, "u", 0, 1, 10_300), QuotaDecision::Allowed);
}

#[test]
fn validate_first_message_is_never_rate_limited() {
    let mut db = setup_db();
    db.set_user_limits("fresh", 0, 0, 5).unwrap();
    // No prior creation recorded (timestamp 0): the cooldown never applies.
    assert_eq!(validate(&db, "fresh", 0, 1, 0), QuotaDecision::Allowed);
    assert_eq!(validate(&db, "fresh", 0, 1, 1), QuotaDecision::Allowed);
}

#[test]
fn validate_size_boundary_is_inclusive() {
    let mut db = setup_db();
    db.set_user_limits("u", 0, 1024, 0).unwrap();

    assert_eq!(
        validate(&db, "u", 0, 1025, 1000),
        QuotaDecision::Denied(DenyReason::TooLarge)
    );
    assert_eq!(validate(&db, "u", 0, 1024, 1000), QuotaDecision::Allowed);
}

#[test]
fn validate_zero_size_limit_is_unlimited() {
    let mut db = setup_db();
    db.set_user_limits("u", 0, 0, 0).unwrap();
    assert_eq!(validate(&db, "u", 0, u64::MAX, 1000), QuotaDecision::Allowed);
}

#[test]
fn validate_retention_limit() {
    let mut db = setup_db();
    db.set_user_limits("u", 60, 0, 0).unwrap();

    assert_eq!(
        validate(&db, "u", 61, 1, 1000),
        QuotaDecision::Denied(DenyReason::RetentionTooLong)
    );
    assert_eq!(validate(&db, "u", 60, 1, 1000), QuotaDecision::Allowed);
    // No retention requested: stored without expiry, always within limits.
    assert_eq!(validate(&db, "u", 0, 1, 1000), QuotaDecision::Allowed);
}

#[test]
fn validate_removed_user_is_not_found() {
    let mut db = setup_db();
    db.set_user_limits("gone", 0, 0, 0).unwrap();
    db.remove_user_by_token("gone").unwrap();
    assert_eq!(
        validate(&db, "gone", 0, 1, 1000),
        QuotaDecision::Denied(DenyReason::UserNotFound)
    );
}

#[test]
fn create_stores_under_a_fresh_36_char_token() {
    let mut db = setup_db();
    let token = create(&mut db, "the payload", 2, 1000).unwrap();
    assert_eq!(token.len(), 36);

    let token2 = create(&mut db, "another payload", 0, 1000).unwrap();
    assert_eq!(token2.len(), 36);
    assert_ne!(token, token2);

    // Retention of 2 minutes starting at 1000: expires at 1120.
    assert_eq!(
        consume(&mut db, &token),
        ConsumeResult::Found { data: "the payload".to_owned(), expire_timestamp: 1120 }
    );
    // No retention requested: never expires.
    assert_eq!(
        consume(&mut db, &token2),
        ConsumeResult::Found { data: "another payload".to_owned(), expire_timestamp: 0 }
    );
}

#[test]
fn save_with_token_computes_the_expiry() {
    let mut db = setup_db();
    save_with_token(&mut db, "chosen", "data", 60, 500).unwrap();
    assert_eq!(
        consume(&mut db, "chosen"),
        ConsumeResult::Found { data: "data".to_owned(), expire_timestamp: 500 + 3600 }
    );

    save_with_token(&mut db, "forever", "data", 0, 500).unwrap();
    assert_eq!(
        consume(&mut db, "forever"),
        ConsumeResult::Found { data: "data".to_owned(), expire_timestamp: 0 }
    );

    save_with_token(&mut db, "taken", "data", 0, 500).unwrap();
    assert_eq!(
        save_with_token(&mut db, "taken", "data", 0, 500),
        Err(StoreError::Conflict)
    );
}

#[test]
fn migrator_is_a_noop_at_latest_version() {
    let mut db = setup_db();
    db.set_user_limits("u", 1, 2, 3).unwrap();
    db.save_message("m", 0, "payload").unwrap();
    db.set_database_version("0.1").unwrap();

    update_version(&mut db).unwrap();

    assert_eq!(db.get_database_version().unwrap(), "0.1");
    assert_eq!(db.get_user_limits("u").unwrap(), (true, 1, 2, 3));
    assert!(matches!(consume(&mut db, "m"), ConsumeResult::Found { .. }));
}

#[test]
fn migrator_writes_the_version_record_on_a_fresh_store() {
    let mut db = setup_db();
    update_version(&mut db).unwrap();
    assert_eq!(db.get_database_version().unwrap(), "0.1");
}

#[test]
fn validate_encoded_measures_the_decoded_payload() {
    let mut db = setup_db();
    // "SGVsbG8gd29ybGQ=" is 16 encoded characters but decodes to 11 bytes.
    db.set_user_limits("u", 0, 11, 0).unwrap();
    assert_eq!(
        one_time_share::quota::validate_encoded(&db, "u", 0, "SGVsbG8gd29ybGQ=", 0),
        Some(QuotaDecision::Allowed)
    );

    db.set_user_limits("u", 0, 10, 0).unwrap();
    assert_eq!(
        one_time_share::quota::validate_encoded(&db, "u", 0, "SGVsbG8gd29ybGQ=", 0),
        Some(QuotaDecision::Denied(DenyReason::TooLarge))
    );

    // Not valid base64: there is no decoded size to measure.
    assert_eq!(
        one_time_share::quota::validate_encoded(&db, "u", 0, "not base64 !!!", 0),
        None
    );
}

#[test]
fn validate_rate_limit_with_clock_skew() {
    // A prior creation recorded in the future of `now` means less than zero
    // elapsed time: still inside the cooldown, with the reported wait
    // growing beyond the cooldown itself (floor division of the negative
    // elapsed time).
    let mut db = setup_db();
    db.set_user_limits("u", 0, 0, 5).unwrap();
    db.set_user_last_message_creation_time("u", 1000).unwrap();

    assert_eq!(
        validate(&db, "u", 0, 1, 940),
        QuotaDecision::Denied(DenyReason::RateLimited { minutes_left: 6 })
    );
}

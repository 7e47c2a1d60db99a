//! The message lifecycle manager: creates messages under fresh random
//! tokens, consumes them exactly once, and sweeps the expired ones.

use vstd::prelude::*;

use crate::store::{find_message, swept, MessageRow, OneTimeShareDb, StoreError};

verus! {

/// What a consume yields: the stored payload and expiry of the message that
/// carried the token, or nothing when no such message exists (never saved,
/// already consumed, or already swept).
#[derive(Debug, PartialEq, Eq, Clone)]
pub enum ConsumeResult {
    Found { data: String, expire_timestamp: i64 },
    NotFound,
}

/// The expiry instant a creation at `now` with the given retention gets: the
/// end of the retention window, or 0 (never expires) when no retention was
/// requested.
pub open spec fn expire_at(now: int, retention_minutes: int) -> int {
    if retention_minutes > 0 {
        now + retention_minutes * 60
    } else {
        0
    }
}

/// The result a consume owes on a message table: the stored payload and
/// expiry of the row carrying the token, or `NotFound` without one.
pub open spec fn spec_consume_result(s: Seq<MessageRow>, t: Seq<char>) -> ConsumeResult {
    match find_message(s, t) {
        Some(m) => ConsumeResult::Found { data: m.data, expire_timestamp: m.expire_timestamp },
        None => ConsumeResult::NotFound,
    }
}

/// Exactly-once delivery: on a table that holds a message under `t`, consume
/// finds exactly the stored payload and expiry; on any table the first
/// consume leaves — one without a row under `t` — every later consume of `t`
/// yields `NotFound`.
pub proof fn lemma_consume_exactly_once(pre: Seq<MessageRow>, post: Seq<MessageRow>, t: Seq<char>)
    requires
        find_message(pre, t) is Some,
        find_message(post, t) is None,
    ensures
        spec_consume_result(pre, t) == (ConsumeResult::Found {
            data: find_message(pre, t)->Some_0.data,
            expire_timestamp: find_message(pre, t)->Some_0.expire_timestamp,
        }),
        spec_consume_result(post, t) == ConsumeResult::NotFound,
{
}

/// Relies on `uuid::Uuid::new_v4` and the `Display` form of `Uuid`: a fresh
/// version-4 UUID (122 random bits from the process's cryptographically
/// strong source), rendered as 36 hyphenated hexadecimal characters. The
/// result is random, so nothing beyond its length is promised.
#[verifier::external_body]
fn fresh_token() -> (r: String)
    ensures
        r@.len() == 36,
{
    uuid::Uuid::new_v4().to_string()
}

/// Saves a message under a caller-supplied token, with the expiry instant a
/// creation at `now` under `retention_minutes` gets. A token already in use
/// is a conflict and leaves the store as it was.
pub fn save_with_token(
    db: &mut OneTimeShareDb,
    message_token: &str,
    data: &str,
    retention_minutes: u32,
    now: i64,
) -> (r: Result<(), StoreError>)
    requires
        old(db).wf(),
        now + retention_minutes * 60 <= i64::MAX,
    ensures
        final(db).wf(),
        final(db).version_rec() == old(db).version_rec(),
        final(db).users_seq() == old(db).users_seq(),
        match find_message(old(db).messages_seq(), message_token@) {
            Some(_) => r == Err::<(), StoreError>(StoreError::Conflict)
                && final(db).messages_seq() == old(db).messages_seq(),
            None => {
                &&& r is Ok
                &&& forall|t: Seq<char>|
                    t != message_token@ ==> find_message(final(db).messages_seq(), t)
                        == find_message(old(db).messages_seq(), t)
                &&& (find_message(final(db).messages_seq(), message_token@) matches Some(m)
                    && m.message_token@ == message_token@ && m.data@ == data@
                    && m.expire_timestamp == expire_at(now as int, retention_minutes as int))
            },
        },
{
    let expire_timestamp: i64 = if retention_minutes > 0 {
        now + (retention_minutes as i64) * 60
    } else {
        0
    };
    db.save_message(message_token, expire_timestamp, data)
}

/// Creates a message: generates a fresh random token, computes the expiry
/// from `now` and the requested retention, and persists the row. On the
/// practically impossible token collision it retries once with another fresh
/// token; a second collision is reported as the conflict it is, with the
/// store unchanged.
pub fn create(db: &mut OneTimeShareDb, data: &str, retention_minutes: u32, now: i64) -> (r:
    Result<String, StoreError>)
    requires
        old(db).wf(),
        now + retention_minutes * 60 <= i64::MAX,
    ensures
        final(db).wf(),
        final(db).version_rec() == old(db).version_rec(),
        final(db).users_seq() == old(db).users_seq(),
        old(db).messages_seq().len() == 0 ==> r is Ok,
        match r {
            Ok(token) => {
                &&& token@.len() == 36
                &&& find_message(old(db).messages_seq(), token@) is None
                &&& forall|t: Seq<char>|
                    t != token@ ==> find_message(final(db).messages_seq(), t) == find_message(
                        old(db).messages_seq(),
                        t,
                    )
                &&& (find_message(final(db).messages_seq(), token@) matches Some(m)
                    && m.message_token@ == token@ && m.data@ == data@ && m.expire_timestamp
                    == expire_at(now as int, retention_minutes as int))
            },
            Err(e) => e == StoreError::Conflict
                && final(db).messages_seq() == old(db).messages_seq(),
        },
{
    let token = fresh_token();
    match save_with_token(db, token.as_str(), data, retention_minutes, now) {
        Ok(_) => Ok(token),
        Err(_) => {
            let retry_token = fresh_token();
            match save_with_token(db, retry_token.as_str(), data, retention_minutes, now) {
                Ok(_) => Ok(retry_token),
                Err(e) => Err(e),
            }
        },
    }
}

/// Consumes the message carrying `message_token` exactly once: the first
/// consume returns its stored payload and expiry — even one already past its
/// expiry but not yet swept, since expiry is enforced only by sweep — and
/// deletes the row; every later consume of the same token finds nothing.
pub fn consume(db: &mut OneTimeShareDb, message_token: &str) -> (r: ConsumeResult)
    requires
        old(db).wf(),
    ensures
        final(db).wf(),
        final(db).version_rec() == old(db).version_rec(),
        final(db).users_seq() == old(db).users_seq(),
        r == spec_consume_result(old(db).messages_seq(), message_token@),
        find_message(final(db).messages_seq(), message_token@) is None,
        forall|t: Seq<char>|
            t != message_token@ ==> find_message(final(db).messages_seq(), t) == find_message(
                old(db).messages_seq(),
                t,
            ),
{
    match db.try_consume_message(message_token) {
        Ok((Some(data), expire_timestamp)) => ConsumeResult::Found { data, expire_timestamp },
        Ok((None, _)) => ConsumeResult::NotFound,
        // unreachable: try_consume_message always succeeds
        Err(_) => ConsumeResult::NotFound,
    }
}

/// Sweeps the store at `now`: deletes exactly the messages with
/// `0 < expire_timestamp < now` and leaves those with expiry 0 or at or
/// after `now` untouched. Driven by an external timer, never self-scheduled.
pub fn sweep(db: &mut OneTimeShareDb, now: i64) -> (r: Result<(), StoreError>)
    requires
        old(db).wf(),
    ensures
        r is Ok,
        final(db).wf(),
        final(db).version_rec() == old(db).version_rec(),
        final(db).users_seq() == old(db).users_seq(),
        forall|t: Seq<char>|
            find_message(final(db).messages_seq(), t) == (match find_message(
                old(db).messages_seq(),
                t,
            ) {
                Some(m) => if swept(m.expire_timestamp as int, now as int) {
                    None::<MessageRow>
                } else {
                    Some(m)
                },
                None => None::<MessageRow>,
            }),
{
    db.clear_expired_messages(now)
}

} // verus!

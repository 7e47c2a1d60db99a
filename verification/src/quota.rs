//! The quota engine: a pure decision over store-read data on whether a
//! creation request is allowed under the user's limits and history.
//!
//! The engine writes nothing itself; on an allowed request the caller is
//! responsible for recording the new last-creation timestamp.

use base64::Engine;
use vstd::arithmetic::div_mod::{lemma_fundamental_div_mod, lemma_fundamental_div_mod_converse};
use vstd::prelude::*;

use crate::store::{find_user, OneTimeShareDb, UserRow};

verus! {

/// Why a creation request was denied.
#[derive(Clone, Copy, Debug, PartialEq, Eq)]
pub enum DenyReason {
    /// No quota row exists for the token.
    UserNotFound,
    /// The user's creation cooldown has not elapsed; `minutes_left` says how
    /// long to wait.
    RateLimited { minutes_left: u32 },
    /// The decoded payload exceeds the user's size limit.
    TooLarge,
    /// The requested retention exceeds the user's retention limit.
    RetentionTooLong,
}

/// The quota engine's verdict on a creation request.
#[derive(Clone, Copy, Debug, PartialEq, Eq)]
pub enum QuotaDecision {
    Allowed,
    Denied(DenyReason),
}

/// Whether a creation at `now` falls inside the user's cooldown window: the
/// cooldown is set, a prior creation is recorded (nonzero), and less than
/// the cooldown has elapsed since it. A user without a recorded prior
/// creation is never rate-limited.
pub open spec fn rate_limited(limit_minutes: u32, last_creation: i64, now: i64) -> bool {
    &&& limit_minutes > 0
    &&& last_creation > 0
    &&& now - last_creation < limit_minutes * 60
}

/// Minutes a rate-limited user must still wait: the cooldown in minutes less
/// the full minutes already elapsed, clamped into `u32`. The division is the
/// mathematical floor.
pub open spec fn spec_minutes_left(limit_minutes: u32, last_creation: i64, now: i64) -> u32 {
    let m = limit_minutes - (now - last_creation) / 60;
    if m > u32::MAX {
        u32::MAX
    } else if m < 0 {
        0
    } else {
        m as u32
    }
}

/// The decision `validate` owes for a given quota row (or its absence), in
/// the order the checks are made: existence, cooldown, payload size
/// (inclusive boundary: equality to the limit passes), requested retention.
/// A limit of 0 disables its check.
pub open spec fn spec_validate(
    quota: Option<UserRow>,
    requested_retention_minutes: u32,
    decoded_payload_size: u64,
    now: i64,
) -> QuotaDecision {
    match quota {
        None => QuotaDecision::Denied(DenyReason::UserNotFound),
        Some(u) => if rate_limited(
            u.message_creation_limit_minutes,
            u.last_message_creation_timestamp,
            now,
        ) {
            QuotaDecision::Denied(
                DenyReason::RateLimited {
                    minutes_left: spec_minutes_left(
                        u.message_creation_limit_minutes,
                        u.last_message_creation_timestamp,
                        now,
                    ),
                },
            )
        } else if u.max_size_bytes > 0 && decoded_payload_size > u.max_size_bytes {
            QuotaDecision::Denied(DenyReason::TooLarge)
        } else if requested_retention_minutes > 0 && u.retention_limit_minutes > 0
            && requested_retention_minutes > u.retention_limit_minutes {
            QuotaDecision::Denied(DenyReason::RetentionTooLong)
        } else {
            QuotaDecision::Allowed
        },
    }
}

/// The cooldown gate: a user whose creation cooldown is set and who has a
/// recorded prior creation at `last_message_creation_timestamp` is denied
/// as rate-limited at every instant less than the cooldown (in seconds)
/// after it, and is no longer rate-limited once at least the cooldown has
/// elapsed — where the size and retention checks also pass, the request is
/// then allowed.
pub proof fn lemma_cooldown_gate(
    u: UserRow,
    requested_retention_minutes: u32,
    decoded_payload_size: u64,
    now: i64,
)
    requires
        u.message_creation_limit_minutes > 0,
        u.last_message_creation_timestamp > 0,
    ensures
        now - u.last_message_creation_timestamp < u.message_creation_limit_minutes * 60
            ==> spec_validate(Some(u), requested_retention_minutes, decoded_payload_size, now)
            == QuotaDecision::Denied(
            DenyReason::RateLimited {
                minutes_left: spec_minutes_left(
                    u.message_creation_limit_minutes,
                    u.last_message_creation_timestamp,
                    now,
                ),
            },
        ),
        now - u.last_message_creation_timestamp >= u.message_creation_limit_minutes * 60 && (
        u.max_size_bytes == 0 || decoded_payload_size <= u.max_size_bytes) && (
        requested_retention_minutes == 0 || u.retention_limit_minutes == 0
            || requested_retention_minutes <= u.retention_limit_minutes) ==> spec_validate(
            Some(u),
            requested_retention_minutes,
            decoded_payload_size,
            now,
        ) == QuotaDecision::Allowed,
{
}

/// The size gate's boundary is inclusive: with a size limit set and the
/// cooldown passed, a payload strictly larger than the limit is denied as
/// too large, while one of exactly the limit's size (or smaller) passes the
/// size check — where the retention check also passes, the request is then
/// allowed.
pub proof fn lemma_size_gate(
    u: UserRow,
    requested_retention_minutes: u32,
    decoded_payload_size: u64,
    now: i64,
)
    requires
        u.max_size_bytes > 0,
        !rate_limited(u.message_creation_limit_minutes, u.last_message_creation_timestamp, now),
    ensures
        decoded_payload_size > u.max_size_bytes ==> spec_validate(
            Some(u),
            requested_retention_minutes,
            decoded_payload_size,
            now,
        ) == QuotaDecision::Denied(DenyReason::TooLarge),
        decoded_payload_size <= u.max_size_bytes && (requested_retention_minutes == 0
            || u.retention_limit_minutes == 0 || requested_retention_minutes
            <= u.retention_limit_minutes) ==> spec_validate(
            Some(u),
            requested_retention_minutes,
            decoded_payload_size,
            now,
        ) == QuotaDecision::Allowed,
{
}

/// Computes `spec_minutes_left` executably, including for a last-creation
/// instant that lies in the future of `now` (the elapsed time is then
/// negative and the wait grows beyond the cooldown itself).
fn minutes_left_of(limit_minutes: u32, last_creation: i64, now: i64) -> (r: u32)
    ensures
        r == spec_minutes_left(limit_minutes, last_creation, now),
{
    let elapsed: i128 = now as i128 - last_creation as i128;
    if elapsed >= 0 {
        let q: u128 = (elapsed as u128) / 60;
        if q >= limit_minutes as u128 {
            0
        } else {
            limit_minutes - (q as u32)
        }
    } else {
        let neg: u128 = (-elapsed) as u128;
        let q: u128 = (neg + 59) / 60;
        proof {
            let e = now - last_creation;
            lemma_fundamental_div_mod(e, 60);
            lemma_fundamental_div_mod_converse(
                neg as int + 59,
                60,
                -(e / 60),
                59 - (e % 60),
            );
        }
        if q > (u32::MAX - limit_minutes) as u128 {
            u32::MAX
        } else {
            limit_minutes + (q as u32)
        }
    }
}

/// What base64 decoding with the standard alphabet yields on the given
/// characters: the decoded bytes, or nothing where the input is not valid
/// standard base64. A function of the input alone.
pub uninterp spec fn b64_decoded(s: Seq<char>) -> Option<Seq<u8>>;

/// Relies on base64's standard-alphabet engine (`Engine::decode` on
/// `STANDARD`): decoding is deterministic in the input characters, and it
/// fails exactly on input that is not valid standard base64.
#[verifier::external_body]
fn decode_base64(s: &str) -> (r: Option<Vec<u8>>)
    ensures
        match r {
            Some(v) => b64_decoded(s@) == Some(v@),
            None => b64_decoded(s@) is None,
        },
{
    base64::engine::general_purpose::STANDARD.decode(s).ok()
}

/// Decides a creation request whose payload is still base64-encoded, as the
/// request handlers carry it: decodes to find the payload's true size, then
/// validates as `validate` does. A payload that is not valid base64 has no
/// size to check and is reported as `None`.
pub fn validate_encoded(
    db: &OneTimeShareDb,
    token: &str,
    requested_retention_minutes: u32,
    message_data: &str,
    now: i64,
) -> (r: Option<QuotaDecision>)
    ensures
        match b64_decoded(message_data@) {
            Some(bytes) => r == Some(
                spec_validate(
                    find_user(db.users_seq(), token@),
                    requested_retention_minutes,
                    bytes.len() as u64,
                    now,
                ),
            ),
            None => r is None,
        },
{
    match decode_base64(message_data) {
        Some(bytes) => Some(
            validate(db, token, requested_retention_minutes, bytes.len() as u64, now),
        ),
        None => None,
    }
}

/// Decides whether a creation request is allowed: the user must exist, be
/// outside any creation cooldown, and the payload size and requested
/// retention must be within the user's limits, checked in that order. Reads
/// the quota from the store; writes nothing.
pub fn validate(
    db: &OneTimeShareDb,
    token: &str,
    requested_retention_minutes: u32,
    decoded_payload_size: u64,
    now: i64,
) -> (r: QuotaDecision)
    ensures
        r == spec_validate(
            find_user(db.users_seq(), token@),
            requested_retention_minutes,
            decoded_payload_size,
            now,
        ),
{
    let (found, retention_limit, max_size, creation_limit) = match db.get_user_limits(token) {
        Ok(limits) => limits,
        // unreachable: get_user_limits always succeeds
        Err(_) => (false, 0, 0, 0),
    };
    if !found {
        return QuotaDecision::Denied(DenyReason::UserNotFound);
    }
    if creation_limit > 0 {
        let last_creation = match db.get_user_last_message_creation_time(token) {
            Ok(ts) => ts,
            // unreachable: get_user_last_message_creation_time always succeeds
            Err(_) => 0,
        };
        if last_creation > 0 {
            let elapsed: i128 = now as i128 - last_creation as i128;
            if elapsed < (creation_limit as i128) * 60 {
                return QuotaDecision::Denied(
                    DenyReason::RateLimited {
                        minutes_left: minutes_left_of(creation_limit, last_creation, now),
                    },
                );
            }
        }
    }
    if max_size > 0 && decoded_payload_size > max_size as u64 {
        return QuotaDecision::Denied(DenyReason::TooLarge);
    }
    if requested_retention_minutes > 0 && retention_limit > 0 && requested_retention_minutes
        > retention_limit {
        return QuotaDecision::Denied(DenyReason::RetentionTooLong);
    }
    QuotaDecision::Allowed
}

} // verus!

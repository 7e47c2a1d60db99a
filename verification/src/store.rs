//! The store: three collections (schema metadata, user quotas, messages)
//! with unique tokens, and the CRUD operations against them. The collections
//! live in memory behind a single owned handle.
//!
//! Every mutating operation takes the store by `&mut`, so each call is one
//! indivisible unit with respect to other callers; in particular the
//! read-then-delete of [`OneTimeShareDb::try_consume_message`] cannot be
//! interleaved with another operation.

use vstd::prelude::*;

verus! {

/// Character-for-character equality of two string slices.
pub(crate) fn str_eq(a: &str, b: &str) -> (r: bool)
    ensures
        r == (a@ == b@),
{
    let a_owned: String = a.to_owned();
    let b_owned: String = b.to_owned();
    a_owned == b_owned
}

/// One row of the user-quota collection, keyed by `token`.
///
/// A limit of 0 means "unlimited" (or "no cooldown" for
/// `message_creation_limit_minutes`); a `last_message_creation_timestamp`
/// of 0 means "no prior message".
pub struct UserRow {
    pub token: String,
    pub retention_limit_minutes: u32,
    pub max_size_bytes: u32,
    pub message_creation_limit_minutes: u32,
    pub last_message_creation_timestamp: i64,
}

/// One row of the message collection, keyed by `message_token`.
///
/// An `expire_timestamp` of 0 means the message never expires; otherwise it
/// is an absolute instant in seconds. The payload is opaque text, already
/// encoded by the caller.
pub struct MessageRow {
    pub message_token: String,
    pub expire_timestamp: i64,
    pub data: String,
}

/// Errors reported by the store itself.
///
/// The store lives in memory, so the only failure it can report is a
/// uniqueness-constraint violation on a message token.
#[derive(Clone, Copy, Debug, PartialEq, Eq)]
pub enum StoreError {
    Conflict,
}

/// The store: schema-version record, user quotas and messages.
pub struct OneTimeShareDb {
    version: Option<String>,
    users: Vec<UserRow>,
    messages: Vec<MessageRow>,
}

/// The latest schema version, as a mathematical value.
pub open spec fn latest_version_spec() -> Seq<char> {
    "0.1"@
}

/// The latest schema version known to this build.
pub fn latest_version() -> (r: String)
    ensures
        r@ == latest_version_spec(),
{
    "0.1".to_owned()
}

/// First row of `s` whose token's characters are `t`, if any.
pub open spec fn find_user(s: Seq<UserRow>, t: Seq<char>) -> Option<UserRow>
    decreases s.len(),
{
    if s.len() == 0 {
        None
    } else if s[0].token@ == t {
        Some(s[0])
    } else {
        find_user(s.drop_first(), t)
    }
}

/// First row of `s` whose message token's characters are `t`, if any.
pub open spec fn find_message(s: Seq<MessageRow>, t: Seq<char>) -> Option<MessageRow>
    decreases s.len(),
{
    if s.len() == 0 {
        None
    } else if s[0].message_token@ == t {
        Some(s[0])
    } else {
        find_message(s.drop_first(), t)
    }
}

/// Whether a sweep with threshold `limit` removes a message with the given
/// expiry: only messages that do expire (nonzero) and whose instant lies
/// strictly before the threshold. A message with expiry 0 is never swept.
pub open spec fn swept(expire_timestamp: int, limit: int) -> bool {
    0 < expire_timestamp < limit
}

impl Clone for MessageRow {
    fn clone(&self) -> (r: Self)
        ensures
            r == *self,
    {
        MessageRow {
            message_token: self.message_token.clone(),
            expire_timestamp: self.expire_timestamp,
            data: self.data.clone(),
        }
    }
}

/// No two user rows share a token.
pub open spec fn user_tokens_unique(s: Seq<UserRow>) -> bool {
    forall|i: int, j: int| 0 <= i < j < s.len() ==> s[i].token@ != s[j].token@
}

/// No two message rows share a token.
pub open spec fn message_tokens_unique(s: Seq<MessageRow>) -> bool {
    forall|i: int, j: int| 0 <= i < j < s.len() ==> s[i].message_token@ != s[j].message_token@
}

proof fn lemma_find_user_present(s: Seq<UserRow>, t: Seq<char>, i: int)
    requires
        0 <= i < s.len(),
        s[i].token@ == t,
        forall|j: int| 0 <= j < i ==> s[j].token@ != t,
    ensures
        find_user(s, t) == Some(s[i]),
    decreases i,
{
    if i > 0 {
        assert(s[0].token@ != t);
        assert forall|j: int| 0 <= j < i - 1 implies s.drop_first()[j].token@ != t by {
            assert(s.drop_first()[j] == s[j + 1]);
        }
        assert(s.drop_first()[i - 1] == s[i]);
        lemma_find_user_present(s.drop_first(), t, i - 1);
    }
}

proof fn lemma_find_user_absent(s: Seq<UserRow>, t: Seq<char>)
    requires
        forall|j: int| 0 <= j < s.len() ==> s[j].token@ != t,
    ensures
        find_user(s, t) is None,
    decreases s.len(),
{
    if s.len() > 0 {
        assert forall|j: int| 0 <= j < s.drop_first().len() implies s.drop_first()[j].token@ != t by {
            assert(s.drop_first()[j] == s[j + 1]);
        }
        lemma_find_user_absent(s.drop_first(), t);
    }
}

proof fn lemma_find_user_push(s: Seq<UserRow>, r: UserRow, t: Seq<char>)
    ensures
        find_user(s.push(r), t) == (match find_user(s, t) {
            Some(u) => Some(u),
            None => if r.token@ == t {
                Some(r)
            } else {
                None::<UserRow>
            },
        }),
    decreases s.len(),
{
    if s.len() == 0 {
        assert(s.push(r)[0] == r);
        assert(s.push(r).drop_first() =~= Seq::<UserRow>::empty());
    } else {
        assert(s.push(r)[0] == s[0]);
        if s[0].token@ != t {
            assert(s.push(r).drop_first() =~= s.drop_first().push(r));
            lemma_find_user_push(s.drop_first(), r, t);
        }
    }
}

proof fn lemma_find_user_update(s: Seq<UserRow>, i: int, r2: UserRow, t: Seq<char>)
    requires
        0 <= i < s.len(),
        s[i].token@ == r2.token@,
        forall|j: int| 0 <= j < i ==> s[j].token@ != s[i].token@,
    ensures
        find_user(s.update(i, r2), t) == (if t == r2.token@ {
            Some(r2)
        } else {
            find_user(s, t)
        }),
    decreases s.len(),
{
    let s2 = s.update(i, r2);
    if i == 0 {
        assert(s2[0] == r2);
        if t != r2.token@ {
            assert(s2.drop_first() =~= s.drop_first());
        }
    } else {
        assert(s2[0] == s[0]);
        if s[0].token@ == t {
            assert(s[0].token@ != s[i].token@);
        } else {
            assert(s2.drop_first() =~= s.drop_first().update(i - 1, r2));
            assert(s.drop_first()[i - 1] == s[i]);
            assert forall|j: int|
                0 <= j < i - 1 implies (#[trigger] s.drop_first()[j]).token@ != s.drop_first()[i
                - 1].token@ by {
                assert(s.drop_first()[j] == s[j + 1]);
            }
            lemma_find_user_update(s.drop_first(), i - 1, r2, t);
        }
    }
}

proof fn lemma_find_user_remove(s: Seq<UserRow>, i: int, t: Seq<char>)
    requires
        0 <= i < s.len(),
        user_tokens_unique(s),
    ensures
        find_user(s.remove(i), t) == (if t == s[i].token@ {
            None::<UserRow>
        } else {
            find_user(s, t)
        }),
    decreases s.len(),
{
    let s2 = s.remove(i);
    s.remove_ensures(i);
    if i == 0 {
        assert(s2 =~= s.drop_first());
        if t == s[0].token@ {
            assert forall|j: int| 0 <= j < s2.len() implies s2[j].token@ != t by {
                assert(s2[j] == s[j + 1]);
            }
            lemma_find_user_absent(s2, t);
        }
    } else {
        assert(s2[0] == s[0]);
        if s[0].token@ == t {
            assert(t != s[i].token@);
        } else {
            assert(s2.drop_first() =~= s.drop_first().remove(i - 1));
            assert forall|a: int, b: int|
                0 <= a < b < s.drop_first().len() implies s.drop_first()[a].token@
                != s.drop_first()[b].token@ by {
                assert(s.drop_first()[a] == s[a + 1]);
                assert(s.drop_first()[b] == s[b + 1]);
            }
            assert(s.drop_first()[i - 1] == s[i]);
            lemma_find_user_remove(s.drop_first(), i - 1, t);
        }
    }
}

proof fn lemma_find_message_present(s: Seq<MessageRow>, t: Seq<char>, i: int)
    requires
        0 <= i < s.len(),
        s[i].message_token@ == t,
        forall|j: int| 0 <= j < i ==> s[j].message_token@ != t,
    ensures
        find_message(s, t) == Some(s[i]),
    decreases i,
{
    if i > 0 {
        assert(s[0].message_token@ != t);
        assert forall|j: int| 0 <= j < i - 1 implies s.drop_first()[j].message_token@ != t by {
            assert(s.drop_first()[j] == s[j + 1]);
        }
        assert(s.drop_first()[i - 1] == s[i]);
        lemma_find_message_present(s.drop_first(), t, i - 1);
    }
}

proof fn lemma_find_message_absent(s: Seq<MessageRow>, t: Seq<char>)
    requires
        forall|j: int| 0 <= j < s.len() ==> s[j].message_token@ != t,
    ensures
        find_message(s, t) is None,
    decreases s.len(),
{
    if s.len() > 0 {
        assert forall|j: int|
            0 <= j < s.drop_first().len() implies s.drop_first()[j].message_token@ != t by {
            assert(s.drop_first()[j] == s[j + 1]);
        }
        lemma_find_message_absent(s.drop_first(), t);
    }
}

proof fn lemma_find_message_cases(s: Seq<MessageRow>, t: Seq<char>)
    ensures
        match find_message(s, t) {
            Some(m) => m.message_token@ == t && exists|i: int| 0 <= i < s.len() && s[i] == m,
            None => forall|j: int| 0 <= j < s.len() ==> s[j].message_token@ != t,
        },
    decreases s.len(),
{
    if s.len() > 0 {
        if s[0].message_token@ == t {
            assert(s[0] == s[0]);
        } else {
            lemma_find_message_cases(s.drop_first(), t);
            match find_message(s.drop_first(), t) {
                Some(m) => {
                    let i = choose|i: int|
                        0 <= i < s.drop_first().len() && s.drop_first()[i] == m;
                    assert(s[i + 1] == m);
                },
                None => {
                    assert forall|j: int| 0 <= j < s.len() implies s[j].message_token@ != t by {
                        if j > 0 {
                            assert(s.drop_first()[j - 1] == s[j]);
                        }
                    }
                },
            }
        }
    }
}

proof fn lemma_find_message_push(s: Seq<MessageRow>, r: MessageRow, t: Seq<char>)
    ensures
        find_message(s.push(r), t) == (match find_message(s, t) {
            Some(m) => Some(m),
            None => if r.message_token@ == t {
                Some(r)
            } else {
                None::<MessageRow>
            },
        }),
    decreases s.len(),
{
    if s.len() == 0 {
        assert(s.push(r)[0] == r);
        assert(s.push(r).drop_first() =~= Seq::<MessageRow>::empty());
    } else {
        assert(s.push(r)[0] == s[0]);
        if s[0].message_token@ != t {
            assert(s.push(r).drop_first() =~= s.drop_first().push(r));
            lemma_find_message_push(s.drop_first(), r, t);
        }
    }
}

proof fn lemma_find_message_remove(s: Seq<MessageRow>, i: int, t: Seq<char>)
    requires
        0 <= i < s.len(),
        message_tokens_unique(s),
    ensures
        find_message(s.remove(i), t) == (if t == s[i].message_token@ {
            None::<MessageRow>
        } else {
            find_message(s, t)
        }),
    decreases s.len(),
{
    let s2 = s.remove(i);
    s.remove_ensures(i);
    if i == 0 {
        assert(s2 =~= s.drop_first());
        if t == s[0].message_token@ {
            assert forall|j: int| 0 <= j < s2.len() implies s2[j].message_token@ != t by {
                assert(s2[j] == s[j + 1]);
            }
            lemma_find_message_absent(s2, t);
        }
    } else {
        assert(s2[0] == s[0]);
        if s[0].message_token@ == t {
            assert(t != s[i].message_token@);
        } else {
            assert(s2.drop_first() =~= s.drop_first().remove(i - 1));
            assert forall|a: int, b: int|
                0 <= a < b < s.drop_first().len() implies s.drop_first()[a].message_token@
                != s.drop_first()[b].message_token@ by {
                assert(s.drop_first()[a] == s[a + 1]);
                assert(s.drop_first()[b] == s[b + 1]);
            }
            assert(s.drop_first()[i - 1] == s[i]);
            lemma_find_message_remove(s.drop_first(), i - 1, t);
        }
    }
}

/// Index of the first user row with the given token, if any.
fn find_user_index(users: &Vec<UserRow>, token: &str) -> (r: Option<usize>)
    ensures
        match r {
            Some(i) => i < users@.len() && users@[i as int].token@ == token@ && (forall|j: int|
                0 <= j < i ==> users@[j].token@ != token@),
            None => forall|j: int| 0 <= j < users@.len() ==> users@[j].token@ != token@,
        },
{
    let mut i: usize = 0;
    while i < users.len()
        invariant
            i <= users@.len(),
            forall|j: int| 0 <= j < i ==> users@[j].token@ != token@,
        decreases users@.len() - i,
    {
        if str_eq(users[i].token.as_str(), token) {
            return Some(i);
        }
        i = i + 1;
    }
    None
}

/// Index of the first message row with the given token, if any.
fn find_message_index(messages: &Vec<MessageRow>, token: &str) -> (r: Option<usize>)
    ensures
        match r {
            Some(i) => i < messages@.len() && messages@[i as int].message_token@ == token@ && (
            forall|j: int| 0 <= j < i ==> messages@[j].message_token@ != token@),
            None => forall|j: int|
                0 <= j < messages@.len() ==> messages@[j].message_token@ != token@,
        },
{
    let mut i: usize = 0;
    while i < messages.len()
        invariant
            i <= messages@.len(),
            forall|j: int| 0 <= j < i ==> messages@[j].message_token@ != token@,
        decreases messages@.len() - i,
    {
        if str_eq(messages[i].message_token.as_str(), token) {
            return Some(i);
        }
        i = i + 1;
    }
    None
}

impl OneTimeShareDb {
    /// The user-quota collection.
    pub closed spec fn users_seq(self) -> Seq<UserRow> {
        self.users@
    }

    /// The message collection.
    pub closed spec fn messages_seq(self) -> Seq<MessageRow> {
        self.messages@
    }

    /// The schema-version record, if one has been written.
    pub closed spec fn version_rec(self) -> Option<Seq<char>> {
        match self.version {
            Some(v) => Some(v@),
            None => None,
        }
    }

    /// The store's invariant: both token columns are unique, as the unique
    /// indexes of the persisted layout demand. Constructors establish it and
    /// every operation preserves it.
    pub open spec fn wf(self) -> bool {
        &&& user_tokens_unique(self.users_seq())
        &&& message_tokens_unique(self.messages_seq())
    }

    /// Opens a store under the given name and initializes an empty schema:
    /// no version record, no quotas, no messages. The collections live in
    /// memory, so `path` does not affect behavior.
    pub fn connect(path: &str) -> (r: Result<OneTimeShareDb, StoreError>)
        ensures
            r matches Ok(db) && db.wf() && db.version_rec() is None && db.users_seq().len() == 0
                && db.messages_seq().len() == 0,
    {
        let _ = path;
        Ok(OneTimeShareDb { version: None, users: Vec::new(), messages: Vec::new() })
    }

    /// Reads the schema version; a store without a version record reports the
    /// latest version (a fresh install has nothing to migrate).
    pub fn get_database_version(&self) -> (r: Result<String, StoreError>)
        ensures
            r matches Ok(v) && v@ == (match self.version_rec() {
                Some(s) => s,
                None => latest_version_spec(),
            }),
    {
        match &self.version {
            Some(v) => Ok(v.clone()),
            None => Ok(latest_version()),
        }
    }

    /// Replaces the schema-version record; quotas and messages are untouched.
    pub fn set_database_version(&mut self, version: &str) -> (r: Result<(), StoreError>)
        ensures
            r is Ok,
            final(self).version_rec() == Some(version@),
            final(self).users_seq() == old(self).users_seq(),
            final(self).messages_seq() == old(self).messages_seq(),
    {
        self.version = Some(version.to_owned());
        Ok(())
    }

    /// Creates or replaces the quota row for `token` in full. The one field an
    /// upsert never resets is `last_message_creation_timestamp`: an existing
    /// row keeps it, a new row starts it at 0 (no prior message).
    pub fn set_user_limits(
        &mut self,
        token: &str,
        retention_limit_minutes: u32,
        max_size_bytes: u32,
        message_creation_limit_minutes: u32,
    ) -> (r: Result<(), StoreError>)
        requires
            old(self).wf(),
        ensures
            r is Ok,
            final(self).wf(),
            final(self).version_rec() == old(self).version_rec(),
            final(self).messages_seq() == old(self).messages_seq(),
            forall|t: Seq<char>|
                t != token@ ==> find_user(final(self).users_seq(), t) == find_user(
                    old(self).users_seq(),
                    t,
                ),
            find_user(final(self).users_seq(), token@) matches Some(u) && u.token@ == token@
                && u.retention_limit_minutes == retention_limit_minutes && u.max_size_bytes
                == max_size_bytes && u.message_creation_limit_minutes
                == message_creation_limit_minutes && u.last_message_creation_timestamp == (
            match find_user(old(self).users_seq(), token@) {
                Some(u0) => u0.last_message_creation_timestamp,
                None => 0,
            }),
    {
        match find_user_index(&self.users, token) {
            Some(i) => {
                let row = UserRow {
                    token: self.users[i].token.clone(),
                    retention_limit_minutes,
                    max_size_bytes,
                    message_creation_limit_minutes,
                    last_message_creation_timestamp: self.users[
                        i
                    ].last_message_creation_timestamp,
                };
                proof {
                    lemma_find_user_present(self.users@, token@, i as int);
                    assert forall|t: Seq<char>|
                        find_user(self.users@.update(i as int, row), t) == (if t == row.token@ {
                            Some(row)
                        } else {
                            find_user(self.users@, t)
                        }) by {
                        lemma_find_user_update(self.users@, i as int, row, t);
                    }
                    assert forall|a: int, b: int|
                        0 <= a < b < self.users@.update(i as int, row).len() implies (
                        #[trigger] self.users@.update(i as int, row)[a]).token@ != (
                        #[trigger] self.users@.update(i as int, row)[b]).token@ by {}
                }
                self.users[i] = row;
                Ok(())
            },
            None => {
                let row = UserRow {
                    token: token.to_owned(),
                    retention_limit_minutes,
                    max_size_bytes,
                    message_creation_limit_minutes,
                    last_message_creation_timestamp: 0,
                };
                proof {
                    lemma_find_user_absent(self.users@, token@);
                    assert forall|t: Seq<char>|
                        find_user(self.users@.push(row), t) == (match find_user(
                            self.users@,
                            t,
                        ) {
                            Some(u) => Some(u),
                            None => if row.token@ == t {
                                Some(row)
                            } else {
                                None::<UserRow>
                            },
                        }) by {
                        lemma_find_user_push(self.users@, row, t);
                    }
                    assert forall|a: int, b: int|
                        0 <= a < b < self.users@.push(row).len() implies (
                        #[trigger] self.users@.push(row)[a]).token@ != (
                        #[trigger] self.users@.push(row)[b]).token@ by {}
                }
                self.users.push(row);
                Ok(())
            },
        }
    }

    /// Reads the quota row for `token`: a found flag and the three limits,
    /// all zero when the user does not exist.
    pub fn get_user_limits(&self, token: &str) -> (r: Result<(bool, u32, u32, u32), StoreError>)
        ensures
            r matches Ok((found, retention, max_size, creation_limit)) && (match find_user(
                self.users_seq(),
                token@,
            ) {
                Some(u) => found && retention == u.retention_limit_minutes && max_size
                    == u.max_size_bytes && creation_limit == u.message_creation_limit_minutes,
                None => !found && retention == 0 && max_size == 0 && creation_limit == 0,
            }),
    {
        match find_user_index(&self.users, token) {
            Some(i) => {
                proof {
                    lemma_find_user_present(self.users@, token@, i as int);
                }
                Ok(
                    (
                        true,
                        self.users[i].retention_limit_minutes,
                        self.users[i].max_size_bytes,
                        self.users[i].message_creation_limit_minutes,
                    ),
                )
            },
            None => {
                proof {
                    lemma_find_user_absent(self.users@, token@);
                }
                Ok((false, 0, 0, 0))
            },
        }
    }

    /// Records the instant of a user's latest message creation. A token
    /// without a quota row is left as it is, like an update that matches no
    /// row.
    pub fn set_user_last_message_creation_time(&mut self, token: &str, timestamp: i64) -> (r:
        Result<(), StoreError>)
        requires
            old(self).wf(),
        ensures
            r is Ok,
            final(self).wf(),
            final(self).version_rec() == old(self).version_rec(),
            final(self).messages_seq() == old(self).messages_seq(),
            forall|t: Seq<char>|
                t != token@ ==> find_user(final(self).users_seq(), t) == find_user(
                    old(self).users_seq(),
                    t,
                ),
            match find_user(old(self).users_seq(), token@) {
                Some(u0) => find_user(final(self).users_seq(), token@) matches Some(u)
                    && u.token@ == token@ && u.retention_limit_minutes
                    == u0.retention_limit_minutes && u.max_size_bytes == u0.max_size_bytes
                    && u.message_creation_limit_minutes == u0.message_creation_limit_minutes
                    && u.last_message_creation_timestamp == timestamp,
                None => find_user(final(self).users_seq(), token@) is None,
            },
    {
        match find_user_index(&self.users, token) {
            Some(i) => {
                let row = UserRow {
                    token: self.users[i].token.clone(),
                    retention_limit_minutes: self.users[i].retention_limit_minutes,
                    max_size_bytes: self.users[i].max_size_bytes,
                    message_creation_limit_minutes: self.users[
                        i
                    ].message_creation_limit_minutes,
                    last_message_creation_timestamp: timestamp,
                };
                proof {
                    lemma_find_user_present(self.users@, token@, i as int);
                    assert forall|t: Seq<char>|
                        find_user(self.users@.update(i as int, row), t) == (if t == row.token@ {
                            Some(row)
                        } else {
                            find_user(self.users@, t)
                        }) by {
                        lemma_find_user_update(self.users@, i as int, row, t);
                    }
                    assert forall|a: int, b: int|
                        0 <= a < b < self.users@.update(i as int, row).len() implies (
                        #[trigger] self.users@.update(i as int, row)[a]).token@ != (
                        #[trigger] self.users@.update(i as int, row)[b]).token@ by {}
                }
                self.users[i] = row;
                Ok(())
            },
            None => {
                proof {
                    lemma_find_user_absent(self.users@, token@);
                }
                Ok(())
            },
        }
    }

    /// Reads the instant of a user's latest message creation; 0 both for a
    /// user that never created a message and for a token without a quota row.
    pub fn get_user_last_message_creation_time(&self, token: &str) -> (r: Result<
        i64,
        StoreError,
    >)
        ensures
            r matches Ok(ts) && ts == (match find_user(self.users_seq(), token@) {
                Some(u) => u.last_message_creation_timestamp,
                None => 0,
            }),
    {
        match find_user_index(&self.users, token) {
            Some(i) => {
                proof {
                    lemma_find_user_present(self.users@, token@, i as int);
                }
                Ok(self.users[i].last_message_creation_timestamp)
            },
            None => {
                proof {
                    lemma_find_user_absent(self.users@, token@);
                }
                Ok(0)
            },
        }
    }

    /// Deletes the quota row for `token`, if one exists.
    pub fn remove_user_by_token(&mut self, token: &str) -> (r: Result<(), StoreError>)
        requires
            old(self).wf(),
        ensures
            r is Ok,
            final(self).wf(),
            final(self).version_rec() == old(self).version_rec(),
            final(self).messages_seq() == old(self).messages_seq(),
            forall|t: Seq<char>|
                t != token@ ==> find_user(final(self).users_seq(), t) == find_user(
                    old(self).users_seq(),
                    t,
                ),
            find_user(final(self).users_seq(), token@) is None,
    {
        match find_user_index(&self.users, token) {
            Some(i) => {
                proof {
                    assert forall|t: Seq<char>|
                        find_user(self.users@.remove(i as int), t) == (if t == self.users@[
                            i as int
                        ].token@ {
                            None::<UserRow>
                        } else {
                            find_user(self.users@, t)
                        }) by {
                        lemma_find_user_remove(self.users@, i as int, t);
                    }
                    self.users@.remove_ensures(i as int);
                    assert forall|a: int, b: int|
                        0 <= a < b < self.users@.remove(i as int).len() implies (
                        #[trigger] self.users@.remove(i as int)[a]).token@ != (
                        #[trigger] self.users@.remove(i as int)[b]).token@ by {}
                }
                self.users.remove(i);
                Ok(())
            },
            None => {
                proof {
                    lemma_find_user_absent(self.users@, token@);
                }
                Ok(())
            },
        }
    }

    /// Persists a new message row. A token already in use is a uniqueness
    /// violation and is reported as a conflict, leaving the store as it was.
    pub fn save_message(&mut self, message_token: &str, expire_timestamp: i64, data: &str) -> (r:
        Result<(), StoreError>)
        requires
            old(self).wf(),
        ensures
            final(self).wf(),
            final(self).version_rec() == old(self).version_rec(),
            final(self).users_seq() == old(self).users_seq(),
            match find_message(old(self).messages_seq(), message_token@) {
                Some(_) => r == Err::<(), StoreError>(StoreError::Conflict)
                    && final(self).messages_seq() == old(self).messages_seq(),
                None => {
                    &&& r is Ok
                    &&& forall|t: Seq<char>|
                        t != message_token@ ==> find_message(final(self).messages_seq(), t)
                            == find_message(old(self).messages_seq(), t)
                    &&& (find_message(final(self).messages_seq(), message_token@) matches Some(m)
                        && m.message_token@ == message_token@ && m.expire_timestamp
                        == expire_timestamp && m.data@ == data@)
                },
            },
    {
        match find_message_index(&self.messages, message_token) {
            Some(i) => {
                proof {
                    lemma_find_message_present(self.messages@, message_token@, i as int);
                }
                Err(StoreError::Conflict)
            },
            None => {
                let row = MessageRow {
                    message_token: message_token.to_owned(),
                    expire_timestamp,
                    data: data.to_owned(),
                };
                proof {
                    lemma_find_message_absent(self.messages@, message_token@);
                    assert forall|t: Seq<char>|
                        find_message(self.messages@.push(row), t) == (match find_message(
                            self.messages@,
                            t,
                        ) {
                            Some(m) => Some(m),
                            None => if row.message_token@ == t {
                                Some(row)
                            } else {
                                None::<MessageRow>
                            },
                        }) by {
                        lemma_find_message_push(self.messages@, row, t);
                    }
                    assert forall|a: int, b: int|
                        0 <= a < b < self.messages@.push(row).len() implies (
                        #[trigger] self.messages@.push(row)[a]).message_token@ != (
                        #[trigger] self.messages@.push(row)[b]).message_token@ by {}
                }
                self.messages.push(row);
                Ok(())
            },
        }
    }

    /// The atomic consume: reads the payload and expiry of the message with
    /// the given token and deletes its row, all as one operation on the
    /// store. A token with no row yields `(None, 0)`. Expiry is not consulted
    /// here: a message past its expiry but not yet swept is still returned.
    pub fn try_consume_message(&mut self, message_token: &str) -> (r: Result<
        (Option<String>, i64),
        StoreError,
    >)
        requires
            old(self).wf(),
        ensures
            final(self).wf(),
            final(self).version_rec() == old(self).version_rec(),
            final(self).users_seq() == old(self).users_seq(),
            match find_message(old(self).messages_seq(), message_token@) {
                Some(m) => {
                    &&& (r matches Ok((d, e)) && d == Some(m.data) && e == m.expire_timestamp)
                    &&& find_message(final(self).messages_seq(), message_token@) is None
                    &&& forall|t: Seq<char>|
                        t != message_token@ ==> find_message(final(self).messages_seq(), t)
                            == find_message(old(self).messages_seq(), t)
                },
                None => r == Ok::<(Option<String>, i64), StoreError>((None, 0))
                    && final(self).messages_seq() == old(self).messages_seq(),
            },
    {
        match find_message_index(&self.messages, message_token) {
            Some(i) => {
                let data = self.messages[i].data.clone();
                let expire = self.messages[i].expire_timestamp;
                proof {
                    lemma_find_message_present(self.messages@, message_token@, i as int);
                    assert forall|t: Seq<char>|
                        find_message(self.messages@.remove(i as int), t) == (if t
                            == self.messages@[i as int].message_token@ {
                            None::<MessageRow>
                        } else {
                            find_message(self.messages@, t)
                        }) by {
                        lemma_find_message_remove(self.messages@, i as int, t);
                    }
                    self.messages@.remove_ensures(i as int);
                    assert forall|a: int, b: int|
                        0 <= a < b < self.messages@.remove(i as int).len() implies (
                        #[trigger] self.messages@.remove(i as int)[a]).message_token@ != (
                        #[trigger] self.messages@.remove(i as int)[b]).message_token@ by {}
                }
                self.messages.remove(i);
                Ok((Some(data), expire))
            },
            None => {
                proof {
                    lemma_find_message_absent(self.messages@, message_token@);
                }
                Ok((None, 0))
            },
        }
    }

    /// Deletes exactly the messages a sweep at `limit_timestamp` is due to
    /// remove: those with `0 < expire_timestamp < limit_timestamp`. Messages
    /// that never expire (expiry 0) and messages expiring at or after the
    /// threshold are untouched.
    pub fn clear_expired_messages(&mut self, limit_timestamp: i64) -> (r: Result<(), StoreError>)
        requires
            old(self).wf(),
        ensures
            r is Ok,
            final(self).wf(),
            final(self).version_rec() == old(self).version_rec(),
            final(self).users_seq() == old(self).users_seq(),
            forall|t: Seq<char>|
                find_message(final(self).messages_seq(), t) == (match find_message(
                    old(self).messages_seq(),
                    t,
                ) {
                    Some(m) => if swept(m.expire_timestamp as int, limit_timestamp as int) {
                        None::<MessageRow>
                    } else {
                        Some(m)
                    },
                    None => None::<MessageRow>,
                }),
    {
        let ghost orig = self.messages@;
        let mut kept: Vec<MessageRow> = Vec::new();
        let mut i: usize = 0;
        while i < self.messages.len()
            invariant
                i <= self.messages@.len(),
                self.messages@ == orig,
                message_tokens_unique(orig),
                message_tokens_unique(kept@),
                forall|t: Seq<char>|
                    find_message(kept@, t) == (match find_message(
                        orig.take(i as int),
                        t,
                    ) {
                        Some(m) => if swept(m.expire_timestamp as int, limit_timestamp as int) {
                            None::<MessageRow>
                        } else {
                            Some(m)
                        },
                        None => None::<MessageRow>,
                    }),
            decreases self.messages@.len() - i,
        {
            let expire = self.messages[i].expire_timestamp;
            let ghost row = orig[i as int];
            proof {
                assert(orig.take(i as int + 1) =~= orig.take(i as int).push(row));
                assert forall|j: int| 0 <= j < i implies (#[trigger] orig.take(i as int)[j]).message_token@
                    != row.message_token@ by {}
                lemma_find_message_absent(orig.take(i as int), row.message_token@);
                assert forall|t: Seq<char>|
                    find_message(orig.take(i as int).push(row), t) == (match find_message(
                        orig.take(i as int),
                        t,
                    ) {
                        Some(m) => Some(m),
                        None => if row.message_token@ == t {
                            Some(row)
                        } else {
                            None::<MessageRow>
                        },
                    }) by {
                    lemma_find_message_push(orig.take(i as int), row, t);
                }
            }
            if !(0 < expire && expire < limit_timestamp) {
                proof {
                    lemma_find_message_cases(kept@, row.message_token@);
                    assert forall|t: Seq<char>|
                        find_message(kept@.push(row), t) == (match find_message(kept@, t) {
                            Some(m) => Some(m),
                            None => if row.message_token@ == t {
                                Some(row)
                            } else {
                                None::<MessageRow>
                            },
                        }) by {
                        lemma_find_message_push(kept@, row, t);
                    }
                    assert forall|a: int, b: int|
                        0 <= a < b < kept@.push(row).len() implies (
                        #[trigger] kept@.push(row)[a]).message_token@ != (
                        #[trigger] kept@.push(row)[b]).message_token@ by {}
                }
                kept.push(self.messages[i].clone());
            }
            i = i + 1;
        }
        proof {
            assert(orig.take(orig.len() as int) =~= orig);
        }
        self.messages = kept;
        Ok(())
    }
}

} // verus!

//! The schema migrator: brings a store's version forward to the latest
//! known version at startup, through a statically registered,
//! version-ordered chain of migration steps.
//!
//! The chain-validation rule is a real safety contract: a selected,
//! non-empty chain whose last step does not produce the latest version is
//! broken, and the caller must abort rather than serve traffic against an
//! unreconciled schema.

use vstd::prelude::*;

use crate::store::{latest_version, latest_version_spec, str_eq, OneTimeShareDb, StoreError};

verus! {

/// The earliest schema version a store can be at: selection of the chain
/// starts from the very first registered step for a store at this version.
pub open spec fn minimal_version_spec() -> Seq<char> {
    "0.1"@
}

/// A fatal migration failure.
#[derive(Clone, Copy, Debug, PartialEq, Eq)]
pub enum MigrateError {
    /// The registered chain does not carry the store's current version to
    /// the latest one.
    MigrationChainBroken,
}

/// One registered migration step, identified by the version it produces.
struct DbUpdater {
    version: String,
}

impl Clone for DbUpdater {
    fn clone(&self) -> (r: Self)
        ensures
            r == *self,
    {
        DbUpdater { version: self.version.clone() }
    }
}

/// What the transform registered under a step's version does to the store.
/// This spec is the registry's other half: a step added to
/// `make_all_updaters` extends it, together with the dispatch in
/// `update_db`, with what that step's transform does. The schema has had a
/// single version so far, so no version names a transform and every step
/// leaves the store as it is.
pub open spec fn step_effect(
    step_version: Seq<char>,
    pre: OneTimeShareDb,
    post: OneTimeShareDb,
) -> bool {
    post == pre
}

impl DbUpdater {
    /// The version this step produces.
    pub closed spec fn version_view(self) -> Seq<char> {
        self.version@
    }

    /// Applies the transform registered under this step's version to the
    /// store.
    pub fn update_db(&self, db: &mut OneTimeShareDb) -> (r: Result<(), StoreError>)
        requires
            old(db).wf(),
        ensures
            r is Ok,
            final(db).wf(),
            step_effect(self.version_view(), *old(db), *final(db)),
    {
        Ok(())
    }
}

/// The full registered migration chain, in registration order. Currently
/// empty: the schema has had a single version so far.
fn make_all_updaters() -> (r: Vec<DbUpdater>)
    ensures
        r@.len() == 0,
{
    Vec::new()
}

/// The contiguous subsequence of registered steps that carries a store from
/// right after `from` through `to`: steps are skipped until `from` is seen
/// (none are skipped when `from` is the minimal version, where `found`
/// starts true), then taken until one produces `to`.
spec fn spec_chain(all: Seq<DbUpdater>, found: bool, from: Seq<char>, to: Seq<char>) -> Seq<
    DbUpdater,
>
    decreases all.len(),
{
    if all.len() == 0 {
        Seq::empty()
    } else if found {
        if all[0].version@ == to {
            seq![all[0]]
        } else {
            seq![all[0]] + spec_chain(all.drop_first(), true, from, to)
        }
    } else if all[0].version@ == from {
        spec_chain(all.drop_first(), true, from, to)
    } else {
        spec_chain(all.drop_first(), false, from, to)
    }
}

/// Selects the chain of steps carrying `version_from` to `version_to`, and
/// rejects a non-empty chain that does not end exactly at `version_to` as
/// broken. An empty chain (unknown current version, or nothing registered)
/// is not an error: nothing is applied.
fn make_updaters(all: &Vec<DbUpdater>, version_from: &str, version_to: &str) -> (r: Result<
    Vec<DbUpdater>,
    MigrateError,
>)
    ensures
        ({
            let chain = spec_chain(
                all@,
                version_from@ == minimal_version_spec(),
                version_from@,
                version_to@,
            );
            match r {
                Ok(sel) => sel@ == chain && (chain.len() == 0 || chain.last().version@
                    == version_to@),
                Err(e) => e == MigrateError::MigrationChainBroken && chain.len() > 0
                    && chain.last().version@ != version_to@,
            }
        }),
{
    let ghost chain = spec_chain(
        all@,
        version_from@ == minimal_version_spec(),
        version_from@,
        version_to@,
    );
    let mut sel: Vec<DbUpdater> = Vec::new();
    let mut found: bool = str_eq(version_from, "0.1");
    let mut done: bool = false;
    let mut i: usize = 0;
    proof {
        assert(all@.skip(0) =~= all@);
        assert(Seq::<DbUpdater>::empty() + chain =~= chain);
    }
    while i < all.len() && !done
        invariant
            i <= all@.len(),
            !done ==> chain == sel@ + spec_chain(
                all@.skip(i as int),
                found,
                version_from@,
                version_to@,
            ),
            done ==> chain == sel@ && sel@.len() > 0 && sel@.last().version@ == version_to@,
        decreases all@.len() - i,
    {
        proof {
            assert(all@.skip(i as int)[0] == all@[i as int]);
            assert(all@.skip(i as int).drop_first() =~= all@.skip(i as int + 1));
        }
        if found {
            sel.push(all[i].clone());
            if str_eq(all[i].version.as_str(), version_to) {
                done = true;
                proof {
                    assert(chain =~= sel@);
                }
            } else {
                proof {
                    assert(chain =~= sel@ + spec_chain(
                        all@.skip(i as int + 1),
                        true,
                        version_from@,
                        version_to@,
                    ));
                }
            }
        } else {
            if str_eq(all[i].version.as_str(), version_from) {
                found = true;
            }
        }
        i = i + 1;
    }
    proof {
        if !done {
            assert(all@.skip(all@.len() as int) =~= Seq::<DbUpdater>::empty());
            assert(chain =~= sel@);
        }
    }
    if sel.len() == 0 {
        return Ok(sel);
    }
    let last_index = sel.len() - 1;
    if str_eq(sel[last_index].version.as_str(), version_to) {
        Ok(sel)
    } else {
        Err(MigrateError::MigrationChainBroken)
    }
}

/// Brings the store's schema forward to the latest version, safe to call on
/// every startup whatever the store's prior state: reads the current
/// version (a store without a version record reports the latest, so a fresh
/// install has nothing to migrate), applies the selected chain of steps
/// when the store is behind, and unconditionally writes the latest version
/// back. Quotas and messages are untouched.
pub fn update_version(db: &mut OneTimeShareDb) -> (r: Result<(), MigrateError>)
    requires
        old(db).wf(),
    ensures
        r is Ok,
        final(db).wf(),
        final(db).version_rec() == Some(latest_version_spec()),
        final(db).users_seq() == old(db).users_seq(),
        final(db).messages_seq() == old(db).messages_seq(),
{
    let current = match db.get_database_version() {
        Ok(v) => v,
        // unreachable: get_database_version always succeeds
        Err(_) => latest_version(),
    };
    let latest = latest_version();
    if !(current == latest) {
        let all = make_all_updaters();
        let sel = match make_updaters(&all, current.as_str(), latest.as_str()) {
            Ok(sel) => sel,
            // unreachable: an empty registered chain is never broken
            Err(e) => {
                return Err(e);
            },
        };
        let mut k: usize = 0;
        while k < sel.len()
            invariant
                old(db).wf(),
                *db == *old(db),
            decreases sel@.len() - k,
        {
            match sel[k].update_db(db) {
                Ok(_) => {},
                // unreachable: no registered step fails
                Err(_) => {},
            }
            k = k + 1;
        }
    }
    match db.set_database_version(latest.as_str()) {
        Ok(_) => Ok(()),
        // unreachable: set_database_version always succeeds
        Err(_) => Ok(()),
    }
}

} // verus!

//! The reconciliation algorithm: applying pending migrations in order.
//!
//! [`migrate_up_at`] reads the store's current version, computes the pending
//! migrations (registry entries with a greater version, in registry order),
//! and applies each in turn through [`apply_migration`], stopping at the
//! first failure. Each migration is applied atomically: either all of its
//! statements and its tracking record commit together, or the store is left
//! exactly as it was.
//!
//! The behaviour of a whole run is pinned by the functional model
//! [`run_model`]; the executable functions are proved to realise it.

use vstd::prelude::*;

use crate::checksum::checksum_of;
use crate::checksum::sha256_hex;
use crate::errors::ErrorKind;
use crate::errors::MigrationError;
use crate::errors::kind_of;
use crate::registry::MigModel;
use crate::registry::Migration;
use crate::registry::mig_views;
use crate::statements::split_statements;
use crate::statements::statements_of;
use crate::statements::string_views;
use crate::store::MigrationStore;
use crate::store::RecordModel;
use crate::store::StoreModel;
use crate::store::current_of;

verus! {

/// Whether the store accepts every statement of this body.
pub open spec fn mig_clean(s: StoreModel, m: MigModel) -> bool {
    forall|i: int|
        0 <= i < statements_of(m.body).len() ==> !s.failing.contains(
            #[trigger] statements_of(m.body)[i],
        )
}

/// The tracking row that committing this migration at this instant appends.
pub open spec fn record_of(m: MigModel, now: int) -> RecordModel {
    RecordModel { version: m.version, name: m.name, applied_at: now, checksum: sha256_hex(m.body) }
}

/// The store after this migration commits.
pub open spec fn applied_store(s: StoreModel, m: MigModel, now: int) -> StoreModel {
    StoreModel {
        records: s.records.push(record_of(m, now)),
        log: s.log + statements_of(m.body),
        ..s
    }
}

/// The outcome of applying one migration: the new store, and the error if
/// the transaction rolled back. On any error the store is unchanged.
pub open spec fn apply_outcome(s: StoreModel, m: MigModel, now: int) -> (StoreModel, Option<
    ErrorKind,
>) {
    if !s.reachable {
        (s, Some(ErrorKind::Connection))
    } else if !mig_clean(s, m) {
        (s, Some(ErrorKind::Statement { version: m.version, name: m.name }))
    } else if s.commit_fault {
        (s, Some(ErrorKind::Commit { version: m.version, name: m.name }))
    } else {
        (applied_store(s, m, now), None)
    }
}

/// The outcome of applying a list of pending migrations in order, stopping
/// at the first failure. Migrations committed before the failure stay
/// committed.
pub open spec fn run_model(s: StoreModel, pend: Seq<MigModel>, now: int) -> (StoreModel, Option<
    ErrorKind,
>)
    decreases pend.len(),
{
    if !s.reachable {
        (s, Some(ErrorKind::Connection))
    } else if pend.len() == 0 {
        (s, None)
    } else {
        let step = apply_outcome(s, pend[0], now);
        if step.1 is Some {
            step
        } else {
            run_model(step.0, pend.drop_first(), now)
        }
    }
}

/// The registry entries strictly above the current version, in registry
/// order.
pub open spec fn pending_model(migs: Seq<MigModel>, cur: int) -> Seq<MigModel> {
    migs.filter(|m: MigModel| m.version > cur)
}

/// The contract of a whole reconciliation run at clock reading `now`: the
/// store moves to the state the model prescribes, and the result classifies
/// exactly as the model's outcome.
pub open spec fn migrate_up_post(
    pre: StoreModel,
    post: StoreModel,
    migs: Seq<MigModel>,
    r: Result<(), MigrationError>,
    now: int,
) -> bool {
    let run = run_model(pre, pending_model(migs, current_of(pre.records)), now);
    &&& post == run.0
    &&& match r {
        Ok(()) => run.1 is None,
        Err(e) => run.1 matches Some(k) && kind_of(e) == k,
    }
}

/// Appending an entry to the registry extends the pending list exactly when
/// the entry's version is above the current one.
pub proof fn lemma_pending_push(migs: Seq<MigModel>, m: MigModel, cur: int)
    ensures
        pending_model(migs.push(m), cur) == if m.version > cur {
            pending_model(migs, cur).push(m)
        } else {
            pending_model(migs, cur)
        },
{
    reveal_with_fuel(Seq::<MigModel>::filter, 2);
    assert((migs.push(m)).drop_last() =~= migs);
}

/// The registry entries with a version greater than `current`, in registry
/// order; the runner trusts the registry's order and does not re-sort.
pub fn pending_migrations(registry: &Vec<Migration>, current: i32) -> (r: Vec<Migration>)
    ensures
        mig_views(r@) == pending_model(mig_views(registry@), current as int),
{
    let ghost all = mig_views(registry@);
    let mut out: Vec<Migration> = Vec::new();
    let mut i: usize = 0;
    proof {
        assert(all.take(0) =~= Seq::<MigModel>::empty());
        assert(mig_views(out@) =~= Seq::<MigModel>::empty());
        assert(pending_model(Seq::<MigModel>::empty(), current as int) =~= Seq::<
            MigModel,
        >::empty()) by {
            reveal_with_fuel(Seq::<MigModel>::filter, 1);
        }
    }
    while i < registry.len()
        invariant
            i <= registry@.len(),
            all == mig_views(registry@),
            all.len() == registry@.len(),
            mig_views(out@) == pending_model(all.take(i as int), current as int),
        decreases registry@.len() - i,
    {
        proof {
            assert(all.take(i + 1) =~= all.take(i as int).push(all[i as int]));
            assert(all[i as int] == registry@[i as int]@);
            lemma_pending_push(all.take(i as int), all[i as int], current as int);
        }
        let ghost prev = out@;
        if registry[i].version > current {
            out.push(registry[i].clone());
            proof {
                assert(mig_views(out@) =~= mig_views(prev).push(all[i as int]));
            }
        }
        i = i + 1;
    }
    proof {
        assert(all.take(registry@.len() as int) =~= all);
    }
    out
}

/// Applies one migration inside a single transaction: executes the body's
/// statements in order, computes the content checksum over the raw body, and
/// records the bookkeeping row — all of it committed together at `now`, or
/// none of it. On any failure the store is exactly as it was, the error
/// carries the migration's version and name, and success is owed if and only
/// if the store is reachable, accepts every statement, and can commit.
pub fn apply_migration(store: &mut MigrationStore, migration: &Migration, now: i64) -> (r: Result<
    (),
    MigrationError,
>)
    ensures
        ({
            let step = apply_outcome(old(store)@, migration@, now as int);
            &&& final(store)@ == step.0
            &&& match r {
                Ok(()) => step.1 is None,
                Err(e) => step.1 matches Some(k) && kind_of(e) == k,
            }
        }),
        r is Err ==> final(store)@ == old(store)@,
{
    if !store.reachable {
        return Err(MigrationError::ConnectionError {
            message: "cannot begin a transaction: the store is unreachable".to_owned(),
        });
    }
    let mut stmts = split_statements(migration.up_sql.as_str());
    let ghost sm = statements_of(migration@.body);
    let mut i: usize = 0;
    while i < stmts.len()
        invariant
            *store == *old(store),
            store@.reachable,
            i <= stmts@.len(),
            sm == statements_of(migration@.body),
            string_views(stmts@) == sm,
            sm.len() == stmts@.len(),
            forall|k: int| 0 <= k < i ==> !store@.failing.contains(#[trigger] sm[k]),
        decreases stmts@.len() - i,
    {
        proof {
            assert(sm[i as int] == stmts@[i as int]@);
        }
        if store.statement_fails(&stmts[i]) {
            proof {
                assert(statements_of(migration@.body)[i as int] == sm[i as int]);
                assert(!mig_clean(store@, migration@));
            }
            return Err(MigrationError::StatementError {
                version: migration.version,
                name: migration.name.clone(),
                message: "the store rejected a statement of this migration".to_owned(),
            });
        }
        i = i + 1;
    }
    assert(mig_clean(store@, migration@));
    if store.commit_fault {
        return Err(MigrationError::CommitError {
            version: migration.version,
            name: migration.name.clone(),
            message: "the transaction failed to commit".to_owned(),
        });
    }
    let checksum = checksum_of(migration.up_sql.as_str());
    let ghost mid = store@;
    store.statement_log.append(&mut stmts);
    proof {
        assert(store@ =~= (StoreModel { log: mid.log + sm, ..mid }));
    }
    store.record(migration.version, migration.name.clone(), checksum, now);
    proof {
        assert(store@ =~= applied_store(old(store)@, migration@, now as int));
    }
    Ok(())
}

/// Reconciles the store to the registry at clock reading `now`: applies every
/// pending migration in ascending registry order, stopping at the first
/// failure. When nothing is pending the call succeeds without side effects.
pub fn migrate_up_at(store: &mut MigrationStore, registry: &Vec<Migration>, now: i64) -> (r: Result<
    (),
    MigrationError,
>)
    ensures
        migrate_up_post(old(store)@, final(store)@, mig_views(registry@), r, now as int),
{
    let ghost migs = mig_views(registry@);
    let ghost pend = pending_model(migs, current_of(old(store)@.records));
    let current = match store.current_version() {
        Ok(v) => v,
        Err(e) => {
            return Err(e);
        },
    };
    let pending = pending_migrations(registry, current);
    let mut i: usize = 0;
    proof {
        assert(pend.skip(0) =~= pend);
    }
    while i < pending.len()
        invariant
            i <= pending@.len(),
            store@.reachable,
            migs == mig_views(registry@),
            pend == pending_model(migs, current_of(old(store)@.records)),
            mig_views(pending@) == pend,
            pend.len() == pending@.len(),
            run_model(old(store)@, pend, now as int) == run_model(
                store@,
                pend.skip(i as int),
                now as int,
            ),
        decreases pending@.len() - i,
    {
        let ghost rest = pend.skip(i as int);
        proof {
            assert(rest.len() == pend.len() - i);
            assert(rest[0] == pend[i as int]);
            assert(pend[i as int] == pending@[i as int]@);
            assert(rest.drop_first() =~= pend.skip(i + 1));
        }
        let ghost pre = store@;
        let outcome = apply_migration(store, &pending[i], now);
        proof {
            let step = apply_outcome(pre, rest[0], now as int);
            assert(run_model(pre, rest, now as int) == if step.1 is Some {
                step
            } else {
                run_model(step.0, rest.drop_first(), now as int)
            });
        }
        match outcome {
            Ok(()) => {},
            Err(e) => {
                return Err(e);
            },
        }
        i = i + 1;
    }
    proof {
        assert(pend.skip(pend.len() as int) =~= Seq::<MigModel>::empty());
    }
    Ok(())
}

/// Relies on chrono::Utc::now and DateTime::timestamp: the current wall
/// clock, as seconds since the Unix epoch. Nothing is assumed of the value.
#[verifier::external_body]
fn now_epoch() -> i64 {
    chrono::Utc::now().timestamp()
}

/// Reconciles the store to the registry, stamping each tracking record with
/// the wall clock. Behaves as [`migrate_up_at`] at some clock reading.
pub fn migrate_up(store: &mut MigrationStore, registry: &Vec<Migration>) -> (r: Result<
    (),
    MigrationError,
>)
    ensures
        exists|now: int|
            #[trigger] migrate_up_post(old(store)@, final(store)@, mig_views(registry@), r, now),
{
    let now = now_epoch();
    let r = migrate_up_at(store, registry, now);
    proof {
        assert(migrate_up_post(old(store)@, store@, mig_views(registry@), r, now as int));
    }
    r
}

} // verus!

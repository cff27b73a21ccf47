//! The laws of the migration engine, proved over its functional model.
//!
//! Each law is stated over [`run_model`], the model that the contracts of
//! [`crate::runner::migrate_up_at`] and [`crate::runner::apply_migration`]
//! pin the executable engine to, so every law carries over to the executable
//! functions. Checksum determinism is stated beside the checksum primitive in
//! [`crate::checksum`].

use vstd::prelude::*;

use crate::errors::ErrorKind;
use crate::registry::MigModel;
use crate::registry::registry_well_formed;
use crate::runner::applied_store;
use crate::runner::apply_outcome;
use crate::runner::pending_model;
use crate::runner::record_of;
use crate::runner::run_model;
use crate::store::RecordModel;
use crate::store::StoreModel;
use crate::store::current_of;

verus! {

broadcast use vstd::seq_lib::group_filter_ensures;

/// A run never flips the store's fault switches nor its set of rejected
/// statements: only records and the statement log grow.
pub proof fn lemma_run_preserves_faults(s: StoreModel, pend: Seq<MigModel>, now: int)
    ensures
        ({
            let s1 = run_model(s, pend, now).0;
            &&& s1.reachable == s.reachable
            &&& s1.commit_fault == s.commit_fault
            &&& s1.initialized == s.initialized
            &&& s1.failing == s.failing
        }),
    decreases pend.len(),
{
    if s.reachable && pend.len() > 0 {
        let step = apply_outcome(s, pend[0], now);
        if step.1 is None {
            lemma_run_preserves_faults(step.0, pend.drop_first(), now);
        }
    }
}

/// Appending a record raises the current version to that record's version
/// exactly when it is greater.
pub proof fn lemma_current_push(records: Seq<RecordModel>, r: RecordModel)
    ensures
        current_of(records.push(r)) == if r.version > current_of(records) {
            r.version
        } else {
            current_of(records)
        },
{
    assert((records.push(r)).drop_last() =~= records);
}

/// After a successful run the current version dominates the prior current
/// version and the version of every migration that was pending.
pub proof fn lemma_run_ok_current(s: StoreModel, pend: Seq<MigModel>, now: int)
    requires
        run_model(s, pend, now).1 is None,
    ensures
        ({
            let s1 = run_model(s, pend, now).0;
            &&& current_of(s1.records) >= current_of(s.records)
            &&& forall|j: int|
                0 <= j < pend.len() ==> current_of(s1.records) >= (#[trigger] pend[j]).version
        }),
    decreases pend.len(),
{
    if s.reachable && pend.len() > 0 {
        let step = apply_outcome(s, pend[0], now);
        if step.1 is None {
            let s2 = step.0;
            assert(s2 == applied_store(s, pend[0], now));
            lemma_current_push(s.records, record_of(pend[0], now));
            lemma_run_ok_current(s2, pend.drop_first(), now);
            assert(run_model(s, pend, now) == run_model(s2, pend.drop_first(), now));
            let s1 = run_model(s, pend, now).0;
            assert(current_of(s2.records) >= pend[0].version);
            assert(current_of(s1.records) >= current_of(s2.records));
            assert forall|j: int|
                0 <= j < pend.len() implies current_of(s1.records) >= (
            #[trigger] pend[j]).version by {
                if j >= 1 {
                    assert(pend.drop_first()[j - 1] == pend[j]);
                    assert(current_of(s1.records) >= pend.drop_first()[j - 1].version);
                }
            }
        }
    }
}

/// When no entry's version is above the current one, nothing is pending.
pub proof fn lemma_pending_empty(migs: Seq<MigModel>, cur: int)
    requires
        forall|i: int| 0 <= i < migs.len() ==> !((#[trigger] migs[i]).version > cur),
    ensures
        pending_model(migs, cur) == Seq::<MigModel>::empty(),
    decreases migs.len(),
{
    reveal_with_fuel(Seq::<MigModel>::filter, 2);
    if migs.len() > 0 {
        lemma_pending_empty(migs.drop_last(), cur);
    } else {
        assert(migs =~= Seq::<MigModel>::empty());
    }
}

/// Law: reconciliation is idempotent. After one successful run, a repeated
/// run — at any clock reading, hence any number of further repetitions —
/// finds nothing pending, changes neither the current version nor the
/// tracking records, and succeeds.
pub proof fn lemma_migrate_up_idempotent(s: StoreModel, migs: Seq<MigModel>, n1: int, n2: int)
    requires
        run_model(s, pending_model(migs, current_of(s.records)), n1).1 is None,
    ensures
        ({
            let s1 = run_model(s, pending_model(migs, current_of(s.records)), n1).0;
            run_model(s1, pending_model(migs, current_of(s1.records)), n2) == (
                s1,
                None::<ErrorKind>,
            )
        }),
{
    let pend = pending_model(migs, current_of(s.records));
    let s1 = run_model(s, pend, n1).0;
    lemma_run_preserves_faults(s, pend, n1);
    lemma_run_ok_current(s, pend, n1);
    let c1 = current_of(s1.records);
    assert forall|i: int| 0 <= i < migs.len() implies !((#[trigger] migs[i]).version > c1) by {
        if migs[i].version > current_of(s.records) {
            assert(pend.contains(migs[i]));
            let j = choose|j: int| 0 <= j < pend.len() && pend[j] == migs[i];
            assert(c1 >= pend[j].version);
        }
    }
    lemma_pending_empty(migs, c1);
}

/// Every element a filter keeps is an element of the original sequence.
proof fn lemma_filter_elements(migs: Seq<MigModel>, cur: int)
    ensures
        forall|k: int|
            0 <= k < pending_model(migs, cur).len() ==> migs.contains(
                #[trigger] pending_model(migs, cur)[k],
            ),
    decreases migs.len(),
{
    reveal_with_fuel(Seq::<MigModel>::filter, 2);
    if migs.len() > 0 {
        let front = migs.drop_last();
        lemma_filter_elements(front, cur);
        let pf = pending_model(front, cur);
        let pm = pending_model(migs, cur);
        assert forall|k: int| 0 <= k < pm.len() implies migs.contains(#[trigger] pm[k]) by {
            if k < pf.len() {
                assert(front.contains(pf[k]));
                let j = choose|j: int| 0 <= j < front.len() && front[j] == pf[k];
                assert(migs[j] == pm[k]);
            } else {
                assert(pm[k] == migs.last());
                assert(migs[migs.len() - 1] == migs.last());
            }
        }
    } else {
        assert(migs =~= Seq::<MigModel>::empty());
    }
}

/// A well-formed registry filters to a pending list that is strictly
/// ascending, with every version above the current one.
pub proof fn lemma_pending_well_formed(migs: Seq<MigModel>, cur: int)
    requires
        registry_well_formed(migs),
    ensures
        ({
            let pend = pending_model(migs, cur);
            &&& forall|i: int| 0 <= i < pend.len() ==> (#[trigger] pend[i]).version > cur
            &&& forall|i: int, j: int|
                0 <= i < j < pend.len() ==> pend[i].version < pend[j].version
        }),
    decreases migs.len(),
{
    reveal_with_fuel(Seq::<MigModel>::filter, 2);
    if migs.len() > 0 {
        let front = migs.drop_last();
        assert(registry_well_formed(front)) by {
            assert(forall|j: int| 0 <= j < front.len() ==> front[j] == (#[trigger] migs[j]));
        }
        lemma_pending_well_formed(front, cur);
        lemma_filter_elements(front, cur);
        let pf = pending_model(front, cur);
        let last = migs.last();
        if last.version > cur {
            assert(pending_model(migs, cur) == pf.push(last));
            assert forall|i: int, j: int|
                0 <= i < j < pf.push(last).len() implies pf.push(last)[i].version < pf.push(
                last,
            )[j].version by {
                if j == pf.len() {
                    assert(front.contains(pf[i]));
                    let k = choose|k: int| 0 <= k < front.len() && front[k] == pf[i];
                    assert(migs[k] == front[k]);
                    assert(migs[k].version < last.version);
                }
            }
        } else {
            assert(pending_model(migs, cur) == pf);
        }
    }
}

/// Law: strict ordering, over any pending list whose versions are above
/// `cur` and strictly ascending. A run never removes or reorders existing
/// records; every record it appends has a version above `cur`; and the
/// appended records are strictly ascending — migrations are never applied at
/// or below the current version, nor out of order.
pub proof fn lemma_run_strict_ordering(s: StoreModel, pend: Seq<MigModel>, now: int, cur: int)
    requires
        forall|i: int| 0 <= i < pend.len() ==> (#[trigger] pend[i]).version > cur,
        forall|i: int, j: int| 0 <= i < j < pend.len() ==> pend[i].version < pend[j].version,
    ensures
        ({
            let s1 = run_model(s, pend, now).0;
            &&& s1.records.len() >= s.records.len()
            &&& forall|i: int| 0 <= i < s.records.len() ==> s1.records[i] == (#[trigger] s.records[i])
            &&& forall|i: int|
                s.records.len() <= i < s1.records.len() ==> (#[trigger] s1.records[i]).version > cur
            &&& forall|i: int, j: int|
                s.records.len() <= i < j < s1.records.len() ==> s1.records[i].version
                    < s1.records[j].version
        }),
    decreases pend.len(),
{
    if s.reachable && pend.len() > 0 {
        let step = apply_outcome(s, pend[0], now);
        if step.1 is None {
            let s2 = step.0;
            let n = s.records.len() as int;
            assert(s2 == applied_store(s, pend[0], now));
            assert(forall|j: int|
                1 <= j < pend.len() ==> pend[j] == (#[trigger] pend.drop_first()[j - 1]));
            lemma_run_strict_ordering(s2, pend.drop_first(), now, pend[0].version);
            let s1 = run_model(s, pend, now).0;
            assert(run_model(s, pend, now) == run_model(s2, pend.drop_first(), now));
            assert(s2.records.len() == n + 1);
            assert(s2.records[n] == record_of(pend[0], now));
            assert(s1.records[n] == record_of(pend[0], now));
            assert(s1.records[n].version == pend[0].version > cur);
            assert forall|i: int|
                n <= i < s1.records.len() implies (#[trigger] s1.records[i]).version > cur by {
                if i > n {
                    assert(s1.records[i].version > pend[0].version);
                }
            }
            assert forall|i: int, j: int|
                n <= i < j < s1.records.len() implies s1.records[i].version
                    < s1.records[j].version by {
                if i == n {
                    assert(s1.records[j].version > pend[0].version);
                }
            }
            assert forall|i: int| 0 <= i < n implies s1.records[i] == (
            #[trigger] s.records[i]) by {
                assert(s1.records[i] == s2.records[i]);
                assert(s2.records[i] == s.records.push(record_of(pend[0], now))[i]);
            }
        }
    }
}

/// Law: strict ordering of a reconciliation run against a well-formed
/// registry, relative to the store's current version.
pub proof fn lemma_migrate_up_strict_ordering(s: StoreModel, migs: Seq<MigModel>, now: int)
    requires
        registry_well_formed(migs),
    ensures
        ({
            let cur = current_of(s.records);
            let s1 = run_model(s, pending_model(migs, cur), now).0;
            &&& s1.records.len() >= s.records.len()
            &&& forall|i: int| 0 <= i < s.records.len() ==> s1.records[i] == (#[trigger] s.records[i])
            &&& forall|i: int|
                s.records.len() <= i < s1.records.len() ==> (#[trigger] s1.records[i]).version > cur
            &&& forall|i: int, j: int|
                s.records.len() <= i < j < s1.records.len() ==> s1.records[i].version
                    < s1.records[j].version
        }),
{
    let cur = current_of(s.records);
    lemma_pending_well_formed(migs, cur);
    lemma_run_strict_ordering(s, pending_model(migs, cur), now, cur);
}

/// No two tracking rows carry the same version: the tracking table's version
/// column is a primary key.
pub open spec fn versions_unique(records: Seq<RecordModel>) -> bool {
    forall|i: int, j: int|
        0 <= i < j < records.len() ==> records[i].version != records[j].version
}

/// Every tracking row's version is at most the current version.
pub proof fn lemma_current_dominates(records: Seq<RecordModel>)
    ensures
        forall|i: int| 0 <= i < records.len() ==> (#[trigger] records[i]).version <= current_of(
            records,
        ),
    decreases records.len(),
{
    if records.len() > 0 {
        lemma_current_dominates(records.drop_last());
        assert(forall|i: int|
            0 <= i < records.len() - 1 ==> records.drop_last()[i] == (#[trigger] records[i]));
    }
}

/// Law: the version column stays a key. A reconciliation run against a
/// well-formed registry never writes a second tracking row for a version that
/// already has one: if the rows' versions were pairwise distinct before the
/// run, they are pairwise distinct after it.
pub proof fn lemma_migrate_up_unique_versions(s: StoreModel, migs: Seq<MigModel>, now: int)
    requires
        registry_well_formed(migs),
        versions_unique(s.records),
    ensures
        versions_unique(run_model(s, pending_model(migs, current_of(s.records)), now).0.records),
{
    let cur = current_of(s.records);
    let n = s.records.len() as int;
    lemma_current_dominates(s.records);
    lemma_migrate_up_strict_ordering(s, migs, now);
    let s1 = run_model(s, pending_model(migs, cur), now).0;
    assert forall|i: int, j: int|
        0 <= i < j < s1.records.len() implies s1.records[i].version != s1.records[j].version by {
        if j < n {
            assert(s1.records[i] == s.records[i]);
            assert(s1.records[j] == s.records[j]);
        } else if i < n {
            assert(s1.records[i] == s.records[i]);
            assert(s.records[i].version <= cur);
            assert(s1.records[j].version > cur);
        }
    }
}

/// Law: atomicity. A migration that fails — whether a statement is rejected,
/// the commit fails, or the store is unreachable — leaves the store exactly
/// as it was: no statement effects are visible and no tracking record is
/// inserted for that version.
pub proof fn lemma_apply_atomic(s: StoreModel, m: MigModel, now: int)
    ensures
        apply_outcome(s, m, now).1 is Some ==> apply_outcome(s, m, now).0 == s,
{
}

} // verus!

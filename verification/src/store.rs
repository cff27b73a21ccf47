//! Durable bookkeeping of applied migrations, modelled in memory.
//!
//! [`MigrationStore`] models the transactional store that the engine drives:
//! the tracking table of applied migrations, the log of statements committed
//! through it, and fault switches standing for the failure modes of a live
//! connection (an unreachable store, a statement the store rejects, a commit
//! that fails). The runner is verified against this model for every choice of
//! contents and faults; a production deployment substitutes a store backed by
//! a real transactional connection that fails in exactly these ways.

use vstd::prelude::*;

use crate::errors::ErrorKind;
use crate::errors::MigrationError;
use crate::errors::kind_of;
use crate::statements::string_views;

verus! {

/// One persisted row of the tracking table: created exactly once, when the
/// corresponding migration's transaction commits, and never updated.
#[derive(Debug)]
pub struct MigrationRecord {
    pub version: i32,
    pub name: String,
    pub applied_at: i64,
    pub checksum: String,
}

/// The ghost image of a tracking row.
#[verifier::ext_equal]
pub struct RecordModel {
    pub version: int,
    pub name: Seq<char>,
    pub applied_at: int,
    pub checksum: Seq<char>,
}

impl View for MigrationRecord {
    type V = RecordModel;

    open spec fn view(&self) -> RecordModel {
        RecordModel {
            version: self.version as int,
            name: self.name@,
            applied_at: self.applied_at as int,
            checksum: self.checksum@,
        }
    }
}

/// The ghost image of the store.
#[verifier::ext_equal]
pub struct StoreModel {
    pub reachable: bool,
    pub commit_fault: bool,
    pub initialized: bool,
    pub failing: Seq<Seq<char>>,
    pub records: Seq<RecordModel>,
    pub log: Seq<Seq<char>>,
}

/// The in-memory model of the transactional store.
pub struct MigrationStore {
    /// Whether the store can be reached at all; when false, every operation
    /// fails with a connection error.
    pub reachable: bool,
    /// When true, every transaction fails at commit time.
    pub commit_fault: bool,
    /// Whether the tracking table has been set up.
    pub initialized: bool,
    /// The statements this store rejects (a stand-in for statements a real
    /// database would fail to execute).
    pub failing_statements: Vec<String>,
    /// The tracking table: one row per committed migration.
    pub records: Vec<MigrationRecord>,
    /// All statements committed through this store, in execution order.
    pub statement_log: Vec<String>,
}

impl View for MigrationStore {
    type V = StoreModel;

    open spec fn view(&self) -> StoreModel {
        StoreModel {
            reachable: self.reachable,
            commit_fault: self.commit_fault,
            initialized: self.initialized,
            failing: string_views(self.failing_statements@),
            records: self.records@.map_values(|r: MigrationRecord| r@),
            log: string_views(self.statement_log@),
        }
    }
}

/// The greatest version among the tracking rows, or 0 when there are none.
pub open spec fn current_of(records: Seq<RecordModel>) -> int
    decreases records.len(),
{
    if records.len() == 0 {
        0
    } else {
        let rest = current_of(records.drop_last());
        if records.last().version > rest {
            records.last().version
        } else {
            rest
        }
    }
}

impl MigrationStore {
    /// A fresh, reachable, fault-free store with no applied migrations.
    pub fn new() -> (s: Self)
        ensures
            s@ == (StoreModel {
                reachable: true,
                commit_fault: false,
                initialized: false,
                failing: Seq::<Seq<char>>::empty(),
                records: Seq::<RecordModel>::empty(),
                log: Seq::<Seq<char>>::empty(),
            }),
    {
        let s = MigrationStore {
            reachable: true,
            commit_fault: false,
            initialized: false,
            failing_statements: Vec::new(),
            records: Vec::new(),
            statement_log: Vec::new(),
        };
        proof {
            assert(s@ =~= StoreModel {
                reachable: true,
                commit_fault: false,
                initialized: false,
                failing: Seq::<Seq<char>>::empty(),
                records: Seq::<RecordModel>::empty(),
                log: Seq::<Seq<char>>::empty(),
            });
        }
        s
    }

    /// Idempotently ensures the tracking table exists. Safe to call on every
    /// startup; fails exactly when the store is unreachable.
    pub fn init(&mut self) -> (r: Result<(), MigrationError>)
        ensures
            old(self).reachable ==> r is Ok && final(self)@ == (StoreModel {
                initialized: true,
                ..old(self)@
            }),
            !old(self).reachable ==> (r matches Err(e) && kind_of(e) == ErrorKind::Connection
                && final(self)@ == old(self)@),
    {
        if self.reachable {
            self.initialized = true;
            proof {
                assert(self@ =~= StoreModel { initialized: true, ..old(self)@ });
            }
            Ok(())
        } else {
            Err(MigrationError::ConnectionError { message: "the store is unreachable".to_owned() })
        }
    }

    /// The greatest version among the persisted records, or 0 when none
    /// exist; fails exactly when the store is unreachable.
    pub fn current_version(&self) -> (r: Result<i32, MigrationError>)
        ensures
            self.reachable ==> (r matches Ok(v) && v as int == current_of(self@.records)),
            !self.reachable ==> (r matches Err(e) && kind_of(e) == ErrorKind::Connection),
    {
        if !self.reachable {
            return Err(MigrationError::ConnectionError {
                message: "the store is unreachable".to_owned(),
            });
        }
        let ghost rs = self@.records;
        let mut cur: i32 = 0;
        let mut i: usize = 0;
        proof {
            assert(rs.take(0) =~= Seq::<RecordModel>::empty());
        }
        while i < self.records.len()
            invariant
                i <= self.records@.len(),
                rs == self@.records,
                rs.len() == self.records@.len(),
                cur as int == current_of(rs.take(i as int)),
            decreases self.records@.len() - i,
        {
            proof {
                assert(rs.take(i + 1).drop_last() =~= rs.take(i as int));
                assert(rs.take(i + 1).last() == rs[i as int]);
                assert(rs[i as int] == self.records@[i as int]@);
            }
            let v = self.records[i].version;
            if v > cur {
                cur = v;
            }
            i = i + 1;
        }
        proof {
            assert(rs.take(rs.len() as int) =~= rs);
        }
        Ok(cur)
    }

    /// Whether the store rejects this statement.
    pub fn statement_fails(&self, stmt: &String) -> (r: bool)
        ensures
            r == self@.failing.contains(stmt@),
    {
        let mut i: usize = 0;
        while i < self.failing_statements.len()
            invariant
                i <= self.failing_statements@.len(),
                forall|k: int| 0 <= k < i ==> self@.failing[k] != stmt@,
            decreases self.failing_statements@.len() - i,
        {
            proof {
                assert(self@.failing[i as int] == self.failing_statements@[i as int]@);
            }
            if self.failing_statements[i].eq(stmt) {
                proof {
                    assert(self@.failing[i as int] == stmt@);
                }
                return true;
            }
            i = i + 1;
        }
        false
    }

    /// Appends one immutable tracking row: the bookkeeping half of a commit.
    /// Must take effect together with the migration's statements, which the
    /// runner guarantees by mutating the store only once a whole migration is
    /// known to commit.
    pub fn record(&mut self, version: i32, name: String, checksum: String, applied_at: i64)
        ensures
            final(self)@ == (StoreModel {
                records: old(self)@.records.push(
                    RecordModel {
                        version: version as int,
                        name: name@,
                        applied_at: applied_at as int,
                        checksum: checksum@,
                    },
                ),
                ..old(self)@
            }),
    {
        let ghost rec = RecordModel {
            version: version as int,
            name: name@,
            applied_at: applied_at as int,
            checksum: checksum@,
        };
        self.records.push(MigrationRecord { version, name, applied_at, checksum });
        proof {
            assert(self@.records =~= old(self)@.records.push(rec));
            assert(self@ =~= StoreModel { records: old(self)@.records.push(rec), ..old(self)@ });
        }
    }
}

} // verus!

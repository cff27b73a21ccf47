use hwsystem::checksum::checksum_of;
use hwsystem::errors::MigrationError;
use hwsystem::registry::Migration;
use hwsystem::registry::get_all_migrations;
use hwsystem::runner::apply_migration;
use hwsystem::runner::migrate_up;
use hwsystem::runner::migrate_up_at;
use hwsystem::runner::pending_migrations;
use hwsystem::statements::split_statements;
use hwsystem::store::MigrationStore;

fn mig(version: i32, name: &str, body: &str) -> Migration {
    Migration { version, name: name.to_string(), up_sql: body.to_string() }
}

fn two_migrations() -> Vec<Migration> {
    vec![
        mig(1, "create_users", "CREATE TABLE users (id INTEGER); CREATE INDEX idx_users ON users(id)"),
        mig(2, "create_classes", "CREATE TABLE classes (id INTEGER)"),
    ]
}

#[test]
fn empty_store_applies_whole_registry() {
    let mut store = MigrationStore::new();
    store.init().unwrap();
    let registry = two_migrations();
    migrate_up_at(&mut store, &registry, 1111).unwrap();
    assert_eq!(store.current_version().unwrap(), 2);
    assert_eq!(store.records.len(), 2);
    assert_eq!(store.records[0].version, 1);
    assert_eq!(store.records[0].name, "create_users");
    assert_eq!(store.records[0].applied_at, 1111);
    assert_eq!(store.records[1].version, 2);
    assert_eq!(store.records[1].name, "create_classes");
    assert_eq!(
        store.statement_log,
        vec![
            "CREATE TABLE users (id INTEGER)".to_string(),
            "CREATE INDEX idx_users ON users(id)".to_string(),
            "CREATE TABLE classes (id INTEGER)".to_string(),
        ]
    );
}

#[test]
fn partially_applied_store_gets_only_newer_versions() {
    let mut store = MigrationStore::new();
    store.init().unwrap();
    let registry = two_migrations();
    migrate_up_at(&mut store, &registry[..1].to_vec(), 500).unwrap();
    assert_eq!(store.current_version().unwrap(), 1);
    assert_eq!(store.records.len(), 1);

    migrate_up_at(&mut store, &registry, 900).unwrap();
    assert_eq!(store.current_version().unwrap(), 2);
    assert_eq!(store.records.len(), 2);
    assert_eq!(store.records[0].applied_at, 500);
    assert_eq!(store.records[1].version, 2);
    assert_eq!(store.records[1].applied_at, 900);
}

#[test]
fn statement_error_reports_version_and_leaves_no_record() {
    let mut store = MigrationStore::new();
    store.init().unwrap();
    store.failing_statements.push("NOT REALLY SQL".to_string());
    let mut registry = two_migrations();
    registry[1].up_sql = "CREATE TABLE classes (id INTEGER); NOT REALLY SQL".to_string();
    let err = migrate_up_at(&mut store, &registry, 7).unwrap_err();
    match err {
        MigrationError::StatementError { version, name, .. } => {
            assert_eq!(version, 2);
            assert_eq!(name, "create_classes");
        }
        _ => panic!("expected a statement error"),
    }
    assert_eq!(store.current_version().unwrap(), 1);
    assert_eq!(store.records.len(), 1);
    assert!(store.records.iter().all(|r| r.version != 2));
}

#[test]
fn rerun_changes_nothing() {
    let mut store = MigrationStore::new();
    store.init().unwrap();
    let registry = two_migrations();
    migrate_up_at(&mut store, &registry, 10).unwrap();
    let version_after_first = store.current_version().unwrap();
    let records_after_first: Vec<(i32, String, i64, String)> = store
        .records
        .iter()
        .map(|r| (r.version, r.name.clone(), r.applied_at, r.checksum.clone()))
        .collect();
    for later in 11..15 {
        migrate_up_at(&mut store, &registry, later).unwrap();
        assert_eq!(store.current_version().unwrap(), version_after_first);
        let records_now: Vec<(i32, String, i64, String)> = store
            .records
            .iter()
            .map(|r| (r.version, r.name.clone(), r.applied_at, r.checksum.clone()))
            .collect();
        assert_eq!(records_now, records_after_first);
    }
}

#[test]
fn never_applies_at_or_below_current_version() {
    let mut store = MigrationStore::new();
    store.init().unwrap();
    let registry = vec![
        mig(1, "one", "CREATE TABLE a (x INTEGER)"),
        mig(2, "two", "CREATE TABLE b (x INTEGER)"),
        mig(3, "three", "CREATE TABLE c (x INTEGER)"),
    ];
    migrate_up_at(&mut store, &registry[..2].to_vec(), 1).unwrap();
    assert_eq!(store.current_version().unwrap(), 2);

    migrate_up_at(&mut store, &registry, 2).unwrap();
    assert_eq!(store.records.len(), 3);
    let versions: Vec<i32> = store.records.iter().map(|r| r.version).collect();
    assert_eq!(versions, vec![1, 2, 3]);
    assert!(versions.windows(2).all(|w| w[0] < w[1]));
}

#[test]
fn failing_middle_statement_rolls_back_the_whole_migration() {
    let mut store = MigrationStore::new();
    store.init().unwrap();
    store.failing_statements.push("B".to_string());
    let registry = vec![mig(1, "abc", "A; B; C")];
    let err = migrate_up_at(&mut store, &registry, 3).unwrap_err();
    assert!(matches!(err, MigrationError::StatementError { version: 1, .. }));
    assert_eq!(store.current_version().unwrap(), 0);
    assert_eq!(store.records.len(), 0);
    assert!(store.statement_log.is_empty());
}

#[test]
fn commit_fault_rolls_back_and_reports_commit_error() {
    let mut store = MigrationStore::new();
    store.init().unwrap();
    store.commit_fault = true;
    let registry = vec![mig(1, "one", "CREATE TABLE a (x INTEGER)")];
    let err = migrate_up_at(&mut store, &registry, 3).unwrap_err();
    match err {
        MigrationError::CommitError { version, name, .. } => {
            assert_eq!(version, 1);
            assert_eq!(name, "one");
        }
        _ => panic!("expected a commit error"),
    }
    assert_eq!(store.records.len(), 0);
    assert!(store.statement_log.is_empty());
}

#[test]
fn unreachable_store_gives_connection_errors() {
    let mut store = MigrationStore::new();
    store.reachable = false;
    assert!(matches!(store.init(), Err(MigrationError::ConnectionError { .. })));
    assert!(matches!(store.current_version(), Err(MigrationError::ConnectionError { .. })));
    let registry = two_migrations();
    let err = migrate_up_at(&mut store, &registry, 3).unwrap_err();
    assert!(matches!(err, MigrationError::ConnectionError { .. }));
    assert_eq!(store.records.len(), 0);
}

#[test]
fn empty_registry_is_a_no_op() {
    let mut store = MigrationStore::new();
    store.init().unwrap();
    migrate_up_at(&mut store, &Vec::new(), 3).unwrap();
    assert_eq!(store.current_version().unwrap(), 0);
    assert_eq!(store.records.len(), 0);
}

#[test]
fn migrate_up_uses_the_wall_clock() {
    let mut store = MigrationStore::new();
    store.init().unwrap();
    let registry = two_migrations();
    migrate_up(&mut store, &registry).unwrap();
    assert_eq!(store.current_version().unwrap(), 2);
    assert_eq!(store.records.len(), 2);
}

#[test]
fn apply_migration_logs_statements_in_order() {
    let mut store = MigrationStore::new();
    store.init().unwrap();
    let m = mig(4, "pair", "  A ;\n B ; ");
    apply_migration(&mut store, &m, 12).unwrap();
    assert_eq!(store.statement_log, vec!["A".to_string(), "B".to_string()]);
    assert_eq!(store.records.len(), 1);
    assert_eq!(store.records[0].version, 4);
    assert_eq!(store.records[0].applied_at, 12);
}

#[test]
fn pending_migrations_filters_by_version() {
    let registry = vec![
        mig(1, "one", "A"),
        mig(2, "two", "B"),
        mig(5, "five", "C"),
    ];
    let pending = pending_migrations(&registry, 2);
    let versions: Vec<i32> = pending.iter().map(|m| m.version).collect();
    assert_eq!(versions, vec![5]);
    let all = pending_migrations(&registry, 0);
    assert_eq!(all.len(), 3);
    let none = pending_migrations(&registry, 9);
    assert!(none.is_empty());
}

#[test]
fn compiled_in_registry_is_well_formed() {
    let registry = get_all_migrations();
    assert_eq!(registry.len(), 1);
    assert_eq!(registry[0].version, 1);
    assert_eq!(registry[0].name, "create_table_with_indexes");
    assert!(registry[0].up_sql.contains("CREATE TABLE IF NOT EXISTS users"));
    assert!(registry[0].up_sql.contains("CREATE INDEX IF NOT EXISTS idx_classes_invite_code ON classes(invite_code)"));
    assert!(!split_statements(&registry[0].up_sql).is_empty());
    assert_eq!(registry[0].up_sql.chars().count(), 4811);
    assert_eq!(checksum_of(&registry[0].up_sql), "82975f334f07903f08a1444e750c4326118f962fec3ffc0c5f67e285e1b4e6aa");
    let mut store = MigrationStore::new();
    store.init().unwrap();
    migrate_up_at(&mut store, &registry, 60).unwrap();
    assert_eq!(store.current_version().unwrap(), 1);
}

#[test]
fn record_raises_the_current_version() {
    let mut store = MigrationStore::new();
    store.init().unwrap();
    assert_eq!(store.current_version().unwrap(), 0);
    store.record(3, "three".to_string(), "abc".to_string(), 77);
    assert_eq!(store.current_version().unwrap(), 3);
    store.record(2, "two".to_string(), "def".to_string(), 78);
    assert_eq!(store.current_version().unwrap(), 3);
}

#[test]
fn statement_fails_checks_the_rejected_set() {
    let mut store = MigrationStore::new();
    store.failing_statements.push("DROP EVERYTHING".to_string());
    assert!(store.statement_fails(&"DROP EVERYTHING".to_string()));
    assert!(!store.statement_fails(&"CREATE TABLE t (x INTEGER)".to_string()));
}

#[test]
fn registry_is_deterministic_across_calls() {
    let a = get_all_migrations();
    let b = get_all_migrations();
    assert_eq!(a.len(), b.len());
    for (x, y) in a.iter().zip(b.iter()) {
        assert_eq!(x.version, y.version);
        assert_eq!(x.name, y.name);
        assert_eq!(x.up_sql, y.up_sql);
    }
}

#[test]
fn init_is_idempotent() {
    let mut store = MigrationStore::new();
    assert!(!store.initialized);
    store.init().unwrap();
    assert!(store.initialized);
    let records_before = store.records.len();
    store.init().unwrap();
    assert!(store.initialized);
    assert_eq!(store.records.len(), records_before);
}

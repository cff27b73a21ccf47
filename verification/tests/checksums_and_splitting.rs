use hwsystem::checksum::checksum_of;
use hwsystem::registry::Migration;
use hwsystem::runner::apply_migration;
use hwsystem::statements::split_statements;
use hwsystem::store::MigrationStore;
use sha2::Digest;
use sha2::Sha256;

fn checksum_recorded_for(body: &str) -> String {
    let mut store = MigrationStore::new();
    store.init().unwrap();
    let m = Migration { version: 1, name: "probe".to_string(), up_sql: body.to_string() };
    apply_migration(&mut store, &m, 1).unwrap();
    store.records[0].checksum.clone()
}

#[test]
fn identical_bodies_hash_identically() {
    let a = checksum_recorded_for("CREATE TABLE t (x INTEGER)");
    let b = checksum_recorded_for("CREATE TABLE t (x INTEGER)");
    assert_eq!(a, b);
}

#[test]
fn altering_one_character_changes_the_digest() {
    let a = checksum_recorded_for("CREATE TABLE t (x INTEGER)");
    let b = checksum_recorded_for("CREATE TABLE u (x INTEGER)");
    assert_ne!(a, b);
}

#[test]
fn recorded_checksum_is_the_sha256_hex_of_the_raw_body() {
    let body = "CREATE TABLE t (x INTEGER);\nCREATE INDEX i ON t(x)";
    let recorded = checksum_recorded_for(body);
    let mut hasher = Sha256::new();
    hasher.update(body.as_bytes());
    let expected = format!("{:x}", hasher.finalize());
    assert_eq!(recorded, expected);
    assert_eq!(recorded.len(), 64);
    assert_ne!(recorded, body);
}

#[test]
fn split_separates_on_the_delimiter() {
    assert_eq!(split_statements("a;b;c"), vec!["a", "b", "c"]);
}

#[test]
fn split_trims_ascii_whitespace() {
    assert_eq!(split_statements("  a \n;\tb\r\n; c "), vec!["a", "b", "c"]);
}

#[test]
fn split_discards_empty_fragments() {
    assert_eq!(split_statements(";;a;;  ;b;"), vec!["a", "b"]);
    assert_eq!(split_statements(""), Vec::<String>::new());
    assert_eq!(split_statements(" \n\t "), Vec::<String>::new());
    assert_eq!(split_statements(";"), Vec::<String>::new());
}

#[test]
fn checksum_of_matches_a_known_digest() {
    assert_eq!(
        checksum_of(""),
        "e3b0c44298fc1c149afbf4c8996fb92427ae41e4649b934ca495991b7852b855"
    );
    let mut hasher = Sha256::new();
    hasher.update("abc".as_bytes());
    assert_eq!(checksum_of("abc"), format!("{:x}", hasher.finalize()));
}

#[test]
fn split_trims_unicode_whitespace_like_str_trim() {
    let body = "\u{00a0}a\u{3000};\u{2028}b\u{000c};\u{0085}\u{202f}";
    let split = split_statements(body);
    assert_eq!(split, vec!["a", "b"]);
    let by_std: Vec<&str> =
        body.split(';').map(|f| f.trim()).filter(|t| !t.is_empty()).collect();
    assert_eq!(split, by_std);
}

#[test]
fn split_keeps_inner_whitespace_and_order() {
    assert_eq!(
        split_statements("CREATE TABLE a (x INTEGER);\n  INSERT INTO a VALUES (1)  "),
        vec!["CREATE TABLE a (x INTEGER)", "INSERT INTO a VALUES (1)"]
    );
    assert_eq!(split_statements("no delimiter at all"), vec!["no delimiter at all"]);
}

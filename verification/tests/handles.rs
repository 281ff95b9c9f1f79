use rusqlite::Connection;
use sync_sqlite::{NameCounter, SyncSqliteConnection};

const OPEN_FAILED: &str =
    "ERROR: Creating the connection to the sqlite in memory database has failed!";

fn has_table(connection: &Connection, table: &str) -> bool {
    let found: i64 = connection
        .query_row(
            "SELECT count(*) FROM sqlite_master WHERE type = 'table' AND name = ?1",
            [table],
            |row| row.get(0),
        )
        .unwrap();
    found == 1
}

fn same_object(first: &Connection, second: &Connection) -> bool {
    std::ptr::eq(first, second)
}

#[test]
fn testnew() {
    let names = NameCounter::new();
    SyncSqliteConnection::new(&names);
}

#[test]
fn testnewrealconnection() {
    let names = NameCounter::new();
    let c = SyncSqliteConnection::new(&names);

    c.force().expect(OPEN_FAILED);
}

#[test]
fn test_open() {
    let names = NameCounter::new();
    let dummy = SyncSqliteConnection::new(&names);
    dummy.force().expect(OPEN_FAILED);

    let c1 = SyncSqliteConnection::new(&names);
    c1.force().expect(OPEN_FAILED);

    let c2 = SyncSqliteConnection::open(c1.name().clone());
    c2.force().expect(OPEN_FAILED);

    assert_eq!(c1.name(), c2.name());
    assert_ne!(dummy.name(), c1.name());
}

#[test]
fn test_clone() {
    let names = NameCounter::new();
    let c1 = SyncSqliteConnection::new(&names);
    c1.force().expect(OPEN_FAILED);

    let c2 = c1.clone();
    assert_eq!(c1.name(), c2.name());
}

#[test]
fn new_handles_take_consecutive_names() {
    let names = NameCounter::new();
    let first = SyncSqliteConnection::new(&names);
    let second = SyncSqliteConnection::new(&names);
    assert_eq!(first.name(), "shared_0");
    assert_eq!(second.name(), "shared_1");
}

#[test]
fn open_keeps_the_given_name() {
    let handle = SyncSqliteConnection::open(String::from("handles_test_given"));
    assert_eq!(handle.name(), "handles_test_given");
    let unnamed = SyncSqliteConnection::open(String::new());
    assert_eq!(unnamed.name(), "");
}

#[test]
fn opened_handle_sees_writes_of_the_first() {
    let names = NameCounter::new();
    let h1 = SyncSqliteConnection::new(&names);
    let h2 = SyncSqliteConnection::open(h1.name().clone());
    assert_eq!(h1.name(), h2.name());
    let c1 = h1.force().unwrap();
    let c2 = h2.force().unwrap();
    assert!(!same_object(c1, c2));
    c1.execute("CREATE TABLE item (id INTEGER)", ()).unwrap();
    assert!(has_table(c2, "item"));
    c2.execute("CREATE TABLE other (id INTEGER)", ()).unwrap();
    assert!(has_table(c1, "other"));
}

#[test]
fn clone_sees_writes_made_through_the_first_handle() {
    let names = NameCounter::new();
    let c1 = SyncSqliteConnection::new(&names);
    let first = c1.force().unwrap();
    let c2 = c1.clone();
    assert_eq!(c1.name(), c2.name());
    first.execute("CREATE TABLE item (id INTEGER)", ()).unwrap();
    let second = c2.force().unwrap();
    assert!(has_table(second, "item"));
}

#[test]
fn clone_has_a_connection_of_its_own() {
    let names = NameCounter::new();
    let h1 = SyncSqliteConnection::new(&names);
    let c1 = h1.force().unwrap();
    let h2 = h1.clone();
    let c2 = h2.force().unwrap();
    assert!(!same_object(c1, c2));
    assert!(same_object(h1.force().unwrap(), c1));
}

#[test]
fn clone_leaves_the_source_untouched() {
    let names = NameCounter::new();
    let h1 = SyncSqliteConnection::new(&names);
    let before = h1.force().unwrap();
    let h2 = h1.clone();
    h2.force().unwrap();
    assert_eq!(h1.name(), "shared_0");
    assert!(same_object(h1.force().unwrap(), before));
}

#[test]
fn force_returns_the_same_connection_on_one_thread() {
    let handle = SyncSqliteConnection::open(String::from("handles_test_same"));
    let first = handle.force().unwrap();
    let second = handle.force().unwrap();
    let third = handle.force().unwrap();
    assert!(same_object(first, second));
    assert!(same_object(second, third));
}

#[test]
fn force_reports_the_refused_uri() {
    let handle = SyncSqliteConnection::open(String::from("bad\0name"));
    let refused = handle.force();
    assert!(refused.is_err());
    assert_eq!(refused.err().unwrap().uri, "file:bad\0name?mode=memory&cache=shared");
    assert!(handle.force().is_err());
}

#[test]
fn clone_from_takes_the_name_of_the_source() {
    let names = NameCounter::new();
    let mut h1 = SyncSqliteConnection::new(&names);
    let h2 = SyncSqliteConnection::new(&names);
    assert_ne!(h1.name(), h2.name());
    h1.clone_from(&h2);
    assert_eq!(h1.name(), h2.name());
    assert_eq!(h2.name(), "shared_1");
}

#[test]
fn clone_from_drops_the_cached_connection() {
    let names = NameCounter::new();
    let mut h1 = SyncSqliteConnection::new(&names);
    let h2 = SyncSqliteConnection::new(&names);
    h1.force().unwrap().execute("CREATE TABLE old_item (id INTEGER)", ()).unwrap();
    h2.force().unwrap().execute("CREATE TABLE new_item (id INTEGER)", ()).unwrap();
    assert!(has_table(h1.force().unwrap(), "old_item"));
    assert!(!has_table(h1.force().unwrap(), "new_item"));

    h1.clone_from(&h2);

    let reopened = h1.force().unwrap();
    assert!(has_table(reopened, "new_item"));
    assert!(!has_table(reopened, "old_item"));
    assert!(!same_object(reopened, h2.force().unwrap()));
}

#[test]
fn clone_from_leaves_the_source_untouched() {
    let names = NameCounter::new();
    let mut h1 = SyncSqliteConnection::new(&names);
    let h2 = SyncSqliteConnection::new(&names);
    let before = h2.force().unwrap();
    h1.clone_from(&h2);
    assert_eq!(h2.name(), "shared_1");
    assert!(same_object(h2.force().unwrap(), before));
}


use timer_store::{Database, StoreError};

#[test]
fn get_or_create_is_idempotent() {
    let mut db = Database::new(":memory:").unwrap();
    let u1 = db.get_or_create_user_at("dev-A", 500).unwrap();
    let u2 = db.get_or_create_user_at("dev-A", 900).unwrap();
    assert_eq!(u1.id, u2.id);
    assert_eq!(u1, u2);
    // the second call bumped nothing
    assert_eq!(u2.created_at, 500);
    assert_eq!(u2.updated_at, 500);
}

#[test]
fn distinct_devices_get_distinct_ids() {
    let mut db = Database::new(":memory:").unwrap();
    let u1 = db.get_or_create_user_at("dev-A", 1).unwrap();
    let u2 = db.get_or_create_user_at("dev-B", 2).unwrap();
    assert_ne!(u1.id, u2.id);
    assert_eq!(u1.device_id, "dev-A");
    assert_eq!(u2.device_id, "dev-B");
}

#[test]
fn first_device_scenario() {
    let mut db = Database::new(":memory:").unwrap();
    let u = db.get_or_create_user_at("dev-1", 1000).unwrap();
    assert_eq!(u.id, 1);
    assert_eq!(u.device_id, "dev-1");
    assert_eq!(u.phone, None);
    db.update_user_phone_at(u.id, Some("+1555".to_string()), 2000).unwrap();
    let got = db.get_user_by_id(u.id).unwrap();
    assert_eq!(got.phone, Some("+1555".to_string()));
    assert!(got.updated_at > got.created_at);
    assert_eq!(got.created_at, 1000);
    assert_eq!(got.updated_at, 2000);
}

#[test]
fn phone_can_be_cleared() {
    let mut db = Database::new(":memory:").unwrap();
    let u = db.get_or_create_user_at("dev-1", 10).unwrap();
    db.update_user_phone_at(u.id, Some("+49".to_string()), 20).unwrap();
    db.update_user_phone_at(u.id, None, 30).unwrap();
    let got = db.get_user_by_id(u.id).unwrap();
    assert_eq!(got.phone, None);
    assert_eq!(got.updated_at, 30);
}

#[test]
fn update_phone_of_missing_user_is_a_no_op() {
    let mut db = Database::new(":memory:").unwrap();
    assert_eq!(db.update_user_phone_at(77, Some("+1".to_string()), 5), Ok(()));
    assert_eq!(db.get_user_by_id(77), Err(StoreError::NotFound));
}

#[test]
fn get_user_by_id_missing_is_not_found() {
    let db = Database::new(":memory:").unwrap();
    assert_eq!(db.get_user_by_id(1), Err(StoreError::NotFound));
}

#[test]
fn clock_based_creation_has_equal_timestamps() {
    let mut db = Database::new(":memory:").unwrap();
    let u = db.get_or_create_user("dev-clock").unwrap();
    assert_eq!(u.created_at, u.updated_at);
    assert!(u.created_at >= 0);
    assert_eq!(u.phone, None);
}

#[test]
fn clock_based_phone_update_is_stored() {
    let mut db = Database::new(":memory:").unwrap();
    let u = db.get_or_create_user("dev-1").unwrap();
    db.update_user_phone(u.id, Some("+31".to_string())).unwrap();
    let got = db.get_user_by_id(u.id).unwrap();
    assert_eq!(got.phone, Some("+31".to_string()));
    assert!(got.updated_at >= got.created_at);
}

#[test]
fn open_fails_on_an_impossible_path() {
    assert_eq!(
        Database::new("/this/directory/does/not/exist/store.db").err(),
        Some(StoreError::InitError)
    );
}

#[test]
fn open_rejects_a_users_table_with_a_foreign_schema() {
    // a pre-existing users table without the UNIQUE constraint on device_id
    let path = "/tmp/timer_store_foreign_schema.db";
    let conn = rusqlite::Connection::open(path).unwrap();
    conn.execute_batch(
        "DROP TABLE IF EXISTS users; CREATE TABLE users (id INTEGER PRIMARY KEY AUTOINCREMENT, device_id TEXT NOT NULL, phone TEXT, created_at INTEGER NOT NULL, updated_at INTEGER NOT NULL);",
    )
    .unwrap();
    drop(conn);
    assert_eq!(Database::new(path).err(), Some(StoreError::InitError));
}

#[test]
fn open_rejects_a_file_with_a_trigger_on_the_tables() {
    // a trigger would let the store's own writes touch other rows
    let path = "/tmp/timer_store_trigger.db";
    let conn = rusqlite::Connection::open(path).unwrap();
    conn.execute_batch(
        "PRAGMA foreign_keys = OFF; DROP TABLE IF EXISTS users; DROP TABLE IF EXISTS settings; DROP TABLE IF EXISTS timer_records; DROP TRIGGER IF EXISTS stray;",
    )
    .unwrap();
    drop(conn);
    // first open initializes the file with the store's own schema
    assert!(Database::new(path).is_ok());
    let conn = rusqlite::Connection::open(path).unwrap();
    conn.execute_batch(
        "CREATE TRIGGER stray AFTER INSERT ON users BEGIN DELETE FROM settings; END;",
    )
    .unwrap();
    drop(conn);
    assert_eq!(Database::new(path).err(), Some(StoreError::InitError));
}

#[test]
fn open_rejects_a_file_with_a_stray_unique_index() {
    // a pre-existing UNIQUE index under the store's own index name would be
    // adopted by CREATE INDEX IF NOT EXISTS and change which inserts fail
    let path = "/tmp/timer_store_stray_index.db";
    let conn = rusqlite::Connection::open(path).unwrap();
    conn.execute_batch(
        "PRAGMA foreign_keys = OFF; DROP TABLE IF EXISTS users; DROP TABLE IF EXISTS settings; DROP TABLE IF EXISTS timer_records; CREATE TABLE timer_records (id TEXT PRIMARY KEY, user_id INTEGER NOT NULL, record_type TEXT NOT NULL, mode TEXT, name TEXT, category TEXT, start_time INTEGER NOT NULL, end_time INTEGER NOT NULL, duration INTEGER NOT NULL, created_at INTEGER NOT NULL, FOREIGN KEY (user_id) REFERENCES users(id)); CREATE UNIQUE INDEX idx_timer_records_user_id ON timer_records(user_id);",
    )
    .unwrap();
    drop(conn);
    assert_eq!(Database::new(path).err(), Some(StoreError::InitError));
}

#[test]
fn open_accepts_a_file_it_initialized_before() {
    let path = "/tmp/timer_store_reopen.db";
    let conn = rusqlite::Connection::open(path).unwrap();
    conn.execute_batch(
        "PRAGMA foreign_keys = OFF; DROP TABLE IF EXISTS users; DROP TABLE IF EXISTS settings; DROP TABLE IF EXISTS timer_records;",
    )
    .unwrap();
    drop(conn);
    {
        let mut db = Database::new(path).unwrap();
        let u = db.get_or_create_user_at("dev-keep", 11).unwrap();
        db.save_setting_at(u.id, "k", "v", 12).unwrap();
    }
    let mut db = Database::new(path).unwrap();
    let u = db.get_or_create_user_at("dev-keep", 99).unwrap();
    assert_eq!(u.created_at, 11);
    let rows = db.get_settings(u.id).unwrap();
    assert_eq!(rows.len(), 1);
    assert_eq!(rows[0].value, "v");
}

#[test]
fn open_accepts_a_file_from_before_the_category_column() {
    // an old-layout file: timer_records without category, migrated at open
    let path = "/tmp/timer_store_old_layout.db";
    let conn = rusqlite::Connection::open(path).unwrap();
    conn.execute_batch(
        "PRAGMA foreign_keys = OFF; DROP TABLE IF EXISTS users; DROP TABLE IF EXISTS settings; DROP TABLE IF EXISTS timer_records; CREATE TABLE IF NOT EXISTS timer_records (id TEXT PRIMARY KEY, user_id INTEGER NOT NULL, record_type TEXT NOT NULL, mode TEXT, name TEXT, start_time INTEGER NOT NULL, end_time INTEGER NOT NULL, duration INTEGER NOT NULL, created_at INTEGER NOT NULL, FOREIGN KEY (user_id) REFERENCES users(id));",
    )
    .unwrap();
    conn.execute(
        "INSERT INTO timer_records (id, user_id, record_type, start_time, end_time, duration, created_at) VALUES ('old-1', 1, 'work', 0, 10, 10, 10)",
        (),
    )
    .unwrap();
    drop(conn);
    let mut db = Database::new(path).unwrap();
    let u = db.get_or_create_user_at("dev-old", 1).unwrap();
    assert_eq!(u.id, 1);
    let got = db.get_timer_records(1, 10).unwrap();
    assert_eq!(got.len(), 1);
    assert_eq!(got[0].id, "old-1");
    assert_eq!(got[0].category, None);
}

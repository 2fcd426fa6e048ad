//! The trusted boundary to the embedded SQLite engine, through rusqlite.
//!
//! The stored content of a connection is named by three uninterpreted spec
//! functions (`users_of`, `settings_of`, `records_of`); each wrapper below
//! executes one SQL statement and states, over those names, what the
//! engine's documented behaviour guarantees about it. Nothing else in the
//! crate touches rusqlite.
//!
//! The names are functions of the connection value. That is sound only
//! because the store exclusively owns the one live connection to its file:
//! were a second connection opened on the same path, each one's writes would
//! falsify what the names say of the other.
//!
//! Nothing is assumed of what a path holds: `sql_check_schema` reads the
//! declared schemas out of the engine's catalog and
//! `sql_count_duplicate_devices` checks the stored rows, and only their
//! positive answers establish the facts — uniqueness constraints standing on
//! the tables — that the writing wrappers' contracts lean on (they `require`
//! `schema_ok`).

use vstd::prelude::*;

use crate::errors::StoreError;
use crate::model::{
    has_device, records_clear_user, records_listing, records_patch, records_remove,
    settings_listing, settings_upsert, unique_devices, users_set_phone, RecordRow, Setting,
    SettingVal, StoreModel, TimerRecord, User, UserRow,
};

verus! {

#[verifier::external_type_specification]
#[verifier::external_body]
pub struct ExConnection(rusqlite::Connection);

/// The users table stored behind a connection, keyed by generated row id.
pub uninterp spec fn users_of(c: rusqlite::Connection) -> Map<int, UserRow>;

/// The settings table stored behind a connection, keyed by (owner, key).
pub uninterp spec fn settings_of(c: rusqlite::Connection) -> Map<(int, Seq<char>), SettingVal>;

/// The timer-record table stored behind a connection, keyed by record id.
pub uninterp spec fn records_of(c: rusqlite::Connection) -> Map<Seq<char>, RecordRow>;

/// The whole stored content of a connection.
pub open spec fn db_of(c: rusqlite::Connection) -> StoreModel {
    StoreModel { users: users_of(c), settings: settings_of(c), records: records_of(c) }
}

/// Whether the database behind the connection is wholly the store's own:
/// the three tables carry, declared and enforced by the engine, exactly the
/// schema this store writes — `users` with `id INTEGER PRIMARY KEY
/// AUTOINCREMENT` and `device_id TEXT UNIQUE NOT NULL`, `settings` with its
/// integer primary key and `UNIQUE(user_id, key)`, `timer_records` with `id
/// TEXT PRIMARY KEY`; the store's two read indexes on `timer_records` (by
/// `user_id`, and by `end_time` descending) stand; no trigger is declared on
/// the three tables and no index beyond those two and the engine's automatic
/// constraint indexes; and reference checking is off on this connection. So
/// the store's statements do exactly what they say, and the declared PRIMARY
/// KEY and UNIQUE constraints are the only ones the engine enforces on them.
/// Established only by `sql_check_schema`; the writing wrappers require it,
/// since their frame clauses and their claims about generated ids, device
/// uniqueness, upsert conflicts and constraint provenance hold only while
/// all of that stands.
pub uninterp spec fn schema_ok(c: rusqlite::Connection) -> bool;

/// Relies on rusqlite::Connection::open: it creates the backing file if absent
/// and opens it otherwise. Nothing is known of the contents found there.
#[verifier::external_body]
pub(crate) fn sql_open(path: &str) -> (r: Result<rusqlite::Connection, StoreError>)
    ensures
        r matches Err(e) ==> e == StoreError::InitError,
{
    match rusqlite::Connection::open(path) {
        Ok(c) => Ok(c),
        Err(_) => Err(StoreError::InitError),
    }
}

/// Relies on rusqlite::Connection::execute_batch running CREATE TABLE IF NOT
/// EXISTS for the three tables: on success they exist, and a stored table
/// holds finitely many rows. Creating a table never touches rows — an
/// absent table reads as empty and stays empty, an existing one is left as
/// it is — so the contents are unchanged. Nothing more is claimed: IF NOT
/// EXISTS checks nothing of a pre-existing table's schema, so whether the
/// declared constraints actually stand is checked afterwards by
/// `sql_check_schema`.
#[verifier::external_body]
pub(crate) fn sql_create_tables(conn: &mut rusqlite::Connection) -> (r: Result<(), StoreError>)
    ensures
        r is Ok ==> users_of(*final(conn)).dom().finite() && settings_of(
            *final(conn),
        ).dom().finite() && records_of(*final(conn)).dom().finite(),
        r is Ok ==> db_of(*final(conn)) == db_of(*old(conn)),
        r matches Err(e) ==> e == StoreError::InitError,
{
    let sql = "CREATE TABLE IF NOT EXISTS users (id INTEGER PRIMARY KEY AUTOINCREMENT, device_id TEXT UNIQUE NOT NULL, phone TEXT, created_at INTEGER NOT NULL, updated_at INTEGER NOT NULL); CREATE TABLE IF NOT EXISTS settings (id INTEGER PRIMARY KEY AUTOINCREMENT, user_id INTEGER NOT NULL, key TEXT NOT NULL, value TEXT NOT NULL, updated_at INTEGER NOT NULL, FOREIGN KEY (user_id) REFERENCES users(id), UNIQUE(user_id, key)); CREATE TABLE IF NOT EXISTS timer_records (id TEXT PRIMARY KEY, user_id INTEGER NOT NULL, record_type TEXT NOT NULL, mode TEXT, name TEXT, category TEXT, start_time INTEGER NOT NULL, end_time INTEGER NOT NULL, duration INTEGER NOT NULL, created_at INTEGER NOT NULL, FOREIGN KEY (user_id) REFERENCES users(id));";
    match conn.execute_batch(sql) {
        Ok(()) => Ok(()),
        Err(_) => Err(StoreError::InitError),
    }
}

/// Relies on rusqlite::Connection::execute with ALTER TABLE ADD COLUMN: a
/// column added with no default is NULL on every existing row, so the rows as
/// the store reads them are unchanged. The error raised when the column
/// already exists is deliberately ignored — the addition is attempted at
/// every startup.
#[verifier::external_body]
pub(crate) fn sql_add_category_column(conn: &mut rusqlite::Connection)
    ensures
        db_of(*final(conn)) == db_of(*old(conn)),
{
    let _ = conn.execute("ALTER TABLE timer_records ADD COLUMN category TEXT", ());
}

/// Relies on rusqlite::Connection::execute_batch with CREATE INDEX IF NOT
/// EXISTS: an index changes no table contents, whether or not it already
/// existed or the statement failed.
#[verifier::external_body]
pub(crate) fn sql_create_indexes(conn: &mut rusqlite::Connection) -> (r: Result<(), StoreError>)
    ensures
        db_of(*final(conn)) == db_of(*old(conn)),
        r matches Err(e) ==> e == StoreError::InitError,
{
    let sql = "CREATE INDEX IF NOT EXISTS idx_timer_records_user_id ON timer_records(user_id); CREATE INDEX IF NOT EXISTS idx_timer_records_end_time ON timer_records(end_time DESC);";
    match conn.execute_batch(sql) {
        Ok(()) => Ok(()),
        Err(_) => Err(StoreError::InitError),
    }
}

/// Relies on rusqlite::Connection::execute_batch with PRAGMA foreign_keys =
/// OFF: a pragma changes no table contents, it only configures the
/// connection. This build of the engine switches reference checking on by
/// default; the store keeps it off, as its data model states — the owning
/// user id on settings and timer records is caller-supplied and not
/// cross-checked. `sql_check_schema` then reads the pragma back, so the off
/// state is established, not assumed.
#[verifier::external_body]
pub(crate) fn sql_disable_foreign_keys(conn: &mut rusqlite::Connection) -> (r: Result<
    (),
    StoreError,
>)
    ensures
        db_of(*final(conn)) == db_of(*old(conn)),
        r matches Err(e) ==> e == StoreError::InitError,
{
    match conn.execute_batch("PRAGMA foreign_keys = OFF;") {
        Ok(()) => Ok(()),
        Err(_) => Err(StoreError::InitError),
    }
}

/// Relies on the sqlite_master catalog and the foreign_keys pragma, which
/// rusqlite::Connection::query_row reads here: every declared table, index
/// and trigger is one catalog row whose `sql` column holds its CREATE
/// statement, letter for letter as it was issued except that IF NOT EXISTS
/// is dropped, that a column added later by ALTER TABLE ADD COLUMN stands
/// appended after the original columns, and that the engine's automatic
/// constraint indexes carry NULL. The query is true only when the three
/// tables declare exactly the schema `sql_create_tables` writes
/// (`timer_records` in its created or its migrated form, the added
/// `category` column last), no trigger is declared on them, the only
/// declared indexes on them are the store's two (by their exact text, so a
/// pre-existing stray index adopted by CREATE INDEX IF NOT EXISTS is
/// refused) and both of those exist, and reference checking is off on this
/// connection; the engine enforces a declared constraint on every write for
/// as long as it stands — which is what `schema_ok` names.
#[verifier::external_body]
pub(crate) fn sql_check_schema(conn: &rusqlite::Connection) -> (r: Result<bool, StoreError>)
    ensures
        r matches Ok(b) && b ==> schema_ok(*conn),
        r matches Err(e) ==> e == StoreError::InitError,
{
    let q = conn.query_row(
        "SELECT COALESCE((SELECT foreign_keys FROM pragma_foreign_keys) = 0 AND (SELECT sql FROM sqlite_master WHERE type = 'table' AND name = 'users') = ?1 AND (SELECT sql FROM sqlite_master WHERE type = 'table' AND name = 'settings') = ?2 AND ((SELECT sql FROM sqlite_master WHERE type = 'table' AND name = 'timer_records') = ?3 OR (SELECT sql FROM sqlite_master WHERE type = 'table' AND name = 'timer_records') = ?4) AND (SELECT COUNT(*) FROM sqlite_master WHERE type = 'trigger' AND tbl_name IN ('users', 'settings', 'timer_records')) = 0 AND (SELECT COUNT(*) FROM sqlite_master WHERE type = 'index' AND tbl_name IN ('users', 'settings', 'timer_records') AND sql IS NOT NULL AND sql <> ?5 AND sql <> ?6) = 0 AND (SELECT COUNT(*) FROM sqlite_master WHERE type = 'index' AND sql = ?5) = 1 AND (SELECT COUNT(*) FROM sqlite_master WHERE type = 'index' AND sql = ?6) = 1, 0)",
        (
            "CREATE TABLE users (id INTEGER PRIMARY KEY AUTOINCREMENT, device_id TEXT UNIQUE NOT NULL, phone TEXT, created_at INTEGER NOT NULL, updated_at INTEGER NOT NULL)",
            "CREATE TABLE settings (id INTEGER PRIMARY KEY AUTOINCREMENT, user_id INTEGER NOT NULL, key TEXT NOT NULL, value TEXT NOT NULL, updated_at INTEGER NOT NULL, FOREIGN KEY (user_id) REFERENCES users(id), UNIQUE(user_id, key))",
            "CREATE TABLE timer_records (id TEXT PRIMARY KEY, user_id INTEGER NOT NULL, record_type TEXT NOT NULL, mode TEXT, name TEXT, category TEXT, start_time INTEGER NOT NULL, end_time INTEGER NOT NULL, duration INTEGER NOT NULL, created_at INTEGER NOT NULL, FOREIGN KEY (user_id) REFERENCES users(id))",
            "CREATE TABLE timer_records (id TEXT PRIMARY KEY, user_id INTEGER NOT NULL, record_type TEXT NOT NULL, mode TEXT, name TEXT, start_time INTEGER NOT NULL, end_time INTEGER NOT NULL, duration INTEGER NOT NULL, created_at INTEGER NOT NULL, category TEXT, FOREIGN KEY (user_id) REFERENCES users(id))",
            "CREATE INDEX idx_timer_records_user_id ON timer_records(user_id)",
            "CREATE INDEX idx_timer_records_end_time ON timer_records(end_time DESC)",
        ),
        |row| row.get(0),
    );
    match q { Ok(b) => Ok(b), Err(_) => Err(StoreError::InitError) }
}

/// Relies on GROUP BY with HAVING: the inner query lists the device_id
/// values held by more than one user row, so a count of zero means no two
/// stored user rows share a device id.
#[verifier::external_body]
pub(crate) fn sql_count_duplicate_devices(conn: &rusqlite::Connection) -> (r: Result<
    i64,
    StoreError,
>)
    requires
        schema_ok(*conn),
    ensures
        r matches Ok(n) && n == 0 ==> unique_devices(users_of(*conn)),
        r matches Err(e) ==> e == StoreError::InitError,
{
    let q = conn.query_row(
        "SELECT COUNT(*) FROM (SELECT device_id FROM users GROUP BY device_id HAVING COUNT(*) > 1)",
        (),
        |row| row.get(0),
    );
    match q {
        Ok(n) => Ok(n),
        Err(_) => Err(StoreError::InitError),
    }
}

/// Relies on rusqlite::Connection::query_row with SELECT ... WHERE device_id =
/// ?1, and on Error::QueryReturnedNoRows marking an empty result: Some is a
/// stored row carrying that device id, under its id; None means no stored row
/// carries it.
#[verifier::external_body]
pub(crate) fn sql_find_user_by_device(conn: &rusqlite::Connection, device_id: &str) -> (r: Result<
    Option<User>,
    StoreError,
>)
    requires
        schema_ok(*conn),
    ensures
        r matches Ok(Some(u)) ==> users_of(*conn).contains_pair(u.id as int, u@)
            && u.device_id@ == device_id@,
        r matches Ok(None) ==> !has_device(users_of(*conn), device_id@),
{
    let q = conn.query_row(
        "SELECT id, device_id, phone, created_at, updated_at FROM users WHERE device_id = ?1",
        (device_id,),
        |row| Ok(User { id: row.get(0)?, device_id: row.get(1)?, phone: row.get(2)?, created_at: row.get(3)?, updated_at: row.get(4)? }),
    );
    match q {
        Ok(u) => Ok(Some(u)),
        Err(rusqlite::Error::QueryReturnedNoRows) => Ok(None),
        Err(_) => Err(StoreError::BackendFailure),
    }
}

/// Relies on rusqlite::Connection::execute with INSERT INTO users and on
/// Connection::last_insert_rowid: on success the id AUTOINCREMENT generates
/// is at least one and strictly above every id the table has ever held — so
/// it is free and exceeds all stored ids — the UNIQUE constraint on
/// device_id — standing, per the required `schema_ok` — guarantees no
/// stored row already carried it, and the one new row holds the given
/// values with no phone. A failed single INSERT leaves the stored tables
/// unchanged.
#[verifier::external_body]
pub(crate) fn sql_insert_user(conn: &mut rusqlite::Connection, device_id: &str, now: i64) -> (r:
    Result<i64, StoreError>)
    requires
        schema_ok(*old(conn)),
    ensures
        schema_ok(*final(conn)),
        r matches Ok(id) ==> {
            &&& id >= 1
            &&& forall|k: int| #[trigger]
                users_of(*old(conn)).dom().contains(k) ==> k < id as int
            &&& !users_of(*old(conn)).dom().contains(id as int)
            &&& !has_device(users_of(*old(conn)), device_id@)
            &&& users_of(*final(conn)) == users_of(*old(conn)).insert(
                id as int,
                UserRow {
                    device_id: device_id@,
                    phone: None,
                    created_at: now as int,
                    updated_at: now as int,
                },
            )
            &&& settings_of(*final(conn)) == settings_of(*old(conn))
            &&& records_of(*final(conn)) == records_of(*old(conn))
        },
        r is Err ==> db_of(*final(conn)) == db_of(*old(conn)),
{
    let q = conn.execute(
        "INSERT INTO users (device_id, created_at, updated_at) VALUES (?1, ?2, ?3)",
        (device_id, now, now),
    );
    match q {
        Ok(_) => Ok(conn.last_insert_rowid()),
        Err(_) => Err(StoreError::BackendFailure),
    }
}

/// Relies on rusqlite::Connection::execute with UPDATE users SET phone = ?1,
/// updated_at = ?2 WHERE id = ?3: it rewrites exactly the row with that id,
/// and no row when none has it. A failed single UPDATE leaves the stored
/// tables unchanged.
#[verifier::external_body]
pub(crate) fn sql_set_user_phone(
    conn: &mut rusqlite::Connection,
    user_id: i64,
    phone: &Option<String>,
    now: i64,
) -> (r: Result<(), StoreError>)
    requires
        schema_ok(*old(conn)),
    ensures
        schema_ok(*final(conn)),
        r is Ok ==> users_of(*final(conn)) == users_set_phone(
            users_of(*old(conn)),
            user_id as int,
            phone.deep_view(),
            now as int,
        ) && settings_of(*final(conn)) == settings_of(*old(conn)) && records_of(*final(conn))
            == records_of(*old(conn)),
        r is Err ==> db_of(*final(conn)) == db_of(*old(conn)),
{
    let q = conn.execute(
        "UPDATE users SET phone = ?1, updated_at = ?2 WHERE id = ?3",
        (phone, now, user_id),
    );
    match q {
        Ok(_) => Ok(()),
        Err(_) => Err(StoreError::BackendFailure),
    }
}

/// Relies on rusqlite::Connection::query_row with SELECT ... WHERE id = ?1,
/// and on Error::QueryReturnedNoRows marking an empty result: Some is the
/// stored row with that id; None means the table has none.
#[verifier::external_body]
pub(crate) fn sql_find_user_by_id(conn: &rusqlite::Connection, user_id: i64) -> (r: Result<
    Option<User>,
    StoreError,
>)
    requires
        schema_ok(*conn),
    ensures
        r matches Ok(Some(u)) ==> users_of(*conn).contains_pair(user_id as int, u@)
            && u.id == user_id,
        r matches Ok(None) ==> !users_of(*conn).dom().contains(user_id as int),
{
    let q = conn.query_row(
        "SELECT id, device_id, phone, created_at, updated_at FROM users WHERE id = ?1",
        (user_id,),
        |row| Ok(User { id: row.get(0)?, device_id: row.get(1)?, phone: row.get(2)?, created_at: row.get(3)?, updated_at: row.get(4)? }),
    );
    match q {
        Ok(u) => Ok(Some(u)),
        Err(rusqlite::Error::QueryReturnedNoRows) => Ok(None),
        Err(_) => Err(StoreError::BackendFailure),
    }
}

/// Relies on rusqlite::Statement::query_map over SELECT ... WHERE user_id =
/// ?1: the rows handed back are exactly the stored settings owned by that
/// user, each once.
#[verifier::external_body]
pub(crate) fn sql_select_settings(conn: &rusqlite::Connection, user_id: i64) -> (r: Result<
    Vec<Setting>,
    StoreError,
>)
    requires
        schema_ok(*conn),
    ensures
        r matches Ok(v) ==> settings_listing(settings_of(*conn), user_id as int, v@),
{
    let mut stmt = match conn.prepare(
        "SELECT id, user_id, key, value, updated_at FROM settings WHERE user_id = ?1",
    ) {
        Ok(s) => s,
        Err(_) => return Err(StoreError::BackendFailure),
    };
    let rows = stmt.query_map(
        (user_id,),
        |row| Ok(Setting { id: row.get(0)?, user_id: row.get(1)?, key: row.get(2)?, value: row.get(3)?, updated_at: row.get(4)? }),
    );
    match rows.and_then(|it| it.collect::<rusqlite::Result<Vec<Setting>>>()) {
        Ok(v) => Ok(v),
        Err(_) => Err(StoreError::BackendFailure),
    }
}

/// Relies on rusqlite::Connection::execute with INSERT OR REPLACE INTO
/// settings, whose conflict target is the UNIQUE(user_id, key) constraint:
/// the (user, key) row is replaced or created with the given value and
/// timestamp, and nothing else changes. A failed single statement leaves the
/// stored tables unchanged.
#[verifier::external_body]
pub(crate) fn sql_upsert_setting(
    conn: &mut rusqlite::Connection,
    user_id: i64,
    key: &str,
    value: &str,
    now: i64,
) -> (r: Result<(), StoreError>)
    requires
        schema_ok(*old(conn)),
    ensures
        schema_ok(*final(conn)),
        r is Ok ==> settings_of(*final(conn)) == settings_upsert(
            settings_of(*old(conn)),
            user_id as int,
            key@,
            value@,
            now as int,
        ) && users_of(*final(conn)) == users_of(*old(conn)) && records_of(*final(conn))
            == records_of(*old(conn)),
        r is Err ==> db_of(*final(conn)) == db_of(*old(conn)),
{
    let q = conn.execute(
        "INSERT OR REPLACE INTO settings (user_id, key, value, updated_at) VALUES (?1, ?2, ?3, ?4)",
        (user_id, key, value, now),
    );
    match q {
        Ok(_) => Ok(()),
        Err(_) => Err(StoreError::BackendFailure),
    }
}

/// Relies on rusqlite::Statement::query_map over SELECT ... WHERE user_id = ?1
/// ORDER BY end_time DESC LIMIT ?2, with a positive limit: the rows handed
/// back are the user's stored records, newest first by end_time, as many as
/// the table has up to the limit, and every record left out is no newer than
/// the last one listed.
#[verifier::external_body]
pub(crate) fn sql_select_records(conn: &rusqlite::Connection, user_id: i64, limit: i64) -> (r:
    Result<Vec<TimerRecord>, StoreError>)
    requires
        schema_ok(*conn),
        limit > 0,
    ensures
        r matches Ok(v) ==> records_listing(records_of(*conn), user_id as int, limit as int, v@),
{
    let mut stmt = conn.prepare(
        "SELECT id, user_id, record_type, mode, name, category, start_time, end_time, duration, created_at FROM timer_records WHERE user_id = ?1 ORDER BY end_time DESC LIMIT ?2",
    ).map_err(|_| StoreError::BackendFailure)?;
    let rows = stmt.query_map(
        (user_id, limit),
        |row| Ok(TimerRecord { id: row.get(0)?, user_id: row.get(1)?, record_type: row.get(2)?, mode: row.get(3)?, name: row.get(4)?, category: row.get(5)?, start_time: row.get(6)?, end_time: row.get(7)?, duration: row.get(8)?, created_at: row.get(9)? }),
    ).map_err(|_| StoreError::BackendFailure)?;
    rows.collect::<rusqlite::Result<Vec<TimerRecord>>>().map_err(|_| StoreError::BackendFailure)
}

/// Relies on rusqlite::Connection::execute with INSERT INTO timer_records,
/// whose primary key is the record id: on success the id was free and the one
/// new row holds the given record. A duplicate id cannot be inserted, though
/// which error surfaces is the engine's (an I/O failure may come first), so a
/// duplicate owes only `Err`. Conversely `ConstraintViolation` is returned
/// only for SQLITE_CONSTRAINT, and under the required `schema_ok` the id's
/// primary key is the only constraint this statement can violate: every NOT
/// NULL column is bound from a non-optional field, there is no CHECK, and
/// reference checking is off on the connection; every other failure is
/// reported as `BackendFailure`. A failed single INSERT leaves the stored
/// tables unchanged.
#[verifier::external_body]
pub(crate) fn sql_insert_record(conn: &mut rusqlite::Connection, rec: &TimerRecord) -> (r: Result<
    (),
    StoreError,
>)
    requires
        schema_ok(*old(conn)),
    ensures
        schema_ok(*final(conn)),
        r is Ok ==> !records_of(*old(conn)).dom().contains(rec.id@) && records_of(*final(conn))
            == records_of(*old(conn)).insert(rec.id@, rec@) && users_of(*final(conn)) == users_of(
            *old(conn),
        ) && settings_of(*final(conn)) == settings_of(*old(conn)),
        records_of(*old(conn)).dom().contains(rec.id@) ==> r is Err,
        (r matches Err(e) && e == StoreError::ConstraintViolation) ==> records_of(
            *old(conn),
        ).dom().contains(rec.id@),
        r matches Err(e) ==> e == StoreError::ConstraintViolation || e
            == StoreError::BackendFailure,
        r is Err ==> db_of(*final(conn)) == db_of(*old(conn)),
{
    let q = conn.execute(
        "INSERT INTO timer_records (id, user_id, record_type, mode, name, category, start_time, end_time, duration, created_at) VALUES (?1, ?2, ?3, ?4, ?5, ?6, ?7, ?8, ?9, ?10)",
        (&rec.id, rec.user_id, &rec.record_type, &rec.mode, &rec.name, &rec.category, rec.start_time, rec.end_time, rec.duration, rec.created_at),
    );
    match q {
        Ok(_) => Ok(()),
        Err(rusqlite::Error::SqliteFailure(e, _)) if e.code
            == rusqlite::ErrorCode::ConstraintViolation => Err(StoreError::ConstraintViolation),
        Err(_) => Err(StoreError::BackendFailure),
    }
}

/// Relies on rusqlite::Connection::execute with UPDATE timer_records SET name
/// = ?1 WHERE id = ?2 AND user_id = ?3: it rewrites that one field of exactly
/// the row whose id and owner both match, and no row otherwise. A failed
/// single UPDATE leaves the stored tables unchanged.
#[verifier::external_body]
pub(crate) fn sql_update_record_name(
    conn: &mut rusqlite::Connection,
    user_id: i64,
    record_id: &str,
    name: &str,
) -> (r: Result<(), StoreError>)
    requires
        schema_ok(*old(conn)),
    ensures
        schema_ok(*final(conn)),
        r is Ok ==> records_of(*final(conn)) == records_patch(
            records_of(*old(conn)),
            user_id as int,
            record_id@,
            Some(name@),
            None,
        ) && users_of(*final(conn)) == users_of(*old(conn)) && settings_of(*final(conn))
            == settings_of(*old(conn)),
        r is Err ==> db_of(*final(conn)) == db_of(*old(conn)),
{
    let q = conn.execute(
        "UPDATE timer_records SET name = ?1 WHERE id = ?2 AND user_id = ?3",
        (name, record_id, user_id),
    );
    match q {
        Ok(_) => Ok(()),
        Err(_) => Err(StoreError::BackendFailure),
    }
}

/// Relies on rusqlite::Connection::execute with UPDATE timer_records SET
/// category = ?1 WHERE id = ?2 AND user_id = ?3, as `sql_update_record_name`
/// does for the name field.
#[verifier::external_body]
pub(crate) fn sql_update_record_category(
    conn: &mut rusqlite::Connection,
    user_id: i64,
    record_id: &str,
    category: &str,
) -> (r: Result<(), StoreError>)
    requires
        schema_ok(*old(conn)),
    ensures
        schema_ok(*final(conn)),
        r is Ok ==> records_of(*final(conn)) == records_patch(
            records_of(*old(conn)),
            user_id as int,
            record_id@,
            None,
            Some(category@),
        ) && users_of(*final(conn)) == users_of(*old(conn)) && settings_of(*final(conn))
            == settings_of(*old(conn)),
        r is Err ==> db_of(*final(conn)) == db_of(*old(conn)),
{
    let q = conn.execute(
        "UPDATE timer_records SET category = ?1 WHERE id = ?2 AND user_id = ?3",
        (category, record_id, user_id),
    );
    match q {
        Ok(_) => Ok(()),
        Err(_) => Err(StoreError::BackendFailure),
    }
}

/// Relies on rusqlite::Connection::execute with UPDATE timer_records SET name
/// = ?1, category = ?2 WHERE id = ?3 AND user_id = ?4, as
/// `sql_update_record_name` does for one field.
#[verifier::external_body]
pub(crate) fn sql_update_record_name_category(
    conn: &mut rusqlite::Connection,
    user_id: i64,
    record_id: &str,
    name: &str,
    category: &str,
) -> (r: Result<(), StoreError>)
    requires
        schema_ok(*old(conn)),
    ensures
        schema_ok(*final(conn)),
        r is Ok ==> records_of(*final(conn)) == records_patch(
            records_of(*old(conn)),
            user_id as int,
            record_id@,
            Some(name@),
            Some(category@),
        ) && users_of(*final(conn)) == users_of(*old(conn)) && settings_of(*final(conn))
            == settings_of(*old(conn)),
        r is Err ==> db_of(*final(conn)) == db_of(*old(conn)),
{
    let q = conn.execute(
        "UPDATE timer_records SET name = ?1, category = ?2 WHERE id = ?3 AND user_id = ?4",
        (name, category, record_id, user_id),
    );
    match q {
        Ok(_) => Ok(()),
        Err(_) => Err(StoreError::BackendFailure),
    }
}

/// Relies on rusqlite::Connection::execute with DELETE FROM timer_records
/// WHERE id = ?1 AND user_id = ?2: it removes exactly the row whose id and
/// owner both match, and no row otherwise. A failed single DELETE leaves the
/// stored tables unchanged.
#[verifier::external_body]
pub(crate) fn sql_delete_record(
    conn: &mut rusqlite::Connection,
    user_id: i64,
    record_id: &str,
) -> (r: Result<(), StoreError>)
    requires
        schema_ok(*old(conn)),
    ensures
        schema_ok(*final(conn)),
        r is Ok ==> records_of(*final(conn)) == records_remove(
            records_of(*old(conn)),
            user_id as int,
            record_id@,
        ) && users_of(*final(conn)) == users_of(*old(conn)) && settings_of(*final(conn))
            == settings_of(*old(conn)),
        r is Err ==> db_of(*final(conn)) == db_of(*old(conn)),
{
    let q = conn.execute(
        "DELETE FROM timer_records WHERE id = ?1 AND user_id = ?2",
        (record_id, user_id),
    );
    match q {
        Ok(_) => Ok(()),
        Err(_) => Err(StoreError::BackendFailure),
    }
}

/// Relies on rusqlite::Connection::execute with DELETE FROM timer_records
/// WHERE user_id = ?1: it removes exactly the rows owned by that user. A
/// DELETE runs as one statement, so on failure the stored tables are
/// unchanged.
#[verifier::external_body]
pub(crate) fn sql_clear_records(conn: &mut rusqlite::Connection, user_id: i64) -> (r: Result<
    (),
    StoreError,
>)
    requires
        schema_ok(*old(conn)),
    ensures
        schema_ok(*final(conn)),
        r is Ok ==> records_of(*final(conn)) == records_clear_user(
            records_of(*old(conn)),
            user_id as int,
        ) && users_of(*final(conn)) == users_of(*old(conn)) && settings_of(*final(conn))
            == settings_of(*old(conn)),
        r is Err ==> db_of(*final(conn)) == db_of(*old(conn)),
{
    let q = conn.execute("DELETE FROM timer_records WHERE user_id = ?1", (user_id,));
    match q {
        Ok(_) => Ok(()),
        Err(_) => Err(StoreError::BackendFailure),
    }
}

/// Relies on std::time::SystemTime::now and duration_since(UNIX_EPOCH): the
/// value depends on the wall clock, so nothing is stated beyond the handling
/// below, which never hands back a negative number.
#[verifier::external_body]
pub(crate) fn now_millis() -> (r: i64)
    ensures
        r >= 0,
{
    match std::time::SystemTime::now().duration_since(std::time::UNIX_EPOCH) {
        Ok(d) => i64::try_from(d.as_millis()).unwrap_or(i64::MAX),
        Err(_) => 0,
    }
}

} // verus!

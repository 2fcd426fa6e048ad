//! The store itself: one exclusively-owned connection to the backing file,
//! and the verified operations over it. Every operation's effect is stated
//! against the `StoreModel` view of the stored tables.

use vstd::prelude::*;

use crate::errors::StoreError;
use crate::model::{
    has_device, records_clear_user, records_listing, records_patch, records_remove,
    settings_batch_upsert, settings_listing, settings_upsert, users_set_phone, Setting,
    StoreModel, TimerRecord, User, UserRow,
};
use crate::sql::{
    db_of, now_millis, schema_ok, sql_add_category_column, sql_check_schema, sql_clear_records,
    sql_count_duplicate_devices, sql_create_indexes, sql_create_tables, sql_delete_record,
    sql_disable_foreign_keys,
    sql_find_user_by_device, sql_find_user_by_id, sql_insert_record, sql_insert_user, sql_open,
    sql_select_records, sql_select_settings, sql_set_user_phone, sql_update_record_category,
    sql_update_record_name, sql_update_record_name_category, sql_upsert_setting,
};

verus! {

/// The persistence engine over a single local database file. It exclusively
/// owns the one live connection; callers that share a `Database` serialize
/// their access around it (the mutable borrow here is that critical section).
pub struct Database {
    conn: rusqlite::Connection,
}

impl View for Database {
    type V = StoreModel;

    closed spec fn view(&self) -> StoreModel {
        db_of(self.conn)
    }
}

impl Database {
    /// The backing tables carry the schema the store writes, with its
    /// uniqueness constraints standing; checked against the engine's catalog
    /// by `new`, and no later operation alters a declared schema.
    pub closed spec fn schema_valid(self) -> bool {
        schema_ok(self.conn)
    }

    /// Well-formedness: the stored tables satisfy the model invariant and
    /// carry the checked schema; established by `new` and kept by every
    /// operation.
    pub open spec fn wf(self) -> bool {
        self@.wf() && self.schema_valid()
    }

    /// Opens (creating if absent) the backing file at `db_path` and ensures
    /// the schema exists: the three tables, the `category` column on timer
    /// records (added unconditionally, its "already exists" failure ignored),
    /// and the two read indexes. Safe to run against an already-initialized
    /// file. A file whose tables exist with some other declared schema,
    /// carry triggers or stray indexes, or whose user rows already violate
    /// device uniqueness, is refused with `InitError`: the store's
    /// guarantees hold only over a database that is wholly its own.
    pub fn new(db_path: &str) -> (r: Result<Database, StoreError>)
        ensures
            r matches Ok(db) ==> db.wf(),
            r matches Err(e) ==> e == StoreError::InitError,
    {
        let mut conn = match sql_open(db_path) {
            Ok(c) => c,
            Err(e) => {
                return Err(e);
            },
        };
        match sql_disable_foreign_keys(&mut conn) {
            Ok(()) => (),
            Err(e) => {
                return Err(e);
            },
        }
        match sql_create_tables(&mut conn) {
            Ok(()) => (),
            Err(e) => {
                return Err(e);
            },
        }
        sql_add_category_column(&mut conn);
        match sql_create_indexes(&mut conn) {
            Ok(()) => (),
            Err(e) => {
                return Err(e);
            },
        }
        let schema_checked = match sql_check_schema(&conn) {
            Ok(b) => b,
            Err(e) => {
                return Err(e);
            },
        };
        if !schema_checked {
            return Err(StoreError::InitError);
        }
        let duplicate_devices = match sql_count_duplicate_devices(&conn) {
            Ok(n) => n,
            Err(e) => {
                return Err(e);
            },
        };
        if duplicate_devices != 0 {
            return Err(StoreError::InitError);
        }
        Ok(Database { conn })
    }

    /// Looks a user up by device id; if none exists, creates one whose
    /// `created_at` and `updated_at` are both `now`. An existing row is
    /// returned unchanged — no timestamp is bumped by the lookup.
    pub fn get_or_create_user_at(&mut self, device_id: &str, now: i64) -> (r: Result<
        User,
        StoreError,
    >)
        requires
            old(self).wf(),
        ensures
            final(self).wf(),
            final(self)@.settings == old(self)@.settings,
            final(self)@.records == old(self)@.records,
            r matches Ok(u) ==> u.device_id@ == device_id@ && final(self)@.users.contains_pair(
                u.id as int,
                u@,
            ),
            r matches Ok(u) ==> (has_device(old(self)@.users, device_id@) ==> final(self)@ == old(
                self,
            )@ && old(self)@.users.contains_pair(u.id as int, u@)),
            r matches Ok(u) ==> (!has_device(old(self)@.users, device_id@) ==> u.id >= 1 && (
            forall|k: int| #[trigger]
                old(self)@.users.dom().contains(k) ==> k < u.id as int) && !old(
                self,
            )@.users.dom().contains(u.id as int) && final(self)@.users == old(
                self,
            )@.users.insert(u.id as int, u@) && u.phone is None && u.created_at == now
                && u.updated_at == now),
            r is Err ==> final(self)@ == old(self)@,
    {
        let found = sql_find_user_by_device(&self.conn, device_id);
        match found {
            Ok(Some(u)) => {
                proof {
                    assert(has_device(self@.users, device_id@)) by {
                        assert(self@.users.dom().contains(u.id as int));
                    }
                }
                Ok(u)
            },
            Ok(None) => {
                match sql_insert_user(&mut self.conn, device_id, now) {
                    Ok(id) => {
                        let u = User {
                            id,
                            device_id: device_id.to_owned(),
                            phone: None,
                            created_at: now,
                            updated_at: now,
                        };
                        proof {
                            let users0 = old(self)@.users;
                            let users1 = self@.users;
                            assert(users1 == users0.insert(id as int, u@));
                            assert forall|i: int, j: int|
                                users1.dom().contains(i) && users1.dom().contains(j) && i != j
                                    implies #[trigger] users1[i].device_id
                                    != #[trigger] users1[j].device_id by {
                                if i != id as int && j != id as int {
                                    assert(users0[i] == users1[i] && users0[j] == users1[j]);
                                } else if i == id as int {
                                    assert(users0[j] == users1[j]);
                                    assert(users1[j].device_id != device_id@) by {
                                        assert(!has_device(users0, device_id@));
                                        assert(users0.dom().contains(j));
                                    }
                                } else {
                                    assert(users0[i] == users1[i]);
                                    assert(users1[i].device_id != device_id@) by {
                                        assert(!has_device(users0, device_id@));
                                        assert(users0.dom().contains(i));
                                    }
                                }
                            }
                        }
                        Ok(u)
                    },
                    Err(e) => Err(e),
                }
            },
            Err(e) => Err(e),
        }
    }

    /// As `get_or_create_user_at`, with `now` read from the system clock; a
    /// freshly created user therefore has `created_at == updated_at >= 0`.
    pub fn get_or_create_user(&mut self, device_id: &str) -> (r: Result<User, StoreError>)
        requires
            old(self).wf(),
        ensures
            final(self).wf(),
            final(self)@.settings == old(self)@.settings,
            final(self)@.records == old(self)@.records,
            r matches Ok(u) ==> u.device_id@ == device_id@ && final(self)@.users.contains_pair(
                u.id as int,
                u@,
            ),
            r matches Ok(u) ==> (has_device(old(self)@.users, device_id@) ==> final(self)@ == old(
                self,
            )@ && old(self)@.users.contains_pair(u.id as int, u@)),
            r matches Ok(u) ==> (!has_device(old(self)@.users, device_id@) ==> u.id >= 1 && (
            forall|k: int| #[trigger]
                old(self)@.users.dom().contains(k) ==> k < u.id as int) && !old(
                self,
            )@.users.dom().contains(u.id as int) && final(self)@.users == old(
                self,
            )@.users.insert(u.id as int, u@) && u.phone is None && u.created_at == u.updated_at
                && u.created_at >= 0),
            r is Err ==> final(self)@ == old(self)@,
    {
        let now = now_millis();
        self.get_or_create_user_at(device_id, now)
    }

    /// Sets (or clears) the phone of `user_id` and refreshes its `updated_at`
    /// to `now`. If no such user exists, zero rows are affected and that is
    /// not an error.
    pub fn update_user_phone_at(&mut self, user_id: i64, phone: Option<String>, now: i64) -> (r:
        Result<(), StoreError>)
        requires
            old(self).wf(),
        ensures
            final(self).wf(),
            final(self)@.settings == old(self)@.settings,
            final(self)@.records == old(self)@.records,
            r is Ok ==> final(self)@.users == users_set_phone(
                old(self)@.users,
                user_id as int,
                phone.deep_view(),
                now as int,
            ),
            r is Err ==> final(self)@ == old(self)@,
    {
        let r = sql_set_user_phone(&mut self.conn, user_id, &phone, now);
        proof {
            if r is Ok {
                let users0 = old(self)@.users;
                let users1 = self@.users;
                assert forall|i: int, j: int|
                    users1.dom().contains(i) && users1.dom().contains(j) && i != j
                        implies #[trigger] users1[i].device_id != #[trigger] users1[j].device_id by {
                    assert(users0.dom().contains(i) && users0.dom().contains(j));
                    assert(users1[i].device_id == users0[i].device_id);
                    assert(users1[j].device_id == users0[j].device_id);
                }
            }
        }
        r
    }

    /// As `update_user_phone_at`, with `now` read from the system clock.
    pub fn update_user_phone(&mut self, user_id: i64, phone: Option<String>) -> (r: Result<
        (),
        StoreError,
    >)
        requires
            old(self).wf(),
        ensures
            final(self).wf(),
            final(self)@.settings == old(self)@.settings,
            final(self)@.records == old(self)@.records,
            r is Ok ==> exists|t: int|
                t >= 0 && final(self)@.users == #[trigger] users_set_phone(
                    old(self)@.users,
                    user_id as int,
                    phone.deep_view(),
                    t,
                ),
            r is Err ==> final(self)@ == old(self)@,
    {
        let now = now_millis();
        self.update_user_phone_at(user_id, phone, now)
    }

    /// Fetches the user with the given id, failing with `NotFound` when no
    /// such row exists.
    pub fn get_user_by_id(&self, user_id: i64) -> (r: Result<User, StoreError>)
        requires
            self.wf(),
        ensures
            r matches Ok(u) ==> self@.users.contains_pair(user_id as int, u@) && u.id == user_id,
            !self@.users.dom().contains(user_id as int) ==> r !is Ok,
            r matches Err(e) && e == StoreError::NotFound ==> !self@.users.dom().contains(
                user_id as int,
            ),
            r matches Err(e) ==> e == StoreError::NotFound || e == StoreError::BackendFailure,
    {
        match sql_find_user_by_id(&self.conn, user_id) {
            Ok(Some(u)) => Ok(u),
            Ok(None) => Err(StoreError::NotFound),
            Err(_) => Err(StoreError::BackendFailure),
        }
    }

    /// All settings owned by `user_id`, each once, in no particular order.
    pub fn get_settings(&self, user_id: i64) -> (r: Result<Vec<Setting>, StoreError>)
        requires
            self.wf(),
        ensures
            r matches Ok(v) ==> settings_listing(self@.settings, user_id as int, v@),
    {
        sql_select_settings(&self.conn, user_id)
    }

    /// Upserts one setting: the (user, key) row is replaced or created with
    /// the given value, its `updated_at` refreshed to `now`.
    pub fn save_setting_at(&mut self, user_id: i64, key: &str, value: &str, now: i64) -> (r:
        Result<(), StoreError>)
        requires
            old(self).wf(),
        ensures
            final(self).wf(),
            final(self)@.users == old(self)@.users,
            final(self)@.records == old(self)@.records,
            r is Ok ==> final(self)@.settings == settings_upsert(
                old(self)@.settings,
                user_id as int,
                key@,
                value@,
                now as int,
            ),
            r is Err ==> final(self)@ == old(self)@,
    {
        sql_upsert_setting(&mut self.conn, user_id, key, value, now)
    }

    /// As `save_setting_at`, with `now` read from the system clock.
    pub fn save_setting(&mut self, user_id: i64, key: &str, value: &str) -> (r: Result<
        (),
        StoreError,
    >)
        requires
            old(self).wf(),
        ensures
            final(self).wf(),
            final(self)@.users == old(self)@.users,
            final(self)@.records == old(self)@.records,
            r is Ok ==> exists|t: int|
                t >= 0 && final(self)@.settings == #[trigger] settings_upsert(
                    old(self)@.settings,
                    user_id as int,
                    key@,
                    value@,
                    t,
                ),
            r is Err ==> final(self)@ == old(self)@,
    {
        let now = now_millis();
        self.save_setting_at(user_id, key, value, now)
    }

    /// Applies the same upsert for every (key, value) pair in order, all with
    /// the one shared timestamp `now`. An empty list is a no-op. The pairs
    /// are written one by one: if one write fails, the pairs before it stay
    /// written.
    pub fn save_settings_batch_at(
        &mut self,
        user_id: i64,
        settings: Vec<(String, String)>,
        now: i64,
    ) -> (r: Result<(), StoreError>)
        requires
            old(self).wf(),
        ensures
            final(self).wf(),
            final(self)@.users == old(self)@.users,
            final(self)@.records == old(self)@.records,
            settings.len() == 0 ==> r is Ok && final(self)@ == old(self)@,
            r is Ok ==> final(self)@.settings == settings_batch_upsert(
                old(self)@.settings,
                user_id as int,
                settings.deep_view(),
                now as int,
            ),
            r is Err ==> exists|k: int|
                0 <= k <= settings.deep_view().len() && final(self)@.settings
                    == #[trigger] settings_batch_upsert(
                    old(self)@.settings,
                    user_id as int,
                    settings.deep_view().take(k),
                    now as int,
                ),
    {
        let ghost pairs = settings.deep_view();
        let mut i: usize = 0;
        while i < settings.len()
            invariant
                old(self).wf(),
                self.wf(),
                0 <= i <= settings.len(),
                pairs == settings.deep_view(),
                pairs.len() == settings.len(),
                self@.users == old(self)@.users,
                self@.records == old(self)@.records,
                self@.settings == settings_batch_upsert(
                    old(self)@.settings,
                    user_id as int,
                    pairs.take(i as int),
                    now as int,
                ),
            decreases settings.len() - i,
        {
            let pair = &settings[i];
            let res = sql_upsert_setting(&mut self.conn, user_id, pair.0.as_str(), pair.1.as_str(), now);
            match res {
                Ok(()) => (),
                Err(e) => {
                    return Err(e);
                },
            }
            proof {
                // one more upsert extends the batch by the pair just written
                assert(pairs.take(i as int + 1).drop_last() =~= pairs.take(i as int));
            }
            i = i + 1;
        }
        proof {
            assert(pairs.take(settings.len() as int) =~= pairs);
        }
        Ok(())
    }

    /// As `save_settings_batch_at`, with the one shared `now` read from the
    /// system clock.
    pub fn save_settings_batch(&mut self, user_id: i64, settings: Vec<(String, String)>) -> (r:
        Result<(), StoreError>)
        requires
            old(self).wf(),
        ensures
            final(self).wf(),
            final(self)@.users == old(self)@.users,
            final(self)@.records == old(self)@.records,
            settings.len() == 0 ==> r is Ok && final(self)@ == old(self)@,
            r is Ok ==> exists|t: int|
                t >= 0 && final(self)@.settings == #[trigger] settings_batch_upsert(
                    old(self)@.settings,
                    user_id as int,
                    settings.deep_view(),
                    t,
                ),
            r is Err ==> exists|t: int, k: int|
                t >= 0 && 0 <= k <= settings.deep_view().len() && final(self)@.settings
                    == #[trigger] settings_batch_upsert(
                    old(self)@.settings,
                    user_id as int,
                    settings.deep_view().take(k),
                    t,
                ),
    {
        let now = now_millis();
        self.save_settings_batch_at(user_id, settings, now)
    }

    /// Up to `limit` most recent records owned by `user_id`, newest first by
    /// `end_time`. A limit of zero or less returns an empty list.
    pub fn get_timer_records(&self, user_id: i64, limit: i64) -> (r: Result<
        Vec<TimerRecord>,
        StoreError,
    >)
        requires
            self.wf(),
        ensures
            limit <= 0 ==> r is Ok,
            r matches Ok(v) ==> records_listing(self@.records, user_id as int, limit as int, v@),
    {
        if limit <= 0 {
            let v: Vec<TimerRecord> = Vec::new();
            Ok(v)
        } else {
            sql_select_records(&self.conn, user_id, limit)
        }
    }

    /// Inserts a new record exactly as given; the store re-derives none of
    /// its fields. Fails with `ConstraintViolation` when the record's id is
    /// already in use.
    pub fn add_timer_record(&mut self, record: &TimerRecord) -> (r: Result<(), StoreError>)
        requires
            old(self).wf(),
        ensures
            final(self).wf(),
            final(self)@.users == old(self)@.users,
            final(self)@.settings == old(self)@.settings,
            r is Ok ==> !old(self)@.records.dom().contains(record.id@) && final(self)@.records
                == old(self)@.records.insert(record.id@, record@),
            old(self)@.records.dom().contains(record.id@) ==> r is Err,
            (r matches Err(e) && e == StoreError::ConstraintViolation) ==> old(
                self,
            )@.records.dom().contains(record.id@),
            r matches Err(e) ==> e == StoreError::ConstraintViolation || e
                == StoreError::BackendFailure,
            r is Err ==> final(self)@ == old(self)@,
    {
        sql_insert_record(&mut self.conn, record)
    }

    /// Partial patch scoped to (record_id, user_id): only the supplied fields
    /// are overwritten. With neither field supplied nothing is written; a
    /// record that is missing or owned by another user is left untouched, and
    /// that is not an error.
    pub fn update_timer_record(
        &mut self,
        user_id: i64,
        record_id: &str,
        name: Option<String>,
        category: Option<String>,
    ) -> (r: Result<(), StoreError>)
        requires
            old(self).wf(),
        ensures
            final(self).wf(),
            final(self)@.users == old(self)@.users,
            final(self)@.settings == old(self)@.settings,
            name is None && category is None ==> r is Ok && final(self)@ == old(self)@,
            r is Ok ==> final(self)@.records == records_patch(
                old(self)@.records,
                user_id as int,
                record_id@,
                name.deep_view(),
                category.deep_view(),
            ),
            r is Err ==> final(self)@ == old(self)@,
    {
        match (&name, &category) {
            (Some(n), Some(c)) => sql_update_record_name_category(
                &mut self.conn,
                user_id,
                record_id,
                n.as_str(),
                c.as_str(),
            ),
            (Some(n), None) => sql_update_record_name(
                &mut self.conn,
                user_id,
                record_id,
                n.as_str(),
            ),
            (None, Some(c)) => sql_update_record_category(
                &mut self.conn,
                user_id,
                record_id,
                c.as_str(),
            ),
            (None, None) => {
                proof {
                    let m = self@.records;
                    let uid = user_id as int;
                    if m.dom().contains(record_id@) && m[record_id@].user_id == uid {
                        assert(records_patch(m, uid, record_id@, None, None) =~= m);
                    }
                }
                Ok(())
            },
        }
    }

    /// Deletes the record scoped to (record_id, user_id); a record that is
    /// missing or owned by another user is left untouched, and that is not an
    /// error.
    pub fn delete_timer_record(&mut self, user_id: i64, record_id: &str) -> (r: Result<
        (),
        StoreError,
    >)
        requires
            old(self).wf(),
        ensures
            final(self).wf(),
            final(self)@.users == old(self)@.users,
            final(self)@.settings == old(self)@.settings,
            r is Ok ==> final(self)@.records == records_remove(
                old(self)@.records,
                user_id as int,
                record_id@,
            ),
            r is Err ==> final(self)@ == old(self)@,
    {
        sql_delete_record(&mut self.conn, user_id, record_id)
    }

    /// Deletes every record owned by `user_id`, leaving other users' records
    /// untouched.
    pub fn clear_timer_records(&mut self, user_id: i64) -> (r: Result<(), StoreError>)
        requires
            old(self).wf(),
        ensures
            final(self).wf(),
            final(self)@.users == old(self)@.users,
            final(self)@.settings == old(self)@.settings,
            r is Ok ==> final(self)@.records == records_clear_user(
                old(self)@.records,
                user_id as int,
            ),
            r is Err ==> final(self)@ == old(self)@,
    {
        let r = sql_clear_records(&mut self.conn, user_id);
        proof {
            if r is Ok {
                let m0 = old(self)@.records;
                let m1 = self@.records;
                assert(m1.dom().subset_of(m0.dom()));
                vstd::set_lib::lemma_set_subset_finite(m0.dom(), m1.dom());
            }
        }
        r
    }
}

} // verus!

//! The data model: the row types that cross the store's boundary, their
//! mathematical views, and the spec-level description of every operation on
//! the stored tables.

use vstd::prelude::*;

verus! {

// ---------------------------------------------------------------------------
// Row types. These are the values the store hands to and takes from callers.
// ---------------------------------------------------------------------------

/// One user row: one per device installation.
#[derive(Debug, Clone, PartialEq)]
pub struct User {
    pub id: i64,
    pub device_id: String,
    pub phone: Option<String>,
    pub created_at: i64,
    pub updated_at: i64,
}

/// One setting row: one per (user, key) pair.
#[derive(Debug, Clone, PartialEq)]
pub struct Setting {
    pub id: i64,
    pub user_id: i64,
    pub key: String,
    pub value: String,
    pub updated_at: i64,
}

/// One completed timer session. The id is caller-supplied and globally unique.
#[derive(Debug, Clone, PartialEq)]
pub struct TimerRecord {
    pub id: String,
    pub user_id: i64,
    pub record_type: String,
    pub mode: Option<String>,
    pub name: Option<String>,
    pub category: Option<String>,
    pub start_time: i64,
    pub end_time: i64,
    pub duration: i64,
    pub created_at: i64,
}

// ---------------------------------------------------------------------------
// Mathematical views of the rows.
// ---------------------------------------------------------------------------

/// What a user row stores, apart from its id (the id keys the users map).
#[verifier::ext_equal]
pub struct UserRow {
    pub device_id: Seq<char>,
    pub phone: Option<Seq<char>>,
    pub created_at: int,
    pub updated_at: int,
}

/// What a setting row stores, apart from its (user, key) identity.
#[verifier::ext_equal]
pub struct SettingVal {
    pub value: Seq<char>,
    pub updated_at: int,
}

/// What a timer record stores, apart from its id (the id keys the records map).
#[verifier::ext_equal]
pub struct RecordRow {
    pub user_id: int,
    pub record_type: Seq<char>,
    pub mode: Option<Seq<char>>,
    pub name: Option<Seq<char>>,
    pub category: Option<Seq<char>>,
    pub start_time: int,
    pub end_time: int,
    pub duration: int,
    pub created_at: int,
}

impl View for User {
    type V = UserRow;

    open spec fn view(&self) -> UserRow {
        UserRow {
            device_id: self.device_id@,
            phone: self.phone.deep_view(),
            created_at: self.created_at as int,
            updated_at: self.updated_at as int,
        }
    }
}

impl View for Setting {
    type V = SettingVal;

    open spec fn view(&self) -> SettingVal {
        SettingVal { value: self.value@, updated_at: self.updated_at as int }
    }
}

impl View for TimerRecord {
    type V = RecordRow;

    open spec fn view(&self) -> RecordRow {
        RecordRow {
            user_id: self.user_id as int,
            record_type: self.record_type@,
            mode: self.mode.deep_view(),
            name: self.name.deep_view(),
            category: self.category.deep_view(),
            start_time: self.start_time as int,
            end_time: self.end_time as int,
            duration: self.duration as int,
            created_at: self.created_at as int,
        }
    }
}

// ---------------------------------------------------------------------------
// The logical content of the whole store.
// ---------------------------------------------------------------------------

/// The logical content of the backing file: users keyed by their generated id,
/// settings keyed by (owner, key), timer records keyed by their caller-supplied id.
#[verifier::ext_equal]
pub struct StoreModel {
    pub users: Map<int, UserRow>,
    pub settings: Map<(int, Seq<char>), SettingVal>,
    pub records: Map<Seq<char>, RecordRow>,
}

impl StoreModel {
    /// Well-formedness: the tables are finite and no two users share a device id.
    pub open spec fn wf(self) -> bool {
        &&& self.users.dom().finite()
        &&& self.settings.dom().finite()
        &&& self.records.dom().finite()
        &&& unique_devices(self.users)
    }
}

/// No two user rows share a device id.
pub open spec fn unique_devices(users: Map<int, UserRow>) -> bool {
    forall|i: int, j: int|
        #![trigger users[i].device_id, users[j].device_id]
        users.dom().contains(i) && users.dom().contains(j) && i != j ==> users[i].device_id
            != users[j].device_id
}

/// Whether some user row carries the given device id.
pub open spec fn has_device(users: Map<int, UserRow>, device_id: Seq<char>) -> bool {
    exists|i: int| users.dom().contains(i) && (#[trigger] users[i]).device_id == device_id
}

/// The users table after setting (or clearing) the phone of `user_id` at `now`;
/// a missing user changes nothing.
pub open spec fn users_set_phone(
    users: Map<int, UserRow>,
    user_id: int,
    phone: Option<Seq<char>>,
    now: int,
) -> Map<int, UserRow> {
    if users.dom().contains(user_id) {
        users.insert(
            user_id,
            UserRow {
                device_id: users[user_id].device_id,
                phone,
                created_at: users[user_id].created_at,
                updated_at: now,
            },
        )
    } else {
        users
    }
}

/// The settings table after an upsert: the (user, key) row is replaced or
/// created, holding the new value and timestamp.
pub open spec fn settings_upsert(
    settings: Map<(int, Seq<char>), SettingVal>,
    user_id: int,
    key: Seq<char>,
    value: Seq<char>,
    now: int,
) -> Map<(int, Seq<char>), SettingVal> {
    settings.insert((user_id, key), SettingVal { value, updated_at: now })
}

/// The settings table after upserting every pair of `pairs` in order, all with
/// the one shared timestamp `now`.
pub open spec fn settings_batch_upsert(
    settings: Map<(int, Seq<char>), SettingVal>,
    user_id: int,
    pairs: Seq<(Seq<char>, Seq<char>)>,
    now: int,
) -> Map<(int, Seq<char>), SettingVal>
    decreases pairs.len(),
{
    if pairs.len() == 0 {
        settings
    } else {
        settings_upsert(
            settings_batch_upsert(settings, user_id, pairs.drop_last(), now),
            user_id,
            pairs.last().0,
            pairs.last().1,
            now,
        )
    }
}

/// The records table after a partial patch scoped to (record_id, user_id):
/// only the supplied fields are overwritten, and a record that is missing or
/// owned by a different user is left untouched.
pub open spec fn records_patch(
    records: Map<Seq<char>, RecordRow>,
    user_id: int,
    record_id: Seq<char>,
    name: Option<Seq<char>>,
    category: Option<Seq<char>>,
) -> Map<Seq<char>, RecordRow> {
    if records.dom().contains(record_id) && records[record_id].user_id == user_id {
        records.insert(
            record_id,
            RecordRow {
                name: if name is Some { name } else { records[record_id].name },
                category: if category is Some { category } else { records[record_id].category },
                ..records[record_id]
            },
        )
    } else {
        records
    }
}

/// The records table after a delete scoped to (record_id, user_id): a record
/// that is missing or owned by a different user is left untouched.
pub open spec fn records_remove(
    records: Map<Seq<char>, RecordRow>,
    user_id: int,
    record_id: Seq<char>,
) -> Map<Seq<char>, RecordRow> {
    if records.dom().contains(record_id) && records[record_id].user_id == user_id {
        records.remove(record_id)
    } else {
        records
    }
}

/// The records table after deleting every record owned by `user_id`.
pub open spec fn records_clear_user(
    records: Map<Seq<char>, RecordRow>,
    user_id: int,
) -> Map<Seq<char>, RecordRow> {
    Map::new(
        |id: Seq<char>| records.dom().contains(id) && records[id].user_id != user_id,
        |id: Seq<char>| records[id],
    )
}

/// The ids of the records owned by `user_id`.
pub open spec fn user_record_ids(records: Map<Seq<char>, RecordRow>, user_id: int) -> Set<
    Seq<char>,
> {
    records.dom().filter(|id: Seq<char>| records[id].user_id == user_id)
}

/// Whether the listing `v` holds a record with the given id.
pub open spec fn listing_has_id(v: Seq<TimerRecord>, id: Seq<char>) -> bool {
    exists|i: int| 0 <= i < v.len() && (#[trigger] v[i]).id@ == id
}

/// What a settings query returns: exactly the rows of `settings` owned by
/// `user_id`, each once, in no particular order.
pub open spec fn settings_listing(
    settings: Map<(int, Seq<char>), SettingVal>,
    user_id: int,
    v: Seq<Setting>,
) -> bool {
    &&& forall|i: int|
        0 <= i < v.len() ==> (#[trigger] v[i]).user_id as int == user_id
            && settings.contains_pair((user_id, v[i].key@), v[i]@)
    &&& forall|i: int, j: int|
        #![trigger v[i].key@, v[j].key@]
        0 <= i < j < v.len() ==> v[i].key@ != v[j].key@
    &&& forall|k: Seq<char>|
        #[trigger] settings.dom().contains((user_id, k))
            ==> exists|i: int| 0 <= i < v.len() && (#[trigger] v[i]).key@ == k
}

/// What a timer-record query returns: records of `records` owned by `user_id`,
/// each once, newest first by end_time, at most `limit` of them and as many as
/// the table has up to `limit`; every record left out is no newer than the last
/// one listed. A limit of zero or less returns nothing.
pub open spec fn records_listing(
    records: Map<Seq<char>, RecordRow>,
    user_id: int,
    limit: int,
    v: Seq<TimerRecord>,
) -> bool {
    &&& forall|i: int|
        0 <= i < v.len() ==> (#[trigger] v[i]).user_id as int == user_id
            && records.contains_pair(v[i].id@, v[i]@)
    &&& forall|i: int, j: int|
        #![trigger v[i].id@, v[j].id@]
        0 <= i < j < v.len() ==> v[i].id@ != v[j].id@
    &&& forall|i: int, j: int|
        #![trigger v[i].end_time, v[j].end_time]
        0 <= i <= j < v.len() ==> v[i].end_time >= v[j].end_time
    &&& v.len() <= (if limit > 0 { limit } else { 0 })
    &&& records.dom().finite() ==> v.len() == vstd::math::min(
        if limit > 0 { limit } else { 0 },
        user_record_ids(records, user_id).len() as int,
    )
    &&& forall|id: Seq<char>|
        limit > 0 && #[trigger] user_record_ids(records, user_id).contains(id)
            && !listing_has_id(v, id) ==> records[id].end_time <= v[v.len() - 1].end_time
}

} // verus!

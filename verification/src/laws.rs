//! Laws the store obeys, stated over the model that the operations' contracts
//! use.

use vstd::prelude::*;

use crate::model::{
    records_listing, records_patch, records_remove, settings_upsert, RecordRow, SettingVal,
    StoreModel, TimerRecord, User,
};

verus! {

/// Idempotent creation: in a well-formed store, any two user rows that carry
/// the same device id are the same row under the same id. Get-or-create
/// returns a row of the store carrying the requested device id, so two calls
/// in sequence return the same id — the second call finds the row the first
/// one returned and creates nothing.
pub proof fn lemma_user_identity_stable(s: StoreModel, u1: User, u2: User)
    requires
        s.wf(),
        s.users.contains_pair(u1.id as int, u1@),
        s.users.contains_pair(u2.id as int, u2@),
        u1.device_id@ == u2.device_id@,
    ensures
        u1.id == u2.id,
        u1@ == u2@,
{
    assert(s.users[u1.id as int].device_id == u1.device_id@);
    assert(s.users[u2.id as int].device_id == u2.device_id@);
}

/// The upsert law: saving the same key twice leaves exactly the one row for
/// that key, holding the latest value and timestamp — the same settings table
/// that the second write alone would have produced.
pub proof fn lemma_setting_upsert_latest(
    settings: Map<(int, Seq<char>), SettingVal>,
    user_id: int,
    key: Seq<char>,
    v1: Seq<char>,
    t1: int,
    v2: Seq<char>,
    t2: int,
)
    ensures
        settings_upsert(settings_upsert(settings, user_id, key, v1, t1), user_id, key, v2, t2)
            == settings_upsert(settings, user_id, key, v2, t2),
        settings_upsert(settings_upsert(settings, user_id, key, v1, t1), user_id, key, v2, t2)[(
            user_id,
            key,
        )] == (SettingVal { value: v2, updated_at: t2 }),
        settings_upsert(
            settings_upsert(settings, user_id, key, v1, t1),
            user_id,
            key,
            v2,
            t2,
        ).dom() == settings.dom().insert((user_id, key)),
{
    assert(settings_upsert(settings_upsert(settings, user_id, key, v1, t1), user_id, key, v2, t2)
        =~= settings_upsert(settings, user_id, key, v2, t2));
    assert(settings_upsert(settings, user_id, key, v2, t2).dom() =~= settings.dom().insert(
        (user_id, key),
    ));
}

/// Ownership isolation: patching or deleting a record through a user id that
/// does not own it leaves every record unchanged.
pub proof fn lemma_foreign_record_untouched(
    records: Map<Seq<char>, RecordRow>,
    user_id: int,
    record_id: Seq<char>,
    name: Option<Seq<char>>,
    category: Option<Seq<char>>,
)
    requires
        records.dom().contains(record_id),
        records[record_id].user_id != user_id,
    ensures
        records_patch(records, user_id, record_id, name, category) == records,
        records_remove(records, user_id, record_id) == records,
{
}

/// Round trip: a record the store holds comes back from a retrieval exactly
/// as stored — wherever a listing of the store contains the record's id, the
/// listed record is, field for field, the stored one.
pub proof fn lemma_record_round_trip(
    records: Map<Seq<char>, RecordRow>,
    user_id: int,
    limit: int,
    v: Seq<TimerRecord>,
    i: int,
    stored: RecordRow,
)
    requires
        records_listing(records, user_id, limit, v),
        0 <= i < v.len(),
        records.contains_pair(v[i].id@, stored),
    ensures
        v[i]@ == stored,
{
    assert(records.contains_pair(v[i].id@, v[i]@));
}

} // verus!

use timer_store::{Database, StoreError, TimerRecord};

fn record(id: &str, user_id: i64, start: i64, end: i64) -> TimerRecord {
    TimerRecord {
        id: id.to_string(),
        user_id,
        record_type: "work".to_string(),
        mode: Some("pomodoro".to_string()),
        name: Some("writing".to_string()),
        category: Some("deep".to_string()),
        start_time: start,
        end_time: end,
        duration: end - start,
        created_at: end,
    }
}

#[test]
fn add_then_get_round_trips_every_field() {
    let mut db = Database::new(":memory:").unwrap();
    let u = db.get_or_create_user_at("dev-1", 1).unwrap();
    let rec = record("r1", u.id, 1000, 2000);
    db.add_timer_record(&rec).unwrap();
    let got = db.get_timer_records(u.id, 10).unwrap();
    assert_eq!(got, vec![rec]);
}

#[test]
fn duplicate_record_id_is_a_constraint_violation() {
    let mut db = Database::new(":memory:").unwrap();
    let u = db.get_or_create_user_at("dev-1", 1).unwrap();
    db.add_timer_record(&record("r1", u.id, 0, 10)).unwrap();
    let again = db.add_timer_record(&record("r1", u.id, 5, 25));
    assert_eq!(again, Err(StoreError::ConstraintViolation));
    // the failed insert changed nothing
    let got = db.get_timer_records(u.id, 10).unwrap();
    assert_eq!(got.len(), 1);
    assert_eq!(got[0].end_time, 10);
}

#[test]
fn record_owner_is_caller_trusted() {
    // the store performs no cross-field validation: a record may name a user
    // id that has no user row yet
    let mut db = Database::new(":memory:").unwrap();
    db.add_timer_record(&record("r1", 42, 0, 10)).unwrap();
    let got = db.get_timer_records(42, 10).unwrap();
    assert_eq!(got.len(), 1);
    assert_eq!(got[0].user_id, 42);
}

#[test]
fn listing_is_newest_first_and_limited() {
    let mut db = Database::new(":memory:").unwrap();
    let u = db.get_or_create_user_at("dev-1", 1).unwrap();
    db.add_timer_record(&record("a", u.id, 0, 100)).unwrap();
    db.add_timer_record(&record("b", u.id, 0, 300)).unwrap();
    db.add_timer_record(&record("c", u.id, 0, 200)).unwrap();
    let top2 = db.get_timer_records(u.id, 2).unwrap();
    assert_eq!(top2.len(), 2);
    assert_eq!(top2[0].id, "b");
    assert_eq!(top2[1].id, "c");
    let all = db.get_timer_records(u.id, 10).unwrap();
    assert_eq!(all.len(), 3);
    assert!(all[0].end_time >= all[1].end_time && all[1].end_time >= all[2].end_time);
}

#[test]
fn non_positive_limits_return_nothing() {
    let mut db = Database::new(":memory:").unwrap();
    let u = db.get_or_create_user_at("dev-1", 1).unwrap();
    db.add_timer_record(&record("a", u.id, 0, 100)).unwrap();
    assert_eq!(db.get_timer_records(u.id, 0).unwrap(), vec![]);
    assert_eq!(db.get_timer_records(u.id, -3).unwrap(), vec![]);
}

#[test]
fn patch_updates_only_the_supplied_fields() {
    let mut db = Database::new(":memory:").unwrap();
    let u = db.get_or_create_user_at("dev-1", 1).unwrap();
    db.add_timer_record(&record("r1", u.id, 0, 10)).unwrap();

    db.update_timer_record(u.id, "r1", Some("renamed".to_string()), None).unwrap();
    let got = db.get_timer_records(u.id, 1).unwrap();
    assert_eq!(got[0].name, Some("renamed".to_string()));
    assert_eq!(got[0].category, Some("deep".to_string()));

    db.update_timer_record(u.id, "r1", None, Some("shallow".to_string())).unwrap();
    let got = db.get_timer_records(u.id, 1).unwrap();
    assert_eq!(got[0].name, Some("renamed".to_string()));
    assert_eq!(got[0].category, Some("shallow".to_string()));

    db.update_timer_record(u.id, "r1", Some("n2".to_string()), Some("c2".to_string())).unwrap();
    let got = db.get_timer_records(u.id, 1).unwrap();
    assert_eq!(got[0].name, Some("n2".to_string()));
    assert_eq!(got[0].category, Some("c2".to_string()));
    // everything else is untouched
    assert_eq!(got[0].mode, Some("pomodoro".to_string()));
    assert_eq!(got[0].start_time, 0);
    assert_eq!(got[0].end_time, 10);
}

#[test]
fn patch_with_no_fields_is_a_no_op() {
    let mut db = Database::new(":memory:").unwrap();
    let u = db.get_or_create_user_at("dev-1", 1).unwrap();
    let rec = record("r1", u.id, 0, 10);
    db.add_timer_record(&rec).unwrap();
    db.update_timer_record(u.id, "r1", None, None).unwrap();
    assert_eq!(db.get_timer_records(u.id, 1).unwrap(), vec![rec]);
}

#[test]
fn foreign_user_cannot_patch_or_delete() {
    let mut db = Database::new(":memory:").unwrap();
    let owner = db.get_or_create_user_at("dev-1", 1).unwrap();
    let other = db.get_or_create_user_at("dev-2", 1).unwrap();
    let rec = record("r1", owner.id, 0, 10);
    db.add_timer_record(&rec).unwrap();

    db.update_timer_record(other.id, "r1", Some("stolen".to_string()), None).unwrap();
    assert_eq!(db.get_timer_records(owner.id, 1).unwrap(), vec![rec.clone()]);

    db.delete_timer_record(other.id, "r1").unwrap();
    assert_eq!(db.get_timer_records(owner.id, 1).unwrap(), vec![rec]);
}

#[test]
fn delete_removes_only_the_named_record() {
    let mut db = Database::new(":memory:").unwrap();
    let u = db.get_or_create_user_at("dev-1", 1).unwrap();
    db.add_timer_record(&record("a", u.id, 0, 100)).unwrap();
    db.add_timer_record(&record("b", u.id, 0, 200)).unwrap();
    db.delete_timer_record(u.id, "b").unwrap();
    let got = db.get_timer_records(u.id, 10).unwrap();
    assert_eq!(got.len(), 1);
    assert_eq!(got[0].id, "a");
    // deleting a record that is gone is a quiet no-op
    db.delete_timer_record(u.id, "b").unwrap();
    assert_eq!(db.get_timer_records(u.id, 10).unwrap().len(), 1);
}

#[test]
fn clear_leaves_other_users_records() {
    let mut db = Database::new(":memory:").unwrap();
    let two = db.get_or_create_user_at("dev-2", 1).unwrap();
    db.add_timer_record(&record("r2", two.id, 0, 50)).unwrap();
    let one = db.get_or_create_user_at("dev-1", 1).unwrap();
    db.add_timer_record(&record("r1", one.id, 1000, 2000)).unwrap();

    db.clear_timer_records(one.id).unwrap();
    assert_eq!(db.get_timer_records(one.id, 10).unwrap(), vec![]);
    let kept = db.get_timer_records(two.id, 10).unwrap();
    assert_eq!(kept.len(), 1);
    assert_eq!(kept[0].id, "r2");
}

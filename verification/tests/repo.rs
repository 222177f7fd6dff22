use afisha_bot::db::{
    get_all_users, get_user, init_db, insert_user, update_user, DbError, User, UserFilter,
};
use afisha_bot::time_of_day::TimeOfDay;

fn t(hour: u32, minute: u32, second: u32) -> TimeOfDay {
    TimeOfDay { hour, minute, second }
}

fn profile(tg_id: u64, city: &str) -> User {
    User {
        id: -1,
        tg_id,
        city: city.to_string(),
        tags: vec!["cinema".to_string(), "art".to_string()],
        notification_time: t(19, 0, 0),
        events_interval: 3,
    }
}

fn only_city(city: &str) -> UserFilter {
    UserFilter {
        id: None,
        tg_id: None,
        city: Some(city.to_string()),
        tags: None,
        notification_time: None,
        events_interval: None,
    }
}

#[test]
fn empty_store_lists_nothing() {
    let db = init_db();
    assert!(get_all_users(&db).is_none());
    assert!(get_user(&db, 7).is_none());
}

#[test]
fn created_profile_is_found_with_assigned_key() {
    let mut db = init_db();
    let id = insert_user(&mut db, profile(7, "Moscow")).unwrap();
    assert_eq!(id, 0);
    let stored = get_user(&db, 7).unwrap();
    assert_eq!(stored.id, 0);
    assert_eq!(stored.tg_id, 7);
    assert_eq!(stored.city, "Moscow");
    assert_eq!(stored.tags, vec!["cinema".to_string(), "art".to_string()]);
    assert_eq!(stored.notification_time, t(19, 0, 0));
    assert_eq!(stored.events_interval, 3);
}

#[test]
fn duplicate_recipient_is_refused() {
    let mut db = init_db();
    insert_user(&mut db, profile(7, "Moscow")).unwrap();
    let second = insert_user(&mut db, profile(7, "Kazan"));
    assert_eq!(second, Err(DbError::DuplicateRecipient));
    assert_eq!(get_user(&db, 7).unwrap().city, "Moscow");
    assert_eq!(get_all_users(&db).unwrap().len(), 1);
}

#[test]
fn listing_keeps_insertion_order() {
    let mut db = init_db();
    insert_user(&mut db, profile(7, "Moscow")).unwrap();
    insert_user(&mut db, profile(8, "Kazan")).unwrap();
    insert_user(&mut db, profile(9, "Perm")).unwrap();
    let all = get_all_users(&db).unwrap();
    let cities: Vec<&str> = all.iter().map(|u| u.city.as_str()).collect();
    assert_eq!(cities, vec!["Moscow", "Kazan", "Perm"]);
    let ids: Vec<i64> = all.iter().map(|u| u.id).collect();
    assert_eq!(ids, vec![0, 1, 2]);
}

#[test]
fn update_of_unknown_recipient_is_not_found() {
    let mut db = init_db();
    insert_user(&mut db, profile(7, "Moscow")).unwrap();
    assert_eq!(update_user(&mut db, only_city("Kazan"), 8), Err(DbError::NotFound));
    assert_eq!(get_user(&db, 7).unwrap().city, "Moscow");
}

#[test]
fn update_replaces_only_present_fields() {
    let mut db = init_db();
    insert_user(&mut db, profile(7, "Moscow")).unwrap();
    let fields = UserFilter {
        id: None,
        tg_id: None,
        city: None,
        tags: Some(vec!["quest".to_string()]),
        notification_time: Some(t(8, 15, 0)),
        events_interval: None,
    };
    update_user(&mut db, fields, 7).unwrap();
    let stored = get_user(&db, 7).unwrap();
    assert_eq!(stored.city, "Moscow");
    assert_eq!(stored.tags, vec!["quest".to_string()]);
    assert_eq!(stored.notification_time, t(8, 15, 0));
    assert_eq!(stored.events_interval, 3);
    assert_eq!(stored.id, 0);
    assert_eq!(stored.tg_id, 7);
}

#[test]
fn repeating_an_update_changes_nothing_more() {
    let mut db = init_db();
    insert_user(&mut db, profile(7, "Moscow")).unwrap();
    insert_user(&mut db, profile(8, "Kazan")).unwrap();
    update_user(&mut db, only_city("Tver"), 7).unwrap();
    let once: Vec<(i64, u64, String)> = get_all_users(&db)
        .unwrap()
        .into_iter()
        .map(|u| (u.id, u.tg_id, u.city))
        .collect();
    update_user(&mut db, only_city("Tver"), 7).unwrap();
    let twice: Vec<(i64, u64, String)> = get_all_users(&db)
        .unwrap()
        .into_iter()
        .map(|u| (u.id, u.tg_id, u.city))
        .collect();
    assert_eq!(once, twice);
    assert_eq!(get_user(&db, 7).unwrap().city, "Tver");
    assert_eq!(get_user(&db, 8).unwrap().city, "Kazan");
}

#[test]
fn default_profile_matches_its_fixed_fields() {
    let u = User::default();
    assert_eq!(u.id, -1);
    assert_eq!(u.tg_id, 1);
    assert_eq!(u.city, "w");
    assert!(u.tags.is_empty());
    assert_eq!(u.events_interval, 1);
    assert!(u.notification_time.hour < 24);
    assert!(u.notification_time.minute < 60);
    assert!(u.notification_time.second < 60);
}

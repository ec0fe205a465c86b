use stoic_wisdom_api::errors::{found_or, ApiError, Entity};
use stoic_wisdom_api::selector::{daily_quote, random_quote, select_daily};

#[test]
fn daily_pick_cycles_through_three() {
    let quotes = vec!["q1", "q2", "q3"];
    assert_eq!(select_daily(&quotes, 1).unwrap(), &"q1");
    assert_eq!(select_daily(&quotes, 2).unwrap(), &"q2");
    assert_eq!(select_daily(&quotes, 3).unwrap(), &"q3");
    assert_eq!(select_daily(&quotes, 4).unwrap(), &"q1");
    assert_eq!(select_daily(&quotes, 366).unwrap(), &"q3");
}

#[test]
fn daily_pick_repeats_every_n_days() {
    let quotes: Vec<u32> = (10..17).collect();
    for d in 1..=366u32 {
        let a = select_daily(&quotes, d).unwrap();
        let b = select_daily(&quotes, d).unwrap();
        assert_eq!(a, b);
        if d + 7 <= 366 {
            assert_eq!(a, select_daily(&quotes, d + 7).unwrap());
        }
    }
}

#[test]
fn daily_pick_on_empty_is_not_found() {
    let quotes: Vec<u32> = Vec::new();
    for d in [1u32, 200, 366] {
        match select_daily(&quotes, d) {
            Err(e) => {
                assert!(e.is_not_found());
                assert_eq!(e.status_code(), 404);
                assert_eq!(e.message(), "No quotes found");
            }
            Ok(_) => panic!("expected NotFound"),
        }
    }
    assert!(daily_quote(&quotes).is_err());
    assert!(random_quote(&quotes).is_err());
}

#[test]
fn todays_and_random_picks_come_from_candidates() {
    let quotes = vec![1, 2, 3];
    let d = daily_quote(&quotes).unwrap();
    assert!(quotes.contains(d));
    for _ in 0..50 {
        let r = random_quote(&quotes).unwrap();
        assert!(quotes.contains(r));
    }
    let single = vec![42];
    assert_eq!(random_quote(&single).unwrap(), &42);
}

#[test]
fn errors_map_to_statuses() {
    assert_eq!(ApiError::NotFound(Entity::Philosopher).message(), "Philosopher not found");
    assert_eq!(ApiError::NotFound(Entity::Theme).message(), "Theme not found");
    assert_eq!(ApiError::NotFound(Entity::Incident).message(), "Incident not found");
    assert_eq!(ApiError::NotFound(Entity::Quote).status_code(), 404);
    let q = ApiError::QueryFailure("no such table: quotes".to_string());
    assert_eq!(q.status_code(), 500);
    assert_eq!(q.message(), "no such table: quotes");
    assert!(!q.is_not_found());
}

#[test]
fn found_or_maps_absence() {
    assert_eq!(found_or(Some(5), Entity::Theme).unwrap(), 5);
    match found_or::<i32>(None, Entity::Incident) {
        Err(ApiError::NotFound(Entity::Incident)) => {}
        other => panic!("unexpected {:?}", other),
    }
}

use mood_api::errors::{BadRequest, Error};
use mood_api::models::checkin::{
    is_valid_emotion, is_valid_rating, valid_emotions, Checkin, CheckinFilter, DateWindow,
    PublicCheckin,
};
use mood_api::routes::checkin::{
    checkin_created, checkin_to_create, checkins_listed, checkins_query, create_checkin,
    get_user_checkins, next_month, start_of_month, window_between, window_of_month,
    CheckinQueryParams, CreateCheckinRequest,
};
use mood_api::utils::custom_response::ResponsePagination;
use mood_api::utils::date::Date;
use mood_api::utils::models::{serial_id, Collection, Sort};
use mood_api::utils::oid::ObjectId;
use mood_api::utils::pagination::Pagination;
use mood_api::utils::token::TokenUser;

fn user() -> TokenUser {
    TokenUser {
        id: ObjectId::from_bytes([7; 12]),
        first_name: "A".to_string(),
        last_name: "B".to_string(),
        email: "a@b.com".to_string(),
    }
}

fn request(mood: u8, emotion: &str) -> CreateCheckinRequest {
    CreateCheckinRequest {
        mood_rating: mood,
        primary_emotion: emotion.to_string(),
        intensity: 1,
        energy_level: 2,
        stress_level: 3,
        wellbeing: 5,
        notes: Some("a good day".to_string()),
    }
}

fn refusal(message: &str) -> Error {
    Error::BadRequest(BadRequest { message: message.to_string() })
}

fn window(start: i64, end: i64) -> DateWindow {
    DateWindow { start: Date::from_millis(start), end: Date::from_millis(end) }
}

fn no_month() -> CheckinQueryParams {
    CheckinQueryParams { month: None, year: None }
}

#[test]
fn the_emotions_are_the_six_labels() {
    assert_eq!(valid_emotions(), vec!["joy", "sadness", "anger", "fear", "disgust", "surprise"]);
    for label in valid_emotions() {
        assert!(is_valid_emotion(label));
    }
    assert!(!is_valid_emotion("Joy"));
    assert!(!is_valid_emotion(""));
    assert!(!is_valid_emotion("boredom"));
}

#[test]
fn ratings_run_from_one_to_five() {
    assert!(!is_valid_rating(0));
    assert!(is_valid_rating(1));
    assert!(is_valid_rating(5));
    assert!(!is_valid_rating(6));
    assert!(!is_valid_rating(255));
}

#[test]
fn a_new_check_in_has_no_identifier_and_equal_dates() {
    let checkin = Checkin::new(user().id, 1, "joy".to_string(), 2, 3, 4, 5, None);
    assert_eq!(checkin.id, None);
    assert_eq!(checkin.user, user().id);
    assert_eq!(
        (checkin.mood_rating, checkin.intensity, checkin.energy_level),
        (1, 2, 3)
    );
    assert_eq!((checkin.stress_level, checkin.wellbeing), (4, 5));
    assert_eq!(checkin.primary_emotion, "joy");
    assert_eq!(checkin.notes, None);
    assert_eq!(checkin.created_at, checkin.updated_at);
    assert!(checkin.is_valid());
}

#[test]
fn check_in_validity() {
    let at = Date::from_millis(0);
    let make = |ratings: [u8; 5], emotion: &str| {
        Checkin::new_at(
            user().id,
            ratings[0],
            emotion.to_string(),
            ratings[1],
            ratings[2],
            ratings[3],
            ratings[4],
            None,
            at,
        )
    };
    assert!(make([1, 5, 3, 2, 4], "fear").is_valid());
    assert!(!make([0, 5, 3, 2, 4], "fear").is_valid());
    assert!(!make([1, 6, 3, 2, 4], "fear").is_valid());
    assert!(!make([1, 5, 0, 2, 4], "fear").is_valid());
    assert!(!make([1, 5, 3, 9, 4], "fear").is_valid());
    assert!(!make([1, 5, 3, 2, 6], "fear").is_valid());
    assert!(!make([1, 5, 3, 2, 4], "dread").is_valid());
}

#[test]
fn the_public_form_of_a_check_in() {
    let mut checkin = Checkin::new_at(
        user().id,
        1,
        "joy".to_string(),
        2,
        3,
        4,
        5,
        Some("note".to_string()),
        Date::from_millis(9),
    );
    checkin.id = Some(serial_id(3));
    let public = PublicCheckin {
        id: serial_id(3),
        user: user().id,
        mood_rating: 1,
        primary_emotion: "joy".to_string(),
        intensity: 2,
        energy_level: 3,
        stress_level: 4,
        wellbeing: 5,
        notes: Some("note".to_string()),
        updated_at: Date::from_millis(9),
        created_at: Date::from_millis(9),
    };
    assert_eq!(checkin.to_public(), public);
    assert_eq!(checkin.duplicate(), checkin);
    assert_eq!(PublicCheckin::from(checkin), public);
}

#[test]
fn a_check_in_is_logged() {
    let mut checkins = Collection::new();
    let response = create_checkin(&mut checkins, &user(), request(4, "joy")).unwrap();
    assert!(response.success);
    assert_eq!(response.status_code, 201);
    assert_eq!(response.pagination, None);
    let body = response.body.unwrap();
    assert_eq!(body.id, serial_id(0));
    assert_eq!(body.user, user().id);
    assert_eq!(body.mood_rating, 4);
    assert_eq!(body.primary_emotion, "joy");
    assert_eq!((body.intensity, body.energy_level, body.stress_level, body.wellbeing), (1, 2, 3, 5));
    assert_eq!(body.notes, Some("a good day".to_string()));
    assert_eq!(body.created_at, body.updated_at);
    assert_eq!(checkins.len(), 1);
    let stored = checkins.find_one(&CheckinFilter { user: user().id, window: None }).unwrap();
    assert_eq!(stored.to_public(), body);
}

#[test]
fn a_rating_off_the_scale_is_refused_before_anything_is_stored() {
    let mut checkins = Collection::new();
    let message = "Validation error: ratings must be between 1 and 5";
    let refused = create_checkin(&mut checkins, &user(), request(6, "joy"));
    assert_eq!(refused, Err(refusal(message)));
    assert_eq!(refused.unwrap_err().get_codes(), (400, 40002));
    assert_eq!(create_checkin(&mut checkins, &user(), request(0, "joy")), Err(refusal(message)));
    let mut payload = request(3, "joy");
    payload.wellbeing = 6;
    assert_eq!(create_checkin(&mut checkins, &user(), payload), Err(refusal(message)));
    let mut payload = request(3, "joy");
    payload.stress_level = 0;
    assert_eq!(payload.validate(), Err(refusal(message)));
    let mut payload = request(3, "joy");
    payload.intensity = 200;
    assert_eq!(checkin_to_create(&user(), payload), Err(refusal(message)));
    let mut payload = request(3, "joy");
    payload.energy_level = 6;
    assert_eq!(checkin_to_create(&user(), payload), Err(refusal(message)));
    assert_eq!(checkins.len(), 0);
}

#[test]
fn an_unknown_emotion_is_refused_before_anything_is_stored() {
    let mut checkins = Collection::new();
    assert_eq!(
        create_checkin(&mut checkins, &user(), request(3, "boredom")),
        Err(refusal("Invalid primary emotion"))
    );
    assert_eq!(
        create_checkin(&mut checkins, &user(), request(6, "boredom")),
        Err(refusal("Validation error: ratings must be between 1 and 5"))
    );
    assert_eq!(checkins.len(), 0);
}

#[test]
fn the_steps_of_logging_fit_together() {
    let mut checkin = checkin_to_create(&user(), request(2, "anger")).unwrap();
    assert_eq!(checkin.id, None);
    assert_eq!(checkin.user, user().id);
    assert_eq!(checkin.mood_rating, 2);
    assert_eq!(checkin.primary_emotion, "anger");
    checkin.id = Some(serial_id(5));
    let response = checkin_created(checkin.clone());
    assert_eq!(response.status_code, 201);
    assert_eq!(response.body, Some(checkin.to_public()));
}

#[test]
fn a_month_covers_up_to_the_first_instant_of_the_next() {
    assert_eq!(window_of_month(2024, 2), Some(window(1706745600000, 1709251200000)));
    assert_eq!(window_of_month(2025, 5), Some(window(1746057600000, 1748736000000)));
    assert_eq!(window_of_month(2024, 12), Some(window(1733011200000, 1735689600000)));
    assert_eq!(window_of_month(1970, 1), Some(window(0, 2678400000)));
}

#[test]
fn a_month_outside_the_calendar_has_no_window() {
    assert_eq!(window_of_month(i32::MAX, 12), None);
    assert_eq!(window_of_month(i32::MAX, 1), None);
    assert_eq!(window_of_month(i32::MIN, 6), None);
    assert_eq!(window_of_month(262143, 12), None);
    assert_eq!(window_of_month(262142, 12), None);
    assert!(window_of_month(262142, 11).is_some());
}

#[test]
fn the_query_for_a_listing() {
    let pagination = Pagination { offset: 20, limit: 10 };
    let query = checkins_query(&user(), &no_month(), &pagination).unwrap();
    assert_eq!(query.filter, CheckinFilter { user: user().id, window: None });
    assert_eq!(query.sort, Sort::NewestFirst);
    assert_eq!((query.offset, query.limit), (20, 10));

    let february = CheckinQueryParams { month: Some(2), year: Some(2024) };
    let query = checkins_query(&user(), &february, &pagination).unwrap();
    assert_eq!(query.filter.window, Some(window(1706745600000, 1709251200000)));

    let month_only = CheckinQueryParams { month: Some(12), year: None };
    assert_eq!(checkins_query(&user(), &month_only, &pagination).unwrap().filter.window, None);
    let year_only = CheckinQueryParams { month: None, year: Some(2024) };
    assert_eq!(checkins_query(&user(), &year_only, &pagination).unwrap().filter.window, None);
}

#[test]
fn a_month_that_is_none_of_the_twelve_is_refused() {
    let checkins: Collection<Checkin> = Collection::new();
    let pagination = Pagination::default();
    for month in [13, 0, 99, u32::MAX] {
        let params = CheckinQueryParams { month: Some(month), year: Some(2024) };
        let refused = get_user_checkins(&checkins, &user(), &params, &pagination);
        assert_eq!(refused, Err(refusal("Month must be between 1 and 12")));
        assert_eq!(refused.unwrap_err().get_codes(), (400, 40002));
    }
    for month in [13, 0, u32::MAX] {
        let params = CheckinQueryParams { month: Some(month), year: None };
        assert_eq!(
            get_user_checkins(&checkins, &user(), &params, &pagination),
            Err(refusal("Month must be between 1 and 12"))
        );
        assert_eq!(
            checkins_query(&user(), &params, &pagination),
            Err(refusal("Month must be between 1 and 12"))
        );
    }
    let params = CheckinQueryParams { month: Some(12), year: Some(i32::MAX) };
    assert_eq!(
        get_user_checkins(&checkins, &user(), &params, &pagination),
        Err(refusal("Invalid date"))
    );
}

fn logged_at(checkins: &mut Collection<Checkin>, owner: ObjectId, millis: i64) {
    let checkin =
        Checkin::new_at(owner, 3, "joy".to_string(), 3, 3, 3, 3, None, Date::from_millis(millis));
    checkins.create(checkin).unwrap();
}

#[test]
fn check_ins_are_listed_newest_first_with_their_count() {
    let mut checkins = Collection::new();
    let january = 1704067200000;
    let february = 1706745600000;
    let march = 1709251200000;
    for millis in [february + 5, january + 1, march, february, march - 1, january] {
        logged_at(&mut checkins, user().id, millis);
    }
    logged_at(&mut checkins, ObjectId::from_bytes([8; 12]), february + 7);

    let all = get_user_checkins(&checkins, &user(), &no_month(), &Pagination::default()).unwrap();
    assert!(all.success);
    assert_eq!(all.status_code, 200);
    assert_eq!(all.pagination, Some(ResponsePagination { count: 6, offset: 0, limit: 100 }));
    let times: Vec<i64> =
        all.body.unwrap().iter().map(|c| c.created_at.timestamp_millis()).collect();
    assert_eq!(times, vec![march, march - 1, february + 5, february, january + 1, january]);

    let params = CheckinQueryParams { month: Some(2), year: Some(2024) };
    let page = Pagination { offset: 0, limit: 2 };
    let listed = get_user_checkins(&checkins, &user(), &params, &page).unwrap();
    assert_eq!(listed.pagination, Some(ResponsePagination { count: 3, offset: 0, limit: 2 }));
    let body = listed.body.unwrap();
    let times: Vec<i64> = body.iter().map(|c| c.created_at.timestamp_millis()).collect();
    assert_eq!(times, vec![march - 1, february + 5]);
    assert!(body.iter().all(|c| c.user == user().id));

    let page = Pagination { offset: 2, limit: 2 };
    let listed = get_user_checkins(&checkins, &user(), &params, &page).unwrap();
    assert_eq!(listed.pagination, Some(ResponsePagination { count: 3, offset: 2, limit: 2 }));
    let times: Vec<i64> =
        listed.body.unwrap().iter().map(|c| c.created_at.timestamp_millis()).collect();
    assert_eq!(times, vec![february]);
}

#[test]
fn a_page_is_presented_in_public_form() {
    let mut first = Checkin::new_at(user().id, 1, "joy".to_string(), 1, 1, 1, 1, None, Date::from_millis(2));
    first.id = Some(serial_id(0));
    let mut second = first.clone();
    second.id = Some(serial_id(1));
    second.mood_rating = 5;
    let found = vec![first.clone(), second.clone()];
    let response = checkins_listed(&found, 17, &Pagination { offset: 4, limit: 2 });
    assert!(response.success);
    assert_eq!(response.status_code, 200);
    assert_eq!(response.body, Some(vec![first.to_public(), second.to_public()]));
    assert_eq!(response.pagination, Some(ResponsePagination { count: 17, offset: 4, limit: 2 }));
    let nothing = checkins_listed(&Vec::new(), 0, &Pagination::default());
    assert_eq!(nothing.body, Some(Vec::new()));
}

#[test]
fn the_month_after() {
    assert_eq!(next_month(2024, 1), Some((2024, 2)));
    assert_eq!(next_month(2024, 11), Some((2024, 12)));
    assert_eq!(next_month(2024, 12), Some((2025, 1)));
    assert_eq!(next_month(-1, 12), Some((0, 1)));
    assert_eq!(next_month(i32::MAX, 11), Some((i32::MAX, 12)));
    assert_eq!(next_month(i32::MAX, 12), None);
}

#[test]
fn a_window_needs_both_ends() {
    assert_eq!(window_between(Some(5), Some(9)), Some(window(5, 9)));
    assert_eq!(window_between(None, Some(9)), None);
    assert_eq!(window_between(Some(5), None), None);
    assert_eq!(window_between(None, None), None);
}

#[test]
fn a_window_begins_before_it_ends() {
    assert_eq!(window_between(Some(9), Some(5)), None);
    assert_eq!(window_between(Some(5), Some(5)), None);
    assert_eq!(window_between(Some(-1), Some(0)), Some(window(-1, 0)));
    for (year, month) in [(1970, 1), (2024, 2), (2024, 12), (-44, 3), (262142, 11)] {
        let made = window_of_month(year, month).unwrap();
        assert!(made.start.timestamp_millis() < made.end.timestamp_millis());
    }
}

#[test]
fn a_month_starts_with_its_first_day() {
    assert_eq!(start_of_month(1970, 1), Some(0));
    assert_eq!(start_of_month(2024, 2), Some(1706745600000));
    assert_eq!(start_of_month(2024, 13), None);
    assert_eq!(start_of_month(2024, 0), None);
    assert_eq!(start_of_month(i32::MAX, 1), None);
}

#[test]
fn logging_keeps_the_declared_indexes() {
    let mut checkins: Collection<Checkin> = Collection::new();
    checkins.sync_indexes().unwrap();
    let declared = checkins.declared_indexes().clone();
    create_checkin(&mut checkins, &user(), request(4, "joy")).unwrap();
    assert_eq!(checkins.declared_indexes(), &declared);
    assert_eq!(declared.len(), 1);
}

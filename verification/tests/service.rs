use job_tracker::clock::is_timestamp;
use job_tracker::error::JobError;
use job_tracker::identifier::is_random_uuid;
use job_tracker::record::Jobs;
use job_tracker::repository::Repository;

fn candidate(id: &str, title: &str, note: Option<&str>) -> Jobs {
    Jobs {
        id: id.to_string(),
        status: "applied".to_string(),
        title: title.to_string(),
        company: "Acme".to_string(),
        url: "https://acme.example/job/1".to_string(),
        location: "Remote".to_string(),
        note: note.map(|n| n.to_string()),
        created_at: "2001-02-03 04:05:06".to_string(),
    }
}

fn now_text() -> String {
    chrono::Utc::now().format("%Y-%m-%d %H:%M:%S").to_string()
}

#[test]
fn create_stores_plain_record_under_fresh_identity() {
    let mut store = Repository::new();
    let before = now_text();
    let stored = Jobs::create(&mut store, candidate("", "Engineer", None)).unwrap();
    let after = now_text();

    assert!(is_random_uuid(&stored.id));
    let parsed = uuid::Uuid::parse_str(&stored.id).unwrap();
    assert_eq!(parsed.get_version_num(), 4);
    assert_eq!(parsed.to_string(), stored.id);

    assert!(is_timestamp(&stored.created_at));
    assert!(before <= stored.created_at && stored.created_at <= after);

    assert_eq!(stored.status, "applied");
    assert_eq!(stored.title, "Engineer");
    assert_eq!(stored.company, "Acme");
    assert_eq!(stored.url, "https://acme.example/job/1");
    assert_eq!(stored.location, "Remote");
    assert_eq!(stored.note, None);

    assert_eq!(store.len(), 1);
    assert_eq!(store.list_all(), vec![stored]);
}

#[test]
fn create_then_find_gives_the_created_record() {
    let mut store = Repository::new();
    let first = Jobs::create(&mut store, candidate("", "Engineer", Some("call back"))).unwrap();
    let second = Jobs::create(&mut store, candidate("", "Analyst", None)).unwrap();
    assert_ne!(first.id, second.id);
    assert_eq!(Jobs::find(&store, first.id.clone()), Ok(first));
    assert_eq!(Jobs::find(&store, second.id.clone()), Ok(second));
}

#[test]
fn create_strips_script_markup_from_title() {
    let mut store = Repository::new();
    let stored =
        Jobs::create(&mut store, candidate("", "<script>alert(1)</script>", None)).unwrap();
    assert_eq!(stored.title, "");
    assert!(!stored.title.contains("script"));
    let kept = Jobs::find(&store, stored.id.clone()).unwrap();
    assert_eq!(kept.title, "");
}

#[test]
fn create_sanitizes_every_free_text_field() {
    let mut store = Repository::new();
    let job = Jobs {
        id: "<b>mine</b>".to_string(),
        status: "<b>applied</b>".to_string(),
        title: "<i>Engineer</i>".to_string(),
        company: "Acme<script>x()</script>".to_string(),
        url: "https://acme.example/?a=1&b=2".to_string(),
        location: "<em>Remote</em>".to_string(),
        note: Some("<u>call</u> back".to_string()),
        created_at: "<b>then</b>".to_string(),
    };
    let stored = Jobs::create(&mut store, job).unwrap();
    assert_eq!(stored.status, "applied");
    assert_eq!(stored.title, "Engineer");
    assert_eq!(stored.company, "Acme");
    assert_eq!(stored.url, "https://acme.example/?a=1&amp;b=2");
    assert_eq!(stored.location, "Remote");
    assert_eq!(stored.note, Some("call back".to_string()));
}

#[test]
fn create_overwrites_caller_chosen_identity() {
    let mut store = Repository::new();
    let stored = Jobs::create(&mut store, candidate("mine", "Engineer", None)).unwrap();
    assert_ne!(stored.id, "mine");
    assert_ne!(stored.created_at, "2001-02-03 04:05:06");
    assert!(is_random_uuid(&stored.id));
    assert_eq!(Jobs::find(&store, "mine".to_string()), Err(JobError::NotFound));
}

#[test]
fn create_with_uses_the_identity_given() {
    let mut store = Repository::new();
    let stored = Jobs::create_with(
        &mut store,
        candidate("mine", "Engineer", Some("n")),
        "k-1".to_string(),
        "2024-05-06 07:08:09".to_string(),
    )
    .unwrap();
    assert_eq!(stored.id, "k-1");
    assert_eq!(stored.created_at, "2024-05-06 07:08:09");
    assert_eq!(stored.title, "Engineer");
    assert_eq!(stored.note, Some("n".to_string()));
    assert_eq!(store.find_by_id("k-1"), Ok(stored));
    assert!(!store.contains_id("mine"));
}

#[test]
fn second_create_under_one_identifier_is_a_conflict() {
    let mut store = Repository::new();
    let first = Jobs::create_with(
        &mut store,
        candidate("", "Engineer", None),
        "same".to_string(),
        "2024-05-06 07:08:09".to_string(),
    )
    .unwrap();
    let second = Jobs::create_with(
        &mut store,
        candidate("", "Analyst", None),
        "same".to_string(),
        "2024-05-06 07:08:10".to_string(),
    );
    assert_eq!(second, Err(JobError::Conflict));
    assert_eq!(store.len(), 1);
    let all = store.list_all();
    assert_eq!(all.iter().filter(|job| job.id == "same").count(), 1);
    assert_eq!(all, vec![first]);
}

#[test]
fn find_of_unknown_identifier_is_not_found() {
    let mut store = Repository::new();
    Jobs::create(&mut store, candidate("", "Engineer", None)).unwrap();
    assert_eq!(
        Jobs::find(&store, "3fa85f64-5717-4562-b3fc-2c963f66afa6".to_string()),
        Err(JobError::NotFound)
    );
}

#[test]
fn find_sanitizes_the_identifier_first() {
    let mut store = Repository::new();
    let stored = Jobs::create_with(
        &mut store,
        candidate("", "Engineer", None),
        "abc".to_string(),
        "2024-05-06 07:08:09".to_string(),
    )
    .unwrap();
    assert_eq!(Jobs::find(&store, "<b>abc</b>".to_string()), Ok(stored));
    assert_eq!(store.find_by_id("<b>abc</b>"), Err(JobError::NotFound));
}

#[test]
fn delete_of_unknown_identifier_removes_nothing() {
    let mut store = Repository::new();
    let stored = Jobs::create(&mut store, candidate("", "Engineer", None)).unwrap();
    assert_eq!(Jobs::delete(&mut store, "nobody".to_string()), Ok(0));
    assert_eq!(store.list_all(), vec![stored]);
}

#[test]
fn delete_removes_one_record_and_find_fails_afterwards() {
    let mut store = Repository::new();
    let first = Jobs::create(&mut store, candidate("", "Engineer", None)).unwrap();
    let second = Jobs::create(&mut store, candidate("", "Analyst", None)).unwrap();
    assert_eq!(Jobs::delete(&mut store, first.id.clone()), Ok(1));
    assert_eq!(Jobs::find(&store, first.id.clone()), Err(JobError::NotFound));
    assert_eq!(Jobs::delete(&mut store, first.id.clone()), Ok(0));
    assert_eq!(store.list_all(), vec![second]);
}

#[test]
fn delete_sanitizes_the_identifier_first() {
    let mut store = Repository::new();
    Jobs::create_with(
        &mut store,
        candidate("", "Engineer", None),
        "abc".to_string(),
        "2024-05-06 07:08:09".to_string(),
    )
    .unwrap();
    assert_eq!(Jobs::delete(&mut store, "<i>abc</i>".to_string()), Ok(1));
    assert_eq!(store.len(), 0);
}

#[test]
fn update_of_unknown_identifier_is_not_found_and_changes_nothing() {
    let mut store = Repository::new();
    let stored = Jobs::create(&mut store, candidate("", "Engineer", None)).unwrap();
    let outcome = Jobs::update(&mut store, candidate("nobody", "Director", None));
    assert_eq!(outcome, Err(JobError::NotFound));
    assert_eq!(store.list_all(), vec![stored]);
}

#[test]
fn update_replaces_content_and_keeps_identity() {
    let mut store = Repository::new();
    let first = Jobs::create(&mut store, candidate("", "Engineer", Some("old"))).unwrap();
    let second = Jobs::create(&mut store, candidate("", "Analyst", None)).unwrap();

    let change = Jobs {
        id: first.id.clone(),
        status: "<b>offer</b>".to_string(),
        title: "Senior Engineer".to_string(),
        company: "Acme Corp".to_string(),
        url: "https://acme.example/job/2".to_string(),
        location: "Berlin".to_string(),
        note: None,
        created_at: "1999-01-01 00:00:00".to_string(),
    };
    let updated = Jobs::update(&mut store, change).unwrap();
    assert_eq!(updated.id, first.id);
    assert_eq!(updated.created_at, first.created_at);
    assert_eq!(updated.status, "offer");
    assert_eq!(updated.title, "Senior Engineer");
    assert_eq!(updated.company, "Acme Corp");
    assert_eq!(updated.url, "https://acme.example/job/2");
    assert_eq!(updated.location, "Berlin");
    assert_eq!(updated.note, None);

    assert_eq!(Jobs::find(&store, first.id.clone()), Ok(updated.clone()));
    assert_eq!(store.list_all(), vec![updated, second]);
}

#[test]
fn update_stored_takes_the_record_as_it_is() {
    let mut store = Repository::new();
    Jobs::create_with(
        &mut store,
        candidate("", "Engineer", None),
        "abc".to_string(),
        "2024-05-06 07:08:09".to_string(),
    )
    .unwrap();
    let updated =
        Jobs::update_stored(&mut store, candidate("abc", "<b>Lead</b>", Some("x"))).unwrap();
    assert_eq!(updated.title, "<b>Lead</b>");
    assert_eq!(updated.created_at, "2024-05-06 07:08:09");
    assert_eq!(updated.note, Some("x".to_string()));
    assert_eq!(
        Jobs::update_stored(&mut store, candidate("abd", "Lead", None)),
        Err(JobError::NotFound)
    );
}

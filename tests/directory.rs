use oauth_session::directory::{
    generate_id, insert_for_identity, normalize_email, rows_outcome, stamp_after, update_for_identity,
    DirectoryError, UpdateUserData, UserData, UserDirectory,
};
use oauth_session::provider::GoogleUserResult;
use oauth_session::upsert::{UpsertAction, UpsertFlow, UpsertStage};

fn identity(email: &str, name: &str) -> GoogleUserResult {
    GoogleUserResult {
        id: "google-123".to_string(),
        email: email.to_string(),
        verified_email: true,
        name: name.to_string(),
        given_name: "Given".to_string(),
        family_name: "Family".to_string(),
        picture: "https://example.com/p.png".to_string(),
    }
}

#[test]
fn new_email_creates_one_record_with_fresh_id() {
    let mut dir = UserDirectory::new();
    let id = dir.upsert(identity("a@example.com", "A"), 10).unwrap();
    assert_eq!(dir.len(), 1);
    assert_eq!(id.len(), 36);
    let user = dir.get_users_by_id(&id).unwrap();
    assert_eq!(user.email, "a@example.com");
    assert_eq!(user.provider, "Google");
    assert_eq!(user.google_id, "google-123");
    assert_eq!(user.verified, Some(true));
    assert_eq!(user.created_at, Some(10));
    assert_eq!(user.updated_at, Some(10));

    let other = dir.upsert(identity("b@example.com", "B"), 11).unwrap();
    assert_ne!(id, other);
    assert_eq!(dir.len(), 2);
}

#[test]
fn second_upsert_updates_the_same_record() {
    let mut dir = UserDirectory::new();
    let first = dir.upsert(identity("same@example.com", "Old Name"), 100).unwrap();
    let second = dir.upsert(identity("SAME@example.com", "New Name"), 200).unwrap();
    assert_eq!(first, second);
    assert_eq!(dir.len(), 1);
    let user = dir.get_users_by_email("same@example.com").unwrap();
    assert_eq!(user.user_name, "New Name");
    assert_eq!(user.created_at, Some(100));
    assert_eq!(user.updated_at, Some(200));
    assert!(user.updated_at > Some(100));
}

#[test]
fn email_lookup_ignores_case() {
    let mut dir = UserDirectory::new();
    dir.upsert(identity("USER@EXAMPLE.COM", "U"), 1).unwrap();
    let user = dir.get_users_by_email("User@Example.Com").unwrap();
    assert_eq!(user.email, "user@example.com");
    assert!(matches!(dir.get_users_by_email("nobody@example.com"), Err(DirectoryError::NotFound)));
}

#[test]
fn normalize_email_lowercases() {
    assert_eq!(normalize_email("USER@EXAMPLE.COM"), "user@example.com");
    assert_eq!(normalize_email(""), "");
}

#[test]
fn generated_ids_differ() {
    let a = generate_id();
    let b = generate_id();
    assert_eq!(a.len(), 36);
    assert_ne!(a, b);
}

#[test]
fn identity_builders_normalize_and_tag_provider() {
    let ident = identity("MiXeD@Example.com", "Name");
    let update = update_for_identity(&"id-1".to_string(), &ident, 9);
    assert_eq!(update.id, "id-1");
    assert_eq!(update.email, "mixed@example.com");
    assert_eq!(update.provider, "Google");
    assert_eq!(update.user_name, "Name");
    assert_eq!(update.updated_at, Some(9));
    let insert = insert_for_identity(&ident);
    assert_eq!(insert.id, None);
    assert_eq!(insert.email, "mixed@example.com");
    assert_eq!(insert.photo, "https://example.com/p.png");
}

fn data(email: &str) -> UserData {
    UserData {
        id: None,
        google_id: "g".to_string(),
        email: email.to_string(),
        user_name: "n".to_string(),
        verified: false,
        provider: "Google".to_string(),
        photo: "p".to_string(),
    }
}

fn update(id: &str, email: &str) -> UpdateUserData {
    UpdateUserData {
        id: id.to_string(),
        google_id: "g2".to_string(),
        email: email.to_string(),
        user_name: "renamed".to_string(),
        verified: true,
        provider: "Google".to_string(),
        photo: "photo-2".to_string(),
        updated_at: None,
    }
}

#[test]
fn create_refuses_a_taken_email() {
    let mut dir = UserDirectory::new();
    dir.create_users(data("x@example.com"), 1).unwrap();
    assert_eq!(dir.create_users(data("x@example.com"), 2), Err(DirectoryError::DuplicateEmail));
    assert_eq!(dir.len(), 1);
}

#[test]
fn update_counts_rows() {
    let mut dir = UserDirectory::new();
    let id = dir.create_users(data("x@example.com"), 1).unwrap();
    let other = dir.create_users(data("y@example.com"), 1).unwrap();
    assert_eq!(dir.update_users(update("missing", "z@example.com"), 5), Ok(0));
    assert_eq!(dir.update_users(update(&other, "x@example.com"), 5), Err(DirectoryError::StoreFailed));
    assert_eq!(dir.update_users(update(&id, "x@example.com"), 5), Ok(1));
    let user = dir.get_users_by_id(&id).unwrap();
    assert_eq!(user.user_name, "renamed");
    assert_eq!(user.created_at, Some(1));
    assert_eq!(user.updated_at, Some(5));
}

#[test]
fn delete_counts_rows() {
    let mut dir = UserDirectory::new();
    let id = dir.create_users(data("x@example.com"), 1).unwrap();
    assert_eq!(dir.delete_users_by_id("missing"), Ok(0));
    assert_eq!(dir.delete_users_by_id(&id), Ok(1));
    assert_eq!(dir.len(), 0);
    assert!(matches!(dir.get_users_by_id(&id), Err(DirectoryError::NotFound)));
}

#[test]
fn listing_gives_ids_and_emails() {
    let mut dir = UserDirectory::new();
    let a = dir.create_users(data("a@example.com"), 1).unwrap();
    let b = dir.create_users(data("b@example.com"), 1).unwrap();
    assert_eq!(
        dir.get_users(),
        vec![(a, "a@example.com".to_string()), (b, "b@example.com".to_string())]
    );
}

#[test]
fn zero_rows_is_update_failed() {
    assert_eq!(rows_outcome(Ok(0)), Err(DirectoryError::UpdateFailed));
    assert_eq!(rows_outcome(Ok(1)), Ok(1));
    assert_eq!(rows_outcome(Err(DirectoryError::StoreFailed)), Err(DirectoryError::StoreFailed));
}

#[test]
fn loading_gives_every_record() {
    let mut dir = UserDirectory::new();
    assert!(dir.get_users_load().is_empty());
    let a = dir.create_users(data("a@example.com"), 3).unwrap();
    let all = dir.get_users_load();
    assert_eq!(all.len(), 1);
    assert_eq!(all[0].id, a);
    assert_eq!(all[0].email, "a@example.com");
    assert_eq!(all[0].created_at, Some(3));
}

#[test]
fn insert_with_id_refuses_taken_keys() {
    let mut dir = UserDirectory::new();
    assert_eq!(dir.insert_with_id("id-1".to_string(), data("a@example.com"), 1), Ok("id-1".to_string()));
    assert_eq!(dir.insert_with_id("id-1".to_string(), data("b@example.com"), 1), Err(DirectoryError::StoreFailed));
    assert_eq!(dir.insert_with_id("id-2".to_string(), data("a@example.com"), 1), Err(DirectoryError::DuplicateEmail));
    assert_eq!(dir.len(), 1);
}

#[test]
fn upsert_flow_refreshes_a_found_record() {
    let (mut flow, action) = UpsertFlow::start(identity("Found@Example.com", "New"), 50);
    assert!(matches!(action, UpsertAction::Lookup { ref email } if email == "Found@Example.com"));
    let mut dir = UserDirectory::new();
    let id = dir.create_users(data("found@example.com"), 1).unwrap();
    let found = dir.get_users_by_email("Found@Example.com");
    let data = match flow.on_lookup(found) {
        UpsertAction::Update(d) => d,
        _ => panic!("a found record is refreshed"),
    };
    assert_eq!(data.id, id);
    assert_eq!(data.email, "found@example.com");
    assert_eq!(data.user_name, "New");
    match flow.on_updated(Ok(1)) {
        UpsertAction::Finish(r) => assert_eq!(r, Ok(id)),
        _ => panic!("a refresh ends the flow"),
    }
    assert!(matches!(flow.stage, UpsertStage::Done));
}

#[test]
fn upsert_flow_reports_an_update_that_touched_nothing() {
    let (mut flow, _) = UpsertFlow::start(identity("a@example.com", "A"), 50);
    let mut dir = UserDirectory::new();
    dir.create_users(data("a@example.com"), 1).unwrap();
    flow.on_lookup(dir.get_users_by_email("a@example.com"));
    assert!(matches!(flow.on_updated(Ok(0)), UpsertAction::Finish(Err(DirectoryError::UpdateFailed))));
}

#[test]
fn upsert_flow_retries_a_lost_insert_race_as_refresh() {
    let (mut flow, _) = UpsertFlow::start(identity("race@example.com", "R"), 50);
    let action = flow.on_lookup(Err(DirectoryError::NotFound));
    assert!(matches!(action, UpsertAction::Insert(ref d) if d.email == "race@example.com" && d.id.is_none()));
    let action = flow.on_inserted(Err(DirectoryError::DuplicateEmail));
    assert!(matches!(action, UpsertAction::Lookup { ref email } if email == "race@example.com"));
    assert!(matches!(flow.stage, UpsertStage::Retrying));
    let mut dir = UserDirectory::new();
    let winner = dir.create_users(data("race@example.com"), 1).unwrap();
    match flow.on_lookup(dir.get_users_by_email("race@example.com")) {
        UpsertAction::Update(d) => assert_eq!(d.id, winner),
        _ => panic!("the retry refreshes the winner's record"),
    }
}

#[test]
fn upsert_flow_gives_up_when_the_retry_finds_nothing() {
    let (mut flow, _) = UpsertFlow::start(identity("x@example.com", "X"), 50);
    flow.on_lookup(Err(DirectoryError::NotFound));
    flow.on_inserted(Err(DirectoryError::DuplicateEmail));
    assert!(matches!(flow.on_lookup(Err(DirectoryError::NotFound)), UpsertAction::Finish(Err(DirectoryError::StoreFailed))));
}

#[test]
fn upsert_flow_passes_store_failures_on() {
    let (mut flow, _) = UpsertFlow::start(identity("x@example.com", "X"), 50);
    assert!(matches!(flow.on_lookup(Err(DirectoryError::StoreFailed)), UpsertAction::Finish(Err(DirectoryError::StoreFailed))));
    let (mut flow, _) = UpsertFlow::start(identity("y@example.com", "Y"), 50);
    flow.on_lookup(Err(DirectoryError::NotFound));
    match flow.on_inserted(Ok("new-id".to_string())) {
        UpsertAction::Finish(r) => assert_eq!(r, Ok("new-id".to_string())),
        _ => panic!("an insert ends the flow"),
    }
}

#[test]
fn update_times_strictly_increase_within_one_second() {
    let mut dir = UserDirectory::new();
    let first = dir.upsert(identity("tick@example.com", "One"), 500).unwrap();
    let second = dir.upsert(identity("tick@example.com", "Two"), 500).unwrap();
    let third = dir.upsert(identity("tick@example.com", "Three"), 499).unwrap();
    assert_eq!(first, second);
    assert_eq!(second, third);
    let user = dir.get_users_by_id(&first).unwrap();
    assert_eq!(user.user_name, "Three");
    assert_eq!(user.updated_at, Some(502));
    assert_eq!(dir.len(), 1);
}

#[test]
fn direct_update_moves_the_stamp_forward() {
    let mut dir = UserDirectory::new();
    let id = dir.create_users(data("s@example.com"), 40).unwrap();
    assert_eq!(dir.update_users(update(&id, "s@example.com"), 40), Ok(1));
    assert_eq!(dir.get_users_by_id(&id).unwrap().updated_at, Some(41));
    assert_eq!(dir.update_users(update(&id, "s@example.com"), 90), Ok(1));
    assert_eq!(dir.get_users_by_id(&id).unwrap().updated_at, Some(90));
}

#[test]
fn stamps() {
    assert_eq!(stamp_after(None, 7), 7);
    assert_eq!(stamp_after(Some(5), 7), 7);
    assert_eq!(stamp_after(Some(7), 7), 8);
    assert_eq!(stamp_after(Some(9), 7), 10);
    assert_eq!(stamp_after(Some(u64::MAX), 7), u64::MAX);
}

#[test]
fn upsert_flow_stamps_the_refresh_past_the_stored_time() {
    let mut dir = UserDirectory::new();
    dir.create_users(data("late@example.com"), 80).unwrap();
    let (mut flow, _) = UpsertFlow::start(identity("late@example.com", "L"), 60);
    match flow.on_lookup(dir.get_users_by_email("late@example.com")) {
        UpsertAction::Update(d) => assert_eq!(d.updated_at, Some(81)),
        _ => panic!("a found record is refreshed"),
    }
}

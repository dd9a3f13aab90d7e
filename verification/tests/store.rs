use idrac_controller::database::{judged, Account, Database, StoreError, User};
use idrac_controller::password::{hashed, verdict};

fn user(id: i64, username: &str, password_hash: &str) -> User {
    User { id, username: username.to_string(), password_hash: password_hash.to_string() }
}

#[test]
fn fresh_store_holds_exactly_the_admin_account() {
    let db = Database::new(Vec::new()).expect("bootstrap");
    assert!(db.has_users());
    let users = db.users();
    assert_eq!(users.len(), 1);
    assert_eq!(users[0].id, 1);
    assert_eq!(users[0].username, "admin");
    assert_ne!(users[0].password_hash, "");
    let found = db.verify_user("admin", "").expect("verification");
    assert_eq!(found.expect("admin signs in with the empty password").id, 1);
}

#[test]
fn reopening_an_initialised_store_adds_no_account() {
    let rows = vec![user(3, "carol", "h3"), user(1, "admin", "h1")];
    let mut db = Database::new(rows).expect("valid rows");
    let users = db.users();
    assert_eq!(users.len(), 2);
    assert_eq!(users[0].id, 3);
    assert_eq!(users[0].username, "carol");
    assert_eq!(users[0].password_hash, "h3");
    assert_eq!(users[1].id, 1);
    assert_eq!(users[1].username, "admin");
    let hash = bcrypt::hash("irrelevant", 4).ok();
    assert_eq!(db.insert_hashed("dave", hash).expect("insert"), 4);
}

#[test]
fn second_creation_under_one_name_is_a_duplicate() {
    let mut db = Database::empty();
    assert!(!db.has_users());
    assert_eq!(db.create_user("alice", "first password").expect("first"), 1);
    assert!(db.has_users());
    assert_eq!(db.create_user("alice", "another one"), Err(StoreError::DuplicateUsername));
    assert_eq!(db.users().len(), 1);
}

#[test]
fn created_user_verifies_to_the_same_id() {
    let mut db = Database::empty();
    let id = db.create_user("bob", "correct horse").expect("create");
    let found = db.verify_user("bob", "correct horse").expect("verification");
    assert_eq!(found.expect("match").id, id);
}

#[test]
fn wrong_password_and_unknown_name_look_alike() {
    let mut db = Database::empty();
    db.create_user("bob", "correct horse").expect("create");
    let wrong = db.verify_user("bob", "battery staple");
    let unknown = db.verify_user("mallory", "correct horse");
    assert!(matches!(wrong, Ok(None)));
    assert!(matches!(unknown, Ok(None)));
}

#[test]
fn names_are_case_sensitive() {
    let mut db = Database::new(vec![user(1, "admin", "h1")]).expect("valid rows");
    assert!(matches!(db.verify_user("Admin", ""), Ok(None)));
    let hash = bcrypt::hash("pw", 4).ok();
    assert_eq!(db.insert_hashed("Admin", hash), Ok(2));
}

#[test]
fn stored_hash_is_not_the_password() {
    let mut db = Database::empty();
    db.create_user("erin", "plain text").expect("create");
    let users = db.users();
    assert_ne!(users[0].password_hash, "plain text");
    assert_eq!(users[0].password_hash.len(), 60);
    assert_eq!(bcrypt::verify("plain text", &users[0].password_hash).ok(), Some(true));
}

#[test]
fn malformed_stored_hash_is_a_hash_failure() {
    let db = Database::new(vec![user(1, "admin", "not a bcrypt hash")]).expect("valid rows");
    assert!(matches!(db.verify_user("admin", ""), Err(StoreError::HashFailure)));
}

#[test]
fn rows_with_a_repeated_name_are_refused() {
    let rows = vec![user(1, "admin", "h1"), user(2, "admin", "h2")];
    assert!(matches!(Database::new(rows), Err(StoreError::SchemaFailure)));
}

#[test]
fn rows_with_a_repeated_id_are_refused() {
    let rows = vec![user(1, "admin", "h1"), user(2, "bob", "h2"), user(1, "carol", "h3")];
    assert!(matches!(Database::new(rows), Err(StoreError::SchemaFailure)));
}

#[test]
fn rows_with_an_id_below_one_are_refused() {
    assert!(matches!(Database::new(vec![user(0, "admin", "h")]), Err(StoreError::SchemaFailure)));
    assert!(matches!(Database::new(vec![user(-5, "admin", "h")]), Err(StoreError::SchemaFailure)));
}

#[test]
fn insertion_is_refused_when_identifiers_run_out() {
    let mut db = Database::new(vec![user(i64::MAX, "last", "h")]).expect("valid rows");
    let hash = bcrypt::hash("pw", 4).ok();
    assert_eq!(db.insert_hashed("next", hash), Err(StoreError::IoFailure));
    assert_eq!(db.create_user("next", "pw"), Err(StoreError::IoFailure));
    assert_eq!(db.create_user("last", "pw"), Err(StoreError::DuplicateUsername));
    assert_eq!(db.users().len(), 1);
}

#[test]
fn failed_hashing_inserts_nothing() {
    let mut db = Database::empty();
    let failed = bcrypt::hash("pw", 99).ok();
    assert!(failed.is_none());
    assert_eq!(db.insert_hashed("frank", failed), Err(StoreError::HashFailure));
    assert!(!db.has_users());
}

#[test]
fn identifiers_count_up_from_one() {
    let mut db = Database::empty();
    assert_eq!(db.insert_hashed("a", bcrypt::hash("pw", 4).ok()), Ok(1));
    assert_eq!(db.insert_hashed("b", bcrypt::hash("pw", 4).ok()), Ok(2));
    assert_eq!(db.insert_hashed("c", bcrypt::hash("pw", 4).ok()), Ok(3));
    let users = db.users();
    assert_eq!(users[2].username, "c");
    assert_eq!(users[2].id, 3);
}

#[test]
fn lookup_by_id_finds_the_account_or_nothing() {
    let db = Database::new(vec![user(7, "grace", "h7"), user(2, "heidi", "h2")]).expect("valid");
    let found = db.get_user_by_id(2).expect("present");
    assert_eq!(found.id, 2);
    assert_eq!(found.username, "heidi");
    assert!(db.get_user_by_id(3).is_none());
}

#[test]
fn lookups_hand_out_no_hash() {
    let db = Database::new(vec![user(7, "grace", "$2b$secret-hash")]).expect("valid");
    let by_id = db.get_user_by_id(7).expect("present");
    assert!(!format!("{:?}", by_id).contains("secret-hash"));
    let mut db = Database::empty();
    db.create_user("bob", "correct horse").expect("create");
    let stored = db.users()[0].password_hash.clone();
    let by_name = db.verify_user("bob", "correct horse").expect("verification").expect("match");
    assert_eq!(by_name.username, "bob");
    assert!(!format!("{:?}", by_name).contains(&stored));
}

#[test]
fn created_account_is_found_by_its_new_id() {
    let mut db = Database::new(vec![user(7, "grace", "h7"), user(2, "heidi", "h2")]).expect("valid");
    let id = db.create_user("ivan", "some password").expect("create");
    assert_eq!(id, 8);
    assert_ne!(id, 7);
    assert_ne!(id, 2);
    let found = db.get_user_by_id(id).expect("present");
    assert_eq!(found.username, "ivan");
    assert_eq!(db.get_user_by_id(7).expect("present").username, "grace");
    assert_eq!(db.users().len(), 3);
}

#[test]
fn judged_follows_the_verdict() {
    let account = |id: i64| Account { id, username: "a".to_string() };
    let matched = judged(account(1), Some(true)).expect("no error").expect("match");
    assert_eq!(matched.id, 1);
    assert_eq!(matched.username, "a");
    assert!(matches!(judged(account(1), Some(false)), Ok(None)));
    assert!(matches!(judged(account(1), None), Err(StoreError::HashFailure)));
}

#[test]
fn hashing_gives_a_hash_that_verifies() {
    let hash = hashed("open sesame").expect("hashing");
    assert_ne!(hash, "open sesame");
    assert_eq!(hash.len(), 60);
    assert_eq!(verdict("open sesame", &hash), Some(true));
    assert_eq!(verdict("open sesamE", &hash), Some(false));
    assert_ne!(hashed("open sesame").expect("hashing"), hash);
}

#[test]
fn verdict_on_a_malformed_hash_is_none() {
    assert_eq!(verdict("pw", "not a bcrypt hash"), None);
    assert_eq!(verdict("pw", ""), None);
}

#[test]
fn only_the_first_72_bytes_of_a_password_count() {
    let long = "a".repeat(72);
    let hash = bcrypt::hash(format!("{}x", long), 4).expect("hashing");
    assert_eq!(verdict(&format!("{}y", long), &hash), Some(true));
    assert_eq!(verdict(&"a".repeat(71), &hash), Some(false));
}

#[test]
fn each_refusal_has_its_words() {
    assert_eq!(StoreError::IoFailure.message(), "storage failure");
    assert_eq!(StoreError::SchemaFailure.message(), "stored accounts violate the schema");
    assert_eq!(StoreError::DuplicateUsername.message(), "username already exists");
    assert_eq!(StoreError::HashFailure.message(), "password hashing failed");
}

use idrac_controller::database::{Account, Database, User};
use idrac_controller::handlers::{
    answer_power_action, answer_power_status, check_auth, graceful_shutdown_handler, index,
    logged_in, login, login_refusal_for, logout, power_off_handler, power_on_handler,
    power_status, register, registered, registration_refusal_for, Body, LoginRequest, Page,
    RegisterRequest, Reply, Step,
};
use idrac_controller::idrac::{IdracClient, Method, Payload, RemoteResponse, ResetType};
use idrac_controller::session::{issue, Session};
use idrac_controller::database::StoreError;
use idrac_controller::text::{is_blank, is_white_space, joined, same_text};

const NOW: u64 = 1_700_000_000;

fn idrac() -> IdracClient {
    IdracClient::from_env(
        Some("https://bmc".to_string()),
        Some("root".to_string()),
        Some("calvin".to_string()),
    )
    .expect("complete settings")
}

fn signed_in() -> Session {
    Session { token: Some(issue(42, NOW)) }
}

fn expired() -> Session {
    Session { token: Some(issue(42, NOW - 86_400)) }
}

fn stored() -> Database {
    let admin = User { id: 1, username: "admin".to_string(), password_hash: "h".to_string() };
    Database::new(vec![admin]).expect("valid rows")
}

fn api_of(reply: &Reply) -> (u16, bool, &str) {
    match &reply.body {
        Body::Api(api) => (reply.status, api.success, api.message.as_str()),
        other => panic!("not an API body: {:?}", other),
    }
}

fn form(username: &str, password: &str, confirm: &str) -> RegisterRequest {
    RegisterRequest {
        username: username.to_string(),
        password: password.to_string(),
        confirm_password: confirm.to_string(),
    }
}

fn assert_turned_away(step: Step) {
    match step {
        Step::Reply(reply) => assert_eq!(api_of(&reply), (401, false, "Not authenticated")),
        Step::Call(request) => panic!("a request went out: {:?}", request),
    }
}

#[test]
fn root_serves_the_dashboard_to_a_signed_in_operator() {
    let reply = index(&signed_in(), &stored(), NOW);
    assert_eq!(reply.status, 200);
    assert!(matches!(reply.body, Body::Page(Page::Dashboard)));
    let reply = index(&signed_in(), &Database::empty(), NOW);
    assert!(matches!(reply.body, Body::Page(Page::Dashboard)));
}

#[test]
fn root_serves_login_once_an_account_exists() {
    let reply = index(&Session::anonymous(), &stored(), NOW);
    assert_eq!(reply.status, 200);
    assert!(matches!(reply.body, Body::Page(Page::Login)));
    let reply = index(&expired(), &stored(), NOW);
    assert!(matches!(reply.body, Body::Page(Page::Login)));
}

#[test]
fn root_serves_registration_while_no_account_exists() {
    let reply = index(&Session::anonymous(), &Database::empty(), NOW);
    assert_eq!(reply.status, 200);
    assert!(matches!(reply.body, Body::Page(Page::Register)));
}

#[test]
fn guard_passes_a_live_session_and_turns_others_away() {
    assert_eq!(check_auth(&signed_in(), NOW).ok(), Some(42));
    let refused = check_auth(&Session::anonymous(), NOW).expect_err("refusal");
    assert_eq!(api_of(&refused), (401, false, "Not authenticated"));
    let late = check_auth(&expired(), NOW).expect_err("refusal");
    assert_eq!(api_of(&late), (401, false, "Not authenticated"));
}

#[test]
fn logout_discards_the_token() {
    let mut session = signed_in();
    let reply = logout(&mut session);
    assert_eq!(api_of(&reply), (200, true, "Logged out successfully"));
    assert_eq!(session.token, None);
    assert!(check_auth(&session, NOW).is_err());
}

#[test]
fn registration_is_closed_once_an_account_exists() {
    let mut db = stored();
    let mut session = Session::anonymous();
    let reply = register(&form("bob", "long enough", "long enough"), &mut db, &mut session, NOW);
    assert_eq!(
        api_of(&reply),
        (403, false, "Registration is closed. An account already exists.")
    );
    assert_eq!(db.users().len(), 1);
    assert_eq!(session.token, None);
}

#[test]
fn registration_wants_a_name_and_a_password() {
    let mut db = Database::empty();
    let mut session = Session::anonymous();
    let reply = register(&form("  \t ", "long enough", "long enough"), &mut db, &mut session, NOW);
    assert_eq!(api_of(&reply), (400, false, "Username and password are required"));
    let reply = register(&form("", "long enough", "long enough"), &mut db, &mut session, NOW);
    assert_eq!(api_of(&reply), (400, false, "Username and password are required"));
    let reply = register(&form("bob", "", ""), &mut db, &mut session, NOW);
    assert_eq!(api_of(&reply), (400, false, "Username and password are required"));
    assert!(!db.has_users());
    assert_eq!(session.token, None);
}

#[test]
fn registration_wants_the_password_confirmed() {
    let mut db = Database::empty();
    let mut session = Session::anonymous();
    let reply = register(&form("bob", "long enough", "long enougH"), &mut db, &mut session, NOW);
    assert_eq!(api_of(&reply), (400, false, "Passwords do not match"));
    let reply = register(&form("bob", "short", "shorter"), &mut db, &mut session, NOW);
    assert_eq!(api_of(&reply), (400, false, "Passwords do not match"));
    assert!(!db.has_users());
}

#[test]
fn registration_wants_eight_bytes_of_password() {
    let mut db = Database::empty();
    let mut session = Session::anonymous();
    let reply = register(&form("bob", "1234567", "1234567"), &mut db, &mut session, NOW);
    assert_eq!(api_of(&reply), (400, false, "Password must be at least 8 characters"));
    assert!(!db.has_users());
    assert_eq!(session.token, None);
}

#[test]
fn registration_creates_the_account_and_signs_it_in() {
    let mut db = Database::empty();
    let mut session = Session::anonymous();
    let reply = register(&form("bob", "12345678", "12345678"), &mut db, &mut session, NOW);
    assert_eq!(api_of(&reply), (200, true, "Account created successfully"));
    let users = db.users();
    assert_eq!(users.len(), 1);
    assert_eq!(users[0].id, 1);
    assert_eq!(users[0].username, "bob");
    assert_eq!(session.token, Some(issue(1, NOW)));
    assert_eq!(check_auth(&session, NOW).ok(), Some(1));
}

#[test]
fn password_length_counts_bytes() {
    let mut db = Database::empty();
    let mut session = Session::anonymous();
    let reply = register(&form("bob", "éééé", "éééé"), &mut db, &mut session, NOW);
    assert_eq!(api_of(&reply), (200, true, "Account created successfully"));
}

#[test]
fn finished_registration_reports_the_store_s_refusal() {
    let mut session = Session::anonymous();
    let reply = registered(Err(StoreError::DuplicateUsername), &mut session, NOW);
    assert_eq!(api_of(&reply), (500, false, "Failed to create user: username already exists"));
    assert_eq!(session.token, None);
    let reply = registered(Err(StoreError::HashFailure), &mut session, NOW);
    assert_eq!(api_of(&reply), (500, false, "Failed to create user: password hashing failed"));
    let reply = registered(Ok(5), &mut session, NOW);
    assert_eq!(api_of(&reply), (200, true, "Account created successfully"));
    assert_eq!(session.token, Some(issue(5, NOW)));
}

#[test]
fn login_wants_a_name_and_a_password() {
    let db = stored();
    let mut session = Session::anonymous();
    let blank = LoginRequest { username: " ".to_string(), password: "x".to_string() };
    assert_eq!(api_of(&login(&blank, &db, &mut session, NOW)), (400, false, "Username and password are required"));
    let empty = LoginRequest { username: "admin".to_string(), password: String::new() };
    assert_eq!(api_of(&login(&empty, &db, &mut session, NOW)), (400, false, "Username and password are required"));
    assert_eq!(session.token, None);
}

#[test]
fn login_signs_a_verified_operator_in() {
    let mut db = Database::empty();
    let id = db.create_user("bob", "correct horse").expect("create");
    let mut session = Session::anonymous();
    let request = LoginRequest { username: "bob".to_string(), password: "correct horse".to_string() };
    let reply = login(&request, &db, &mut session, NOW);
    assert_eq!(api_of(&reply), (200, true, "Login successful"));
    assert_eq!(session.token, Some(issue(id, NOW)));
}

#[test]
fn login_answers_alike_for_unknown_name_and_wrong_password() {
    let mut db = Database::empty();
    db.create_user("bob", "correct horse").expect("create");
    let mut session = Session::anonymous();
    let wrong = LoginRequest { username: "bob".to_string(), password: "nope".to_string() };
    let reply = login(&wrong, &db, &mut session, NOW);
    assert_eq!(api_of(&reply), (401, false, "Invalid username or password"));
    let unknown = LoginRequest { username: "eve".to_string(), password: "correct horse".to_string() };
    let reply = login(&unknown, &db, &mut session, NOW);
    assert_eq!(api_of(&reply), (401, false, "Invalid username or password"));
    assert_eq!(session.token, None);
}

#[test]
fn login_reports_a_failed_check() {
    let db = stored();
    let mut session = signed_in();
    let request = LoginRequest { username: "admin".to_string(), password: "x".to_string() };
    let reply = login(&request, &db, &mut session, NOW);
    assert_eq!(api_of(&reply), (500, false, "Database error: password hashing failed"));
    assert_eq!(session.token, Some(issue(42, NOW)));
}

#[test]
fn finished_login_follows_the_store_s_answer() {
    let mut session = Session::anonymous();
    let reply = logged_in(Ok(None), &mut session, NOW);
    assert_eq!(api_of(&reply), (401, false, "Invalid username or password"));
    let reply = logged_in(Err(StoreError::IoFailure), &mut session, NOW);
    assert_eq!(api_of(&reply), (500, false, "Database error: storage failure"));
    assert_eq!(session.token, None);
    let account = Account { id: 9, username: "u".to_string() };
    let reply = logged_in(Ok(Some(account)), &mut session, NOW);
    assert_eq!(api_of(&reply), (200, true, "Login successful"));
    assert_eq!(session.token, Some(issue(9, NOW)));
}

#[test]
fn power_operations_without_a_session_send_nothing() {
    let anonymous = Session::anonymous();
    assert_turned_away(power_status(&anonymous, &idrac(), NOW));
    assert_turned_away(power_on_handler(&anonymous, &idrac(), NOW));
    assert_turned_away(power_off_handler(&anonymous, &idrac(), NOW));
    assert_turned_away(graceful_shutdown_handler(&anonymous, &idrac(), NOW));
}

#[test]
fn power_operations_with_an_expired_session_send_nothing() {
    let late = expired();
    assert_turned_away(power_status(&late, &idrac(), NOW));
    assert_turned_away(power_on_handler(&late, &idrac(), NOW));
    assert_turned_away(power_off_handler(&late, &idrac(), NOW));
    assert_turned_away(graceful_shutdown_handler(&late, &idrac(), NOW));
}

#[test]
fn status_query_with_a_session_calls_the_system_resource() {
    match power_status(&signed_in(), &idrac(), NOW) {
        Step::Call(request) => {
            assert_eq!(request.method, Method::Get);
            assert_eq!(request.url, "https://bmc/redfish/v1/Systems/System.Embedded.1");
            assert_eq!(request.body, None);
        },
        Step::Reply(reply) => panic!("answered at once: {:?}", reply),
    }
}

#[test]
fn power_actions_with_a_session_post_their_reset_type() {
    let expect = |step: Step, body: &str| match step {
        Step::Call(request) => {
            assert_eq!(request.method, Method::Post);
            assert_eq!(
                request.url,
                "https://bmc/redfish/v1/Systems/System.Embedded.1/Actions/ComputerSystem.Reset"
            );
            assert_eq!(request.authorization, "Basic cm9vdDpjYWx2aW4=");
            assert_eq!(request.body.as_deref(), Some(body));
        },
        Step::Reply(reply) => panic!("answered at once: {:?}", reply),
    };
    expect(power_on_handler(&signed_in(), &idrac(), NOW), "{\"ResetType\":\"On\"}");
    expect(power_off_handler(&signed_in(), &idrac(), NOW), "{\"ResetType\":\"ForceOff\"}");
    expect(
        graceful_shutdown_handler(&signed_in(), &idrac(), NOW),
        "{\"ResetType\":\"GracefulShutdown\"}",
    );
}

#[test]
fn status_answer_carries_the_power_state() {
    let reply = RemoteResponse::new(200, Payload::Text("{\"PowerState\":\"On\"}".to_string())).expect("a status");
    let answer = answer_power_status(&idrac(), Ok(reply));
    assert_eq!(answer.status, 200);
    match answer.body {
        Body::Status(status) => {
            assert!(status.success);
            assert_eq!(status.power_state, "On");
        },
        other => panic!("not a status body: {:?}", other),
    }
}

#[test]
fn status_answer_reports_a_failure() {
    let answer = answer_power_status(&idrac(), Err("no route".to_string()));
    assert_eq!(api_of(&answer), (500, false, "Failed to connect to iDRAC: no route"));
    let reply = RemoteResponse::new(503, Payload::Text(String::new())).expect("a status");
    let answer = answer_power_status(&idrac(), Ok(reply));
    assert_eq!(api_of(&answer), (500, false, "Failed to get power state: HTTP 503 Service Unavailable"));
}

#[test]
fn action_answer_carries_the_message_or_the_failure() {
    let accepted = RemoteResponse::new(204, Payload::Text(String::new())).expect("a status");
    let answer = answer_power_action(&idrac(), ResetType::ForceOff, Ok(accepted));
    assert_eq!(api_of(&answer), (200, true, "Successfully executed: ForceOff"));
    let failed = RemoteResponse::new(500, Payload::Text("overheated".to_string())).expect("a status");
    let answer = answer_power_action(&idrac(), ResetType::On, Ok(failed));
    assert_eq!(
        api_of(&answer),
        (500, false, "Failed to set power state: HTTP 500 Internal Server Error - overheated")
    );
}

#[test]
fn blank_means_nothing_but_whitespace() {
    assert!(is_blank(""));
    assert!(is_blank(" \t\r\n"));
    assert!(is_blank("\u{3000}\u{a0}"));
    assert!(!is_blank(" a "));
    assert!(!is_blank("\u{200b}"));
}

#[test]
fn text_helpers_compare_and_join() {
    assert!(same_text("admin", "admin"));
    assert!(!same_text("admin", "Admin"));
    assert!(!same_text("admin", "admin "));
    assert_eq!(joined("a", "b"), "ab");
    assert_eq!(joined("", ""), "");
}

#[test]
fn white_space_is_what_the_standard_library_says() {
    for code in 0u32..=0x10FFFF {
        if let Some(c) = char::from_u32(code) {
            assert_eq!(is_white_space(c), c.is_whitespace(), "U+{:04X}", code);
        }
    }
}

#[test]
fn blank_agrees_with_trimming_to_nothing() {
    let samples = ["", " ", "\t\n", "bob", " bob ", "\u{2003}\u{2028}", "\u{feff}", "a\u{a0}", "\u{85}"];
    for sample in samples {
        assert_eq!(is_blank(sample), sample.trim().is_empty(), "{:?}", sample);
    }
    assert!(!is_blank("bob"));
}

#[test]
fn registration_refusals_come_in_order() {
    let api = |reply: Option<Reply>| reply.map(|r| match r.body {
        Body::Api(api) => (r.status, api.success, api.message),
        other => panic!("not an API body: {:?}", other),
    });
    assert_eq!(
        api(registration_refusal_for(true, true, "", "x")),
        Some((403, false, "Registration is closed. An account already exists.".to_string()))
    );
    assert_eq!(
        api(registration_refusal_for(false, true, "short", "other")),
        Some((400, false, "Username and password are required".to_string()))
    );
    assert_eq!(
        api(registration_refusal_for(false, false, "", "")),
        Some((400, false, "Username and password are required".to_string()))
    );
    assert_eq!(
        api(registration_refusal_for(false, false, "short", "other")),
        Some((400, false, "Passwords do not match".to_string()))
    );
    assert_eq!(
        api(registration_refusal_for(false, false, "short", "short")),
        Some((400, false, "Password must be at least 8 characters".to_string()))
    );
    assert_eq!(api(registration_refusal_for(false, false, "12345678", "12345678")), None);
}

#[test]
fn login_refusal_wants_both_fields() {
    assert!(login_refusal_for(false, "x").is_none());
    let refused = login_refusal_for(true, "x").expect("refusal");
    assert_eq!(api_of(&refused), (400, false, "Username and password are required"));
    let refused = login_refusal_for(false, "").expect("refusal");
    assert_eq!(api_of(&refused), (400, false, "Username and password are required"));
}

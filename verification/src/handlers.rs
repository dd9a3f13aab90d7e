//! The request handlers: what the gateway answers, and what it does to the
//! session and the store on the way.
//!
//! A handler is a function from the request and the state to a reply. The
//! power handlers need a round trip to the management controller in the
//! middle: they come in two steps, one that authorises and says what to
//! send, one that turns the transport's reply into the gateway's answer.

use vstd::prelude::*;
use vstd::utf8::encode_utf8;
use crate::database::{
    error_text,
    insertion,
    seen,
    verification,
    with_row,
    Account,
    AccountView,
    Database,
    StoreError,
};
use crate::idrac::{
    power_state_answer,
    power_state_request,
    reply_seen,
    reset_action_request,
    reset_answer,
    Failure,
    IdracClient,
    RemoteRequest,
    RemoteResponse,
    RequestView,
    ResetType,
};
use crate::password::bcrypt_verdict;
use crate::session::{issued_token, revoke, validate, validation, Session, SessionToken};
use crate::text::{blank, is_blank, joined, same_text};

verus! {

/// The body of a login request.
#[derive(Debug)]
pub struct LoginRequest {
    pub username: String,
    pub password: String,
}

/// The body of a registration request.
#[derive(Debug)]
pub struct RegisterRequest {
    pub username: String,
    pub password: String,
    pub confirm_password: String,
}

/// The body of most answers: whether the request succeeded, and a message.
#[derive(Debug)]
pub struct ApiResponse {
    pub success: bool,
    pub message: String,
}

/// The body of the answer to a status query.
#[derive(Debug)]
pub struct StatusResponse {
    pub success: bool,
    pub power_state: String,
}

/// The pages that the gateway serves.
#[derive(Clone, Copy, Debug, PartialEq, Eq, Structural)]
pub enum Page {
    Dashboard,
    Login,
    Register,
}

/// The body of a reply.
#[derive(Debug)]
pub enum Body {
    Page(Page),
    Api(ApiResponse),
    Status(StatusResponse),
}

/// The gateway's answer to a request: an HTTP status and a body.
#[derive(Debug)]
pub struct Reply {
    pub status: u16,
    pub body: Body,
}

/// A body as contracts see it.
pub enum BodyView {
    Page(Page),
    Api { success: bool, message: Seq<char> },
    Status { success: bool, power_state: Seq<char> },
}

/// A reply as contracts see it.
pub struct ReplyView {
    pub status: u16,
    pub body: BodyView,
}

impl View for Reply {
    type V = ReplyView;

    open spec fn view(&self) -> ReplyView {
        ReplyView {
            status: self.status,
            body: match self.body {
                Body::Page(page) => BodyView::Page(page),
                Body::Api(api) => BodyView::Api { success: api.success, message: api.message@ },
                Body::Status(status) => BodyView::Status {
                    success: status.success,
                    power_state: status.power_state@,
                },
            },
        }
    }
}

/// The reply that serves `page`.
pub open spec fn page_reply(page: Page) -> ReplyView {
    ReplyView { status: 200, body: BodyView::Page(page) }
}

/// The reply with `status` that carries a success flag and a message.
pub open spec fn api_reply(status: u16, success: bool, message: Seq<char>) -> ReplyView {
    ReplyView { status, body: BodyView::Api { success, message } }
}

/// The reply to a request that carries no live session.
pub open spec fn not_authenticated() -> ReplyView {
    api_reply(401, false, "Not authenticated"@)
}

/// The page that the root serves: the dashboard to a signed-in operator,
/// else the login page once an account exists, else the registration page.
pub open spec fn landing_page(signed_in: bool, has_users: bool) -> Page {
    if signed_in {
        Page::Dashboard
    } else if has_users {
        Page::Login
    } else {
        Page::Register
    }
}

/// Builds the reply with `status` that carries a success flag and a message.
fn api(status: u16, success: bool, message: String) -> (reply: Reply)
    ensures
        reply@ == api_reply(status, success, message@),
{
    Reply { status, body: Body::Api(ApiResponse { success, message }) }
}

/// Serves the root.
pub fn index(session: &Session, db: &Database, now: u64) -> (reply: Reply)
    ensures
        reply@ == page_reply(landing_page(validation(session.token, now) is Ok, db@.rows.len() > 0)),
{
    let page = if validate(session.token, now).is_ok() {
        Page::Dashboard
    } else if db.has_users() {
        Page::Login
    } else {
        Page::Register
    };
    Reply { status: 200, body: Body::Page(page) }
}

/// Guards a privileged operation: the signed-in user, or the reply that
/// turns the request away.
pub fn check_auth(session: &Session, now: u64) -> (outcome: Result<i64, Reply>)
    ensures
        match validation(session.token, now) {
            Ok(user_id) => outcome matches Ok(id) && id == user_id,
            Err(_) => outcome matches Err(reply) && reply@ == not_authenticated(),
        },
{
    match validate(session.token, now) {
        Ok(user_id) => Ok(user_id),
        Err(_) => Err(api(401, false, "Not authenticated".to_owned())),
    }
}

/// Signs the operator out: the session's token is discarded.
pub fn logout(session: &mut Session) -> (reply: Reply)
    ensures
        final(session).token is None,
        reply@ == api_reply(200, true, "Logged out successfully"@),
{
    revoke(session);
    api(200, true, "Logged out successfully".to_owned())
}

/// The reply that turns a registration away before anything is created, if
/// one does: registration is closed once an account exists; the name and the
/// password must be there; the password must be confirmed and have at least
/// 8 bytes. `name_blank` tells whether the name is blank.
pub open spec fn registration_refusal(
    has_users: bool,
    name_blank: bool,
    password: Seq<char>,
    confirm_password: Seq<char>,
) -> Option<ReplyView> {
    if has_users {
        Some(api_reply(403, false, "Registration is closed. An account already exists."@))
    } else if name_blank || password.len() == 0 {
        Some(api_reply(400, false, "Username and password are required"@))
    } else if password != confirm_password {
        Some(api_reply(400, false, "Passwords do not match"@))
    } else if encode_utf8(password).len() < 8 {
        Some(api_reply(400, false, "Password must be at least 8 characters"@))
    } else {
        None
    }
}

/// The reply to a registration that went as far as creating the account.
pub open spec fn registration_reply(created: Result<i64, StoreError>) -> ReplyView {
    match created {
        Ok(_) => api_reply(200, true, "Account created successfully"@),
        Err(e) => api_reply(500, false, "Failed to create user: "@ + error_text(e)),
    }
}

/// The reply that turns a login away before the store is asked, if one does.
/// `name_blank` tells whether the name is blank.
pub open spec fn login_refusal(name_blank: bool, password: Seq<char>) -> Option<ReplyView> {
    if name_blank || password.len() == 0 {
        Some(api_reply(400, false, "Username and password are required"@))
    } else {
        None
    }
}

/// The reply to a login, given what the store answered.
pub open spec fn login_reply(verified: Result<Option<AccountView>, StoreError>) -> ReplyView {
    match verified {
        Ok(Some(_)) => api_reply(200, true, "Login successful"@),
        Ok(None) => api_reply(401, false, "Invalid username or password"@),
        Err(e) => api_reply(500, false, "Database error: "@ + error_text(e)),
    }
}

/// The session's token after a login, given what the store answered.
pub open spec fn login_token(
    verified: Result<Option<AccountView>, StoreError>,
    before: Option<SessionToken>,
    now: u64,
) -> Option<SessionToken> {
    match verified {
        Ok(Some(account)) => Some(issued_token(account.id, now)),
        _ => before,
    }
}

/// A refusal as contracts see it.
pub open spec fn refusal_seen(refusal: Option<Reply>) -> Option<ReplyView> {
    match refusal {
        Some(reply) => Some(reply@),
        None => None,
    }
}

/// The reply that turns a registration away before anything is created, if
/// one does.
pub fn registration_refusal_for(
    has_users: bool,
    name_blank: bool,
    password: &str,
    confirm_password: &str,
) -> (refusal: Option<Reply>)
    ensures
        refusal_seen(refusal) == registration_refusal(
            has_users,
            name_blank,
            password@,
            confirm_password@,
        ),
{
    if has_users {
        return Some(
            api(403, false, "Registration is closed. An account already exists.".to_owned()),
        );
    }
    if name_blank || password.is_empty() {
        return Some(api(400, false, "Username and password are required".to_owned()));
    }
    if !same_text(password, confirm_password) {
        return Some(api(400, false, "Passwords do not match".to_owned()));
    }
    if password.as_bytes().len() < 8 {
        return Some(api(400, false, "Password must be at least 8 characters".to_owned()));
    }
    None
}

/// The reply that turns a login away before the store is asked, if one does.
pub fn login_refusal_for(name_blank: bool, password: &str) -> (refusal: Option<Reply>)
    ensures
        refusal_seen(refusal) == login_refusal(name_blank, password@),
{
    if name_blank || password.is_empty() {
        Some(api(400, false, "Username and password are required".to_owned()))
    } else {
        None
    }
}

/// Finishes a registration: on success the new account is signed in at once.
pub fn registered(created: Result<i64, StoreError>, session: &mut Session, now: u64) -> (reply: Reply)
    ensures
        reply@ == registration_reply(created),
        final(session).token == (match created {
            Ok(id) => Some(issued_token(id, now)),
            Err(_) => old(session).token,
        }),
{
    match created {
        Ok(user_id) => {
            session.sign_in(user_id, now);
            api(200, true, "Account created successfully".to_owned())
        },
        Err(e) => api(500, false, joined("Failed to create user: ", e.message().as_str())),
    }
}

/// Registers the first account and signs it in.
pub fn register(form: &RegisterRequest, db: &mut Database, session: &mut Session, now: u64) -> (reply:
    Reply)
    requires
        old(db).wf(),
    ensures
        final(db).wf(),
        match registration_refusal(
            old(db)@.rows.len() > 0,
            blank(form.username@),
            form.password@,
            form.confirm_password@,
        ) {
            Some(refusal) => {
                &&& reply@ == refusal
                &&& final(db)@ == old(db)@
                &&& final(session).token == old(session).token
            },
            None => if reply.status == 200 {
                &&& insertion(old(db)@, form.username@, true) matches Ok(id)
                &&& reply@ == registration_reply(Ok(id))
                &&& final(session).token == Some(issued_token(id, now))
                &&& final(db)@ == with_row(old(db)@, final(db)@.rows.last())
                &&& final(db)@.rows.last().id == id
                &&& final(db)@.rows.last().username == form.username@
                &&& bcrypt_verdict(form.password@, final(db)@.rows.last().password_hash) == Some(
                    true,
                )
            } else {
                &&& reply@ == registration_reply(insertion(old(db)@, form.username@, false))
                &&& final(db)@ == old(db)@
                &&& final(session).token == old(session).token
            },
        },
{
    let refusal = registration_refusal_for(
        db.has_users(),
        is_blank(form.username.as_str()),
        form.password.as_str(),
        form.confirm_password.as_str(),
    );
    match refusal {
        Some(reply) => reply,
        None => {
            let created = db.create_user(form.username.as_str(), form.password.as_str());
            registered(created, session, now)
        },
    }
}

/// Finishes a login: a verified account is signed in.
pub fn logged_in(verified: Result<Option<Account>, StoreError>, session: &mut Session, now: u64) -> (reply:
    Reply)
    ensures
        reply@ == login_reply(seen(verified)),
        final(session).token == login_token(seen(verified), old(session).token, now),
{
    match verified {
        Ok(Some(account)) => {
            session.sign_in(account.id, now);
            api(200, true, "Login successful".to_owned())
        },
        Ok(None) => api(401, false, "Invalid username or password".to_owned()),
        Err(e) => api(500, false, joined("Database error: ", e.message().as_str())),
    }
}

/// Signs an operator in by name and password.
pub fn login(form: &LoginRequest, db: &Database, session: &mut Session, now: u64) -> (reply: Reply)
    requires
        db.wf(),
    ensures
        match login_refusal(blank(form.username@), form.password@) {
            Some(refusal) => reply@ == refusal && final(session).token == old(session).token,
            None => {
                &&& reply@ == login_reply(verification(db@.rows, form.username@, form.password@))
                &&& final(session).token == login_token(
                    verification(db@.rows, form.username@, form.password@),
                    old(session).token,
                    now,
                )
            },
        },
{
    match login_refusal_for(is_blank(form.username.as_str()), form.password.as_str()) {
        Some(reply) => reply,
        None => {
            let verified = db.verify_user(form.username.as_str(), form.password.as_str());
            logged_in(verified, session, now)
        },
    }
}

/// What a power handler does first: answer at once, or have a request sent
/// to the management controller.
#[derive(Debug)]
pub enum Step {
    Reply(Reply),
    Call(RemoteRequest),
}

/// A step as contracts see it.
pub enum StepView {
    Reply(ReplyView),
    Call(RequestView),
}

impl View for Step {
    type V = StepView;

    open spec fn view(&self) -> StepView {
        match self {
            Step::Reply(reply) => StepView::Reply(reply@),
            Step::Call(request) => StepView::Call(request@),
        }
    }
}

/// The first step of a privileged operation: `request` goes out for a live
/// session, and for any other the request is turned away with nothing sent.
pub open spec fn guarded(token: Option<SessionToken>, now: u64, request: RequestView) -> StepView {
    match validation(token, now) {
        Ok(_) => StepView::Call(request),
        Err(_) => StepView::Reply(not_authenticated()),
    }
}

/// The gateway's answer to a status query, given the client's.
pub open spec fn status_reply(answer: Result<Seq<char>, Failure>) -> ReplyView {
    match answer {
        Ok(state) => ReplyView {
            status: 200,
            body: BodyView::Status { success: true, power_state: state },
        },
        Err(failure) => api_reply(500, false, failure.message),
    }
}

/// The gateway's answer to a power action, given the client's.
pub open spec fn action_reply(answer: Result<Seq<char>, Failure>) -> ReplyView {
    match answer {
        Ok(message) => api_reply(200, true, message),
        Err(failure) => api_reply(500, false, failure.message),
    }
}

/// Without a live session no privileged operation sends anything: its first
/// step is the reply that turns the request away.
pub proof fn lemma_unauthenticated_sends_nothing(token: Option<SessionToken>, now: u64, request: RequestView)
    requires
        validation(token, now) is Err,
    ensures
        guarded(token, now, request) == StepView::Reply(not_authenticated()),
        !(guarded(token, now, request) is Call),
{
}

/// First step of the status query.
pub fn power_status(session: &Session, idrac: &IdracClient, now: u64) -> (step: Step)
    ensures
        step@ == guarded(session.token, now, power_state_request(idrac@)),
{
    match check_auth(session, now) {
        Err(reply) => Step::Reply(reply),
        Ok(_) => Step::Call(idrac.status_request()),
    }
}

/// First step of a power action.
fn power_action(session: &Session, idrac: &IdracClient, reset: ResetType, now: u64) -> (step: Step)
    ensures
        step@ == guarded(session.token, now, reset_action_request(idrac@, reset)),
{
    match check_auth(session, now) {
        Err(reply) => Step::Reply(reply),
        Ok(_) => Step::Call(idrac.reset_request(reset)),
    }
}

/// First step of powering the machine on.
pub fn power_on_handler(session: &Session, idrac: &IdracClient, now: u64) -> (step: Step)
    ensures
        step@ == guarded(session.token, now, reset_action_request(idrac@, ResetType::On)),
{
    power_action(session, idrac, ResetType::On, now)
}

/// First step of cutting the power.
pub fn power_off_handler(session: &Session, idrac: &IdracClient, now: u64) -> (step: Step)
    ensures
        step@ == guarded(session.token, now, reset_action_request(idrac@, ResetType::ForceOff)),
{
    power_action(session, idrac, ResetType::ForceOff, now)
}

/// First step of a graceful shutdown.
pub fn graceful_shutdown_handler(session: &Session, idrac: &IdracClient, now: u64) -> (step: Step)
    ensures
        step@ == guarded(
            session.token,
            now,
            reset_action_request(idrac@, ResetType::GracefulShutdown),
        ),
{
    power_action(session, idrac, ResetType::GracefulShutdown, now)
}

/// Second step of the status query: the answer to the transport's reply.
pub fn answer_power_status(idrac: &IdracClient, reply: Result<RemoteResponse, String>) -> (answer: Reply)
    ensures
        answer@ == status_reply(power_state_answer(reply_seen(reply))),
{
    match idrac.get_power_state(reply) {
        Ok(state) => Reply {
            status: 200,
            body: Body::Status(StatusResponse { success: true, power_state: state }),
        },
        Err(e) => api(500, false, e.message),
    }
}

/// Second step of a power action: the answer to the transport's reply.
pub fn answer_power_action(idrac: &IdracClient, reset: ResetType, reply: Result<RemoteResponse, String>) -> (answer:
    Reply)
    ensures
        answer@ == action_reply(reset_answer(reset, reply_seen(reply))),
{
    match idrac.set_power_state(reset, reply) {
        Ok(message) => api(200, true, message),
        Err(e) => api(500, false, e.message),
    }
}

} // verus!

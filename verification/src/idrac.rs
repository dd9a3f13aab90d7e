//! The power-control client: what is asked of the management controller and
//! how its answers are read.
//!
//! The client does no I/O. For each operation it builds the request to send
//! and, handed the transport's reply, turns it into a success message or a
//! classified failure. Every operation is one round trip; nothing is retried.

use vstd::prelude::*;
use vstd::string::StringExecFns;
use vstd::utf8::encode_utf8;
use crate::text::joined;
use crate::wire::{
    base64_standard,
    begins_with_status,
    encode_base64,
    http_status_text,
    json_object,
    json_object_text,
    json_parsed,
    json_text_member,
    parse_json,
    parse_seen,
    status_digits,
    status_text,
    text_member,
};

verus! {

/// The classes of failure of a remote call.
#[derive(Clone, Copy, Debug, PartialEq, Eq, Structural)]
pub enum FailureKind {
    /// The controller could not be reached, or did not answer in time.
    ConnectFailure,
    /// The controller's answer could not be parsed.
    ParseFailure,
    /// The controller answered with a status other than success.
    HttpStatusFailure,
}

/// A failed remote call: its class and a message for the operator.
#[derive(Debug)]
pub struct IdracError {
    pub kind: FailureKind,
    pub message: String,
}

/// A failed remote call as contracts see it.
pub struct Failure {
    pub kind: FailureKind,
    pub message: Seq<char>,
}

impl View for IdracError {
    type V = Failure;

    open spec fn view(&self) -> Failure {
        Failure { kind: self.kind, message: self.message@ }
    }
}

/// The reset actions that the client requests.
#[derive(Clone, Copy, Debug, PartialEq, Eq, Structural)]
pub enum ResetType {
    /// Power the machine on.
    On,
    /// Cut the power at once.
    ForceOff,
    /// Ask the operating system to shut down.
    GracefulShutdown,
}

impl ResetType {
    /// The name of the action on the wire.
    pub open spec fn name(self) -> Seq<char> {
        match self {
            ResetType::On => "On"@,
            ResetType::ForceOff => "ForceOff"@,
            ResetType::GracefulShutdown => "GracefulShutdown"@,
        }
    }

    /// The name of the action on the wire.
    pub fn as_str(self) -> (text: &'static str)
        ensures
            text@ == self.name(),
    {
        match self {
            ResetType::On => "On",
            ResetType::ForceOff => "ForceOff",
            ResetType::GracefulShutdown => "GracefulShutdown",
        }
    }
}

/// The verb of a request.
#[derive(Clone, Copy, Debug, PartialEq, Eq, Structural)]
pub enum Method {
    Get,
    Post,
}

/// A request for the transport to send.
#[derive(Debug)]
pub struct RemoteRequest {
    pub method: Method,
    pub url: String,
    /// The value of the `Authorization` header.
    pub authorization: String,
    /// The value of the `Content-Type` header.
    pub content_type: String,
    pub body: Option<String>,
}

/// A request as contracts see it.
pub struct RequestView {
    pub method: Method,
    pub url: Seq<char>,
    pub authorization: Seq<char>,
    pub content_type: Seq<char>,
    pub body: Option<Seq<char>>,
}

impl View for RemoteRequest {
    type V = RequestView;

    open spec fn view(&self) -> RequestView {
        RequestView {
            method: self.method,
            url: self.url@,
            authorization: self.authorization@,
            content_type: self.content_type@,
            body: match self.body {
                Some(text) => Some(text@),
                None => None,
            },
        }
    }
}

/// The body of the controller's answer, as far as the transport could read
/// it.
#[derive(Debug)]
pub enum Payload {
    /// The text of the body.
    Text(String),
    /// The body could not be read; the transport's words for why.
    Unreadable(String),
}

/// A body as contracts see it.
pub enum PayloadView {
    Text(Seq<char>),
    Unreadable(Seq<char>),
}

impl View for Payload {
    type V = PayloadView;

    open spec fn view(&self) -> PayloadView {
        match self {
            Payload::Text(text) => PayloadView::Text(text@),
            Payload::Unreadable(cause) => PayloadView::Unreadable(cause@),
        }
    }
}

/// The controller's answer: an HTTP status between 100 and 999 and the body.
#[derive(Debug)]
pub struct RemoteResponse {
    status: u16,
    body: Payload,
}

/// An answer as contracts see it.
pub struct ResponseView {
    pub status: u16,
    pub body: PayloadView,
}

impl View for RemoteResponse {
    type V = ResponseView;

    closed spec fn view(&self) -> ResponseView {
        ResponseView { status: self.status, body: self.body@ }
    }
}

impl RemoteResponse {
    #[verifier::type_invariant]
    spec fn status_in_range(&self) -> bool {
        100 <= self.status <= 999
    }

    /// An answer with the given status and body; `None` for a number that is
    /// no HTTP status.
    pub fn new(status: u16, body: Payload) -> (made: Option<RemoteResponse>)
        ensures
            made is Some <==> 100 <= status <= 999,
            made matches Some(response) ==> response@ == (ResponseView { status, body: body@ }),
    {
        if 100 <= status && status <= 999 {
            Some(RemoteResponse { status, body })
        } else {
            None
        }
    }

    /// The HTTP status.
    pub fn status(&self) -> (code: u16)
        ensures
            code == self@.status,
            100 <= code <= 999,
    {
        proof {
            use_type_invariant(self);
        }
        self.status
    }

    /// The body.
    pub fn body(&self) -> (body: &Payload)
        ensures
            body@ == self@.body,
    {
        &self.body
    }
}

/// A reply of the transport as contracts see it: the controller's answer, or
/// the transport's words for why there is none.
pub open spec fn reply_seen(reply: Result<RemoteResponse, String>) -> Result<ResponseView, Seq<char>> {
    match reply {
        Ok(response) => Ok(response@),
        Err(cause) => Err(cause@),
    }
}

/// An outcome of an operation as contracts see it.
pub open spec fn answer_seen(outcome: Result<String, IdracError>) -> Result<Seq<char>, Failure> {
    match outcome {
        Ok(text) => Ok(text@),
        Err(error) => Err(error@),
    }
}

/// The failure that stands for a transport that got no answer.
pub open spec fn connect_failure(cause: Seq<char>) -> Failure {
    Failure { kind: FailureKind::ConnectFailure, message: "Failed to connect to iDRAC: "@ + cause }
}

/// The power state that a member read from the system resource stands for:
/// the member itself, `Unknown` where there is none.
pub open spec fn state_or_unknown(member: Option<Seq<char>>) -> Seq<char> {
    match member {
        Some(state) => state,
        None => "Unknown"@,
    }
}

/// The failure for a body that is no JSON, or could not be read at all.
pub open spec fn parse_failure_of(message: Seq<char>) -> Failure {
    Failure { kind: FailureKind::ParseFailure, message: "Failed to parse response: "@ + message }
}

/// The failure for a status query that was answered with another status than
/// 200; `status_line` is the status as it prints.
pub open spec fn power_state_failure_of(status_line: Seq<char>) -> Failure {
    Failure {
        kind: FailureKind::HttpStatusFailure,
        message: "Failed to get power state: HTTP "@ + status_line,
    }
}

/// The failure for a reset that was answered with another status than 200 or
/// 204: it quotes the status as it prints, and the body.
pub open spec fn reset_failure_of(status_line: Seq<char>, body: Seq<char>) -> Failure {
    Failure {
        kind: FailureKind::HttpStatusFailure,
        message: "Failed to set power state: HTTP "@ + status_line + " - "@ + body,
    }
}

/// The text of a body, empty where it could not be read.
pub open spec fn text_or_empty(body: PayloadView) -> Seq<char> {
    match body {
        PayloadView::Text(text) => text,
        PayloadView::Unreadable(_) => Seq::<char>::empty(),
    }
}

/// How the parsed body of the system resource is read.
pub open spec fn power_state_reading(parsed: Result<serde_json::Value, Seq<char>>) -> Result<
    Seq<char>,
    Failure,
> {
    match parsed {
        Ok(document) => Ok(state_or_unknown(json_text_member(document, "PowerState"@))),
        Err(message) => Err(parse_failure_of(message)),
    }
}

/// What `get_power_state` answers to a reply.
pub open spec fn power_state_answer(reply: Result<ResponseView, Seq<char>>) -> Result<Seq<char>, Failure> {
    match reply {
        Err(cause) => Err(connect_failure(cause)),
        Ok(response) => if response.status == 200 {
            match response.body {
                PayloadView::Text(text) => power_state_reading(json_parsed(text)),
                PayloadView::Unreadable(cause) => Err(parse_failure_of(cause)),
            }
        } else {
            Err(power_state_failure_of(http_status_text(response.status)))
        },
    }
}

/// What a reset operation answers to a reply: only the statuses 200 and 204
/// count as success, and a failure quotes the status and the body.
pub open spec fn reset_answer(reset: ResetType, reply: Result<ResponseView, Seq<char>>) -> Result<
    Seq<char>,
    Failure,
> {
    match reply {
        Err(cause) => Err(connect_failure(cause)),
        Ok(response) => if response.status == 204 || response.status == 200 {
            Ok("Successfully executed: "@ + reset.name())
        } else {
            Err(reset_failure_of(http_status_text(response.status), text_or_empty(response.body)))
        },
    }
}

/// `part` occurs in `text`.
pub open spec fn occurs_in(part: Seq<char>, text: Seq<char>) -> bool {
    exists|i: int|
        0 <= i && i + part.len() <= text.len() && #[trigger] text.subrange(i, i + part.len())
            == part
}

/// The failure of a reset holds the three digits of the status and the text
/// of the body, wherever the status prints with its number first.
pub proof fn lemma_reset_failure_quotes_status_and_body(status_line: Seq<char>, body: Seq<char>, code: u16)
    requires
        begins_with_status(status_line, code),
    ensures
        occurs_in(status_digits(code), reset_failure_of(status_line, body).message),
        occurs_in(body, reset_failure_of(status_line, body).message),
{
    let head = "Failed to set power state: HTTP "@;
    let message = reset_failure_of(status_line, body).message;
    let at = head.len() as int;
    assert(message.subrange(at, at + 3) =~= status_line.subrange(0, 3));
    assert(status_digits(code).len() == 3);
    let from = message.len() - body.len();
    assert(message.subrange(from, from + body.len()) =~= body);
}

/// The failure of a status query holds the three digits of the status,
/// wherever the status prints with its number first.
pub proof fn lemma_power_state_failure_quotes_status(status_line: Seq<char>, code: u16)
    requires
        begins_with_status(status_line, code),
    ensures
        occurs_in(status_digits(code), power_state_failure_of(status_line).message),
{
    let head = "Failed to get power state: HTTP "@;
    let message = power_state_failure_of(status_line).message;
    let at = head.len() as int;
    assert(message.subrange(at, at + 3) =~= status_line.subrange(0, 3));
    assert(status_digits(code).len() == 3);
}

/// Where the controller answered a reset and the operation failed, the
/// failure holds the three digits of the status and the text of the body.
pub open spec fn reset_failure_quotes(
    reply: Result<ResponseView, Seq<char>>,
    outcome: Result<Seq<char>, Failure>,
) -> bool {
    match (reply, outcome) {
        (Ok(response), Err(failure)) => {
            &&& occurs_in(status_digits(response.status), failure.message)
            &&& occurs_in(text_or_empty(response.body), failure.message)
        },
        _ => true,
    }
}

/// Where the controller answered a status query with another status than
/// 200, the failure holds the three digits of that status.
pub open spec fn power_state_failure_quotes(
    reply: Result<ResponseView, Seq<char>>,
    outcome: Result<Seq<char>, Failure>,
) -> bool {
    match (reply, outcome) {
        (Ok(response), Err(failure)) => response.status != 200 ==> occurs_in(
            status_digits(response.status),
            failure.message,
        ),
        _ => true,
    }
}

/// The power state for a member read from the system resource.
pub fn power_state_or_unknown(member: Option<String>) -> (state: String)
    ensures
        state@ == state_or_unknown(
            match member {
                Some(text) => Some(text@),
                None => None,
            },
        ),
{
    match member {
        Some(text) => text,
        None => "Unknown".to_owned(),
    }
}

/// The failure for a body that is no JSON, or could not be read at all.
pub fn parse_failure(message: &str) -> (error: IdracError)
    ensures
        error@ == parse_failure_of(message@),
{
    IdracError {
        kind: FailureKind::ParseFailure,
        message: joined("Failed to parse response: ", message),
    }
}

/// The failure for a status query answered with another status than 200.
pub fn power_state_failure(status_line: &str) -> (error: IdracError)
    ensures
        error@ == power_state_failure_of(status_line@),
{
    IdracError {
        kind: FailureKind::HttpStatusFailure,
        message: joined("Failed to get power state: HTTP ", status_line),
    }
}

/// The failure for a reset answered with another status than 200 or 204.
pub fn reset_failure(status_line: &str, body: &str) -> (error: IdracError)
    ensures
        error@ == reset_failure_of(status_line@, body@),
{
    let mut message = joined("Failed to set power state: HTTP ", status_line);
    message.append(" - ");
    message.append(body);
    IdracError { kind: FailureKind::HttpStatusFailure, message }
}

/// Reads the power state out of the parsed body of the system resource.
fn read_power_state(parsed: Result<serde_json::Value, String>) -> (outcome: Result<String, IdracError>)
    ensures
        answer_seen(outcome) == power_state_reading(parse_seen(parsed)),
{
    match parsed {
        Ok(document) => Ok(power_state_or_unknown(text_member(&document, "PowerState"))),
        Err(message) => Err(parse_failure(message.as_str())),
    }
}

/// The failure for a transport that got no answer.
pub fn connection_failure(cause: &str) -> (error: IdracError)
    ensures
        error@ == connect_failure(cause@),
{
    IdracError {
        kind: FailureKind::ConnectFailure,
        message: joined("Failed to connect to iDRAC: ", cause),
    }
}

/// The static credential of the controller: where it is and who asks.
pub struct IdracClient {
    base_url: String,
    username: String,
    password: String,
}

/// The credential as contracts see it.
pub struct Credential {
    pub base_url: Seq<char>,
    pub username: Seq<char>,
    pub password: Seq<char>,
}

impl View for IdracClient {
    type V = Credential;

    closed spec fn view(&self) -> Credential {
        Credential { base_url: self.base_url@, username: self.username@, password: self.password@ }
    }
}

/// A user name and a password are short enough for their base64 encoding to
/// have a length that the machine can count.
pub open spec fn encodable(username: Seq<char>, password: Seq<char>) -> bool {
    &&& encode_utf8(username).len() <= usize::MAX / 4
    &&& encode_utf8(password).len() <= usize::MAX / 4
}

/// The bytes that HTTP Basic authentication encodes: the user name, a colon,
/// the password.
pub open spec fn credential_bytes(username: Seq<char>, password: Seq<char>) -> Seq<u8> {
    encode_utf8(username) + seq![58u8] + encode_utf8(password)
}

/// The value of the `Authorization` header for a credential.
pub open spec fn auth_header(credential: Credential) -> Seq<char> {
    "Basic "@ + base64_standard(credential_bytes(credential.username, credential.password))
}

/// The request that reads the system resource.
pub open spec fn power_state_request(credential: Credential) -> RequestView {
    RequestView {
        method: Method::Get,
        url: credential.base_url + "/redfish/v1/Systems/System.Embedded.1"@,
        authorization: auth_header(credential),
        content_type: "application/json"@,
        body: None,
    }
}

/// The request that posts a reset action.
pub open spec fn reset_action_request(credential: Credential, reset: ResetType) -> RequestView {
    RequestView {
        method: Method::Post,
        url: credential.base_url
            + "/redfish/v1/Systems/System.Embedded.1/Actions/ComputerSystem.Reset"@,
        authorization: auth_header(credential),
        content_type: "application/json"@,
        body: Some(json_object_text("ResetType"@, reset.name())),
    }
}

/// What configuring the client from the three settings gives: the first
/// setting that is missing is named, in the order host, user name, password.
pub open spec fn configuration(
    host: Option<Seq<char>>,
    username: Option<Seq<char>>,
    password: Option<Seq<char>>,
) -> Result<Credential, Seq<char>> {
    if host is None {
        Err("IDRAC_HOST environment variable not set"@)
    } else if username is None {
        Err("IDRAC_USERNAME environment variable not set"@)
    } else if password is None {
        Err("IDRAC_PASSWORD environment variable not set"@)
    } else if !encodable(username->0, password->0) {
        Err("IDRAC_USERNAME or IDRAC_PASSWORD is too long"@)
    } else {
        Ok(Credential { base_url: host->0, username: username->0, password: password->0 })
    }
}

/// A setting as contracts see it.
pub open spec fn setting_seen(setting: Option<String>) -> Option<Seq<char>> {
    match setting {
        Some(text) => Some(text@),
        None => None,
    }
}

/// The outcome of configuring as contracts see it.
pub open spec fn configured_seen(outcome: Result<IdracClient, String>) -> Result<Credential, Seq<char>> {
    match outcome {
        Ok(client) => Ok(client@),
        Err(message) => Err(message@),
    }
}

/// The value of a Basic `Authorization` header around encoded credentials.
pub fn basic_header(encoded: &str) -> (header: String)
    ensures
        header@ == "Basic "@ + encoded@,
{
    joined("Basic ", encoded)
}

/// Appends the bytes of `more` to `bytes`.
fn append_bytes(bytes: &mut Vec<u8>, more: &[u8])
    ensures
        final(bytes)@ == old(bytes)@ + more@,
{
    let ghost before = bytes@;
    let mut i: usize = 0;
    while i < more.len()
        invariant
            i <= more.len(),
            bytes@ == before + more@.subrange(0, i as int),
        decreases more.len() - i,
    {
        bytes.push(more[i]);
        proof {
            assert(bytes@ =~= before + more@.subrange(0, i + 1));
        }
        i += 1;
    }
    proof {
        assert(more@.subrange(0, more.len() as int) =~= more@);
    }
}

impl IdracClient {
    #[verifier::type_invariant]
    spec fn credentials_encodable(&self) -> bool {
        encodable(self.username@, self.password@)
    }

    /// Configures the client from the three settings of its environment: the
    /// controller's base URL, the user name and the password. Each may be
    /// missing.
    pub fn from_env(host: Option<String>, username: Option<String>, password: Option<String>) -> (outcome:
        Result<IdracClient, String>)
        ensures
            configured_seen(outcome) == configuration(
                setting_seen(host),
                setting_seen(username),
                setting_seen(password),
            ),
    {
        let base_url = match host {
            Some(text) => text,
            None => { return Err("IDRAC_HOST environment variable not set".to_owned()); },
        };
        let username = match username {
            Some(text) => text,
            None => { return Err("IDRAC_USERNAME environment variable not set".to_owned()); },
        };
        let password = match password {
            Some(text) => text,
            None => { return Err("IDRAC_PASSWORD environment variable not set".to_owned()); },
        };
        if username.as_str().as_bytes().len() > usize::MAX / 4 || password.as_str().as_bytes().len()
            > usize::MAX / 4 {
            return Err("IDRAC_USERNAME or IDRAC_PASSWORD is too long".to_owned());
        }
        Ok(IdracClient { base_url, username, password })
    }

    /// The value of the `Authorization` header: HTTP Basic, computed from the
    /// credential on every call.
    pub fn get_auth_header(&self) -> (header: String)
        ensures
            header@ == auth_header(self@),
    {
        proof {
            use_type_invariant(self);
        }
        let mut bytes: Vec<u8> = Vec::new();
        append_bytes(&mut bytes, self.username.as_str().as_bytes());
        bytes.push(58u8);
        append_bytes(&mut bytes, self.password.as_str().as_bytes());
        proof {
            assert(bytes@ =~= credential_bytes(self.username@, self.password@));
        }
        let encoded = encode_base64(bytes.as_slice());
        basic_header(encoded.as_str())
    }

    /// The request that reads the system resource.
    pub fn status_request(&self) -> (request: RemoteRequest)
        ensures
            request@ == power_state_request(self@),
    {
        RemoteRequest {
            method: Method::Get,
            url: joined(self.base_url.as_str(), "/redfish/v1/Systems/System.Embedded.1"),
            authorization: self.get_auth_header(),
            content_type: "application/json".to_owned(),
            body: None,
        }
    }

    /// The request that posts the reset action `reset`.
    pub fn reset_request(&self, reset: ResetType) -> (request: RemoteRequest)
        ensures
            request@ == reset_action_request(self@, reset),
    {
        RemoteRequest {
            method: Method::Post,
            url: joined(
                self.base_url.as_str(),
                "/redfish/v1/Systems/System.Embedded.1/Actions/ComputerSystem.Reset",
            ),
            authorization: self.get_auth_header(),
            content_type: "application/json".to_owned(),
            body: Some(json_object("ResetType", reset.as_str())),
        }
    }

    /// Reads the power state out of the reply to `status_request`. A success
    /// without the field, or with a field that is no string, reads as
    /// `Unknown`. A failure for the status holds the status's three digits.
    pub fn get_power_state(&self, reply: Result<RemoteResponse, String>) -> (outcome: Result<
        String,
        IdracError,
    >)
        ensures
            answer_seen(outcome) == power_state_answer(reply_seen(reply)),
            power_state_failure_quotes(reply_seen(reply), answer_seen(outcome)),
    {
        match reply {
            Err(cause) => Err(connection_failure(cause.as_str())),
            Ok(response) => {
                let code = response.status();
                if code == 200 {
                    match response.body() {
                        Payload::Text(text) => read_power_state(parse_json(text.as_str())),
                        Payload::Unreadable(cause) => Err(parse_failure(cause.as_str())),
                    }
                } else {
                    let status_line = status_text(code);
                    proof {
                        lemma_power_state_failure_quotes_status(status_line@, code);
                    }
                    Err(power_state_failure(status_line.as_str()))
                }
            },
        }
    }

    /// Reads the reply to `reset_request(reset)`. A failure for the status
    /// holds the status's three digits and the text of the body.
    pub fn set_power_state(&self, reset: ResetType, reply: Result<RemoteResponse, String>) -> (outcome:
        Result<String, IdracError>)
        ensures
            answer_seen(outcome) == reset_answer(reset, reply_seen(reply)),
            reset_failure_quotes(reply_seen(reply), answer_seen(outcome)),
    {
        match reply {
            Err(cause) => Err(connection_failure(cause.as_str())),
            Ok(response) => {
                let code = response.status();
                if code == 204 || code == 200 {
                    Ok(joined("Successfully executed: ", reset.as_str()))
                } else {
                    let status_line = status_text(code);
                    let text = match response.body() {
                        Payload::Text(text) => text.as_str(),
                        Payload::Unreadable(_) => "",
                    };
                    proof {
                        reveal_strlit("");
                        assert(""@ =~= Seq::<char>::empty());
                        lemma_reset_failure_quotes_status_and_body(status_line@, text@, code);
                    }
                    Err(reset_failure(status_line.as_str(), text))
                }
            },
        }
    }

    /// Reads the reply to a request to power the machine on.
    pub fn power_on(&self, reply: Result<RemoteResponse, String>) -> (outcome: Result<String, IdracError>)
        ensures
            answer_seen(outcome) == reset_answer(ResetType::On, reply_seen(reply)),
            reset_failure_quotes(reply_seen(reply), answer_seen(outcome)),
    {
        self.set_power_state(ResetType::On, reply)
    }

    /// Reads the reply to a request to cut the power.
    pub fn power_off(&self, reply: Result<RemoteResponse, String>) -> (outcome: Result<String, IdracError>)
        ensures
            answer_seen(outcome) == reset_answer(ResetType::ForceOff, reply_seen(reply)),
            reset_failure_quotes(reply_seen(reply), answer_seen(outcome)),
    {
        self.set_power_state(ResetType::ForceOff, reply)
    }

    /// Reads the reply to a request to shut the operating system down. A
    /// success means that the controller took the request, no more.
    pub fn graceful_shutdown(&self, reply: Result<RemoteResponse, String>) -> (outcome: Result<
        String,
        IdracError,
    >)
        ensures
            answer_seen(outcome) == reset_answer(ResetType::GracefulShutdown, reply_seen(reply)),
            reset_failure_quotes(reply_seen(reply), answer_seen(outcome)),
    {
        self.set_power_state(ResetType::GracefulShutdown, reply)
    }
}

} // verus!

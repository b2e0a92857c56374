use crate::json::{member, JsonValue};
use crate::text::{decimal, opt_text, push_decimal};
use vstd::prelude::*;
use vstd::string::*;

verus! {

/// The request header that carries the access token on every upstream call.
pub const TOKEN_HEADER: &'static str = "X-Access-Token";

/// Why an upstream call produced no result.
pub enum UpstreamError {
    /// The service answered with a status outside 200..=299; `body` is its response text.
    Status { code: u16, body: String },
    /// A send was accepted but its answer holds no `response.message` object.
    InvalidResponseFormat,
    /// The request could not be made, or its answer not read.
    Transport(String),
    /// The answer could not be decoded into the expected type.
    Decode(String),
}

/// The status codes that count as success.
pub open spec fn is_success(code: u16) -> bool {
    200 <= code && code < 300
}

/// Keeps the body of a successful answer; any other status is a failure that
/// carries the status and the body.
pub fn check_status(code: u16, body: String) -> (r: Result<String, UpstreamError>)
    ensures
        is_success(code) ==> r == Ok::<String, UpstreamError>(body),
        !is_success(code) ==> r == Err::<String, UpstreamError>(UpstreamError::Status { code, body }),
{
    if 200 <= code && code < 300 {
        Ok(body)
    } else {
        Err(UpstreamError::Status { code, body })
    }
}

/// The reason phrase that the HTTP standard gives a status code, if any.
pub uninterp spec fn canonical_reason_of(code: u16) -> Option<Seq<char>>;

/// Relies on http's `StatusCode::from_u16` and `StatusCode::canonical_reason`
/// (through reqwest): a fixed table from code to phrase.
#[verifier::external_body]
fn canonical_reason(code: u16) -> (r: Option<String>)
    ensures
        opt_text(r) == canonical_reason_of(code),
{
    match reqwest::StatusCode::from_u16(code) {
        Ok(status) => status.canonical_reason().map(String::from),
        Err(_) => None,
    }
}

/// A status as HTTP writes it: the code, a space, and the reason phrase
/// (or a mark that the code has none).
pub open spec fn status_line(code: u16, reason: Option<Seq<char>>) -> Seq<char> {
    decimal(code as nat) + " "@ + match reason {
        Some(r) => r,
        None => "<unknown status code>"@,
    }
}

/// The text that reports a failed status.
pub open spec fn status_failure(code: u16, reason: Option<Seq<char>>, body: Seq<char>) -> Seq<char> {
    "API request failed with status "@ + status_line(code, reason) + ": "@ + body
}

/// Writes the report of a failed status, given the code's reason phrase.
pub fn status_failure_text(code: u16, reason: Option<String>, body: &str) -> (r: String)
    ensures
        r@ == status_failure(code, opt_text(reason), body@),
{
    let mut out = String::from_str("API request failed with status ");
    push_decimal(&mut out, code as u64);
    out.append(" ");
    match &reason {
        Some(phrase) => out.append(phrase.as_str()),
        None => out.append("<unknown status code>"),
    }
    out.append(": ");
    out.append(body);
    out
}

/// The human-readable text of an upstream failure.
pub open spec fn error_text(e: UpstreamError) -> Seq<char> {
    match e {
        UpstreamError::Status { code, body } => status_failure(code, canonical_reason_of(code), body@),
        UpstreamError::InvalidResponseFormat => "Invalid response format"@,
        UpstreamError::Transport(detail) => detail@,
        UpstreamError::Decode(detail) => detail@,
    }
}

impl UpstreamError {
    /// The human-readable text of this failure.
    pub fn describe(&self) -> (r: String)
        ensures
            r@ == error_text(*self),
    {
        match self {
            UpstreamError::Status { code, body } => {
                let reason = canonical_reason(*code);
                status_failure_text(*code, reason, body.as_str())
            },
            UpstreamError::InvalidResponseFormat => String::from_str("Invalid response format"),
            UpstreamError::Transport(detail) => detail.clone(),
            UpstreamError::Decode(detail) => detail.clone(),
        }
    }
}

/// The address of one page of the caller's groups, a hundred to a page.
pub open spec fn groups_page_address(page: nat) -> Seq<char> {
    "https://api.groupme.com/v3/groups?page="@ + decimal(page) + "&per_page=100"@
}

/// The address of one page of groups.
pub fn groups_page_url(page: u64) -> (r: String)
    ensures
        r@ == groups_page_address(page as nat),
{
    let mut out = String::from_str("https://api.groupme.com/v3/groups?page=");
    push_decimal(&mut out, page);
    out.append("&per_page=100");
    out
}

/// The address of the twenty most recent messages of a group.
pub open spec fn messages_address(group_id: Seq<char>) -> Seq<char> {
    "https://api.groupme.com/v3/groups/"@ + group_id + "/messages?limit=20"@
}

/// The address of a group's recent messages.
pub fn messages_url(group_id: &str) -> (r: String)
    ensures
        r@ == messages_address(group_id@),
{
    let mut out = String::from_str("https://api.groupme.com/v3/groups/");
    out.append(group_id);
    out.append("/messages?limit=20");
    out
}

/// The address to which a message for a group is posted.
pub open spec fn send_message_address(group_id: Seq<char>) -> Seq<char> {
    "https://api.groupme.com/v3/groups/"@ + group_id + "/messages"@
}

/// The address to post a group's messages to.
pub fn send_message_url(group_id: &str) -> (r: String)
    ensures
        r@ == send_message_address(group_id@),
{
    let mut out = String::from_str("https://api.groupme.com/v3/groups/");
    out.append(group_id);
    out.append("/messages");
    out
}

/// The address of the signed-in user's profile.
pub open spec fn current_user_address() -> Seq<char> {
    "https://api.groupme.com/v3/users/me"@
}

/// The address of the signed-in user's profile.
pub fn current_user_url() -> (r: String)
    ensures
        r@ == current_user_address(),
{
    String::from_str("https://api.groupme.com/v3/users/me")
}

/// A lowercase hexadecimal digit.
pub open spec fn is_lower_hex(c: char) -> bool {
    ('0' <= c && c <= '9') || ('a' <= c && c <= 'f')
}

/// A random (version 4) UUID in its hyphenated lowercase form.
pub open spec fn is_random_uuid_text(s: Seq<char>) -> bool {
    &&& s.len() == 36
    &&& forall|i: int| 0 <= i < 36 ==> (
        if i == 8 || i == 13 || i == 18 || i == 23 { s[i] == '-' } else { is_lower_hex(#[trigger] s[i]) })
    &&& s[14] == '4'
}

/// Relies on uuid's `Uuid::new_v4` and its `Display`: a fresh random version-4
/// UUID written as 36 lowercase characters with hyphens.
#[verifier::external_body]
fn new_idempotency_key() -> (r: String)
    ensures
        is_random_uuid_text(r@),
{
    uuid::Uuid::new_v4().to_string()
}

/// `v` is the JSON string `s`.
pub open spec fn is_json_str(v: JsonValue, s: Seq<char>) -> bool {
    match v {
        JsonValue::Str(t) => t@ == s,
        _ => false,
    }
}

/// The body of a send: `{"message": {"source_guid": key, "text": text}}`.
pub open spec fn is_send_payload(v: JsonValue, key: Seq<char>, text: Seq<char>) -> bool {
    match v {
        JsonValue::Object(outer) => {
            &&& outer@.len() == 1
            &&& outer@[0].0@ == "message"@
            &&& match outer@[0].1 {
                JsonValue::Object(inner) => {
                    &&& inner@.len() == 2
                    &&& inner@[0].0@ == "source_guid"@
                    &&& is_json_str(inner@[0].1, key)
                    &&& inner@[1].0@ == "text"@
                    &&& is_json_str(inner@[1].1, text)
                },
                _ => false,
            }
        },
        _ => false,
    }
}

/// The body that sends `text` under the idempotency key `key`.
pub fn send_payload(key: &str, text: &str) -> (r: JsonValue)
    ensures
        is_send_payload(r, key@, text@),
{
    let inner = vec![
        (String::from_str("source_guid"), JsonValue::Str(String::from_str(key))),
        (String::from_str("text"), JsonValue::Str(String::from_str(text))),
    ];
    let outer = vec![(String::from_str("message"), JsonValue::Object(inner))];
    JsonValue::Object(outer)
}

/// Draws a fresh idempotency key and builds the body that sends `text` under
/// it; the key is returned beside the body.
pub fn prepare_send(text: &str) -> (r: (String, JsonValue))
    ensures
        is_random_uuid_text(r.0@),
        is_send_payload(r.1, r.0@, text@),
{
    let key = new_idempotency_key();
    let body = send_payload(key.as_str(), text);
    (key, body)
}

/// The message object that a send's answer echoes, at `response.message`.
pub open spec fn sent_message_path(v: JsonValue) -> Option<JsonValue> {
    match member(v, "response"@) {
        Some(r) => member(r, "message"@),
        None => None,
    }
}

/// Finds the echoed message in a send's answer; its absence is a failure of
/// its own kind.
pub fn sent_message_of(answer: &JsonValue) -> (r: Result<&JsonValue, UpstreamError>)
    ensures
        match r {
            Ok(m) => sent_message_path(*answer) == Some(*m),
            Err(e) => sent_message_path(*answer) is None && e is InvalidResponseFormat,
        },
{
    match answer.get("response") {
        Some(response) => match response.get("message") {
            Some(m) => Ok(m),
            None => Err(UpstreamError::InvalidResponseFormat),
        },
        None => Err(UpstreamError::InvalidResponseFormat),
    }
}

} // verus!

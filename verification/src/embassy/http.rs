//! The HTTP API's request handling: which runtime command a request sends
//! and which response it gets. Bodies arrive decoded from JSON (or `None`
//! when they were not valid JSON of the expected shape), and response bodies
//! arrive encoded.

use vstd::prelude::*;

use crate::api::{update_request_of, PowerPayload, UpdatePayload};
use crate::embassy::tasks::RuntimeCommand;
use crate::embassy::wifi::{CommandModel, CredentialsModel, WifiCommand, WifiCredentials};
use crate::model::UpdateRequest;
use crate::text::{owned, str_eq};

verus! {

/// HTTP status 200.
pub const STATUS_OK: u16 = 200;

/// HTTP status 204.
pub const STATUS_NO_CONTENT: u16 = 204;

/// HTTP status 400.
pub const STATUS_BAD_REQUEST: u16 = 400;

/// HTTP status 500.
pub const STATUS_INTERNAL_SERVER_ERROR: u16 = 500;

/// HTTP status 503.
pub const STATUS_SERVICE_UNAVAILABLE: u16 = 503;

/// Content type for JSON responses.
pub fn json_content_type() -> (t: &'static str)
    ensures
        t@ == "application/json"@,
{
    "application/json"
}

/// Content type for plain text responses.
pub fn text_content_type() -> (t: &'static str)
    ensures
        t@ == "text/plain; charset=utf-8"@,
{
    "text/plain; charset=utf-8"
}

/// API response produced by the handlers.
#[derive(Debug)]
pub struct ApiResponse {
    /// HTTP status code.
    pub status: u16,
    /// MIME content type for the response body.
    pub content_type: &'static str,
    /// Response body.
    pub body: String,
}

/// Mathematical model of an [`ApiResponse`].
pub struct ResponseModel {
    pub status: u16,
    pub content_type: Seq<char>,
    pub body: Seq<char>,
}

impl View for ApiResponse {
    type V = ResponseModel;

    open spec fn view(&self) -> ResponseModel {
        ResponseModel { status: self.status, content_type: self.content_type@, body: self.body@ }
    }
}

/// A JSON response with status 200.
pub open spec fn json_response(body: Seq<char>) -> ResponseModel {
    ResponseModel { status: 200, content_type: "application/json"@, body }
}

/// A plain-text response.
pub open spec fn text_response(status: u16, message: Seq<char>) -> ResponseModel {
    ResponseModel { status, content_type: "text/plain; charset=utf-8"@, body: message }
}

/// A 204 response with no body.
pub open spec fn no_content_response() -> ResponseModel {
    ResponseModel { status: 204, content_type: "text/plain; charset=utf-8"@, body: Seq::empty() }
}

impl ApiResponse {
    /// Create a JSON response (status 200).
    pub fn json(body: String) -> (r: Self)
        ensures
            r@ == json_response(body@),
    {
        ApiResponse { status: STATUS_OK, content_type: json_content_type(), body }
    }

    /// Create a plain text response.
    pub fn text(status: u16, message: &str) -> (r: Self)
        ensures
            r@ == text_response(status, message@),
    {
        ApiResponse { status, content_type: text_content_type(), body: owned(message) }
    }

    /// Create a 204 No Content response.
    pub fn no_content() -> (r: Self)
        ensures
            r@ == no_content_response(),
    {
        proof {
            reveal_strlit("");
        }
        let body = owned("");
        assert(body@ =~= Seq::<char>::empty());
        ApiResponse { status: STATUS_NO_CONTENT, content_type: text_content_type(), body }
    }
}

/// The texts read as `true`: `1`, `true`, `True` and `TRUE`.
pub open spec fn truthy(s: Seq<char>) -> bool {
    s == "1"@ || s == "true"@ || s == "True"@ || s == "TRUE"@
}

/// Whether a text reads as `true`.
pub fn parse_bool_any(value: &str) -> (b: bool)
    ensures
        b == truthy(value@),
{
    str_eq(value, "1") || str_eq(value, "true") || str_eq(value, "True") || str_eq(value, "TRUE")
}

/// The `timerEnabled` member of a JSON timer body.
#[derive(Debug)]
pub enum TimerValue {
    /// A JSON boolean.
    Bool(bool),
    /// A JSON number, with its value when it is an integer that fits `i64`.
    Number(Option<i64>),
    /// A JSON string.
    Text(String),
    /// Any other JSON value.
    Other,
}

/// Whether a timer value enables the timer: a boolean as is, a number when
/// it is a non-zero integer, a string when it reads as `true`.
pub open spec fn timer_value_enabled(v: TimerValue) -> bool {
    match v {
        TimerValue::Bool(b) => b,
        TimerValue::Number(n) => match n {
            Some(i) => i != 0,
            None => false,
        },
        TimerValue::Text(t) => truthy(t@),
        TimerValue::Other => false,
    }
}

/// Whether a timer value enables the timer.
pub fn timer_enabled_of(value: &TimerValue) -> (b: bool)
    ensures
        b == timer_value_enabled(*value),
{
    match value {
        TimerValue::Bool(b) => *b,
        TimerValue::Number(n) => match n {
            Some(i) => *i != 0,
            None => false,
        },
        TimerValue::Text(t) => parse_bool_any(t.as_str()),
        TimerValue::Other => false,
    }
}

/// The body of a timer request.
#[derive(Debug)]
pub enum TimerBody {
    /// No body.
    Empty,
    /// A body that is not a JSON object with a `timerEnabled` member.
    Invalid,
    /// The body's `timerEnabled` member.
    Value(TimerValue),
}

/// What `/api/timer` does: a `timerEnabled` query parameter wins over the
/// body; the command sent, if any, and the response.
pub open spec fn timer_outcome(query: Option<Seq<char>>, body: TimerBody) -> (Option<RuntimeCommand>, ResponseModel) {
    match query {
        Some(q) => (Some(RuntimeCommand::ApplyTimer(truthy(q))), no_content_response()),
        None => match body {
            TimerBody::Empty => (None, text_response(400, "Missing timer payload"@)),
            TimerBody::Invalid => (None, text_response(400, "Invalid timer payload"@)),
            TimerBody::Value(v) => (Some(RuntimeCommand::ApplyTimer(timer_value_enabled(v))), no_content_response()),
        },
    }
}

/// The view of an optional text.
pub open spec fn opt_text(s: Option<&str>) -> Option<Seq<char>> {
    match s {
        Some(t) => Some(t@),
        None => None,
    }
}

/// API handler for `/api/timer`.
pub fn handle_timer(query_timer_enabled: Option<&str>, body: TimerBody) -> (r: (Option<RuntimeCommand>, ApiResponse))
    ensures
        (r.0, r.1@) == timer_outcome(opt_text(query_timer_enabled), body),
{
    if let Some(t) = query_timer_enabled {
        return (Some(RuntimeCommand::ApplyTimer(parse_bool_any(t))), ApiResponse::no_content());
    }
    match body {
        TimerBody::Empty => (None, ApiResponse::text(STATUS_BAD_REQUEST, "Missing timer payload")),
        TimerBody::Invalid => (None, ApiResponse::text(STATUS_BAD_REQUEST, "Invalid timer payload")),
        TimerBody::Value(v) => {
            let enabled = timer_enabled_of(&v);
            (Some(RuntimeCommand::ApplyTimer(enabled)), ApiResponse::no_content())
        },
    }
}

/// API handler for `/api/power`: `None` is a body that did not decode.
pub fn handle_power(payload: Option<PowerPayload>) -> (r: (Option<RuntimeCommand>, ApiResponse))
    ensures
        (r.0, r.1@) == (match payload {
            Some(p) => (Some(RuntimeCommand::ApplyPower(p.winder_enabled)), no_content_response()),
            None => (None::<RuntimeCommand>, text_response(400, "Invalid power payload"@)),
        }),
{
    match payload {
        Some(p) => (Some(RuntimeCommand::ApplyPower(p.winder_enabled)), ApiResponse::no_content()),
        None => (None, ApiResponse::text(STATUS_BAD_REQUEST, "Invalid power payload")),
    }
}

/// What `/api/update` does with a decoded payload (`None`: not decoded).
pub open spec fn update_outcome(payload: Option<crate::api::UpdatePayloadModel>) -> (
    Option<RuntimeCommand>,
    ResponseModel,
) {
    match payload {
        Some(p) => match update_request_of(p) {
            Ok(u) => (Some(RuntimeCommand::ApplyUpdate(u)), no_content_response()),
            Err(_) => (None, text_response(400, "Invalid update payload"@)),
        },
        None => (None, text_response(400, "Invalid update payload"@)),
    }
}

/// API handler for `/api/update`.
pub fn handle_update(payload: Option<UpdatePayload>) -> (r: (Option<RuntimeCommand>, ApiResponse))
    ensures
        (r.0, r.1@) == update_outcome(match payload {
            Some(p) => Some(p@),
            None => None,
        }),
{
    match payload {
        Some(p) => match UpdateRequest::try_from(p) {
            Ok(update) => (Some(RuntimeCommand::ApplyUpdate(update)), ApiResponse::no_content()),
            Err(_) => (None, ApiResponse::text(STATUS_BAD_REQUEST, "Invalid update payload")),
        },
        None => (None, ApiResponse::text(STATUS_BAD_REQUEST, "Invalid update payload")),
    }
}

/// API handler for `/api/status`, given the encoded status (`None`: the
/// encoding failed).
pub fn handle_status(status_json: Option<String>) -> (r: ApiResponse)
    ensures
        r@ == (match status_json {
            Some(j) => json_response(j@),
            None => text_response(500, "Failed to serialize status"@),
        }),
{
    match status_json {
        Some(json) => ApiResponse::json(json),
        None => ApiResponse::text(STATUS_INTERNAL_SERVER_ERROR, "Failed to serialize status"),
    }
}

/// API handler for `/api/reset`: the reset command is always sent; the
/// response carries the encoded reset payload.
pub fn handle_reset(reset_json: Option<String>) -> (r: (RuntimeCommand, ApiResponse))
    ensures
        r.0 == RuntimeCommand::Reset,
        r.1@ == (match reset_json {
            Some(j) => json_response(j@),
            None => text_response(500, "Failed to serialize reset"@),
        }),
{
    let response = match reset_json {
        Some(json) => ApiResponse::json(json),
        None => ApiResponse::text(STATUS_INTERNAL_SERVER_ERROR, "Failed to serialize reset"),
    };
    (RuntimeCommand::Reset, response)
}

/// What `/api/wifi` does: 503 when provisioning is disabled; otherwise the
/// decoded `(ssid, password)` becomes a credentials command.
pub open spec fn wifi_outcome(provisioning_enabled: bool, payload: Option<(Seq<char>, Seq<char>)>) -> (
    Option<CommandModel>,
    ResponseModel,
) {
    if !provisioning_enabled {
        (None, text_response(503, "WiFi provisioning disabled"@))
    } else {
        match payload {
            Some((ssid, password)) => (
                Some(CommandModel::SetCredentials(CredentialsModel { ssid, password })),
                no_content_response(),
            ),
            None => (None, text_response(400, "Invalid wifi payload"@)),
        }
    }
}

/// API handler for `/api/wifi`.
pub fn handle_wifi(provisioning_enabled: bool, payload: Option<(String, String)>) -> (r: (
    Option<WifiCommand>,
    ApiResponse,
))
    ensures
        (match r.0 {
            Some(c) => Some(c@),
            None => None,
        }, r.1@) == wifi_outcome(provisioning_enabled, match payload {
            Some((s, p)) => Some((s@, p@)),
            None => None,
        }),
{
    if !provisioning_enabled {
        return (None, ApiResponse::text(STATUS_SERVICE_UNAVAILABLE, "WiFi provisioning disabled"));
    }
    match payload {
        Some((ssid, password)) => {
            let creds = WifiCredentials::new(ssid, password);
            (Some(WifiCommand::SetCredentials(creds)), ApiResponse::no_content())
        },
        None => (None, ApiResponse::text(STATUS_BAD_REQUEST, "Invalid wifi payload")),
    }
}

/// API handler for CORS preflight requests.
pub fn cors_preflight() -> (r: ApiResponse)
    ensures
        r@ == text_response(200, "Ok"@),
{
    ApiResponse::text(STATUS_OK, "Ok")
}

} // verus!

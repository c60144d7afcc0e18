//! Messages that the collector sends to the agent.

use crate::capture::text_view;
use vstd::prelude::*;
use vstd::string::*;

verus! {

/// A parsed JSON document.
#[verifier::external_type_specification]
#[verifier::external_body]
pub struct ExJsonValue(serde_json::Value);

/// Why a text is not a JSON document.
#[verifier::external_type_specification]
#[verifier::external_body]
pub struct ExJsonError(serde_json::Error);

/// The JSON document that a text holds, if it holds one.
pub uninterp spec fn parsed_json(text: Seq<char>) -> Option<serde_json::Value>;

/// The member of a JSON object under a key, if the value is an object and
/// has that member.
pub uninterp spec fn json_member(value: serde_json::Value, key: Seq<char>) -> Option<
    serde_json::Value,
>;

/// The text of a JSON string, if the value is one.
pub uninterp spec fn json_text(value: serde_json::Value) -> Option<Seq<char>>;

/// Calls `serde_json::from_str` for a `serde_json::Value`.
/// Trusted: the result depends on the text alone.
#[verifier::external_body]
fn parse_json(text: &str) -> (parsed: Result<serde_json::Value, serde_json::Error>)
    ensures
        parsed.ok() == parsed_json(text@),
{
    serde_json::from_str::<serde_json::Value>(text)
}

/// Calls `serde_json::Value::get` with a text key.
/// Trusted: the result depends on the value and the key alone.
#[verifier::external_body]
fn member<'a>(value: &'a serde_json::Value, key: &str) -> (found: Option<&'a serde_json::Value>)
    ensures
        match found {
            Some(inner) => json_member(*value, key@) == Some(*inner),
            None => json_member(*value, key@) is None,
        },
{
    value.get(key)
}

/// Calls `serde_json::Value::as_str`.
/// Trusted: the result depends on the value alone.
#[verifier::external_body]
fn text_of(value: &serde_json::Value) -> (text: Option<String>)
    ensures
        text_view(text) == json_text(*value),
{
    value.as_str().map(|s| s.to_string())
}

/// Message type of the acknowledgment of a registration.
pub const REGISTERED_TYPE: &'static str = "registered";

/// Message type of an error report.
pub const ERROR_TYPE: &'static str = "error";

/// Error code used when an error report names none.
pub const UNKNOWN_CODE: &'static str = "unknown";

/// Description used when an error report gives none.
pub const UNKNOWN_ERROR: &'static str = "Unknown error";

/// An inbound message, as far as the agent reads it.
#[derive(Clone, Debug)]
pub enum Inbound {
    /// The collector acknowledged the registration.
    Registered,
    /// The collector reported an error.
    Error { code: String, message: String },
    /// A message of a type that the agent does not act on.
    Other { msg_type: String },
    /// Not a JSON object with a text under `type`.
    Unreadable,
}

/// What an inbound message says, as plain text.
pub enum InboundView {
    Registered,
    Error { code: Seq<char>, message: Seq<char> },
    Other { msg_type: Seq<char> },
    Unreadable,
}

impl View for Inbound {
    type V = InboundView;

    open spec fn view(&self) -> InboundView {
        match self {
            Inbound::Registered => InboundView::Registered,
            Inbound::Error { code, message } => InboundView::Error {
                code: code@,
                message: message@,
            },
            Inbound::Other { msg_type } => InboundView::Other { msg_type: msg_type@ },
            Inbound::Unreadable => InboundView::Unreadable,
        }
    }
}

/// The text under a key of an optional JSON object.
pub open spec fn text_member(value: Option<serde_json::Value>, key: Seq<char>) -> Option<
    Seq<char>,
> {
    match value {
        Some(object) => match json_member(object, key) {
            Some(inner) => json_text(inner),
            None => None,
        },
        None => None,
    }
}

/// A text, or a default in its place.
pub open spec fn text_or(text: Option<Seq<char>>, default: Seq<char>) -> Seq<char> {
    match text {
        Some(t) => t,
        None => default,
    }
}

/// How a wire text is read: by the text under `type`, and for an error
/// report by the texts under `code` and `message` of its payload.
pub open spec fn inbound_of(text: Seq<char>) -> InboundView {
    match text_member(parsed_json(text), "type"@) {
        None => InboundView::Unreadable,
        Some(msg_type) => {
            if msg_type == REGISTERED_TYPE@ {
                InboundView::Registered
            } else if msg_type == ERROR_TYPE@ {
                let payload = match parsed_json(text) {
                    Some(object) => json_member(object, "payload"@),
                    None => None,
                };
                InboundView::Error {
                    code: text_or(text_member(payload, "code"@), UNKNOWN_CODE@),
                    message: text_or(text_member(payload, "message"@), UNKNOWN_ERROR@),
                }
            } else {
                InboundView::Other { msg_type }
            }
        },
    }
}

/// Error codes that reject the agent's credentials.
pub open spec fn is_auth_code(code: Seq<char>) -> bool {
    code == "auth_error"@ || code == "invalid_api_key"@
}

/// Whether an inbound message ends the connection: an error report whose
/// code rejects the agent's credentials does, nothing else.
pub open spec fn is_fatal(message: InboundView) -> bool {
    match message {
        InboundView::Error { code, .. } => is_auth_code(code),
        _ => false,
    }
}

/// Whether two texts are the same.
pub fn same_text(a: &str, b: &str) -> (same: bool)
    ensures
        same == (a@ == b@),
{
    String::from_str(a) == String::from_str(b)
}

/// The text under `key` of a JSON object.
fn member_text(value: &serde_json::Value, key: &str) -> (text: Option<String>)
    ensures
        text_view(text) == text_member(Some(*value), key@),
{
    match member(value, key) {
        Some(inner) => text_of(inner),
        None => None,
    }
}

/// Reads one inbound wire text.
pub fn read_inbound(text: &str) -> (message: Inbound)
    ensures
        message@ == inbound_of(text@),
{
    let document = match parse_json(text) {
        Ok(document) => document,
        Err(_) => {
            return Inbound::Unreadable;
        },
    };
    let msg_type = match member_text(&document, "type") {
        Some(msg_type) => msg_type,
        None => {
            return Inbound::Unreadable;
        },
    };
    if same_text(msg_type.as_str(), REGISTERED_TYPE) {
        Inbound::Registered
    } else if same_text(msg_type.as_str(), ERROR_TYPE) {
        let (code, message) = match member(&document, "payload") {
            Some(payload) => (member_text(payload, "code"), member_text(payload, "message")),
            None => (None, None),
        };
        Inbound::Error {
            code: match code {
                Some(code) => code,
                None => String::from_str(UNKNOWN_CODE),
            },
            message: match message {
                Some(message) => message,
                None => String::from_str(UNKNOWN_ERROR),
            },
        }
    } else {
        Inbound::Other { msg_type }
    }
}

/// Whether an inbound message rejects the agent's credentials and so ends
/// the connection.
pub fn rejects_credentials(message: &Inbound) -> (fatal: bool)
    ensures
        fatal == is_fatal(message@),
{
    match message {
        Inbound::Error { code, .. } => same_text(code.as_str(), "auth_error") || same_text(
            code.as_str(),
            "invalid_api_key",
        ),
        _ => false,
    }
}

} // verus!

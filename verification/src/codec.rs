//! The wire format: events and responses as JSON objects.
//!
//! An event is an object with the members `element_id` and `event_type`
//! (strings), `data` (any value) and `correlation_token` (a whole number
//! that fits 32 bits, `null`, or left out). A response is an object with the
//! members `succeeded` (a boolean), `message` (a string, `null` or left
//! out), `payload` (any value; `null` or left out for none) and
//! `correlation_token`. Other members are ignored.

use vstd::prelude::*;
use vstd::pervasive::unreached;
use crate::event::{event_of, response_of, text_of, EventView, ResponseView, UIEvent, UIResponse};
use crate::json::{
    as_flag, as_text, as_unsigned, empty_object, flag_value, is_null, json_parse,
    json_render, json_shape, member, null_value, number_value, object_value, parse, put_member,
    render, shape_member, text_value, JsonShape,
};

verus! {

/// A member that has to be a string: its text, or nothing.
pub open spec fn required_text(shape: JsonShape, name: Seq<char>) -> Option<Seq<char>> {
    match shape_member(shape, name) {
        Some(value) => match json_shape(value) {
            JsonShape::Text(text) => Some(text),
            _ => None,
        },
        None => None,
    }
}

/// A member that has to be a boolean: its truth value, or nothing.
pub open spec fn required_flag(shape: JsonShape, name: Seq<char>) -> Option<bool> {
    match shape_member(shape, name) {
        Some(value) => match json_shape(value) {
            JsonShape::Bool(flag) => Some(flag),
            _ => None,
        },
        None => None,
    }
}

/// A member that may be a string, `null` or missing. The outer `None` marks a
/// member of another kind.
pub open spec fn optional_text(shape: JsonShape, name: Seq<char>) -> Option<Option<Seq<char>>> {
    match shape_member(shape, name) {
        Some(value) => match json_shape(value) {
            JsonShape::Text(text) => Some(Some(text)),
            JsonShape::Null => Some(None),
            _ => None,
        },
        None => Some(None),
    }
}

/// A member that may be a whole number from 0 to `u32::MAX`, `null` or
/// missing. The outer `None` marks anything else.
pub open spec fn optional_token(shape: JsonShape, name: Seq<char>) -> Option<Option<u32>> {
    match shape_member(shape, name) {
        Some(value) => match json_shape(value) {
            JsonShape::Unsigned(number) => if number <= u32::MAX {
                Some(Some(number as u32))
            } else {
                None
            },
            JsonShape::Null => Some(None),
            _ => None,
        },
        None => Some(None),
    }
}

/// A member of any kind, where `null` and a missing member both stand for
/// none.
pub open spec fn optional_value(shape: JsonShape, name: Seq<char>) -> Option<serde_json::Value> {
    match shape_member(shape, name) {
        Some(value) => if json_shape(value) is Null {
            None
        } else {
            Some(value)
        },
        None => None,
    }
}

/// The event that a JSON value holds, if it holds one.
pub open spec fn event_in_value(value: serde_json::Value) -> Option<EventView> {
    let shape = json_shape(value);
    let element_id = required_text(shape, "element_id"@);
    let event_type = required_text(shape, "event_type"@);
    let data = shape_member(shape, "data"@);
    let token = optional_token(shape, "correlation_token"@);
    if element_id is Some && event_type is Some && data is Some && token is Some {
        Some(
            EventView {
                element_id: element_id->Some_0,
                event_type: event_type->Some_0,
                data: data->Some_0,
                request_id: token->Some_0,
            },
        )
    } else {
        None
    }
}

/// The response that a JSON value holds, if it holds one.
pub open spec fn response_in_value(value: serde_json::Value) -> Option<ResponseView> {
    let shape = json_shape(value);
    let success = required_flag(shape, "succeeded"@);
    let message = optional_text(shape, "message"@);
    let token = optional_token(shape, "correlation_token"@);
    if success is Some && message is Some && token is Some {
        Some(
            ResponseView {
                success: success->Some_0,
                message: message->Some_0,
                data: optional_value(shape, "payload"@),
                request_id: token->Some_0,
            },
        )
    } else {
        None
    }
}

/// The event that a text holds: the text has to parse as JSON, and its
/// value has to hold an event.
pub open spec fn decoded_event(text: Seq<char>) -> Option<EventView> {
    match json_parse(text) {
        Some(value) => event_in_value(value),
        None => None,
    }
}

/// The response that a text holds.
pub open spec fn decoded_response(text: Seq<char>) -> Option<ResponseView> {
    match json_parse(text) {
        Some(value) => response_in_value(value),
        None => None,
    }
}

/// Whether a JSON value stands for a correlation token: the number itself,
/// or `null` for none.
pub open spec fn encodes_token(value: serde_json::Value, token: Option<u32>) -> bool {
    match token {
        Some(number) => json_shape(value) == JsonShape::Unsigned(number as u64),
        None => json_shape(value) is Null,
    }
}

/// Whether a JSON value stands for an optional text: the string itself, or
/// `null` for none.
pub open spec fn encodes_text(value: serde_json::Value, text: Option<Seq<char>>) -> bool {
    match text {
        Some(t) => json_shape(value) == JsonShape::Text(t),
        None => json_shape(value) is Null,
    }
}

/// Whether a JSON value stands for an optional payload: the payload itself,
/// or `null` for none.
pub open spec fn encodes_payload(value: serde_json::Value, payload: Option<serde_json::Value>) -> bool {
    match payload {
        Some(p) => value == p,
        None => json_shape(value) is Null,
    }
}

/// Whether a JSON value is the object that an event is written as: its four
/// members and no others.
pub open spec fn encodes_event(value: serde_json::Value, event: EventView) -> bool {
    &&& json_shape(value) is Object
    &&& {
        let members = json_shape(value)->Object_0;
        &&& members.dom() =~= set![
            "element_id"@,
            "event_type"@,
            "data"@,
            "correlation_token"@,
        ]
        &&& json_shape(members["element_id"@]) == JsonShape::Text(event.element_id)
        &&& json_shape(members["event_type"@]) == JsonShape::Text(event.event_type)
        &&& members["data"@] == event.data
        &&& encodes_token(members["correlation_token"@], event.request_id)
    }
}

/// Whether a JSON value is the object that a response is written as: its
/// four members and no others.
pub open spec fn encodes_response(value: serde_json::Value, response: ResponseView) -> bool {
    &&& json_shape(value) is Object
    &&& {
        let members = json_shape(value)->Object_0;
        &&& members.dom() =~= set![
            "succeeded"@,
            "message"@,
            "payload"@,
            "correlation_token"@,
        ]
        &&& json_shape(members["succeeded"@]) == JsonShape::Bool(response.success)
        &&& encodes_text(members["message"@], response.message)
        &&& encodes_payload(members["payload"@], response.data)
        &&& encodes_token(members["correlation_token"@], response.request_id)
    }
}

/// Reads a member that has to be a string.
fn read_text(value: &serde_json::Value, name: &str) -> (text: Option<String>)
    ensures
        text_of(text) == required_text(json_shape(*value), name@),
{
    match member(value, name) {
        Some(found) => match as_text(found) {
            Some(text) => Some(text.to_owned()),
            None => None,
        },
        None => None,
    }
}

/// Reads a member that has to be a boolean.
fn read_flag(value: &serde_json::Value, name: &str) -> (flag: Option<bool>)
    ensures
        flag == required_flag(json_shape(*value), name@),
{
    match member(value, name) {
        Some(found) => as_flag(found),
        None => None,
    }
}

/// Reads a member that may be a string, `null` or missing.
fn read_optional_text(value: &serde_json::Value, name: &str) -> (text: Option<Option<String>>)
    ensures
        text is Some <==> optional_text(json_shape(*value), name@) is Some,
        text is Some ==> optional_text(json_shape(*value), name@) == Some(text_of(text->Some_0)),
{
    match member(value, name) {
        Some(found) => match as_text(found) {
            Some(text) => Some(Some(text.to_owned())),
            None => if is_null(found) {
                Some(None)
            } else {
                None
            },
        },
        None => Some(None),
    }
}

/// Reads a member that may be a correlation token, `null` or missing.
fn read_token(value: &serde_json::Value, name: &str) -> (token: Option<Option<u32>>)
    ensures
        token == optional_token(json_shape(*value), name@),
{
    match member(value, name) {
        Some(found) => match as_unsigned(found) {
            Some(number) => if number <= 0xffff_ffff {
                Some(Some(number as u32))
            } else {
                None
            },
            None => if is_null(found) {
                Some(None)
            } else {
                None
            },
        },
        None => Some(None),
    }
}

/// Reads a member of any kind, with `null` and a missing member for none.
fn read_payload(value: &serde_json::Value, name: &str) -> (payload: Option<serde_json::Value>)
    ensures
        payload == optional_value(json_shape(*value), name@),
{
    match member(value, name) {
        Some(found) => if is_null(found) {
            None
        } else {
            Some(found.clone())
        },
        None => None,
    }
}

/// Reads an event out of a JSON value. Succeeds exactly on the values that
/// hold one.
pub fn event_from_value(value: &serde_json::Value) -> (event: Option<UIEvent>)
    ensures
        event_of(event) == event_in_value(*value),
{
    let element_id = read_text(value, "element_id");
    let event_type = read_text(value, "event_type");
    let data = member(value, "data");
    let token = read_token(value, "correlation_token");
    match (element_id, event_type, data, token) {
        (Some(element_id), Some(event_type), Some(data), Some(request_id)) => Some(
            UIEvent { element_id, event_type, data: data.clone(), request_id },
        ),
        _ => None,
    }
}

/// Reads a response out of a JSON value. Succeeds exactly on the values
/// that hold one.
pub fn response_from_value(value: &serde_json::Value) -> (response: Option<UIResponse>)
    ensures
        response_of(response) == response_in_value(*value),
{
    let success = read_flag(value, "succeeded");
    let message = read_optional_text(value, "message");
    let data = read_payload(value, "payload");
    let token = read_token(value, "correlation_token");
    match (success, message, token) {
        (Some(success), Some(message), Some(request_id)) => Some(
            UIResponse { success, message, data, request_id },
        ),
        _ => None,
    }
}

/// Decodes an event from text. Succeeds exactly on the texts that parse as
/// JSON and hold an event.
pub fn decode_event(text: &str) -> (event: Option<UIEvent>)
    ensures
        event_of(event) == decoded_event(text@),
{
    match parse(text) {
        Ok(value) => event_from_value(&value),
        Err(_) => None,
    }
}

/// Decodes a response from text. Succeeds exactly on the texts that parse
/// as JSON and hold a response.
pub fn decode_response(text: &str) -> (response: Option<UIResponse>)
    ensures
        response_of(response) == decoded_response(text@),
{
    match parse(text) {
        Ok(value) => response_from_value(&value),
        Err(_) => None,
    }
}

/// The four member names of an event are different from each other.
pub proof fn lemma_event_names_distinct()
    ensures
        "element_id"@ != "event_type"@,
        "element_id"@ != "data"@,
        "element_id"@ != "correlation_token"@,
        "event_type"@ != "data"@,
        "event_type"@ != "correlation_token"@,
        "data"@ != "correlation_token"@,
{
    reveal_strlit("element_id");
    reveal_strlit("event_type");
    reveal_strlit("data");
    reveal_strlit("correlation_token");
    assert("element_id"@[1] != "event_type"@[1]);
    assert("element_id"@.len() != "data"@.len());
    assert("element_id"@.len() != "correlation_token"@.len());
    assert("data"@.len() != "correlation_token"@.len());
}

/// The four member names of a response are different from each other.
pub proof fn lemma_response_names_distinct()
    ensures
        "succeeded"@ != "message"@,
        "succeeded"@ != "payload"@,
        "succeeded"@ != "correlation_token"@,
        "message"@ != "payload"@,
        "message"@ != "correlation_token"@,
        "payload"@ != "correlation_token"@,
{
    reveal_strlit("succeeded");
    reveal_strlit("message");
    reveal_strlit("payload");
    reveal_strlit("correlation_token");
    assert("message"@[0] != "payload"@[0]);
    assert("succeeded"@.len() != "message"@.len());
    assert("succeeded"@.len() != "correlation_token"@.len());
    assert("message"@.len() != "correlation_token"@.len());
}

/// Writes a correlation token as a JSON value.
fn token_value(token: Option<u32>) -> (value: serde_json::Value)
    ensures
        encodes_token(value, token),
{
    match token {
        Some(number) => number_value(number),
        None => null_value(),
    }
}

/// Writes an optional text as a JSON value.
fn optional_text_value(text: &Option<String>) -> (value: serde_json::Value)
    ensures
        encodes_text(value, text_of(*text)),
{
    match text {
        Some(t) => text_value(t.clone()),
        None => null_value(),
    }
}

/// Writes an optional payload as a JSON value.
fn payload_value(payload: &Option<serde_json::Value>) -> (value: serde_json::Value)
    ensures
        encodes_payload(value, *payload),
{
    match payload {
        Some(p) => p.clone(),
        None => null_value(),
    }
}

/// Writes an event as a JSON object.
pub fn event_to_value(event: &UIEvent) -> (value: serde_json::Value)
    ensures
        encodes_event(value, event@),
{
    let mut object = empty_object();
    put_member(&mut object, "element_id".to_owned(), text_value(event.element_id.clone()));
    put_member(&mut object, "event_type".to_owned(), text_value(event.event_type.clone()));
    put_member(&mut object, "data".to_owned(), event.data.clone());
    put_member(&mut object, "correlation_token".to_owned(), token_value(event.request_id));
    proof {
        lemma_event_names_distinct();
    }
    object_value(object)
}

/// Writes a response as a JSON object.
pub fn response_to_value(response: &UIResponse) -> (value: serde_json::Value)
    ensures
        encodes_response(value, response@),
{
    let mut object = empty_object();
    put_member(&mut object, "succeeded".to_owned(), flag_value(response.success));
    put_member(&mut object, "message".to_owned(), optional_text_value(&response.message));
    put_member(&mut object, "payload".to_owned(), payload_value(&response.data));
    put_member(&mut object, "correlation_token".to_owned(), token_value(response.request_id));
    proof {
        lemma_response_names_distinct();
    }
    object_value(object)
}

/// Whether a text is what an event is encoded as: the rendering of a JSON
/// object that stands for the event.
pub open spec fn event_text(event: EventView, text: Seq<char>) -> bool {
    exists|value: serde_json::Value| #[trigger] encodes_event(value, event) && text == json_render(value)
}

/// Whether a text is what a response is encoded as.
pub open spec fn response_text(response: ResponseView, text: Seq<char>) -> bool {
    exists|value: serde_json::Value| #[trigger]
        encodes_response(value, response) && text == json_render(value)
}

/// Encodes an event as text.
pub fn encode_event(event: &UIEvent) -> (text: String)
    ensures
        event_text(event@, text@),
{
    let value = event_to_value(event);
    match render(&value) {
        Ok(text) => text,
        Err(_) => unreached(),
    }
}

/// Encodes a response as text.
pub fn encode_response(response: &UIResponse) -> (text: String)
    ensures
        response_text(response@, text@),
{
    let value = response_to_value(response);
    match render(&value) {
        Ok(text) => text,
        Err(_) => unreached(),
    }
}

/// An event that was written as a JSON value is read back from it as the
/// same event.
pub proof fn lemma_event_round_trip(value: serde_json::Value, event: EventView)
    requires
        encodes_event(value, event),
    ensures
        event_in_value(value) == Some(event),
{
    lemma_event_names_distinct();
}

/// A response that was written as a JSON value is read back from it as the
/// same response, unless its payload is `null`: that payload is read back
/// as no payload.
pub proof fn lemma_response_round_trip(value: serde_json::Value, response: ResponseView)
    requires
        encodes_response(value, response),
        response.data is Some ==> !(json_shape(response.data->Some_0) is Null),
    ensures
        response_in_value(value) == Some(response),
{
    lemma_response_names_distinct();
}

} // verus!

//! The two messages that travel between the frontend and the backend.

use vstd::prelude::*;

verus! {

/// One user interaction, as the frontend reports it.
#[derive(Debug, Clone)]
pub struct UIEvent {
    /// Identifier of the element that the interaction happened on.
    pub element_id: String,
    /// Kind of interaction, such as "click" or "change".
    pub event_type: String,
    /// Payload of the interaction. Only the bound handler reads it.
    pub data: serde_json::Value,
    /// Correlation token: pairs an answer on the duplex channel with its
    /// event. Absent on the request channel.
    pub request_id: Option<u32>,
}

/// What became of one event.
#[derive(Debug)]
pub struct UIResponse {
    /// Whether the event was handled successfully.
    pub success: bool,
    /// Message for a human reader.
    pub message: Option<String>,
    /// Payload handed back to the frontend.
    pub data: Option<serde_json::Value>,
    /// Correlation token of the event that this answers.
    pub request_id: Option<u32>,
}

/// An event as a mathematical value.
pub struct EventView {
    pub element_id: Seq<char>,
    pub event_type: Seq<char>,
    pub data: serde_json::Value,
    pub request_id: Option<u32>,
}

/// A response as a mathematical value.
pub struct ResponseView {
    pub success: bool,
    pub message: Option<Seq<char>>,
    pub data: Option<serde_json::Value>,
    pub request_id: Option<u32>,
}

impl View for UIEvent {
    type V = EventView;

    open spec fn view(&self) -> EventView {
        EventView {
            element_id: self.element_id@,
            event_type: self.event_type@,
            data: self.data,
            request_id: self.request_id,
        }
    }
}

impl View for UIResponse {
    type V = ResponseView;

    open spec fn view(&self) -> ResponseView {
        ResponseView {
            success: self.success,
            message: text_of(self.message),
            data: self.data,
            request_id: self.request_id,
        }
    }
}

/// The characters of an optional string.
pub open spec fn text_of(text: Option<String>) -> Option<Seq<char>> {
    match text {
        Some(t) => Some(t@),
        None => None,
    }
}

/// The value of an optional event.
pub open spec fn event_of(event: Option<UIEvent>) -> Option<EventView> {
    match event {
        Some(e) => Some(e@),
        None => None,
    }
}

/// The value of an optional response.
pub open spec fn response_of(response: Option<UIResponse>) -> Option<ResponseView> {
    match response {
        Some(r) => Some(r@),
        None => None,
    }
}

/// The same response under another correlation token.
pub open spec fn with_token(response: ResponseView, token: Option<u32>) -> ResponseView {
    ResponseView { request_id: token, ..response }
}

/// The response that reports a failure: not successful, the reason as its
/// message, no payload.
pub open spec fn failure(reason: Seq<char>, token: Option<u32>) -> ResponseView {
    ResponseView { success: false, message: Some(reason), data: None, request_id: token }
}

} // verus!

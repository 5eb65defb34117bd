//! The request channel: one event in, one response out, nothing kept in
//! between.
//!
//! No correlation token is needed here, since the response comes back on the
//! call that brought the event: every response of this channel leaves
//! without one, also where the event carried one. A body that holds no
//! event is answered with an error that the caller sees.

use vstd::prelude::*;
use crate::codec::{decode_event, decoded_event, encode_response, response_text};
use crate::event::{with_token, EventView, ResponseView, UIEvent, UIResponse};
use crate::registry::{
    bound, event_label, failure_for_unbound, may_answer, Binding, ClickAction, EventHandler,
    EventRegistry,
};

verus! {

/// Why a request got no response.
#[derive(Clone, Copy, Debug, PartialEq, Eq, Structural)]
pub enum RequestError {
    /// The body holds no event.
    Malformed,
}

/// Whether a response may be the answer to an event on this channel: an
/// answer of the dispatch, with its correlation token taken off.
pub open spec fn request_answer<H: EventHandler, A: ClickAction>(
    bindings: Map<Seq<char>, Binding<H, A>>,
    event: EventView,
    response: ResponseView,
) -> bool {
    exists|answer: ResponseView| #[trigger]
        may_answer(bindings, event, answer) && response == with_token(answer, None)
}

/// Whether an outcome may follow from a request's body. A body that holds
/// no event is malformed. A body that holds one is answered with the
/// encoded response to it.
pub open spec fn exchange_allowed<H: EventHandler, A: ClickAction>(
    bindings: Map<Seq<char>, Binding<H, A>>,
    body: Seq<char>,
    outcome: Result<String, RequestError>,
) -> bool {
    match decoded_event(body) {
        None => outcome == Err::<String, RequestError>(RequestError::Malformed),
        Some(event) => {
            &&& outcome is Ok
            &&& exists|response: ResponseView| #[trigger]
                request_answer(bindings, event, response) && response_text(
                    response,
                    outcome->Ok_0@,
                )
        },
    }
}

/// Answers one event: dispatches it and takes the correlation token off the
/// response.
pub fn answer_event<H: EventHandler, A: ClickAction>(
    registry: &EventRegistry<H, A>,
    event: UIEvent,
) -> (response: UIResponse)
    ensures
        request_answer(registry@, event@, response@),
        response@.request_id is None,
{
    let answer = registry.dispatch(event);
    let ghost dispatched = answer@;
    let response = UIResponse {
        success: answer.success,
        message: answer.message,
        data: answer.data,
        request_id: None,
    };
    assert(may_answer(registry@, event@, dispatched) && response@ == with_token(dispatched, None));
    response
}

/// Answers one request, from its body to the text of its response. A body
/// that holds no event is refused as malformed, and nothing is dispatched
/// for it.
pub fn http_event_handler<H: EventHandler, A: ClickAction>(
    registry: &EventRegistry<H, A>,
    body: &str,
) -> (outcome: Result<String, RequestError>)
    ensures
        exchange_allowed(registry@, body@, outcome),
{
    match decode_event(body) {
        None => Err(RequestError::Malformed),
        Some(event) => {
            let response = answer_event(registry, event);
            Ok(encode_response(&response))
        },
    }
}

/// No response of this channel carries a correlation token, whatever the
/// event carried.
pub proof fn lemma_request_answer_has_no_token<H: EventHandler, A: ClickAction>(
    bindings: Map<Seq<char>, Binding<H, A>>,
    event: EventView,
    response: ResponseView,
)
    requires
        request_answer(bindings, event, response),
    ensures
        response.request_id is None,
{
}

/// A body that holds no event is answered with the error for malformed
/// input, and with nothing else.
pub proof fn lemma_malformed_body_is_reported<H: EventHandler, A: ClickAction>(
    bindings: Map<Seq<char>, Binding<H, A>>,
    body: Seq<char>,
    outcome: Result<String, RequestError>,
)
    requires
        decoded_event(body) is None,
        exchange_allowed(bindings, body, outcome),
    ensures
        outcome is Err,
        outcome->Err_0 == RequestError::Malformed,
{
}

/// An event that nothing is bound to is answered, on this channel, with the
/// failure that names its element and event type and carries no token.
pub proof fn lemma_unbound_request_fails<H: EventHandler, A: ClickAction>(
    bindings: Map<Seq<char>, Binding<H, A>>,
    event: EventView,
    response: ResponseView,
)
    requires
        bound(bindings, event.element_id, event.event_type) is None,
        request_answer(bindings, event, response),
    ensures
        response == failure_for_unbound(event_label(event.element_id, event.event_type), None),
{
}

/// A body that holds an event is answered with a text, never with an
/// error.
pub proof fn lemma_event_is_answered<H: EventHandler, A: ClickAction>(
    bindings: Map<Seq<char>, Binding<H, A>>,
    body: Seq<char>,
    outcome: Result<String, RequestError>,
)
    requires
        decoded_event(body) is Some,
        exchange_allowed(bindings, body, outcome),
    ensures
        outcome is Ok,
{
}

} // verus!

//! The duplex channel: one long-lived connection on which events come in and
//! responses go out, one after the other.
//!
//! The program that owns the connection waits for the next message, hands
//! it to `socket_step`, sends what the step asks for and goes on from the
//! state that the step returns. A step takes one message and asks for at
//! most one response, so responses leave in the order in which their events
//! arrived. The state after a step is settled before anything is sent:
//! whether the send succeeds changes nothing, and a broken connection shows
//! at the next receive.

use vstd::prelude::*;
use crate::codec::{decode_event, decoded_event, encode_response, response_text};
use crate::event::{text_of, EventView, ResponseView};
use crate::registry::{may_answer, Binding, ClickAction, EventHandler, EventRegistry};

verus! {

/// Where a connection stands between two messages.
#[derive(Clone, Copy, Debug, PartialEq, Eq, Structural)]
pub enum ConnectionState {
    /// Open, waiting for the next message.
    Receiving,
    /// Over. Nothing is received or sent any more.
    Closed,
}

/// What the transport hands over when a receive ends.
#[derive(Debug)]
pub enum Inbound {
    /// A message that is text.
    Frame(String),
    /// A message that is no text.
    Unreadable,
    /// The transport reported an error.
    Failed,
    /// The other side closed the connection.
    Closed,
}

/// What a step decides: the state to go on from, and the text to send, if
/// any.
#[derive(Debug)]
pub struct Step {
    pub state: ConnectionState,
    pub send: Option<String>,
}

/// Whether a text, or nothing, may be sent in answer to a frame. A frame
/// that holds no event is answered with nothing. A frame that holds one is
/// answered with the encoded response to that event.
pub open spec fn frame_answer<H: EventHandler, A: ClickAction>(
    bindings: Map<Seq<char>, Binding<H, A>>,
    frame: Seq<char>,
    sent: Option<Seq<char>>,
) -> bool {
    match decoded_event(frame) {
        None => sent is None,
        Some(event) => {
            &&& sent is Some
            &&& exists|response: ResponseView| #[trigger]
                may_answer(bindings, event, response) && response_text(response, sent->Some_0)
        },
    }
}

/// Whether a step may follow from a state and a message.
pub open spec fn step_allowed<H: EventHandler, A: ClickAction>(
    bindings: Map<Seq<char>, Binding<H, A>>,
    state: ConnectionState,
    inbound: Inbound,
    step: Step,
) -> bool {
    match state {
        ConnectionState::Closed => step.state == ConnectionState::Closed && step.send is None,
        ConnectionState::Receiving => match inbound {
            Inbound::Frame(text) => {
                &&& step.state == ConnectionState::Receiving
                &&& frame_answer(bindings, text@, text_of(step.send))
            },
            Inbound::Unreadable => step.state == ConnectionState::Receiving && step.send is None,
            Inbound::Failed => step.state == ConnectionState::Closed && step.send is None,
            Inbound::Closed => step.state == ConnectionState::Closed && step.send is None,
        },
    }
}

/// The state of a connection that was just accepted.
pub fn open_connection() -> (state: ConnectionState)
    ensures
        state == ConnectionState::Receiving,
{
    ConnectionState::Receiving
}

/// Decodes a frame, dispatches its event and encodes the response. A frame
/// that holds no event is dropped: nothing is sent for it.
pub fn answer_frame<H: EventHandler, A: ClickAction>(
    registry: &EventRegistry<H, A>,
    frame: &str,
) -> (sent: Option<String>)
    ensures
        frame_answer(registry@, frame@, text_of(sent)),
{
    match decode_event(frame) {
        Some(event) => {
            let response = registry.dispatch(event);
            Some(encode_response(&response))
        },
        None => None,
    }
}

/// One turn of a connection: from its state and the message that came in to
/// its next state and the text to send.
///
/// A text frame is answered as `answer_frame` says, and the connection stays
/// open whatever the frame held. A message that is no text is passed over.
/// An error of the transport and the end of the connection close it. A
/// closed connection stays closed.
pub fn socket_step<H: EventHandler, A: ClickAction>(
    registry: &EventRegistry<H, A>,
    state: ConnectionState,
    inbound: Inbound,
) -> (step: Step)
    ensures
        step_allowed(registry@, state, inbound, step),
{
    match state {
        ConnectionState::Closed => Step { state: ConnectionState::Closed, send: None },
        ConnectionState::Receiving => match inbound {
            Inbound::Frame(text) => {
                let send = answer_frame(registry, text.as_str());
                Step { state: ConnectionState::Receiving, send }
            },
            Inbound::Unreadable => Step { state: ConnectionState::Receiving, send: None },
            Inbound::Failed => Step { state: ConnectionState::Closed, send: None },
            Inbound::Closed => Step { state: ConnectionState::Closed, send: None },
        },
    }
}

/// A frame that holds no event changes nothing: the connection stays open
/// and nothing is sent.
pub proof fn lemma_malformed_frame_is_dropped<H: EventHandler, A: ClickAction>(
    bindings: Map<Seq<char>, Binding<H, A>>,
    frame: String,
    step: Step,
)
    requires
        decoded_event(frame@) is None,
        step_allowed(bindings, ConnectionState::Receiving, Inbound::Frame(frame), step),
    ensures
        step.state == ConnectionState::Receiving,
        step.send is None,
{
}

/// A frame that holds no event, followed by one that holds an event: the
/// first step sends nothing, and the second sends one text, the encoded
/// response to that event, on a connection that is still open.
pub proof fn lemma_malformed_then_valid<H: EventHandler, A: ClickAction>(
    bindings: Map<Seq<char>, Binding<H, A>>,
    malformed: String,
    valid: String,
    first: Step,
    second: Step,
)
    requires
        decoded_event(malformed@) is None,
        decoded_event(valid@) is Some,
        step_allowed(bindings, ConnectionState::Receiving, Inbound::Frame(malformed), first),
        step_allowed(bindings, first.state, Inbound::Frame(valid), second),
    ensures
        first.send is None,
        second.state == ConnectionState::Receiving,
        second.send is Some,
        exists|response: ResponseView| #[trigger]
            may_answer(bindings, decoded_event(valid@)->Some_0, response) && response_text(
                response,
                second.send->Some_0@,
            ),
{
}

/// Every response on this channel carries the correlation token of its
/// event, also where the event has none.
pub proof fn lemma_answer_echoes_token<H: EventHandler, A: ClickAction>(
    bindings: Map<Seq<char>, Binding<H, A>>,
    event: EventView,
    response: ResponseView,
)
    requires
        may_answer(bindings, event, response),
    ensures
        response.request_id == event.request_id,
{
}

/// Once closed, a connection stays closed and sends nothing.
pub proof fn lemma_closed_is_final<H: EventHandler, A: ClickAction>(
    bindings: Map<Seq<char>, Binding<H, A>>,
    inbound: Inbound,
    step: Step,
)
    requires
        step_allowed(bindings, ConnectionState::Closed, inbound, step),
    ensures
        step.state == ConnectionState::Closed,
        step.send is None,
{
}

/// The state that a step starts from: the state that the connection was
/// opened in for the first step, the state that its predecessor left for
/// every other.
pub open spec fn state_before(start: ConnectionState, steps: Seq<Step>, i: int) -> ConnectionState {
    if i <= 0 {
        start
    } else {
        steps[i - 1].state
    }
}

/// Whether a run of steps may follow from a run of messages: one step for
/// each message, in the order of arrival, each from the state that the step
/// before it left.
pub open spec fn run_allowed<H: EventHandler, A: ClickAction>(
    bindings: Map<Seq<char>, Binding<H, A>>,
    start: ConnectionState,
    inbounds: Seq<Inbound>,
    steps: Seq<Step>,
) -> bool {
    &&& steps.len() == inbounds.len()
    &&& forall|i: int|
        0 <= i < steps.len() ==> step_allowed(
            bindings,
            state_before(start, steps, i),
            inbounds[i],
            #[trigger] steps[i],
        )
}

/// No message closes a connection by what it holds: as long as the
/// transport neither fails nor ends, the connection stays open.
pub proof fn lemma_messages_keep_connection_open<H: EventHandler, A: ClickAction>(
    bindings: Map<Seq<char>, Binding<H, A>>,
    inbounds: Seq<Inbound>,
    steps: Seq<Step>,
    i: int,
)
    requires
        run_allowed(bindings, ConnectionState::Receiving, inbounds, steps),
        forall|j: int|
            0 <= j < inbounds.len() ==> (#[trigger] inbounds[j] is Frame
                || inbounds[j] is Unreadable),
        0 <= i < steps.len(),
    ensures
        steps[i].state == ConnectionState::Receiving,
    decreases i,
{
    if i > 0 {
        lemma_messages_keep_connection_open(bindings, inbounds, steps, i - 1);
    }
    assert(step_allowed(
        bindings,
        state_before(ConnectionState::Receiving, steps, i),
        inbounds[i],
        steps[i],
    ));
}

/// After the step that closed a connection, every step leaves it closed
/// and sends nothing.
pub proof fn lemma_nothing_follows_close<H: EventHandler, A: ClickAction>(
    bindings: Map<Seq<char>, Binding<H, A>>,
    start: ConnectionState,
    inbounds: Seq<Inbound>,
    steps: Seq<Step>,
    i: int,
    j: int,
)
    requires
        run_allowed(bindings, start, inbounds, steps),
        0 <= i < j < steps.len(),
        steps[i].state == ConnectionState::Closed,
    ensures
        steps[j].state == ConnectionState::Closed,
        steps[j].send is None,
    decreases j - i,
{
    if i + 1 < j {
        lemma_nothing_follows_close(bindings, start, inbounds, steps, i, j - 1);
    }
    assert(step_allowed(bindings, state_before(start, steps, j), inbounds[j], steps[j]));
}

} // verus!

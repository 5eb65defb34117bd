//! Small helpers for writing handlers: checks on form input, the two
//! common shapes of a response, and a handler that always gives the same
//! response.

use vstd::prelude::*;
use crate::event::{failure, text_of, with_token, EventView, ResponseView, UIEvent, UIResponse};
use crate::registry::{bound, may_answer, Binding, ClickAction, EventHandler};

verus! {

/// Whether a text looks like an e-mail address: it holds an `@` and a dot.
pub open spec fn valid_email(email: Seq<char>) -> bool {
    email.contains('@') && email.contains('.')
}

/// The message for user data that was accepted.
pub open spec fn processed_message(name: Seq<char>, email: Seq<char>) -> Seq<char> {
    "User "@ + name + " with email "@ + email + " processed successfully"@
}

/// A successful response with a message and a payload.
pub open spec fn success(
    message: Seq<char>,
    data: serde_json::Value,
    token: Option<u32>,
) -> ResponseView {
    ResponseView { success: true, message: Some(message), data: Some(data), request_id: token }
}

/// Whether a character occurs in a text.
pub fn has_char(text: &str, wanted: char) -> (found: bool)
    ensures
        found == text@.contains(wanted),
{
    let n = text.unicode_len();
    let mut i: usize = 0;
    while i < n
        invariant
            n == text@.len(),
            i <= n,
            forall|j: int| 0 <= j < i ==> text@[j] != wanted,
        decreases n - i,
    {
        if text.get_char(i) == wanted {
            return true;
        }
        i += 1;
    }
    false
}

/// Whether a text looks like an e-mail address.
pub fn validate_email(email: &str) -> (valid: bool)
    ensures
        valid == valid_email(email@),
{
    has_char(email, '@') && has_char(email, '.')
}

/// Checks a user's name and e-mail address. An empty name is refused first,
/// then an address that does not look like one. Accepted data is answered
/// with a message that names both.
pub fn process_user_data(name: &str, email: &str) -> (outcome: Result<String, String>)
    ensures
        match outcome {
            Ok(message) => {
                &&& name@.len() > 0
                &&& valid_email(email@)
                &&& message@ == processed_message(name@, email@)
            },
            Err(reason) => if name@.len() == 0 {
                reason@ == "Name cannot be empty"@
            } else {
                !valid_email(email@) && reason@ == "Invalid email format"@
            },
        },
{
    if name.is_empty() {
        return Err("Name cannot be empty".to_owned());
    }
    if !validate_email(email) {
        return Err("Invalid email format".to_owned());
    }
    Ok(
        "User ".to_owned().concat(name).concat(" with email ").concat(email).concat(
            " processed successfully",
        ),
    )
}

/// A response that reports success, with a message and a payload.
pub fn create_success_response(
    message: &str,
    data: serde_json::Value,
    request_id: Option<u32>,
) -> (response: UIResponse)
    ensures
        response@ == success(message@, data, request_id),
{
    UIResponse { success: true, message: Some(message.to_owned()), data: Some(data), request_id }
}

/// A response that reports a failure, with the error as its message and
/// without a payload.
pub fn create_error_response(error: &str, request_id: Option<u32>) -> (response: UIResponse)
    ensures
        response@ == failure(error@, request_id),
{
    UIResponse { success: false, message: Some(error.to_owned()), data: None, request_id }
}

/// A handler that gives the same answer to every event.
#[derive(Debug)]
pub struct FixedResponse {
    /// Whether the answer reports success.
    pub success: bool,
    /// The message of the answer.
    pub message: Option<String>,
    /// The payload of the answer.
    pub data: Option<serde_json::Value>,
}

impl FixedResponse {
    /// The answer, as the handler gives it: without a correlation token.
    pub open spec fn reply(&self) -> ResponseView {
        ResponseView {
            success: self.success,
            message: text_of(self.message),
            data: self.data,
            request_id: None,
        }
    }
}

impl EventHandler for FixedResponse {
    open spec fn answers(
        &self,
        event: EventView,
        outcome: Result<ResponseView, Seq<char>>,
    ) -> bool {
        outcome == Ok::<ResponseView, Seq<char>>(self.reply())
    }

    fn handle(&self, event: UIEvent) -> (outcome: Result<UIResponse, String>) {
        let message = match &self.message {
            Some(text) => Some(text.clone()),
            None => None,
        };
        let data = match &self.data {
            Some(payload) => Some(payload.clone()),
            None => None,
        };
        Ok(UIResponse { success: self.success, message, data, request_id: None })
    }
}

/// An event that a fixed response is bound to is answered with that
/// response, under the event's correlation token.
pub proof fn lemma_fixed_response_is_given<A: ClickAction>(
    bindings: Map<Seq<char>, Binding<FixedResponse, A>>,
    event: EventView,
    fixed: FixedResponse,
    response: ResponseView,
)
    requires
        bound(bindings, event.element_id, event.event_type) == Some(
            Binding::<FixedResponse, A>::Handler(fixed),
        ),
        may_answer(bindings, event, response),
    ensures
        response == with_token(fixed.reply(), event.request_id),
{
}

} // verus!

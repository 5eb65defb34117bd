//! The handler table and the dispatch rules.
//!
//! A handler is bound to a pair of element identifier and event type. The
//! table holds it under a key that no other pair has: as many dots as the
//! element identifier has characters, a colon, the identifier, a colon and
//! the event type. Each pair is bound to at most one handler, and a later
//! registration for a pair puts its handler in place of the earlier one.
//! Nothing removes a binding. In messages a pair is written shorter, as the
//! identifier, a colon and the event type.
//!
//! The table is a plain value: registering takes it by `&mut`, looking up
//! and dispatching by `&`. A server that shares it between connections puts
//! it behind a readers-writer lock. A handler runs while the table is
//! borrowed for reading, so a handler must not try to register: behind such
//! a lock it would wait for itself.

use vstd::prelude::*;
use vstd::hash_map::StringHashMap;
use crate::config::WebUIConfig;
use crate::event::{failure, with_token, EventView, ResponseView, UIEvent, UIResponse};

verus! {

/// What a handler is: it takes the event and answers with a response of its
/// own making, or with the reason why it failed.
pub trait EventHandler {
    /// Whether the handler may give this answer to this event. A handler
    /// that keeps state of its own may give more than one. Unless a handler
    /// says otherwise, it may give any answer.
    open spec fn answers(
        &self,
        event: EventView,
        outcome: Result<ResponseView, Seq<char>>,
    ) -> bool {
        true
    }

    /// Handles one event. The answer is one that `answers` allows for it.
    fn handle(&self, event: UIEvent) -> (outcome: Result<UIResponse, String>)
        ensures
            self.answers(event@, outcome_of(outcome)),
    ;
}

/// An action without arguments and without a result, for a click.
pub trait ClickAction {
    fn run(&self);
}

/// What a key is bound to. A binding is a handler itself: a click action
/// stands for the handler that runs the action and answers with success.
pub enum Binding<H, A> {
    /// A handler that sees the event and shapes the response.
    Handler(H),
    /// An action for a click; the response reports success and carries
    /// neither message nor payload.
    Click(A),
}

impl<H: EventHandler, A: ClickAction> EventHandler for Binding<H, A> {
    open spec fn answers(
        &self,
        event: EventView,
        outcome: Result<ResponseView, Seq<char>>,
    ) -> bool {
        match self {
            Binding::Handler(handler) => handler.answers(event, outcome),
            Binding::Click(_) => outcome == Ok::<ResponseView, Seq<char>>(click_done(None)),
        }
    }

    fn handle(&self, event: UIEvent) -> (outcome: Result<UIResponse, String>) {
        match self {
            Binding::Handler(handler) => handler.handle(event),
            Binding::Click(action) => {
                action.run();
                Ok(UIResponse { success: true, message: None, data: None, request_id: None })
            },
        }
    }
}

/// A run of dots.
pub open spec fn dots(n: nat) -> Seq<char> {
    Seq::new(n, |i: int| '.')
}

/// The key of an element and an event type. The dots in front tell where
/// the element identifier ends, whatever characters it holds, so two
/// different pairs never share a key.
pub open spec fn binding_key(element_id: Seq<char>, event_type: Seq<char>) -> Seq<char> {
    dots(element_id.len()) + ":"@ + element_id + ":"@ + event_type
}

/// How an element and an event type are written in a message.
pub open spec fn event_label(element_id: Seq<char>, event_type: Seq<char>) -> Seq<char> {
    element_id + ":"@ + event_type
}

/// The table after a registration: the key holds the new binding, the other
/// keys hold what they held.
pub open spec fn registered<H, A>(
    bindings: Map<Seq<char>, Binding<H, A>>,
    element_id: Seq<char>,
    event_type: Seq<char>,
    binding: Binding<H, A>,
) -> Map<Seq<char>, Binding<H, A>> {
    bindings.insert(binding_key(element_id, event_type), binding)
}

/// What an element and an event type are bound to, if to anything.
pub open spec fn bound<H, A>(
    bindings: Map<Seq<char>, Binding<H, A>>,
    element_id: Seq<char>,
    event_type: Seq<char>,
) -> Option<Binding<H, A>> {
    let key = binding_key(element_id, event_type);
    if bindings.contains_key(key) {
        Some(bindings[key])
    } else {
        None
    }
}

/// The message of the response to an event that nothing is bound to.
pub open spec fn no_handler_message(label: Seq<char>) -> Seq<char> {
    "no handler for "@ + label
}

/// The response to an event that nothing is bound to: a failure whose
/// message names the element and the event type.
pub open spec fn failure_for_unbound(label: Seq<char>, token: Option<u32>) -> ResponseView {
    failure(no_handler_message(label), token)
}

/// The response to a click that an action is bound to.
pub open spec fn click_done(token: Option<u32>) -> ResponseView {
    ResponseView { success: true, message: None, data: None, request_id: token }
}

/// What a handler answered, as a mathematical value.
pub open spec fn outcome_of(outcome: Result<UIResponse, String>) -> Result<ResponseView, Seq<char>> {
    match outcome {
        Ok(response) => Ok(response@),
        Err(reason) => Err(reason@),
    }
}

/// The response that is made of a handler's answer: its own response under
/// the event's correlation token, whatever token the handler gave it, or a
/// failure with the handler's reason as its message.
pub open spec fn settled(outcome: Result<ResponseView, Seq<char>>, token: Option<u32>) -> ResponseView {
    match outcome {
        Ok(response) => with_token(response, token),
        Err(reason) => failure(reason, token),
    }
}

/// Whether a response may be the answer to an event under a table of
/// bindings. Where nothing is bound to the event, it is the failure that
/// names the element and the event type. Where something is bound, it is what is made of an answer
/// that the binding may give to this event.
pub open spec fn may_answer<H: EventHandler, A: ClickAction>(
    bindings: Map<Seq<char>, Binding<H, A>>,
    event: EventView,
    response: ResponseView,
) -> bool {
    match bound(bindings, event.element_id, event.event_type) {
        None => response == failure_for_unbound(
            event_label(event.element_id, event.event_type),
            event.request_id,
        ),
        Some(binding) => exists|outcome: Result<ResponseView, Seq<char>>|
            #[trigger] binding.answers(event, outcome) && response == settled(
                outcome,
                event.request_id,
            ),
    }
}

/// Builds the key of an element and an event type.
pub fn make_key(element_id: &str, event_type: &str) -> (key: String)
    ensures
        key@ == binding_key(element_id@, event_type@),
{
    let n = element_id.unicode_len();
    let mut key = String::new();
    let mut i: usize = 0;
    while i < n
        invariant
            i <= n,
            key@ == dots(i as nat),
        decreases n - i,
    {
        key.append(".");
        proof {
            reveal_strlit(".");
            assert(key@ =~= dots((i + 1) as nat));
        }
        i += 1;
    }
    key.append(":");
    key.append(element_id);
    key.append(":");
    key.append(event_type);
    key
}

/// Writes an element and an event type as messages name them.
pub fn make_label(element_id: &str, event_type: &str) -> (label: String)
    ensures
        label@ == event_label(element_id@, event_type@),
{
    element_id.to_owned().concat(":").concat(event_type)
}

/// Makes the response out of what a handler answered.
pub fn settle(outcome: Result<UIResponse, String>, token: Option<u32>) -> (response: UIResponse)
    ensures
        response@ == settled(outcome_of(outcome), token),
{
    match outcome {
        Ok(answer) => UIResponse {
            success: answer.success,
            message: answer.message,
            data: answer.data,
            request_id: token,
        },
        Err(reason) => UIResponse {
            success: false,
            message: Some(reason),
            data: None,
            request_id: token,
        },
    }
}

/// Makes the response to an event that nothing is bound to.
pub fn no_handler_response(label: &str, token: Option<u32>) -> (response: UIResponse)
    ensures
        response@ == failure_for_unbound(label@, token),
{
    UIResponse {
        success: false,
        message: Some("no handler for ".to_owned().concat(label)),
        data: None,
        request_id: token,
    }
}

/// The table of bindings.
#[verifier::reject_recursive_types(H)]
#[verifier::reject_recursive_types(A)]
pub struct EventRegistry<H, A> {
    bindings: StringHashMap<Binding<H, A>>,
}

impl<H, A> View for EventRegistry<H, A> {
    type V = Map<Seq<char>, Binding<H, A>>;

    closed spec fn view(&self) -> Map<Seq<char>, Binding<H, A>> {
        self.bindings@
    }
}

impl<H, A> EventRegistry<H, A> {
    /// A table without bindings.
    pub fn new() -> (registry: Self)
        ensures
            registry@ == Map::<Seq<char>, Binding<H, A>>::empty(),
    {
        EventRegistry { bindings: StringHashMap::new() }
    }

    /// Binds a handler to an element and an event type, in place of what was
    /// bound to them before.
    pub fn register(&mut self, element_id: &str, event_type: &str, handler: H)
        ensures
            final(self)@ == registered(
                old(self)@,
                element_id@,
                event_type@,
                Binding::Handler(handler),
            ),
    {
        let key = make_key(element_id, event_type);
        self.bindings.insert(key, Binding::Handler(handler));
    }

    /// Binds an action to the clicks on an element, in place of what was
    /// bound to them before.
    pub fn register_click(&mut self, element_id: &str, action: A)
        ensures
            final(self)@ == registered(old(self)@, element_id@, "click"@, Binding::Click(action)),
    {
        let key = make_key(element_id, "click");
        self.bindings.insert(key, Binding::Click(action));
    }

    /// How many pairs are bound.
    pub fn len(&self) -> (n: usize)
        ensures
            n == self@.len(),
    {
        self.bindings.len()
    }

    /// What is bound to an element and an event type, if anything is.
    pub fn lookup(&self, element_id: &str, event_type: &str) -> (found: Option<&Binding<H, A>>)
        ensures
            match found {
                Some(binding) => bound(self@, element_id@, event_type@) == Some(*binding),
                None => bound(self@, element_id@, event_type@) is None,
            },
    {
        let key = make_key(element_id, event_type);
        self.bindings.get(key.as_str())
    }
}

impl<H: EventHandler, A: ClickAction> EventRegistry<H, A> {
    /// Routes an event to what is bound to it and shapes the response.
    ///
    /// The response carries the event's correlation token in every case.
    /// With nothing bound it is the failure that names the element and the
    /// event type. Otherwise
    /// the binding is called with the event, and the response is made of
    /// its answer: a click action is run and answers with success, a
    /// handler answers for itself.
    pub fn dispatch(&self, event: UIEvent) -> (response: UIResponse)
        ensures
            may_answer(self@, event@, response@),
            response@.request_id == event@.request_id,
    {
        let key = make_key(event.element_id.as_str(), event.event_type.as_str());
        let token = event.request_id;
        match self.bindings.get(key.as_str()) {
            Some(binding) => {
                let outcome = binding.handle(event);
                let ghost answered = outcome_of(outcome);
                let response = settle(outcome, token);
                assert(binding.answers(event@, answered) && response@ == settled(answered, token));
                response
            },
            None => {
                let label = make_label(event.element_id.as_str(), event.event_type.as_str());
                no_handler_response(label.as_str(), token)
            },
        }
    }
}

/// The server: its settings and its table of bindings.
#[verifier::reject_recursive_types(H)]
#[verifier::reject_recursive_types(A)]
pub struct WebUI<H, A> {
    config: WebUIConfig,
    event_registry: EventRegistry<H, A>,
}

impl<H, A> WebUI<H, A> {
    /// The settings.
    pub closed spec fn settings(&self) -> WebUIConfig {
        self.config
    }

    /// The bindings.
    pub closed spec fn bindings(&self) -> Map<Seq<char>, Binding<H, A>> {
        self.event_registry@
    }

    /// A server with the given settings and nothing bound.
    pub fn new(config: WebUIConfig) -> (ui: Self)
        ensures
            ui.settings() == config,
            ui.bindings() == Map::<Seq<char>, Binding<H, A>>::empty(),
    {
        WebUI { config, event_registry: EventRegistry::new() }
    }

    /// Binds a handler to an element and an event type, in place of what was
    /// bound to them before.
    pub fn bind_event(&mut self, element_id: &str, event_type: &str, handler: H)
        ensures
            final(self).settings() == old(self).settings(),
            final(self).bindings() == registered(
                old(self).bindings(),
                element_id@,
                event_type@,
                Binding::Handler(handler),
            ),
    {
        self.event_registry.register(element_id, event_type, handler);
    }

    /// Binds an action to the clicks on an element: `register_click` on the
    /// server's table.
    pub fn bind_click(&mut self, element_id: &str, action: A)
        ensures
            final(self).settings() == old(self).settings(),
            final(self).bindings() == registered(
                old(self).bindings(),
                element_id@,
                "click"@,
                Binding::Click(action),
            ),
    {
        self.event_registry.register_click(element_id, action);
    }

    /// The settings.
    pub fn config(&self) -> (config: &WebUIConfig)
        ensures
            *config == self.settings(),
    {
        &self.config
    }

    /// The table of bindings.
    pub fn registry(&self) -> (registry: &EventRegistry<H, A>)
        ensures
            registry@ == self.bindings(),
    {
        &self.event_registry
    }

    /// Takes the server apart, for the program that serves it.
    pub fn into_parts(self) -> (parts: (WebUIConfig, EventRegistry<H, A>))
        ensures
            parts.0 == self.settings(),
            parts.1@ == self.bindings(),
    {
        (self.config, self.event_registry)
    }
}

/// After a registration, a lookup of the same element and event type finds
/// what was registered.
pub proof fn lemma_lookup_finds_registered<H, A>(
    bindings: Map<Seq<char>, Binding<H, A>>,
    element_id: Seq<char>,
    event_type: Seq<char>,
    binding: Binding<H, A>,
)
    ensures
        bound(registered(bindings, element_id, event_type, binding), element_id, event_type)
            == Some(binding),
{
}

/// A second registration at the same element and event type replaces the
/// first: the table is as if the first had never been made.
pub proof fn lemma_later_registration_wins<H, A>(
    bindings: Map<Seq<char>, Binding<H, A>>,
    element_id: Seq<char>,
    event_type: Seq<char>,
    first: Binding<H, A>,
    second: Binding<H, A>,
)
    ensures
        registered(
            registered(bindings, element_id, event_type, first),
            element_id,
            event_type,
            second,
        ) == registered(bindings, element_id, event_type, second),
        bound(
            registered(
                registered(bindings, element_id, event_type, first),
                element_id,
                event_type,
                second,
            ),
            element_id,
            event_type,
        ) == Some(second),
{
    let key = binding_key(element_id, event_type);
    assert(bindings.insert(key, first).insert(key, second) =~= bindings.insert(key, second));
}

/// Two pairs of element and event type that have the same key are the same
/// pair, whatever characters they hold.
pub proof fn lemma_keys_tell_pairs_apart(
    element_id: Seq<char>,
    event_type: Seq<char>,
    other_element: Seq<char>,
    other_type: Seq<char>,
)
    requires
        binding_key(element_id, event_type) == binding_key(other_element, other_type),
    ensures
        element_id == other_element,
        event_type == other_type,
{
    reveal_strlit(":");
    let key = binding_key(element_id, event_type);
    let same = binding_key(other_element, other_type);
    let n = element_id.len() as int;
    let m = other_element.len() as int;
    assert(key[n] == ':');
    assert(same[m] == ':');
    if n < m {
        assert(same[n] == '.');
    }
    if m < n {
        assert(key[m] == '.');
    }
    assert(n == m);
    assert forall|i: int| 0 <= i < n implies element_id[i] == other_element[i] by {
        assert(key[n + 1 + i] == element_id[i]);
        assert(same[m + 1 + i] == other_element[i]);
    }
    assert(element_id =~= other_element);
    assert(key.len() == 2 * n + 2 + event_type.len());
    assert(same.len() == 2 * m + 2 + other_type.len());
    assert forall|i: int| 0 <= i < event_type.len() implies event_type[i] == other_type[i] by {
        assert(key[2 * n + 2 + i] == event_type[i]);
        assert(same[2 * m + 2 + i] == other_type[i]);
    }
    assert(event_type =~= other_type);
}

/// A registration leaves what is bound to every other pair as it was.
pub proof fn lemma_registration_keeps_others<H, A>(
    bindings: Map<Seq<char>, Binding<H, A>>,
    element_id: Seq<char>,
    event_type: Seq<char>,
    binding: Binding<H, A>,
    other_element: Seq<char>,
    other_type: Seq<char>,
)
    requires
        element_id != other_element || event_type != other_type,
    ensures
        bound(
            registered(bindings, element_id, event_type, binding),
            other_element,
            other_type,
        ) == bound(bindings, other_element, other_type),
{
    if binding_key(element_id, event_type) == binding_key(other_element, other_type) {
        lemma_keys_tell_pairs_apart(element_id, event_type, other_element, other_type);
    }
}

/// The table after a run of registrations, made one after the other.
pub open spec fn registered_all<H, A>(
    bindings: Map<Seq<char>, Binding<H, A>>,
    entries: Seq<(Seq<char>, Seq<char>, Binding<H, A>)>,
) -> Map<Seq<char>, Binding<H, A>>
    decreases entries.len(),
{
    if entries.len() == 0 {
        bindings
    } else {
        registered(
            registered_all(bindings, entries.drop_last()),
            entries.last().0,
            entries.last().1,
            entries.last().2,
        )
    }
}

/// No registration is lost: after any number of registrations for pairs
/// that differ from each other, in whatever order they were made, a lookup
/// for each of them finds what was registered for it.
pub proof fn lemma_no_registration_is_lost<H, A>(
    bindings: Map<Seq<char>, Binding<H, A>>,
    entries: Seq<(Seq<char>, Seq<char>, Binding<H, A>)>,
    i: int,
)
    requires
        0 <= i < entries.len(),
        forall|j: int, k: int|
            0 <= j < k < entries.len() ==> (entries[j].0 != entries[k].0 || entries[j].1
                != entries[k].1),
    ensures
        bound(registered_all(bindings, entries), entries[i].0, entries[i].1) == Some(
            entries[i].2,
        ),
    decreases entries.len(),
{
    if i < entries.len() - 1 {
        let earlier = entries.drop_last();
        let last = entries.last();
        assert(earlier[i] == entries[i]);
        assert forall|j: int, k: int| 0 <= j < k < earlier.len() implies (earlier[j].0
            != earlier[k].0 || earlier[j].1 != earlier[k].1) by {
            assert(earlier[j] == entries[j]);
            assert(earlier[k] == entries[k]);
        }
        lemma_no_registration_is_lost(bindings, earlier, i);
        assert(entries[i].0 != last.0 || entries[i].1 != last.1);
        lemma_registration_keeps_others(
            registered_all(bindings, earlier),
            last.0,
            last.1,
            last.2,
            entries[i].0,
            entries[i].1,
        );
    }
}

/// A run of registrations leaves what is bound to every pair that is not
/// among them as it was.
pub proof fn lemma_earlier_bindings_stay<H, A>(
    bindings: Map<Seq<char>, Binding<H, A>>,
    entries: Seq<(Seq<char>, Seq<char>, Binding<H, A>)>,
    element_id: Seq<char>,
    event_type: Seq<char>,
)
    requires
        forall|j: int|
            0 <= j < entries.len() ==> (entries[j].0 != element_id || entries[j].1
                != event_type),
    ensures
        bound(registered_all(bindings, entries), element_id, event_type) == bound(
            bindings,
            element_id,
            event_type,
        ),
    decreases entries.len(),
{
    if entries.len() > 0 {
        let earlier = entries.drop_last();
        let last = entries.last();
        assert forall|j: int| 0 <= j < earlier.len() implies (earlier[j].0 != element_id
            || earlier[j].1 != event_type) by {
            assert(earlier[j] == entries[j]);
        }
        lemma_earlier_bindings_stay(bindings, earlier, element_id, event_type);
        assert(last.0 != element_id || last.1 != event_type);
        lemma_registration_keeps_others(
            registered_all(bindings, earlier),
            last.0,
            last.1,
            last.2,
            element_id,
            event_type,
        );
    }
}

/// Registrations for different pairs do not get in each other's way: made
/// in either order, they leave the same table.
pub proof fn lemma_registrations_commute<H, A>(
    bindings: Map<Seq<char>, Binding<H, A>>,
    element_id: Seq<char>,
    event_type: Seq<char>,
    binding: Binding<H, A>,
    other_element: Seq<char>,
    other_type: Seq<char>,
    other_binding: Binding<H, A>,
)
    requires
        element_id != other_element || event_type != other_type,
    ensures
        registered(
            registered(bindings, element_id, event_type, binding),
            other_element,
            other_type,
            other_binding,
        ) == registered(
            registered(bindings, other_element, other_type, other_binding),
            element_id,
            event_type,
            binding,
        ),
{
    let key = binding_key(element_id, event_type);
    let other = binding_key(other_element, other_type);
    if key == other {
        lemma_keys_tell_pairs_apart(element_id, event_type, other_element, other_type);
    }
    assert(bindings.insert(key, binding).insert(other, other_binding) =~= bindings.insert(
        other,
        other_binding,
    ).insert(key, binding));
}

/// A click that an action is bound to is answered with success, without
/// message or payload, under the event's correlation token.
pub proof fn lemma_click_reports_success<H: EventHandler, A: ClickAction>(
    bindings: Map<Seq<char>, Binding<H, A>>,
    event: EventView,
    response: ResponseView,
)
    requires
        bound(bindings, event.element_id, event.event_type) is Some,
        bound(bindings, event.element_id, event.event_type)->Some_0 is Click,
        may_answer(bindings, event, response),
    ensures
        response == click_done(event.request_id),
{
}

/// An event that nothing is bound to is answered with the failure that
/// names its element and event type, under the event's correlation token.
pub proof fn lemma_unbound_event_fails<H: EventHandler, A: ClickAction>(
    bindings: Map<Seq<char>, Binding<H, A>>,
    event: EventView,
    response: ResponseView,
)
    requires
        bound(bindings, event.element_id, event.event_type) is None,
        may_answer(bindings, event, response),
    ensures
        !response.success,
        response.message == Some(
            "no handler for "@ + event_label(event.element_id, event.event_type),
        ),
        response.data is None,
        response.request_id == event.request_id,
{
}

} // verus!

use std::sync::atomic::{AtomicU32, Ordering};
use std::sync::Arc;

use serde_json::Value;
use web_ui::WebUIConfig;
use web_ui::{UIEvent, UIResponse};
use web_ui::registry::{
    make_key, make_label, no_handler_response, settle, Binding, ClickAction, EventHandler,
    EventRegistry, WebUI,
};

/// Answers with its label as the message and the event's data as payload.
struct Labelled(&'static str);

impl EventHandler for Labelled {
    fn handle(&self, event: UIEvent) -> Result<UIResponse, String> {
        Ok(UIResponse {
            success: true,
            message: Some(self.0.to_string()),
            data: Some(event.data),
            request_id: Some(999),
        })
    }
}

/// Fails with its reason.
struct Failing(&'static str);

impl EventHandler for Failing {
    fn handle(&self, _event: UIEvent) -> Result<UIResponse, String> {
        Err(self.0.to_string())
    }
}

/// Answers with the key's number.
struct Numbered(u32);

impl EventHandler for Numbered {
    fn handle(&self, _event: UIEvent) -> Result<UIResponse, String> {
        Ok(UIResponse {
            success: true,
            message: None,
            data: Some(Value::from(self.0)),
            request_id: None,
        })
    }
}

struct Count(Arc<AtomicU32>);

impl ClickAction for Count {
    fn run(&self) {
        self.0.fetch_add(1, Ordering::SeqCst);
    }
}

fn event(element_id: &str, event_type: &str, token: Option<u32>) -> UIEvent {
    UIEvent {
        element_id: element_id.to_string(),
        event_type: event_type.to_string(),
        data: Value::Object(serde_json::Map::new()),
        request_id: token,
    }
}

#[test]
fn label_joins_element_and_type_with_a_colon() {
    assert_eq!(make_label("submit-button", "click"), "submit-button:click");
    assert_eq!(make_label("", ""), ":");
}

#[test]
fn key_starts_with_a_dot_for_each_character_of_the_element() {
    assert_eq!(make_key("save", "click"), "....:save:click");
    assert_eq!(make_key("", ""), "::");
    assert_eq!(make_key("é:", "x"), "..:é::x");
}

#[test]
fn lookup_finds_what_was_registered() {
    let mut registry: EventRegistry<Labelled, Count> = EventRegistry::new();
    assert!(registry.lookup("a", "click").is_none());
    registry.register("a", "click", Labelled("first"));
    match registry.lookup("a", "click") {
        Some(Binding::Handler(handler)) => assert_eq!(handler.0, "first"),
        _ => panic!("the handler is not bound"),
    }
    assert!(registry.lookup("a", "change").is_none());
    assert!(registry.lookup("b", "click").is_none());
}

#[test]
fn second_registration_replaces_the_first() {
    let mut registry: EventRegistry<Labelled, Count> = EventRegistry::new();
    registry.register("a", "click", Labelled("first"));
    assert_eq!(registry.len(), 1);
    registry.register("a", "click", Labelled("second"));
    assert_eq!(registry.len(), 1);
    let response = registry.dispatch(event("a", "click", None));
    assert_eq!(response.message, Some("second".to_string()));
}

#[test]
fn click_registration_replaces_a_handler() {
    let clicks = Arc::new(AtomicU32::new(0));
    let mut registry: EventRegistry<Labelled, Count> = EventRegistry::new();
    registry.register("a", "click", Labelled("first"));
    registry.register_click("a", Count(clicks.clone()));
    assert!(matches!(registry.lookup("a", "click"), Some(Binding::Click(_))));
    let response = registry.dispatch(event("a", "click", Some(5)));
    assert_eq!(clicks.load(Ordering::SeqCst), 1);
    assert!(response.success);
    assert_eq!(response.message, None);
    assert_eq!(response.data, None);
    assert_eq!(response.request_id, Some(5));
}

#[test]
fn unbound_event_fails_with_the_key_in_the_message() {
    let registry: EventRegistry<Labelled, Count> = EventRegistry::new();
    let response = registry.dispatch(event("ghost", "click", Some(11)));
    assert!(!response.success);
    assert_eq!(response.message, Some("no handler for ghost:click".to_string()));
    assert_eq!(response.data, None);
    assert_eq!(response.request_id, Some(11));
}

#[test]
fn handler_response_gets_the_events_token() {
    let mut registry: EventRegistry<Labelled, Count> = EventRegistry::new();
    registry.register("a", "click", Labelled("x"));
    let with = registry.dispatch(event("a", "click", Some(7)));
    assert_eq!(with.request_id, Some(7));
    assert!(with.success);
    assert_eq!(with.data, Some(Value::Object(serde_json::Map::new())));
    let without = registry.dispatch(event("a", "click", None));
    assert_eq!(without.request_id, None);
}

#[test]
fn handler_failure_becomes_a_failed_response() {
    let mut registry: EventRegistry<Failing, Count> = EventRegistry::new();
    registry.register("a", "submit", Failing("Required field is missing"));
    let response = registry.dispatch(event("a", "submit", Some(2)));
    assert!(!response.success);
    assert_eq!(response.message, Some("Required field is missing".to_string()));
    assert_eq!(response.data, None);
    assert_eq!(response.request_id, Some(2));
}

#[test]
fn settle_shapes_both_outcomes() {
    let ok = settle(
        Ok(UIResponse {
            success: false,
            message: Some("m".to_string()),
            data: Some(Value::Bool(true)),
            request_id: Some(1),
        }),
        Some(2),
    );
    assert!(!ok.success);
    assert_eq!(ok.message, Some("m".to_string()));
    assert_eq!(ok.data, Some(Value::Bool(true)));
    assert_eq!(ok.request_id, Some(2));
    let err = settle(Err("boom".to_string()), None);
    assert!(!err.success);
    assert_eq!(err.message, Some("boom".to_string()));
    assert_eq!(err.data, None);
    assert_eq!(err.request_id, None);
}

#[test]
fn no_handler_response_names_the_key() {
    let response = no_handler_response("x:y", Some(3));
    assert!(!response.success);
    assert_eq!(response.message, Some("no handler for x:y".to_string()));
    assert_eq!(response.data, None);
    assert_eq!(response.request_id, Some(3));
}

#[test]
fn many_registrations_are_all_found() {
    let mut registry: EventRegistry<Numbered, Count> = EventRegistry::new();
    let n: u32 = 200;
    for i in 0..n {
        registry.register(&format!("element-{}", i), "click", Numbered(i));
    }
    for i in (0..n).rev() {
        let response = registry.dispatch(event(&format!("element-{}", i), "click", Some(i)));
        assert!(response.success);
        assert_eq!(response.data, Some(Value::from(i)));
        assert_eq!(response.request_id, Some(i));
    }
}

#[test]
fn server_binds_through_its_table() {
    let clicks = Arc::new(AtomicU32::new(0));
    let mut ui: WebUI<Labelled, Count> = WebUI::new(WebUIConfig::default().with_port(4000));
    ui.bind_event("form1", "submit", Labelled("sent"));
    ui.bind_click("logout-button", Count(clicks.clone()));
    assert_eq!(ui.config().port, 4000);
    let submit = ui.registry().dispatch(event("form1", "submit", None));
    assert_eq!(submit.message, Some("sent".to_string()));
    let click = ui.registry().dispatch(event("logout-button", "click", None));
    assert!(click.success);
    assert_eq!(clicks.load(Ordering::SeqCst), 1);
    let (config, registry) = ui.into_parts();
    assert_eq!(config.port, 4000);
    assert_eq!(config.title, "Web UI");
    assert!(registry.lookup("form1", "submit").is_some());
    assert!(registry.lookup("form1", "click").is_none());
}

#[test]
fn new_server_has_nothing_bound() {
    let ui: WebUI<Labelled, Count> = WebUI::new(WebUIConfig::default());
    assert_eq!(ui.registry().len(), 0);
    assert!(ui.registry().lookup("a", "click").is_none());
    let response = ui.registry().dispatch(event("a", "click", None));
    assert!(!response.success);
}

#[test]
fn click_binding_is_a_handler_that_answers_with_success() {
    let clicks = Arc::new(AtomicU32::new(0));
    let binding: Binding<Labelled, Count> = Binding::Click(Count(clicks.clone()));
    let answer = binding.handle(event("a", "click", Some(8))).unwrap();
    assert_eq!(clicks.load(Ordering::SeqCst), 1);
    assert!(answer.success);
    assert_eq!(answer.message, None);
    assert_eq!(answer.data, None);
    assert_eq!(answer.request_id, None);
}

#[test]
fn handler_binding_answers_as_its_handler() {
    let binding: Binding<Failing, Count> = Binding::Handler(Failing("no"));
    assert_eq!(binding.handle(event("a", "click", None)).err(), Some("no".to_string()));
}

#[test]
fn pairs_that_hold_colons_keep_their_own_handlers() {
    assert_ne!(make_key("a:b", "c"), make_key("a", "b:c"));
    assert_eq!(make_label("a:b", "c"), make_label("a", "b:c"));
    let mut ui: WebUI<Labelled, Count> = WebUI::new(WebUIConfig::default());
    ui.bind_event("a:b", "c", Labelled("1"));
    ui.bind_event("a", "b:c", Labelled("2"));
    assert_eq!(ui.registry().len(), 2);
    let first = ui.registry().dispatch(event("a:b", "c", None));
    assert_eq!(first.message, Some("1".to_string()));
    let second = ui.registry().dispatch(event("a", "b:c", None));
    assert_eq!(second.message, Some("2".to_string()));
    assert!(ui.registry().lookup("a:b:c", "").is_none());
    assert!(ui.registry().lookup("", "a:b:c").is_none());
    assert!(ui.registry().lookup("a:", "b:c").is_none());
}

#[test]
fn dots_and_colons_in_identifiers_do_not_mix_pairs_up() {
    let mut registry: EventRegistry<Labelled, Count> = EventRegistry::new();
    registry.register(".", ":", Labelled("dot"));
    registry.register("", ".::", Labelled("empty"));
    registry.register(":", "", Labelled("colon"));
    assert_eq!(registry.dispatch(event(".", ":", None)).message, Some("dot".to_string()));
    assert_eq!(registry.dispatch(event("", ".::", None)).message, Some("empty".to_string()));
    assert_eq!(registry.dispatch(event(":", "", None)).message, Some("colon".to_string()));
    let unbound = registry.dispatch(event(".:", "", None));
    assert_eq!(unbound.message, Some("no handler for .::".to_string()));
}

#[test]
fn bindings_of_other_keys_stay() {
    let mut registry: EventRegistry<Labelled, Count> = EventRegistry::new();
    registry.register("a", "click", Labelled("a-click"));
    registry.register("a", "change", Labelled("a-change"));
    registry.register("b", "click", Labelled("b-click"));
    registry.register("a", "change", Labelled("a-change-2"));
    assert_eq!(
        registry.dispatch(event("a", "click", None)).message,
        Some("a-click".to_string())
    );
    assert_eq!(
        registry.dispatch(event("a", "change", None)).message,
        Some("a-change-2".to_string())
    );
    assert_eq!(
        registry.dispatch(event("b", "click", None)).message,
        Some("b-click".to_string())
    );
}

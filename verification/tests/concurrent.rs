use std::sync::Arc;

use serde_json::Value;
use tokio::runtime::Builder;
use tokio::sync::RwLock;
use web_ui::codec::decode_response;
use web_ui::helpers::FixedResponse;
use web_ui::registry::{Binding, ClickAction, EventHandler, EventRegistry};
use web_ui::request::http_event_handler;
use web_ui::{UIEvent, UIResponse};

/// Answers with its number.
struct Numbered(u32);

impl EventHandler for Numbered {
    fn handle(&self, _event: UIEvent) -> Result<UIResponse, String> {
        Ok(UIResponse {
            success: true,
            message: None,
            data: Some(Value::from(self.0)),
            request_id: None,
        })
    }
}

struct Nothing;

impl ClickAction for Nothing {
    fn run(&self) {}
}

#[test]
fn concurrent_registrations_are_all_found() {
    let runtime = Builder::new_multi_thread().worker_threads(4).enable_all().build().unwrap();
    runtime.block_on(async {
        let registry = Arc::new(RwLock::new(EventRegistry::<Numbered, Nothing>::new()));
        let n: u32 = 64;

        let mut writers = Vec::new();
        for i in 0..n {
            let registry = registry.clone();
            writers.push(tokio::spawn(async move {
                let mut table = registry.write().await;
                table.register(&format!("element-{}", i), "click", Numbered(i));
            }));
        }
        for writer in writers {
            writer.await.unwrap();
        }

        let mut readers = Vec::new();
        for i in 0..n {
            let registry = registry.clone();
            readers.push(tokio::spawn(async move {
                let table = registry.read().await;
                let found = match table.lookup(&format!("element-{}", i), "click") {
                    Some(Binding::Handler(handler)) => Some(handler.0),
                    _ => None,
                };
                let event = UIEvent {
                    element_id: format!("element-{}", i),
                    event_type: "click".to_string(),
                    data: Value::Null,
                    request_id: Some(i),
                };
                (found, table.dispatch(event))
            }));
        }
        let mut i: u32 = 0;
        for reader in readers {
            let (found, response) = reader.await.unwrap();
            assert_eq!(found, Some(i));
            assert_eq!(response.data, Some(Value::from(i)));
            assert_eq!(response.request_id, Some(i));
            i += 1;
        }
    });
}

#[test]
fn concurrent_requests_find_their_own_handlers() {
    let runtime = Builder::new_multi_thread().worker_threads(4).enable_all().build().unwrap();
    runtime.block_on(async {
        let registry = Arc::new(RwLock::new(EventRegistry::<FixedResponse, Nothing>::new()));
        registry.write().await.register(
            "kept",
            "click",
            FixedResponse { success: true, message: Some("kept".to_string()), data: None },
        );
        let n: u32 = 64;

        let mut writers = Vec::new();
        for i in 0..n {
            let registry = registry.clone();
            writers.push(tokio::spawn(async move {
                let mut table = registry.write().await;
                table.register(
                    &format!("element:{}", i),
                    "click",
                    FixedResponse { success: true, message: Some(i.to_string()), data: None },
                );
            }));
        }
        for writer in writers {
            writer.await.unwrap();
        }
        assert_eq!(registry.read().await.len(), 65);

        let mut readers = Vec::new();
        for i in 0..n {
            let registry = registry.clone();
            readers.push(tokio::spawn(async move {
                let table = registry.read().await;
                let body = format!(
                    "{{\"element_id\":\"element:{}\",\"event_type\":\"click\",\"data\":{{}},\"correlation_token\":{}}}",
                    i, i
                );
                http_event_handler(&*table, &body)
            }));
        }
        let mut i: u32 = 0;
        for reader in readers {
            let response = decode_response(&reader.await.unwrap().unwrap()).unwrap();
            assert!(response.success);
            assert_eq!(response.message, Some(i.to_string()));
            assert_eq!(response.request_id, None);
            i += 1;
        }

        let table = registry.read().await;
        let kept = http_event_handler(
            &*table,
            "{\"element_id\":\"kept\",\"event_type\":\"click\",\"data\":{}}",
        );
        assert_eq!(decode_response(&kept.unwrap()).unwrap().message, Some("kept".to_string()));
    });
}

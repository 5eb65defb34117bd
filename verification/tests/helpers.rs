use serde_json::Value;
use web_ui::helpers::{
    create_error_response, create_success_response, has_char, process_user_data, validate_email,
    FixedResponse,
};
use web_ui::registry::EventHandler;
use web_ui::UIEvent;

#[test]
fn email_needs_an_at_sign_and_a_dot() {
    assert!(validate_email("ada@example.org"));
    assert!(validate_email(".@"));
    assert!(!validate_email("ada.example.org"));
    assert!(!validate_email("ada@example"));
    assert!(!validate_email(""));
}

#[test]
fn has_char_looks_at_every_character() {
    assert!(has_char("héllo", 'o'));
    assert!(has_char("héllo", 'é'));
    assert!(!has_char("héllo", 'e'));
    assert!(!has_char("", 'x'));
}

#[test]
fn user_data_is_checked_name_first() {
    assert_eq!(
        process_user_data("Ada", "ada@example.org"),
        Ok("User Ada with email ada@example.org processed successfully".to_string())
    );
    assert_eq!(process_user_data("", "ada@example.org"), Err("Name cannot be empty".to_string()));
    assert_eq!(process_user_data("", "nothing"), Err("Name cannot be empty".to_string()));
    assert_eq!(process_user_data("Ada", "nothing"), Err("Invalid email format".to_string()));
}

#[test]
fn success_response_carries_message_and_payload() {
    let response = create_success_response("saved", Value::Bool(true), Some(4));
    assert!(response.success);
    assert_eq!(response.message, Some("saved".to_string()));
    assert_eq!(response.data, Some(Value::Bool(true)));
    assert_eq!(response.request_id, Some(4));
}

#[test]
fn error_response_carries_the_error_only() {
    let response = create_error_response("broken", None);
    assert!(!response.success);
    assert_eq!(response.message, Some("broken".to_string()));
    assert_eq!(response.data, None);
    assert_eq!(response.request_id, None);
}

#[test]
fn fixed_response_answers_every_event_alike() {
    let handler = FixedResponse {
        success: false,
        message: Some("closed".to_string()),
        data: Some(Value::from(3u32)),
    };
    for token in [None, Some(5)] {
        let answer = handler
            .handle(UIEvent {
                element_id: "a".to_string(),
                event_type: "b".to_string(),
                data: Value::Null,
                request_id: token,
            })
            .unwrap();
        assert!(!answer.success);
        assert_eq!(answer.message, Some("closed".to_string()));
        assert_eq!(answer.data, Some(Value::from(3u32)));
        assert_eq!(answer.request_id, None);
    }
    let bare = FixedResponse { success: true, message: None, data: None };
    let answer = bare
        .handle(UIEvent {
            element_id: "a".to_string(),
            event_type: "b".to_string(),
            data: Value::Null,
            request_id: Some(1),
        })
        .unwrap();
    assert!(answer.success);
    assert_eq!(answer.message, None);
    assert_eq!(answer.data, None);
}

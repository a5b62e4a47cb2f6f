//! The Interface's REST command exemplar and reply classification.

use gateway_client::error::Error;
use gateway_client::rest::{classify_command_response, Interface};

#[test]
fn message_send_builds_path_body_and_bearer() {
    let i = Interface::new("Bot tok".to_owned());
    let cmd = i.send_message("123", "hello there", false, None);
    assert_eq!(cmd.path, "/channels/123/messages");
    assert_eq!(cmd.bearer, "Bot tok");
    let body: serde_json::Value = serde_json::from_str(&cmd.body).unwrap();
    let expected: serde_json::Value =
        serde_json::from_str(r#"{"content":"hello there","tts":false}"#).unwrap();
    assert_eq!(body, expected);
}

#[test]
fn message_send_with_nonce_and_tts() {
    let i = Interface::new("Bot tok".to_owned());
    let cmd = i.send_message("9", "hi", true, Some("n1".to_owned()));
    let body: serde_json::Value = serde_json::from_str(&cmd.body).unwrap();
    let expected: serde_json::Value =
        serde_json::from_str(r#"{"content":"hi","tts":true,"nonce":"n1"}"#).unwrap();
    assert_eq!(body, expected);
}

#[test]
fn message_send_escapes_content() {
    let i = Interface::new("t".to_owned());
    let cmd = i.send_message("1", "a \"quoted\" line", false, None);
    let body: serde_json::Value = serde_json::from_str(&cmd.body).unwrap();
    assert_eq!(body["content"].as_str(), Some("a \"quoted\" line"));
}

#[test]
fn success_statuses_are_empty_results() {
    assert_eq!(classify_command_response(200, "ok".to_owned()), Ok(()));
    assert_eq!(classify_command_response(204, String::new()), Ok(()));
    assert_eq!(classify_command_response(299, String::new()), Ok(()));
}

#[test]
fn failure_statuses_surface_the_body_as_command_error() {
    let r = classify_command_response(403, "missing access".to_owned());
    assert_eq!(r, Err(Error::UnexpectedResponse("missing access".to_owned())));
    let r = classify_command_response(199, "odd".to_owned());
    assert!(r.is_err());
    let r = classify_command_response(300, "redirect".to_owned());
    assert!(r.is_err());
}

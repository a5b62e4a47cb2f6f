//! The connection state machine: idempotent connect, bootstrap
//! classification, and lifecycle reports.

use gateway_client::client::{Client, ConnectDirective, ConnectionState};
use gateway_client::error::Error;

#[test]
fn connect_from_rest_directs_one_bootstrap() {
    let mut c = Client::new("tok".to_owned());
    assert_eq!(c.connect(), ConnectDirective::Resolve);
    assert_eq!(c.state, ConnectionState::Connecting);
}

#[test]
fn connect_twice_while_connected_opens_nothing() {
    let mut c = Client::new("tok".to_owned());
    let _ = c.connect();
    c.on_transport_open();
    assert_eq!(c.state, ConnectionState::Connected);
    assert_eq!(c.connect(), ConnectDirective::AlreadyActive);
    assert_eq!(c.connect(), ConnectDirective::AlreadyActive);
    assert_eq!(c.state, ConnectionState::Connected);
}

#[test]
fn connect_twice_while_ready_opens_nothing() {
    let mut c = Client::new("tok".to_owned());
    let _ = c.connect();
    c.on_transport_open();
    c.on_handshake_complete();
    assert_eq!(c.state, ConnectionState::Ready);
    assert_eq!(c.connect(), ConnectDirective::AlreadyActive);
    assert_eq!(c.connect(), ConnectDirective::AlreadyActive);
    assert_eq!(c.state, ConnectionState::Ready);
}

#[test]
fn connect_twice_from_rest_resolves_only_once() {
    let mut c = Client::new("tok".to_owned());
    assert_eq!(c.connect(), ConnectDirective::Resolve);
    assert_eq!(c.connect(), ConnectDirective::AlreadyActive);
}

#[test]
fn connect_retries_after_failure() {
    let mut c = Client::new("tok".to_owned());
    let _ = c.connect();
    let _ = c.on_bootstrap(500, "");
    assert!(matches!(c.state, ConnectionState::Failed(_)));
    assert_eq!(c.connect(), ConnectDirective::Resolve);
}

#[test]
fn bootstrap_unauthorized_fails_authentication_without_reading_body() {
    let mut c = Client::new("tok".to_owned());
    let _ = c.connect();
    let r = c.on_bootstrap(401, r#"{"url":"wss://gw.example"}"#);
    assert_eq!(r, Err(Error::AuthenticationFailed));
    assert_eq!(c.state, ConnectionState::Failed(Error::AuthenticationFailed));
}

#[test]
fn bootstrap_success_yields_streaming_uri() {
    let mut c = Client::new("tok".to_owned());
    let _ = c.connect();
    let r = c.on_bootstrap(200, r#"{"url":"wss://gw.example"}"#);
    assert_eq!(r.unwrap(), "wss://gw.example?v=6&encoding=json");
    assert_eq!(c.state, ConnectionState::Connecting);
}

#[test]
fn bootstrap_body_without_url_is_unexpected_response() {
    let mut c = Client::new("tok".to_owned());
    let _ = c.connect();
    let r = c.on_bootstrap(200, r#"{"address":"elsewhere"}"#);
    assert!(matches!(r, Err(Error::UnexpectedResponse(_))));
    assert!(matches!(c.state, ConnectionState::Failed(Error::UnexpectedResponse(_))));
}

#[test]
fn bootstrap_unparsable_body_is_unexpected_response() {
    let mut c = Client::new("tok".to_owned());
    let _ = c.connect();
    let r = c.on_bootstrap(200, "it is down");
    assert!(matches!(r, Err(Error::UnexpectedResponse(_))));
}

#[test]
fn bootstrap_non_string_url_is_unexpected_response() {
    let mut c = Client::new("tok".to_owned());
    let _ = c.connect();
    let r = c.on_bootstrap(200, r#"{"url":17}"#);
    assert!(matches!(r, Err(Error::UnexpectedResponse(_))));
}

#[test]
fn bootstrap_other_status_is_unexpected_response() {
    let mut c = Client::new("tok".to_owned());
    let _ = c.connect();
    let r = c.on_bootstrap(503, r#"{"url":"wss://gw.example"}"#);
    assert_eq!(
        r,
        Err(Error::UnexpectedResponse("unexpected bootstrap status 503".to_owned()))
    );
}

#[test]
fn bootstrap_status_renders_in_decimal() {
    let mut c = Client::new("tok".to_owned());
    let _ = c.connect();
    let r = c.on_bootstrap(302, "");
    assert_eq!(
        r,
        Err(Error::UnexpectedResponse("unexpected bootstrap status 302".to_owned()))
    );
    let mut c = Client::new("tok".to_owned());
    let _ = c.connect();
    let r = c.on_bootstrap(0, "");
    assert_eq!(
        r,
        Err(Error::UnexpectedResponse("unexpected bootstrap status 0".to_owned()))
    );
}

#[test]
fn bootstrap_out_of_order_is_not_ready() {
    let mut c = Client::new("tok".to_owned());
    let r = c.on_bootstrap(200, r#"{"url":"wss://gw.example"}"#);
    assert_eq!(r, Err(Error::NotReady));
    assert_eq!(c.state, ConnectionState::Disconnected);
}

#[test]
fn transport_failure_is_surfaced_and_recorded() {
    let mut c = Client::new("tok".to_owned());
    let _ = c.connect();
    let e = c.on_transport_failed("connection refused".to_owned());
    assert_eq!(e, Error::Transport("connection refused".to_owned()));
    assert_eq!(c.state, ConnectionState::Failed(e));
}

#[test]
fn handshake_completion_makes_the_client_ready() {
    let mut c = Client::new("tok".to_owned());
    let _ = c.connect();
    c.on_transport_open();
    c.on_handshake_complete();
    assert_eq!(c.state, ConnectionState::Ready);
}

#[test]
fn handshake_report_out_of_order_changes_nothing() {
    let mut c = Client::new("tok".to_owned());
    c.on_handshake_complete();
    assert_eq!(c.state, ConnectionState::Disconnected);
    c.on_transport_open();
    assert_eq!(c.state, ConnectionState::Disconnected);
}

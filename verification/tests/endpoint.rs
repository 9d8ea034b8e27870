use ocpp_backend::endpoint::{healthcheck_body, is_websocket_client};

#[test]
fn the_health_page_names_the_start_time() {
    assert_eq!(
        healthcheck_body(Some("28/10/2026 09:15")),
        "<h1>Server working. Started at: 28/10/2026 09:15</h1>"
    );
    assert_eq!(healthcheck_body(Some("")), "<h1>Server working. Started at: </h1>");
}

#[test]
fn the_health_page_says_when_the_server_has_not_started() {
    assert_eq!(healthcheck_body(None), "<h1>Server has not started yet</h1>");
}

#[test]
fn only_the_expected_user_agent_is_a_websocket_client() {
    assert!(is_websocket_client("Websocket Client"));
    assert!(!is_websocket_client("websocket client"));
    assert!(!is_websocket_client("Websocket Client/1.0"));
    assert!(!is_websocket_client(""));
}

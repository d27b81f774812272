use stripelistener::listener::session_log_line;
use stripelistener::{
    client_info, AuthorizationError, Config, ConnectionError, ListenerError, StripeListener,
};

const SESSION_BODY: &str =
    r#"{"websocket_id":"ws_1","websocket_url":"wss://x","websocket_authorized_feature":"webhooks"}"#;

fn pairs(v: &[(String, String)]) -> Vec<(&str, &str)> {
    v.iter().map(|(a, b)| (a.as_str(), b.as_str())).collect()
}

#[test]
fn authorized_session_dials_feature_url_with_socket_id() {
    let mut l = StripeListener::new(Config::with_api_key("sk_test_1".to_string()));
    let s = l.complete_authorize(200, SESSION_BODY).unwrap();
    assert_eq!(s.websocket_id, "ws_1");
    assert_eq!(s.websocket_url, "wss://x");
    assert_eq!(s.websocket_authorized_feature, "webhooks");
    let h = l.connect_request("linux", "x86_64").unwrap();
    assert_eq!(h.url, "wss://x?websocket_feature=webhooks");
    assert_eq!(
        pairs(&h.headers),
        vec![
            ("Websocket-Id", "ws_1"),
            ("Sec-WebSocket-Protocol", "stripecli-devproxy-v1"),
            ("User-Agent", "Stripe/v1 stripe-cli/1.21.0"),
            (
                "X-Stripe-Client-User-Agent",
                r#"{"name":"stripe-cli","os":"linux","publisher":"stripe","uname":"linux x86_64","version":"1.21.0"}"#
            ),
        ]
    );
}

#[test]
fn non_success_status_fails_with_status_and_body() {
    let mut l = StripeListener::new(Config::with_api_key("sk_test_1".to_string()));
    match l.complete_authorize(401, "{\"error\":\"bad key\"}") {
        Err(ListenerError::Authorization(AuthorizationError::Status { status, body })) => {
            assert_eq!(status, 401);
            assert_eq!(body, "{\"error\":\"bad key\"}");
        }
        other => panic!("unexpected outcome {:?}", other),
    }
    assert!(l.session().is_none());
}

#[test]
fn status_bounds_of_success() {
    let mut l = StripeListener::new(Config::with_api_key("k".to_string()));
    assert!(l.complete_authorize(299, SESSION_BODY).is_ok());
    assert!(matches!(
        l.complete_authorize(300, SESSION_BODY),
        Err(ListenerError::Authorization(AuthorizationError::Status { status: 300, .. }))
    ));
    assert!(matches!(
        l.complete_authorize(199, SESSION_BODY),
        Err(ListenerError::Authorization(AuthorizationError::Status { status: 199, .. }))
    ));
}

#[test]
fn malformed_session_body_fails() {
    let mut l = StripeListener::new(Config::with_api_key("k".to_string()));
    for body in ["", "nope", r#"{"websocket_id":"ws_1","websocket_url":"wss://x"}"#] {
        assert!(matches!(
            l.complete_authorize(200, body),
            Err(ListenerError::Authorization(AuthorizationError::Malformed))
        ));
    }
    assert!(l.session().is_none());
}

#[test]
fn reauthorizing_gives_a_fresh_session() {
    let mut l = StripeListener::new(Config::with_api_key("k".to_string()));
    l.complete_authorize(200, SESSION_BODY).unwrap();
    let second = r#"{"websocket_id":"ws_2","websocket_url":"wss://y","websocket_authorized_feature":"v2"}"#;
    let s = l.complete_authorize(201, second).unwrap();
    assert_eq!(s.websocket_id, "ws_2");
    let held = l.session().unwrap();
    assert_eq!(held.websocket_id, "ws_2");
    assert_eq!(held.websocket_url, "wss://y");
    assert_eq!(held.websocket_authorized_feature, "v2");
    assert!(l.complete_authorize(500, "down").is_err());
    assert_eq!(l.session().unwrap().websocket_id, "ws_2");
}

#[test]
fn connect_before_authorize_is_a_state_error() {
    let l = StripeListener::new(Config::with_api_key("k".to_string()));
    assert!(matches!(l.connect_request("linux", "x86_64"), Err(ListenerError::State)));
}

#[test]
fn socket_url_without_host_is_a_connection_error() {
    let mut l = StripeListener::new(Config::with_api_key("k".to_string()));
    let body = r#"{"websocket_id":"ws_1","websocket_url":"not a url","websocket_authorized_feature":"webhooks"}"#;
    l.complete_authorize(200, body).unwrap();
    assert!(matches!(l.connect_request("linux", "x86_64"), Err(ListenerError::Connection(ConnectionError::Url))));
}

#[test]
fn socket_id_that_is_no_header_value_is_a_connection_error() {
    let mut l = StripeListener::new(Config::with_api_key("k".to_string()));
    let body = r#"{"websocket_id":"ws\n1","websocket_url":"wss://x","websocket_authorized_feature":"webhooks"}"#;
    l.complete_authorize(200, body).unwrap();
    assert!(matches!(l.connect_request("linux", "x86_64"), Err(ListenerError::Connection(ConnectionError::Header))));
}

#[test]
fn defaults_fill_the_request_form() {
    let l = StripeListener::new(Config::with_api_key("sk_test_1".to_string()));
    assert_eq!(l.ping_period_ms(), 2000);
    let req = l.authorize_request("linux", "x86_64").unwrap();
    assert_eq!(req.url, "https://api.stripe.com/v1/stripecli/sessions");
    assert_eq!(
        pairs(&req.form),
        vec![("device_name", "custom-stripe-listener"), ("websocket_features[]", "webhooks")]
    );
    assert_eq!(
        pairs(&req.headers),
        vec![
            ("Accept-Encoding", "identity"),
            ("User-Agent", "Stripe/v1 stripe-cli/1.21.0"),
            (
                "X-Stripe-Client-User-Agent",
                r#"{"name":"stripe-cli","os":"linux","publisher":"stripe","uname":"linux x86_64","version":"1.21.0"}"#
            ),
            ("Authorization", "Bearer sk_test_1"),
            ("Content-Type", "application/x-www-form-urlencoded"),
        ]
    );
}

#[test]
fn given_settings_are_kept() {
    let mut cfg = Config::with_api_key(String::new());
    cfg.device_name = Some("dev".to_string());
    cfg.websocket_features = Some(vec!["webhooks".to_string(), "v2".to_string()]);
    cfg.ping_period_ms = Some(500);
    let l = StripeListener::new(cfg);
    assert_eq!(l.ping_period_ms(), 500);
    let req = l.authorize_request("macos", "aarch64").unwrap();
    assert_eq!(
        pairs(&req.form),
        vec![
            ("device_name", "dev"),
            ("websocket_features[]", "webhooks"),
            ("websocket_features[]", "v2"),
        ]
    );
    assert_eq!(req.headers.len(), 3);
}

#[test]
fn credential_that_is_no_header_value_is_refused() {
    let l = StripeListener::new(Config::with_api_key("sk\ntest".to_string()));
    assert!(matches!(
        l.authorize_request("linux", "x86_64"),
        Err(ListenerError::Authorization(AuthorizationError::Header))
    ));
}

#[test]
fn client_info_escapes_its_values() {
    assert_eq!(
        client_info("we\"ird", "a"),
        r#"{"name":"stripe-cli","os":"we\"ird","publisher":"stripe","uname":"we\"ird a","version":"1.21.0"}"#
    );
}

#[test]
fn defaults_fill_only_unset_settings() {
    let mut cfg = Config::with_api_key("k".to_string());
    cfg.defaults();
    assert_eq!(cfg.api_key, "k");
    assert_eq!(cfg.device_name.as_deref(), Some("custom-stripe-listener"));
    assert_eq!(cfg.websocket_features, Some(vec!["webhooks".to_string()]));
    assert_eq!(cfg.pong_wait_ms, Some(10000));
    assert_eq!(cfg.ping_period_ms, Some(2000));

    let mut set = Config::with_api_key("k".to_string());
    set.device_name = Some("d".to_string());
    set.websocket_features = Some(Vec::new());
    set.pong_wait_ms = Some(1);
    set.ping_period_ms = Some(2);
    set.defaults();
    assert_eq!(set.device_name.as_deref(), Some("d"));
    assert_eq!(set.websocket_features, Some(Vec::new()));
    assert_eq!(set.pong_wait_ms, Some(1));
    assert_eq!(set.ping_period_ms, Some(2));
}

#[test]
fn client_header_that_is_no_header_value_is_a_connection_error() {
    let mut l = StripeListener::new(Config::with_api_key("k".to_string()));
    l.complete_authorize(200, SESSION_BODY).unwrap();
    assert!(matches!(
        l.connect_request("li\u{7f}nux", "x86_64"),
        Err(ListenerError::Connection(ConnectionError::Header))
    ));
}

#[test]
fn granted_session_log_line() {
    let mut l = StripeListener::new(Config::with_api_key("k".to_string()));
    let s = l.complete_authorize(200, SESSION_BODY).unwrap();
    assert_eq!(session_log_line(&s), "session created ws_id=ws_1 feature=webhooks");
}

use sensor_net::auth_request::{read_token_response, AuthRequest, AuthRequestConfig, TokenResponse};
use sensor_net::clock::UtcTime;

fn config() -> AuthRequestConfig {
    AuthRequestConfig {
        client_id: String::from("id-1"),
        client_secret: String::from("s\"cret"),
        audience: String::from("https://api.example"),
        tenant: String::from("acme"),
        region: String::from("eu"),
        endpoint: String::from("https://sink.example/messages"),
    }
}

#[test]
fn a_new_request_fetches_a_token_first() {
    let c = config();
    let now = UtcTime { secs: 1_700_000_000, nanos: 5 };
    let r = AuthRequest::new_at(&c, now);
    assert!(r.token_expired_at(now));
    assert!(!r.token_expired_at(UtcTime { secs: 1_699_999_990, nanos: 5 }));
    assert!(r.token_expired_at(UtcTime { secs: 1_699_999_990, nanos: 6 }));
    assert_eq!(r.authorization_header(), "Bearer ");
    let live = AuthRequest::new(&c).unwrap();
    assert_eq!(live.token_expired(), Some(true));
}

#[test]
fn token_request_text() {
    let c = config();
    let r = AuthRequest::new_at(&c, UtcTime { secs: 100, nanos: 0 });
    assert_eq!(r.token_url(), "https://acme.eu.auth0.com/oauth/token");
    let body = r.token_request_body();
    assert_eq!(
        body,
        "{\"audience\":\"https://api.example\",\"client_id\":\"id-1\",\"client_secret\":\"s\\\"cret\",\"grant_type\":\"client_credentials\"}"
    );
    let mut expected = serde_json::Map::new();
    expected.insert(String::from("client_id"), serde_json::Value::String(c.client_id.clone()));
    expected.insert(String::from("client_secret"), serde_json::Value::String(c.client_secret.clone()));
    expected.insert(String::from("audience"), serde_json::Value::String(c.audience.clone()));
    expected.insert(String::from("grant_type"), serde_json::Value::String(String::from("client_credentials")));
    assert_eq!(body, serde_json::Value::Object(expected).to_string());
    assert_eq!(r.config().endpoint, "https://sink.example/messages");
}

#[test]
fn a_token_answer_is_kept() {
    let c = config();
    let now = UtcTime { secs: 1000, nanos: 7 };
    let mut r = AuthRequest::new_at(&c, now);
    let answer = TokenResponse { access_token: String::from("\"tok\""), expires_in: Some(3600) };
    r.apply_token_response_at(&answer, now);
    assert_eq!(r.authorization_header(), "Bearer \"tok\"");
    assert!(!r.token_expired_at(UtcTime { secs: 4590, nanos: 7 }));
    assert!(r.token_expired_at(UtcTime { secs: 4590, nanos: 8 }));

    let missing = TokenResponse { access_token: String::from("null"), expires_in: None };
    r.apply_token_response_at(&missing, now);
    assert_eq!(r.authorization_header(), "Bearer null");
    assert!(r.token_expired_at(now));

    let mut live = AuthRequest::new(&c).unwrap();
    assert_eq!(live.apply_token_response(&answer), Some(true));
    assert_eq!(live.token_expired(), Some(false));
    assert_eq!(live.apply_token_response(&TokenResponse { access_token: String::from("x"), expires_in: Some(i64::MIN) }), Some(false));
    assert_eq!(live.apply_token_response(&TokenResponse { access_token: String::from("x"), expires_in: Some(i64::MAX) }), Some(false));
    assert_eq!(live.authorization_header(), "Bearer \"tok\"");
}

#[test]
fn token_answers_are_read_and_applied() {
    let t = read_token_response("{\"access_token\":\"abc\",\"expires_in\":86400}").unwrap();
    assert_eq!(t.access_token, "\"abc\"");
    assert_eq!(t.expires_in, Some(86400));
    let t = read_token_response("{}").unwrap();
    assert_eq!(t.access_token, "null");
    assert_eq!(t.expires_in, None);
    assert!(read_token_response("nope").is_err());

    let c = config();
    let now = UtcTime { secs: 1000, nanos: 0 };
    let mut r = AuthRequest::new_at(&c, now);
    assert!(r.try_apply_token_response_at(&t, now));
    assert_eq!(r.authorization_header(), "Bearer null");
    let late = UtcTime { secs: 8_210_266_876_000, nanos: 0 };
    let long = TokenResponse { access_token: String::from("x"), expires_in: Some(10_000) };
    assert!(!r.try_apply_token_response_at(&long, late));
    assert_eq!(r.authorization_header(), "Bearer null");
    let mut live = AuthRequest::new(&c).unwrap();
    assert_eq!(live.apply_token_response(&t), Some(true));
}

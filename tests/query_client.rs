use stream_watcher::api::{
    api_base, authorization_header, device_code_query, device_token_query, first_user,
    login_query, refresh_query, refresh_status, request_status, resolve_broadcasters,
    socket_url, subscription_body, subscription_status, subscriptions_url,
};
use stream_watcher::data::{Config, Error, Token, UserData, UserResponse};
use stream_watcher::dispatch::SubscriptionKind;

fn config(base: Option<&str>, socket: Option<&str>) -> Config {
    Config {
        clientId: "cid".to_string(),
        clientSecret: "SECRET-REDACTED".to_string(),
        broadcasters: vec!["foo".to_string()],
        streamlinkToken: "rt".to_string(),
        root: "/rec".to_string(),
        socketUrl: socket.map(|s| s.to_string()),
        baseUrl: base.map(|s| s.to_string()),
    }
}

fn token(access: &str) -> Token {
    Token { access_token: access.to_string(), refresh_token: "ref".to_string(), expires_in: 10 }
}

fn user(id: &str, login: &str) -> UserData {
    UserData { id: id.to_string(), login: login.to_string() }
}

#[test]
fn endpoints_default_or_configured() {
    assert_eq!(api_base(&config(None, None)), "https://api.twitch.tv/helix");
    assert_eq!(api_base(&config(Some("http://127.0.0.1:8080"), None)), "http://127.0.0.1:8080");
    assert_eq!(socket_url(&config(None, None)), "wss://eventsub.wss.twitch.tv/ws");
    assert_eq!(socket_url(&config(None, Some("ws://x"))), "ws://x");
    assert_eq!(subscriptions_url("http://b"), "http://b/eventsub/subscriptions");
}

#[test]
fn authorization_needs_access_token() {
    assert_eq!(authorization_header(&token("abc")), Ok("Bearer abc".to_string()));
    assert_eq!(authorization_header(&token("")), Err(Error::UnAuthorised));
}

#[test]
fn statuses_classify() {
    assert_eq!(request_status(401), Err(Error::UnAuthorised));
    assert_eq!(request_status(200), Ok(()));
    assert_eq!(refresh_status(401), Err(Error::ExpiredAuth));
    assert_eq!(refresh_status(200), Ok(()));
    assert_eq!(subscription_status(202), Ok(()));
    assert_eq!(subscription_status(401), Err(Error::UnAuthorised));
    assert_eq!(subscription_status(200), Err(Error::SubscriptionRejected));
    assert_eq!(subscription_status(409), Err(Error::SubscriptionRejected));
}

#[test]
fn queries_are_built() {
    let q = login_query("login", &vec!["a".to_string(), "b".to_string()]);
    assert_eq!(q, vec![("login".to_string(), "a".to_string()), ("login".to_string(), "b".to_string())]);
    let q = refresh_query(&config(None, None), &token("x"));
    assert_eq!(q[2], ("grant_type".to_string(), "refresh_token".to_string()));
    assert_eq!(q[3], ("refresh_token".to_string(), "ref".to_string()));
    assert_eq!(device_code_query("c", "s")[2], ("scopes".to_string(), "user:read:chat".to_string()));
    let q = device_token_query("c", "s", "dc");
    assert_eq!(q.len(), 5);
    assert_eq!(q[3], ("device_code".to_string(), "dc".to_string()));
}

#[test]
fn subscription_body_is_exact_json() {
    let body = subscription_body("s\"1", "42", SubscriptionKind::StreamOnline);
    assert_eq!(
        body,
        r#"{"condition":{"broadcaster_user_id":"42"},"transport":{"method":"websocket","session_id":"s\"1"},"type":"stream.online","version":1}"#
    );
    let body = subscription_body("a\\b\n\u{1}\u{1f}é", "7", SubscriptionKind::StreamOffline);
    assert!(body.contains(r#""session_id":"a\\b\n\u0001\u001fé""#));
    assert!(body.contains(r#""type":"stream.offline""#));
}

#[test]
fn first_user_or_missing() {
    let r = first_user(UserResponse { data: vec![user("1", "a"), user("2", "b")] }).unwrap();
    assert_eq!(r.id, "1");
    assert!(matches!(first_user(UserResponse { data: Vec::new() }), Err(Error::MissingUser)));
}

#[test]
fn broadcasters_resolve_in_configured_order() {
    let users = vec![user("2", "bar"), user("1", "foo")];
    let r = resolve_broadcasters(&vec!["foo".to_string(), "bar".to_string()], &users).unwrap();
    assert_eq!(r.iter().map(|u| u.id.as_str()).collect::<Vec<_>>(), vec!["1", "2"]);
    let r = resolve_broadcasters(&vec!["foo".to_string(), "baz".to_string()], &users);
    assert!(matches!(r, Err(Error::MissingUser)));
}

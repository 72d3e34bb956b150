use yaak_http::body::BodyPlan;
use yaak_http::exchange::{version_label, Action, Connection, Event, Exchange, HttpVersion, Phase};
use yaak_http::json::JsonValue;
use yaak_http::models::{
    HttpRequest, HttpRequestHeader, HttpResponse, HttpResponseState, HttpUrlParameter,
    ProxySetting, ProxySettingAuth, Timestamp, Workspace,
};
use yaak_http::request::prepare_request;
use yaak_http::transport::{proxy_for_scheme, request_timeout_ms, transport_policy, ProxyPlan, MAX_REDIRECTS};

fn connection(declared: Option<u64>) -> Connection {
    Connection {
        body_path: "/data/responses/rs_1".to_string(),
        elapsed_headers: 12,
        status: 200,
        status_reason: Some("OK".to_string()),
        headers: vec![],
        request_headers: vec![],
        url: "https://example.dev/".to_string(),
        remote_addr: Some("127.0.0.1:443".to_string()),
        version: Some("HTTP/1.1".to_string()),
        declared_length: declared,
    }
}

fn response() -> HttpResponse {
    let mut r = HttpResponse::new();
    r.id = "rs_1".to_string();
    r
}

#[test]
fn streamed_body_length_is_bytes_written() {
    let mut x = Exchange::new(response());
    assert_eq!(x.step(Event::Connected(connection(None))), Action::Persist);
    assert_eq!(x.response.state, HttpResponseState::Connected);
    assert_eq!(x.response.status, 200);
    assert_eq!(x.response.body_path.as_deref(), Some("/data/responses/rs_1"));
    assert_eq!(x.step(Event::Chunk { len: 3, elapsed: 20 }), Action::WriteChunk);
    assert_eq!(x.response.content_length, Some(3));
    assert_eq!(x.step(Event::Chunk { len: 4, elapsed: 25 }), Action::WriteChunk);
    assert_eq!(x.response.elapsed, 25);
    assert_eq!(x.step(Event::BodyEnded), Action::Persist);
    assert_eq!(x.response.content_length, Some(7));
    assert_eq!(x.response.state, HttpResponseState::Closed);
    assert_eq!(x.phase, Phase::Finished);
    assert!(x.response.error.is_none());
}

#[test]
fn declared_length_wins() {
    let mut x = Exchange::new(response());
    x.step(Event::Connected(connection(Some(100))));
    x.step(Event::Chunk { len: 10, elapsed: 1 });
    x.step(Event::BodyEnded);
    assert_eq!(x.response.content_length, Some(100));
    assert_eq!(x.response.state, HttpResponseState::Closed);
}

#[test]
fn failure_before_headers_closes_with_message() {
    let mut x = Exchange::new(response());
    assert_eq!(x.step(Event::Failed("render failed".to_string())), Action::Persist);
    assert_eq!(x.response.state, HttpResponseState::Closed);
    assert_eq!(x.response.error.as_deref(), Some("render failed"));
    assert_eq!(x.step(Event::Connected(connection(None))), Action::Nothing);
    assert_eq!(x.response.state, HttpResponseState::Closed);
}

#[test]
fn stream_error_is_recorded_and_closes() {
    let mut x = Exchange::new(response());
    x.step(Event::Connected(connection(None)));
    x.step(Event::Chunk { len: 5, elapsed: 1 });
    assert_eq!(x.step(Event::Failed("connection reset".to_string())), Action::Persist);
    assert_eq!(x.response.error.as_deref(), Some("connection reset"));
    assert_eq!(x.response.content_length, Some(5));
    assert_eq!(x.response.state, HttpResponseState::Closed);
}

#[test]
fn cancel_before_headers_never_connects() {
    let mut x = Exchange::new(response());
    assert_eq!(x.step(Event::Cancelled(None)), Action::Persist);
    assert_eq!(x.response.state, HttpResponseState::Closed);
    let err = x.response.error.clone().unwrap();
    assert_eq!(err, "Request was cancelled");
    assert!(err.contains("cancelled"));
    assert_eq!(x.step(Event::Connected(connection(None))), Action::Nothing);
    assert_eq!(x.step(Event::Chunk { len: 1, elapsed: 1 }), Action::Nothing);
    assert_ne!(x.response.state, HttpResponseState::Connected);
    assert_eq!(x.response.state, HttpResponseState::Closed);
}

#[test]
fn cancel_while_streaming_stops_writing() {
    let mut x = Exchange::new(response());
    x.step(Event::Connected(connection(None)));
    x.step(Event::Chunk { len: 8, elapsed: 1 });
    let mut stored = response();
    stored.content_length = Some(8);
    stored.state = HttpResponseState::Connected;
    assert_eq!(x.step(Event::Cancelled(Some(stored))), Action::Persist);
    assert_eq!(x.response.state, HttpResponseState::Closed);
    assert_eq!(x.response.content_length, Some(8));
    assert_eq!(x.step(Event::Chunk { len: 4, elapsed: 2 }), Action::Nothing);
    assert_eq!(x.written, 8);
    assert_eq!(x.step(Event::BodyEnded), Action::Nothing);
}

#[test]
fn cancel_of_unstored_response_while_streaming() {
    let mut x = Exchange::new(HttpResponse::new());
    x.step(Event::Connected(connection(None)));
    x.step(Event::Cancelled(None));
    assert_eq!(x.response.state, HttpResponseState::Closed);
    assert_eq!(x.response.error.as_deref(), Some("Ephemeral request was cancelled"));
}

#[test]
fn policy_follows_workspace() {
    let mut w = Workspace::new("w".to_string());
    w.setting_request_timeout = 1500;
    let p = transport_policy(&w, &None);
    assert_eq!(p.redirect_limit, Some(MAX_REDIRECTS));
    assert_eq!(MAX_REDIRECTS, 10);
    assert!(p.validate_certificates);
    assert_eq!(p.timeout_ms, Some(1500));
    assert!(matches!(p.proxy, ProxyPlan::System));
    w.setting_follow_redirects = false;
    w.setting_validate_certificates = false;
    w.setting_request_timeout = 0;
    let q = transport_policy(&w, &Some(ProxySetting::Disabled));
    assert_eq!(q.redirect_limit, None);
    assert!(!q.validate_certificates);
    assert_eq!(q.timeout_ms, None);
    assert!(matches!(q.proxy, ProxyPlan::Disabled));
}

#[test]
fn enabled_proxy_is_carried() {
    let w = Workspace::new("w".to_string());
    let setting = ProxySetting::Enabled {
        http: "http://proxy:3128".to_string(),
        https: "".to_string(),
        auth: Some(ProxySettingAuth { user: "u".to_string(), password: "p".to_string() }),
    };
    match transport_policy(&w, &Some(setting)).proxy {
        ProxyPlan::Custom { http, https, auth } => {
            assert_eq!(http, "http://proxy:3128");
            assert_eq!(https, "");
            assert_eq!(auth.unwrap().user, "u");
        }
        other => panic!("unexpected {other:?}"),
    }
}

#[test]
fn proxy_by_scheme() {
    assert_eq!(proxy_for_scheme("http", "http://p:1", "http://q:2").as_deref(), Some("http://p:1"));
    assert_eq!(proxy_for_scheme("https", "http://p:1", "http://q:2").as_deref(), Some("http://q:2"));
    assert_eq!(proxy_for_scheme("https", "http://p:1", ""), None);
    assert_eq!(proxy_for_scheme("ws", "http://p:1", "http://q:2"), None);
}

#[test]
fn timeouts() {
    assert_eq!(request_timeout_ms(1), Some(1));
    assert_eq!(request_timeout_ms(0), None);
    assert_eq!(request_timeout_ms(-5), None);
    assert_eq!(request_timeout_ms(i32::MAX), Some(2147483647));
}

fn request() -> HttpRequest {
    HttpRequest {
        model: "http_request".to_string(),
        id: "rq_1".to_string(),
        created_at: Timestamp::epoch(),
        updated_at: Timestamp::epoch(),
        workspace_id: "wk_1".to_string(),
        folder_id: None,
        authentication: vec![],
        authentication_type: None,
        body: vec![(
            "form".to_string(),
            JsonValue::Array(vec![JsonValue::Object(vec![
                ("name".to_string(), JsonValue::Str("f".to_string())),
                ("value".to_string(), JsonValue::Str("v".to_string())),
            ])]),
        )],
        body_type: Some("multipart/form-data".to_string()),
        description: String::new(),
        headers: vec![HttpRequestHeader {
            enabled: true,
            name: "Content-Type".to_string(),
            value: "text/plain".to_string(),
            id: None,
        }],
        method: "post".to_string(),
        name: "r".to_string(),
        sort_priority_bits: 0,
        url: "api.example.dev/items".to_string(),
        url_parameters: vec![HttpUrlParameter {
            enabled: true,
            name: "page".to_string(),
            value: "2".to_string(),
            id: None,
        }],
    }
}

#[test]
fn prepared_request_puts_it_together() {
    let r = prepare_request(&request());
    assert_eq!(r.url, "https://api.example.dev/items");
    assert_eq!(r.method, "POST");
    assert_eq!(r.query, vec![("page".to_string(), "2".to_string())]);
    assert_eq!(
        r.headers,
        vec![("user-agent".to_string(), "yaak".to_string()), ("accept".to_string(), "*/*".to_string())]
    );
    match r.body {
        BodyPlan::Multipart(parts) => {
            assert_eq!(parts.len(), 1);
            assert_eq!(parts[0].name, "f");
        }
        other => panic!("unexpected {other:?}"),
    }
}

#[test]
fn protocol_versions() {
    assert_eq!(version_label(HttpVersion::Http09).as_deref(), Some("HTTP/0.9"));
    assert_eq!(version_label(HttpVersion::Http10).as_deref(), Some("HTTP/1.0"));
    assert_eq!(version_label(HttpVersion::Http11).as_deref(), Some("HTTP/1.1"));
    assert_eq!(version_label(HttpVersion::Http2).as_deref(), Some("HTTP/2"));
    assert_eq!(version_label(HttpVersion::Http3).as_deref(), Some("HTTP/3"));
    assert_eq!(version_label(HttpVersion::Other), None);
}

#[test]
fn length_past_i32_wraps_as_stored() {
    let mut x = Exchange::new(response());
    x.step(Event::Connected(connection(None)));
    let len: usize = 3_000_000_000;
    x.step(Event::Chunk { len, elapsed: 1 });
    x.step(Event::BodyEnded);
    assert_eq!(x.written, len);
    assert_eq!(x.response.content_length, Some(len as i32));
}

use yaak_http::models::{
    default_http_method, default_true, EditorKeymap, GrpcConnectionState, GrpcEventType,
    HttpResponse, HttpResponseState, ModelType, WebsocketConnectionState, WebsocketEventType,
    WebsocketMessageType, Workspace,
};
use yaak_http::schema::{CookieJarIden, HttpRequestIden, HttpResponseIden, SettingsIden};

#[test]
fn id_prefixes_of_every_model_type() {
    let cases = vec![
        (ModelType::TypeCookieJar, "cj"),
        (ModelType::TypeEnvironment, "ev"),
        (ModelType::TypeFolder, "fl"),
        (ModelType::TypeGrpcConnection, "gc"),
        (ModelType::TypeGrpcEvent, "ge"),
        (ModelType::TypeGrpcRequest, "gr"),
        (ModelType::TypeHttpRequest, "rq"),
        (ModelType::TypeHttpResponse, "rs"),
        (ModelType::TypePlugin, "pg"),
        (ModelType::TypeSyncState, "ss"),
        (ModelType::TypeWebSocketConnection, "wc"),
        (ModelType::TypeWebSocketEvent, "we"),
        (ModelType::TypeWebsocketRequest, "wr"),
        (ModelType::TypeWorkspace, "wk"),
        (ModelType::TypeWorkspaceMeta, "wm"),
    ];
    for (t, p) in cases {
        assert_eq!(t.id_prefix(), p);
    }
}

#[test]
fn keymap_names_round_trip() {
    for name in ["default", "vim", "vscode", "emacs"] {
        let k = EditorKeymap::from_str(name).unwrap();
        assert_eq!(k.to_string(), name);
    }
    assert_eq!(EditorKeymap::from_str("vim").unwrap(), EditorKeymap::Vim);
}

#[test]
fn unknown_keymap_is_default() {
    assert_eq!(EditorKeymap::from_str("nano").unwrap(), EditorKeymap::Default);
    assert_eq!(EditorKeymap::from_str("").unwrap(), EditorKeymap::Default);
    assert_eq!(EditorKeymap::default(), EditorKeymap::Default);
}

#[test]
fn defaults_of_stored_fields() {
    assert!(default_true());
    assert_eq!(default_http_method(), "GET");
    assert_eq!(HttpResponseState::default(), HttpResponseState::Initialized);
    assert_eq!(WebsocketConnectionState::default(), WebsocketConnectionState::Initialized);
    assert_eq!(WebsocketMessageType::default(), WebsocketMessageType::Text);
    assert_eq!(WebsocketEventType::default(), WebsocketEventType::Text);
    assert_eq!(GrpcConnectionState::default(), GrpcConnectionState::Initialized);
    assert_eq!(GrpcEventType::default(), GrpcEventType::Info);
}

#[test]
fn new_workspace_validates_and_follows() {
    let w = Workspace::new("Main".to_string());
    assert_eq!(w.name, "Main");
    assert_eq!(w.model, "workspace");
    assert!(w.setting_validate_certificates);
    assert!(w.setting_follow_redirects);
    assert_eq!(w.setting_request_timeout, 0);
    assert_eq!(w.id, "");
}

#[test]
fn new_response_is_initialized_and_empty() {
    let r = HttpResponse::new();
    assert_eq!(r.model, "http_response");
    assert_eq!(r.state, HttpResponseState::Initialized);
    assert!(r.error.is_none());
    assert!(r.content_length.is_none());
    assert!(r.body_path.is_none());
    assert_eq!(r.status, 0);
    assert!(r.headers.is_empty());
}

#[test]
fn table_and_column_names() {
    assert_eq!(SettingsIden::Table.name(), "settings");
    assert_eq!(SettingsIden::OpenWorkspaceNewWindow.name(), "open_workspace_new_window");
    assert_eq!(CookieJarIden::Table.name(), "cookie_jars");
    assert_eq!(HttpRequestIden::Table.name(), "http_requests");
    assert_eq!(HttpRequestIden::UrlParameters.name(), "url_parameters");
    assert_eq!(HttpResponseIden::ElapsedHeaders.name(), "elapsed_headers");
}

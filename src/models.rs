use vstd::prelude::*;
use crate::json::JsonValue;

verus! {

/// A point in time as whole seconds since the Unix epoch plus nanoseconds.
#[derive(Debug, Clone, Copy, PartialEq, Eq, Structural)]
pub struct Timestamp {
    pub secs: i64,
    pub nanos: u32,
}

impl Timestamp {
    /// The Unix epoch, which stands for a time that was never set.
    pub fn epoch() -> (r: Timestamp)
        ensures
            r.secs == 0 && r.nanos == 0,
    {
        Timestamp { secs: 0, nanos: 0 }
    }
}

/// Credentials sent to a proxy.
#[derive(Debug, Clone)]
pub struct ProxySettingAuth {
    pub user: String,
    pub password: String,
}

/// How outbound requests reach the network.
#[derive(Debug, Clone)]
pub enum ProxySetting {
    Enabled { http: String, https: String, auth: Option<ProxySettingAuth> },
    Disabled,
}

/// Key bindings of the editor.
#[derive(Debug, Clone, Copy, PartialEq, Eq, Structural)]
pub enum EditorKeymap {
    Default,
    Vim,
    Vscode,
    Emacs,
}

pub open spec fn keymap_of(s: Seq<char>) -> EditorKeymap {
    if s == "vscode"@ {
        EditorKeymap::Vscode
    } else if s == "vim"@ {
        EditorKeymap::Vim
    } else if s == "emacs"@ {
        EditorKeymap::Emacs
    } else {
        EditorKeymap::Default
    }
}

pub open spec fn keymap_name(k: EditorKeymap) -> Seq<char> {
    match k {
        EditorKeymap::Default => "default"@,
        EditorKeymap::Vscode => "vscode"@,
        EditorKeymap::Vim => "vim"@,
        EditorKeymap::Emacs => "emacs"@,
    }
}

impl EditorKeymap {
    /// Reads a keymap name; an unknown name gives the default keymap.
    pub fn from_str(s: &str) -> (r: Result<EditorKeymap, ()>)
        ensures
            r == Ok::<EditorKeymap, ()>(keymap_of(s@)),
    {
        proof {
            reveal_strlit("vscode");
            reveal_strlit("vim");
            reveal_strlit("emacs");
        }
        let name = s.to_owned();
        let k = if name == "vscode".to_owned() {
            EditorKeymap::Vscode
        } else if name == "vim".to_owned() {
            EditorKeymap::Vim
        } else if name == "emacs".to_owned() {
            EditorKeymap::Emacs
        } else {
            EditorKeymap::default()
        };
        Ok(k)
    }

    /// The keymap's name as it is stored.
    pub fn to_string(&self) -> (r: String)
        ensures
            r@ == keymap_name(*self),
    {
        match self {
            EditorKeymap::Default => "default".to_owned(),
            EditorKeymap::Vscode => "vscode".to_owned(),
            EditorKeymap::Vim => "vim".to_owned(),
            EditorKeymap::Emacs => "emacs".to_owned(),
        }
    }
}

impl Default for EditorKeymap {
    fn default() -> (r: Self)
        ensures
            r == EditorKeymap::Default,
    {
        EditorKeymap::Default
    }
}

/// Value of a boolean field that a stored record leaves out.
pub fn default_true() -> (r: bool)
    ensures
        r,
{
    true
}

/// Method of a request that a stored record leaves out.
pub fn default_http_method() -> (r: String)
    ensures
        r@ == "GET"@,
{
    "GET".to_owned()
}

/// A workspace and its request settings.
#[derive(Debug, Clone)]
pub struct Workspace {
    pub model: String,
    pub id: String,
    pub created_at: Timestamp,
    pub updated_at: Timestamp,
    pub name: String,
    pub description: String,
    pub setting_validate_certificates: bool,
    pub setting_follow_redirects: bool,
    pub setting_request_timeout: i32,
}

impl Workspace {
    /// A new workspace that validates certificates and follows redirects.
    pub fn new(name: String) -> (r: Workspace)
        ensures
            r.name == name,
            r.model@ == "workspace"@,
            r.id@.len() == 0,
            r.description@.len() == 0,
            r.created_at == (Timestamp { secs: 0, nanos: 0 }) && r.updated_at == r.created_at,
            r.setting_validate_certificates,
            r.setting_follow_redirects,
            r.setting_request_timeout == 0,
    {
        Workspace {
            model: "workspace".to_owned(),
            id: String::new(),
            created_at: Timestamp::epoch(),
            updated_at: Timestamp::epoch(),
            name,
            description: String::new(),
            setting_validate_certificates: true,
            setting_follow_redirects: true,
            setting_request_timeout: 0,
        }
    }
}

/// Which hosts a cookie is sent to.
#[derive(Debug, Clone)]
pub enum CookieDomain {
    HostOnly(String),
    Suffix(String),
    NotPresent,
    Empty,
}

/// When a cookie expires.
#[derive(Debug, Clone)]
pub enum CookieExpires {
    AtUtc(String),
    SessionEnd,
}

/// The path of a cookie, and whether the cookie named it or it was taken from the request.
#[derive(Debug, Clone)]
pub struct CookiePath {
    pub value: String,
    pub given: bool,
}

/// A stored cookie: its raw text, domain, expiry and path.
#[derive(Debug, Clone)]
pub struct Cookie {
    pub raw_cookie: String,
    pub domain: CookieDomain,
    pub expires: CookieExpires,
    pub path: CookiePath,
}

/// A named, workspace-scoped set of cookies.
#[derive(Debug, Clone)]
pub struct CookieJar {
    pub model: String,
    pub id: String,
    pub created_at: Timestamp,
    pub updated_at: Timestamp,
    pub workspace_id: String,
    pub cookies: Vec<Cookie>,
    pub name: String,
}

/// A variable of an environment.
#[derive(Debug, Clone)]
pub struct EnvironmentVariable {
    pub enabled: bool,
    pub name: String,
    pub value: String,
    pub id: Option<String>,
}

/// A header of a request as the user wrote it.
#[derive(Debug, Clone)]
pub struct HttpRequestHeader {
    pub enabled: bool,
    pub name: String,
    pub value: String,
    pub id: Option<String>,
}

/// A query parameter of a request as the user wrote it.
#[derive(Debug, Clone)]
pub struct HttpUrlParameter {
    pub enabled: bool,
    pub name: String,
    pub value: String,
    pub id: Option<String>,
}

/// A request, after its templates were rendered or before.
///
/// `body` and `authentication` hold the free-form fields of the body kind
/// and the authentication kind. `sort_priority_bits` holds the bit pattern of
/// the request's position among its siblings.
#[derive(Debug)]
pub struct HttpRequest {
    pub model: String,
    pub id: String,
    pub created_at: Timestamp,
    pub updated_at: Timestamp,
    pub workspace_id: String,
    pub folder_id: Option<String>,
    pub authentication: Vec<(String, JsonValue)>,
    pub authentication_type: Option<String>,
    pub body: Vec<(String, JsonValue)>,
    pub body_type: Option<String>,
    pub description: String,
    pub headers: Vec<HttpRequestHeader>,
    pub method: String,
    pub name: String,
    pub sort_priority_bits: u32,
    pub url: String,
    pub url_parameters: Vec<HttpUrlParameter>,
}

/// A header as it was sent or received.
#[derive(Debug, Clone)]
pub struct HttpResponseHeader {
    pub name: String,
    pub value: String,
}

/// Lifecycle of a persisted response record.
#[derive(Debug, Clone, Copy, PartialEq, Eq, Structural)]
pub enum HttpResponseState {
    Initialized,
    Connected,
    Closed,
}

impl Default for HttpResponseState {
    fn default() -> (r: Self)
        ensures
            r == HttpResponseState::Initialized,
    {
        HttpResponseState::Initialized
    }
}

/// The persisted record of one response.
#[derive(Debug, Clone)]
pub struct HttpResponse {
    pub model: String,
    pub id: String,
    pub created_at: Timestamp,
    pub updated_at: Timestamp,
    pub workspace_id: String,
    pub request_id: String,
    pub body_path: Option<String>,
    pub content_length: Option<i32>,
    pub elapsed: i32,
    pub elapsed_headers: i32,
    pub error: Option<String>,
    pub headers: Vec<HttpResponseHeader>,
    pub request_headers: Vec<HttpResponseHeader>,
    pub remote_addr: Option<String>,
    pub status: i32,
    pub status_reason: Option<String>,
    pub state: HttpResponseState,
    pub url: String,
    pub version: Option<String>,
}

impl HttpResponse {
    /// An empty record in the `Initialized` state.
    pub fn new() -> (r: HttpResponse)
        ensures
            r.model@ == "http_response"@,
            r.id@.len() == 0,
            r.workspace_id@.len() == 0,
            r.request_id@.len() == 0,
            r.created_at == (Timestamp { secs: 0, nanos: 0 }) && r.updated_at == r.created_at,
            r.body_path is None,
            r.content_length is None,
            r.elapsed == 0 && r.elapsed_headers == 0,
            r.error is None,
            r.headers@.len() == 0 && r.request_headers@.len() == 0,
            r.remote_addr is None,
            r.status == 0,
            r.status_reason is None,
            r.state == HttpResponseState::Initialized,
            r.url@.len() == 0,
            r.version is None,
    {
        HttpResponse {
            model: "http_response".to_owned(),
            id: String::new(),
            created_at: Timestamp::epoch(),
            updated_at: Timestamp::epoch(),
            workspace_id: String::new(),
            request_id: String::new(),
            body_path: None,
            content_length: None,
            elapsed: 0,
            elapsed_headers: 0,
            error: None,
            headers: Vec::new(),
            request_headers: Vec::new(),
            remote_addr: None,
            status: 0,
            status_reason: None,
            state: HttpResponseState::default(),
            url: String::new(),
            version: None,
        }
    }
}

/// Lifecycle of a websocket connection.
#[derive(Debug, Clone, Copy, PartialEq, Eq, Structural)]
pub enum WebsocketConnectionState {
    Initialized,
    Connected,
    Closed,
}

impl Default for WebsocketConnectionState {
    fn default() -> (r: Self)
        ensures
            r == WebsocketConnectionState::Initialized,
    {
        WebsocketConnectionState::Initialized
    }
}

/// Kind of message a websocket request sends.
#[derive(Debug, Clone, Copy, PartialEq, Eq, Structural)]
pub enum WebsocketMessageType {
    Text,
    Binary,
}

impl Default for WebsocketMessageType {
    fn default() -> (r: Self)
        ensures
            r == WebsocketMessageType::Text,
    {
        WebsocketMessageType::Text
    }
}

/// Kind of a websocket event.
#[derive(Debug, Clone, Copy, PartialEq, Eq, Structural)]
pub enum WebsocketEventType {
    Binary,
    Close,
    Frame,
    Ping,
    Pong,
    Text,
}

impl Default for WebsocketEventType {
    fn default() -> (r: Self)
        ensures
            r == WebsocketEventType::Text,
    {
        WebsocketEventType::Text
    }
}

/// A metadata entry of a gRPC request as the user wrote it.
#[derive(Debug, Clone)]
pub struct GrpcMetadataEntry {
    pub enabled: bool,
    pub name: String,
    pub value: String,
    pub id: Option<String>,
}

/// Lifecycle of a gRPC connection.
#[derive(Debug, Clone, Copy, PartialEq, Eq, Structural)]
pub enum GrpcConnectionState {
    Initialized,
    Connected,
    Closed,
}

impl Default for GrpcConnectionState {
    fn default() -> (r: Self)
        ensures
            r == GrpcConnectionState::Initialized,
    {
        GrpcConnectionState::Initialized
    }
}

/// Kind of a gRPC event.
#[derive(Debug, Clone, Copy, PartialEq, Eq, Structural)]
pub enum GrpcEventType {
    Info,
    Error,
    ClientMessage,
    ServerMessage,
    ConnectionStart,
    ConnectionEnd,
}

impl Default for GrpcEventType {
    fn default() -> (r: Self)
        ensures
            r == GrpcEventType::Info,
    {
        GrpcEventType::Info
    }
}

/// The kinds of stored records.
#[derive(Debug, Clone, Copy, PartialEq, Eq, Structural)]
pub enum ModelType {
    TypeCookieJar,
    TypeEnvironment,
    TypeFolder,
    TypeGrpcConnection,
    TypeGrpcEvent,
    TypeGrpcRequest,
    TypeHttpRequest,
    TypeHttpResponse,
    TypePlugin,
    TypeSyncState,
    TypeWebSocketConnection,
    TypeWebSocketEvent,
    TypeWebsocketRequest,
    TypeWorkspace,
    TypeWorkspaceMeta,
}

impl ModelType {
    /// The two letters that begin the ids of records of this kind.
    pub open spec fn spec_id_prefix(self) -> Seq<char> {
        match self {
            ModelType::TypeCookieJar => "cj"@,
            ModelType::TypeEnvironment => "ev"@,
            ModelType::TypeFolder => "fl"@,
            ModelType::TypeGrpcConnection => "gc"@,
            ModelType::TypeGrpcEvent => "ge"@,
            ModelType::TypeGrpcRequest => "gr"@,
            ModelType::TypeHttpRequest => "rq"@,
            ModelType::TypeHttpResponse => "rs"@,
            ModelType::TypePlugin => "pg"@,
            ModelType::TypeWorkspace => "wk"@,
            ModelType::TypeWorkspaceMeta => "wm"@,
            ModelType::TypeSyncState => "ss"@,
            ModelType::TypeWebSocketConnection => "wc"@,
            ModelType::TypeWebSocketEvent => "we"@,
            ModelType::TypeWebsocketRequest => "wr"@,
        }
    }

    /// The two letters that begin the ids of records of this kind.
    pub fn id_prefix(&self) -> (r: String)
        ensures
            r@ == self.spec_id_prefix(),
    {
        proof {
            reveal_strlit("cj");
            reveal_strlit("ev");
            reveal_strlit("fl");
            reveal_strlit("gc");
            reveal_strlit("ge");
            reveal_strlit("gr");
            reveal_strlit("rq");
            reveal_strlit("rs");
            reveal_strlit("pg");
            reveal_strlit("wk");
            reveal_strlit("wm");
            reveal_strlit("ss");
            reveal_strlit("wc");
            reveal_strlit("we");
            reveal_strlit("wr");
        }
        let p = match self {
            ModelType::TypeCookieJar => "cj",
            ModelType::TypeEnvironment => "ev",
            ModelType::TypeFolder => "fl",
            ModelType::TypeGrpcConnection => "gc",
            ModelType::TypeGrpcEvent => "ge",
            ModelType::TypeGrpcRequest => "gr",
            ModelType::TypeHttpRequest => "rq",
            ModelType::TypeHttpResponse => "rs",
            ModelType::TypePlugin => "pg",
            ModelType::TypeWorkspace => "wk",
            ModelType::TypeWorkspaceMeta => "wm",
            ModelType::TypeSyncState => "ss",
            ModelType::TypeWebSocketConnection => "wc",
            ModelType::TypeWebSocketEvent => "we",
            ModelType::TypeWebsocketRequest => "wr",
        };
        p.to_owned()
    }
}

} // verus!

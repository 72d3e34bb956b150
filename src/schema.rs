use vstd::prelude::*;

verus! {

/// Table `settings` and its columns.
#[derive(Debug, Clone, Copy, PartialEq, Eq, Structural)]
pub enum SettingsIden {
    Table,
    Model,
    Id,
    CreatedAt,
    UpdatedAt,
    Appearance,
    EditorFontSize,
    EditorKeymap,
    EditorSoftWrap,
    InterfaceFontSize,
    InterfaceScale,
    OpenWorkspaceNewWindow,
    Proxy,
    Theme,
    ThemeDark,
    ThemeLight,
    UpdateChannel,
}

impl SettingsIden {
    /// The name of the table or column in the database.
    pub open spec fn spec_name(self) -> Seq<char> {
        match self {
            SettingsIden::Table => "settings"@,
            SettingsIden::Model => "model"@,
            SettingsIden::Id => "id"@,
            SettingsIden::CreatedAt => "created_at"@,
            SettingsIden::UpdatedAt => "updated_at"@,
            SettingsIden::Appearance => "appearance"@,
            SettingsIden::EditorFontSize => "editor_font_size"@,
            SettingsIden::EditorKeymap => "editor_keymap"@,
            SettingsIden::EditorSoftWrap => "editor_soft_wrap"@,
            SettingsIden::InterfaceFontSize => "interface_font_size"@,
            SettingsIden::InterfaceScale => "interface_scale"@,
            SettingsIden::OpenWorkspaceNewWindow => "open_workspace_new_window"@,
            SettingsIden::Proxy => "proxy"@,
            SettingsIden::Theme => "theme"@,
            SettingsIden::ThemeDark => "theme_dark"@,
            SettingsIden::ThemeLight => "theme_light"@,
            SettingsIden::UpdateChannel => "update_channel"@,
        }
    }

    /// The name of the table or column in the database.
    pub fn name(&self) -> (r: &'static str)
        ensures
            r@ == self.spec_name(),
    {
        proof {
            reveal_strlit("appearance");
            reveal_strlit("created_at");
            reveal_strlit("editor_font_size");
            reveal_strlit("editor_keymap");
            reveal_strlit("editor_soft_wrap");
            reveal_strlit("id");
            reveal_strlit("interface_font_size");
            reveal_strlit("interface_scale");
            reveal_strlit("model");
            reveal_strlit("open_workspace_new_window");
            reveal_strlit("proxy");
            reveal_strlit("settings");
            reveal_strlit("theme");
            reveal_strlit("theme_dark");
            reveal_strlit("theme_light");
            reveal_strlit("update_channel");
            reveal_strlit("updated_at");
        }
        match self {
            SettingsIden::Table => "settings",
            SettingsIden::Model => "model",
            SettingsIden::Id => "id",
            SettingsIden::CreatedAt => "created_at",
            SettingsIden::UpdatedAt => "updated_at",
            SettingsIden::Appearance => "appearance",
            SettingsIden::EditorFontSize => "editor_font_size",
            SettingsIden::EditorKeymap => "editor_keymap",
            SettingsIden::EditorSoftWrap => "editor_soft_wrap",
            SettingsIden::InterfaceFontSize => "interface_font_size",
            SettingsIden::InterfaceScale => "interface_scale",
            SettingsIden::OpenWorkspaceNewWindow => "open_workspace_new_window",
            SettingsIden::Proxy => "proxy",
            SettingsIden::Theme => "theme",
            SettingsIden::ThemeDark => "theme_dark",
            SettingsIden::ThemeLight => "theme_light",
            SettingsIden::UpdateChannel => "update_channel",
        }
    }
}

/// Table `workspaces` and its columns.
#[derive(Debug, Clone, Copy, PartialEq, Eq, Structural)]
pub enum WorkspaceIden {
    Table,
    Model,
    Id,
    CreatedAt,
    UpdatedAt,
    Description,
    Name,
    SettingFollowRedirects,
    SettingRequestTimeout,
    SettingValidateCertificates,
}

impl WorkspaceIden {
    /// The name of the table or column in the database.
    pub open spec fn spec_name(self) -> Seq<char> {
        match self {
            WorkspaceIden::Table => "workspaces"@,
            WorkspaceIden::Model => "model"@,
            WorkspaceIden::Id => "id"@,
            WorkspaceIden::CreatedAt => "created_at"@,
            WorkspaceIden::UpdatedAt => "updated_at"@,
            WorkspaceIden::Description => "description"@,
            WorkspaceIden::Name => "name"@,
            WorkspaceIden::SettingFollowRedirects => "setting_follow_redirects"@,
            WorkspaceIden::SettingRequestTimeout => "setting_request_timeout"@,
            WorkspaceIden::SettingValidateCertificates => "setting_validate_certificates"@,
        }
    }

    /// The name of the table or column in the database.
    pub fn name(&self) -> (r: &'static str)
        ensures
            r@ == self.spec_name(),
    {
        proof {
            reveal_strlit("created_at");
            reveal_strlit("description");
            reveal_strlit("id");
            reveal_strlit("model");
            reveal_strlit("name");
            reveal_strlit("setting_follow_redirects");
            reveal_strlit("setting_request_timeout");
            reveal_strlit("setting_validate_certificates");
            reveal_strlit("updated_at");
            reveal_strlit("workspaces");
        }
        match self {
            WorkspaceIden::Table => "workspaces",
            WorkspaceIden::Model => "model",
            WorkspaceIden::Id => "id",
            WorkspaceIden::CreatedAt => "created_at",
            WorkspaceIden::UpdatedAt => "updated_at",
            WorkspaceIden::Description => "description",
            WorkspaceIden::Name => "name",
            WorkspaceIden::SettingFollowRedirects => "setting_follow_redirects",
            WorkspaceIden::SettingRequestTimeout => "setting_request_timeout",
            WorkspaceIden::SettingValidateCertificates => "setting_validate_certificates",
        }
    }
}

/// Table `workspace_metas` and its columns.
#[derive(Debug, Clone, Copy, PartialEq, Eq, Structural)]
pub enum WorkspaceMetaIden {
    Table,
    Model,
    Id,
    WorkspaceId,
    CreatedAt,
    UpdatedAt,
    SettingSyncDir,
}

impl WorkspaceMetaIden {
    /// The name of the table or column in the database.
    pub open spec fn spec_name(self) -> Seq<char> {
        match self {
            WorkspaceMetaIden::Table => "workspace_metas"@,
            WorkspaceMetaIden::Model => "model"@,
            WorkspaceMetaIden::Id => "id"@,
            WorkspaceMetaIden::WorkspaceId => "workspace_id"@,
            WorkspaceMetaIden::CreatedAt => "created_at"@,
            WorkspaceMetaIden::UpdatedAt => "updated_at"@,
            WorkspaceMetaIden::SettingSyncDir => "setting_sync_dir"@,
        }
    }

    /// The name of the table or column in the database.
    pub fn name(&self) -> (r: &'static str)
        ensures
            r@ == self.spec_name(),
    {
        proof {
            reveal_strlit("created_at");
            reveal_strlit("id");
            reveal_strlit("model");
            reveal_strlit("setting_sync_dir");
            reveal_strlit("updated_at");
            reveal_strlit("workspace_id");
            reveal_strlit("workspace_metas");
        }
        match self {
            WorkspaceMetaIden::Table => "workspace_metas",
            WorkspaceMetaIden::Model => "model",
            WorkspaceMetaIden::Id => "id",
            WorkspaceMetaIden::WorkspaceId => "workspace_id",
            WorkspaceMetaIden::CreatedAt => "created_at",
            WorkspaceMetaIden::UpdatedAt => "updated_at",
            WorkspaceMetaIden::SettingSyncDir => "setting_sync_dir",
        }
    }
}

/// Table `cookie_jars` and its columns.
#[derive(Debug, Clone, Copy, PartialEq, Eq, Structural)]
pub enum CookieJarIden {
    Table,
    Id,
    Model,
    WorkspaceId,
    CreatedAt,
    UpdatedAt,
    Cookies,
    Name,
}

impl CookieJarIden {
    /// The name of the table or column in the database.
    pub open spec fn spec_name(self) -> Seq<char> {
        match self {
            CookieJarIden::Table => "cookie_jars"@,
            CookieJarIden::Id => "id"@,
            CookieJarIden::Model => "model"@,
            CookieJarIden::WorkspaceId => "workspace_id"@,
            CookieJarIden::CreatedAt => "created_at"@,
            CookieJarIden::UpdatedAt => "updated_at"@,
            CookieJarIden::Cookies => "cookies"@,
            CookieJarIden::Name => "name"@,
        }
    }

    /// The name of the table or column in the database.
    pub fn name(&self) -> (r: &'static str)
        ensures
            r@ == self.spec_name(),
    {
        proof {
            reveal_strlit("cookie_jars");
            reveal_strlit("cookies");
            reveal_strlit("created_at");
            reveal_strlit("id");
            reveal_strlit("model");
            reveal_strlit("name");
            reveal_strlit("updated_at");
            reveal_strlit("workspace_id");
        }
        match self {
            CookieJarIden::Table => "cookie_jars",
            CookieJarIden::Id => "id",
            CookieJarIden::Model => "model",
            CookieJarIden::WorkspaceId => "workspace_id",
            CookieJarIden::CreatedAt => "created_at",
            CookieJarIden::UpdatedAt => "updated_at",
            CookieJarIden::Cookies => "cookies",
            CookieJarIden::Name => "name",
        }
    }
}

/// Table `environments` and its columns.
#[derive(Debug, Clone, Copy, PartialEq, Eq, Structural)]
pub enum EnvironmentIden {
    Table,
    Model,
    Id,
    CreatedAt,
    UpdatedAt,
    EnvironmentId,
    WorkspaceId,
    Name,
    Variables,
}

impl EnvironmentIden {
    /// The name of the table or column in the database.
    pub open spec fn spec_name(self) -> Seq<char> {
        match self {
            EnvironmentIden::Table => "environments"@,
            EnvironmentIden::Model => "model"@,
            EnvironmentIden::Id => "id"@,
            EnvironmentIden::CreatedAt => "created_at"@,
            EnvironmentIden::UpdatedAt => "updated_at"@,
            EnvironmentIden::EnvironmentId => "environment_id"@,
            EnvironmentIden::WorkspaceId => "workspace_id"@,
            EnvironmentIden::Name => "name"@,
            EnvironmentIden::Variables => "variables"@,
        }
    }

    /// The name of the table or column in the database.
    pub fn name(&self) -> (r: &'static str)
        ensures
            r@ == self.spec_name(),
    {
        proof {
            reveal_strlit("created_at");
            reveal_strlit("environment_id");
            reveal_strlit("environments");
            reveal_strlit("id");
            reveal_strlit("model");
            reveal_strlit("name");
            reveal_strlit("updated_at");
            reveal_strlit("variables");
            reveal_strlit("workspace_id");
        }
        match self {
            EnvironmentIden::Table => "environments",
            EnvironmentIden::Model => "model",
            EnvironmentIden::Id => "id",
            EnvironmentIden::CreatedAt => "created_at",
            EnvironmentIden::UpdatedAt => "updated_at",
            EnvironmentIden::EnvironmentId => "environment_id",
            EnvironmentIden::WorkspaceId => "workspace_id",
            EnvironmentIden::Name => "name",
            EnvironmentIden::Variables => "variables",
        }
    }
}

/// Table `folders` and its columns.
#[derive(Debug, Clone, Copy, PartialEq, Eq, Structural)]
pub enum FolderIden {
    Table,
    Id,
    Model,
    WorkspaceId,
    FolderId,
    CreatedAt,
    UpdatedAt,
    Name,
    Description,
    SortPriority,
}

impl FolderIden {
    /// The name of the table or column in the database.
    pub open spec fn spec_name(self) -> Seq<char> {
        match self {
            FolderIden::Table => "folders"@,
            FolderIden::Id => "id"@,
            FolderIden::Model => "model"@,
            FolderIden::WorkspaceId => "workspace_id"@,
            FolderIden::FolderId => "folder_id"@,
            FolderIden::CreatedAt => "created_at"@,
            FolderIden::UpdatedAt => "updated_at"@,
            FolderIden::Name => "name"@,
            FolderIden::Description => "description"@,
            FolderIden::SortPriority => "sort_priority"@,
        }
    }

    /// The name of the table or column in the database.
    pub fn name(&self) -> (r: &'static str)
        ensures
            r@ == self.spec_name(),
    {
        proof {
            reveal_strlit("created_at");
            reveal_strlit("description");
            reveal_strlit("folder_id");
            reveal_strlit("folders");
            reveal_strlit("id");
            reveal_strlit("model");
            reveal_strlit("name");
            reveal_strlit("sort_priority");
            reveal_strlit("updated_at");
            reveal_strlit("workspace_id");
        }
        match self {
            FolderIden::Table => "folders",
            FolderIden::Id => "id",
            FolderIden::Model => "model",
            FolderIden::WorkspaceId => "workspace_id",
            FolderIden::FolderId => "folder_id",
            FolderIden::CreatedAt => "created_at",
            FolderIden::UpdatedAt => "updated_at",
            FolderIden::Name => "name",
            FolderIden::Description => "description",
            FolderIden::SortPriority => "sort_priority",
        }
    }
}

/// Table `http_requests` and its columns.
#[derive(Debug, Clone, Copy, PartialEq, Eq, Structural)]
pub enum HttpRequestIden {
    Table,
    Id,
    Model,
    CreatedAt,
    UpdatedAt,
    WorkspaceId,
    FolderId,
    Authentication,
    AuthenticationType,
    Body,
    BodyType,
    Description,
    Headers,
    Method,
    Name,
    SortPriority,
    Url,
    UrlParameters,
}

impl HttpRequestIden {
    /// The name of the table or column in the database.
    pub open spec fn spec_name(self) -> Seq<char> {
        match self {
            HttpRequestIden::Table => "http_requests"@,
            HttpRequestIden::Id => "id"@,
            HttpRequestIden::Model => "model"@,
            HttpRequestIden::CreatedAt => "created_at"@,
            HttpRequestIden::UpdatedAt => "updated_at"@,
            HttpRequestIden::WorkspaceId => "workspace_id"@,
            HttpRequestIden::FolderId => "folder_id"@,
            HttpRequestIden::Authentication => "authentication"@,
            HttpRequestIden::AuthenticationType => "authentication_type"@,
            HttpRequestIden::Body => "body"@,
            HttpRequestIden::BodyType => "body_type"@,
            HttpRequestIden::Description => "description"@,
            HttpRequestIden::Headers => "headers"@,
            HttpRequestIden::Method => "method"@,
            HttpRequestIden::Name => "name"@,
            HttpRequestIden::SortPriority => "sort_priority"@,
            HttpRequestIden::Url => "url"@,
            HttpRequestIden::UrlParameters => "url_parameters"@,
        }
    }

    /// The name of the table or column in the database.
    pub fn name(&self) -> (r: &'static str)
        ensures
            r@ == self.spec_name(),
    {
        proof {
            reveal_strlit("authentication");
            reveal_strlit("authentication_type");
            reveal_strlit("body");
            reveal_strlit("body_type");
            reveal_strlit("created_at");
            reveal_strlit("description");
            reveal_strlit("folder_id");
            reveal_strlit("headers");
            reveal_strlit("http_requests");
            reveal_strlit("id");
            reveal_strlit("method");
            reveal_strlit("model");
            reveal_strlit("name");
            reveal_strlit("sort_priority");
            reveal_strlit("updated_at");
            reveal_strlit("url");
            reveal_strlit("url_parameters");
            reveal_strlit("workspace_id");
        }
        match self {
            HttpRequestIden::Table => "http_requests",
            HttpRequestIden::Id => "id",
            HttpRequestIden::Model => "model",
            HttpRequestIden::CreatedAt => "created_at",
            HttpRequestIden::UpdatedAt => "updated_at",
            HttpRequestIden::WorkspaceId => "workspace_id",
            HttpRequestIden::FolderId => "folder_id",
            HttpRequestIden::Authentication => "authentication",
            HttpRequestIden::AuthenticationType => "authentication_type",
            HttpRequestIden::Body => "body",
            HttpRequestIden::BodyType => "body_type",
            HttpRequestIden::Description => "description",
            HttpRequestIden::Headers => "headers",
            HttpRequestIden::Method => "method",
            HttpRequestIden::Name => "name",
            HttpRequestIden::SortPriority => "sort_priority",
            HttpRequestIden::Url => "url",
            HttpRequestIden::UrlParameters => "url_parameters",
        }
    }
}

/// Table `websocket_connections` and its columns.
#[derive(Debug, Clone, Copy, PartialEq, Eq, Structural)]
pub enum WebsocketConnectionIden {
    Table,
    Id,
    Model,
    CreatedAt,
    UpdatedAt,
    WorkspaceId,
    RequestId,
    Elapsed,
    Error,
    Headers,
    State,
    Status,
    Url,
}

impl WebsocketConnectionIden {
    /// The name of the table or column in the database.
    pub open spec fn spec_name(self) -> Seq<char> {
        match self {
            WebsocketConnectionIden::Table => "websocket_connections"@,
            WebsocketConnectionIden::Id => "id"@,
            WebsocketConnectionIden::Model => "model"@,
            WebsocketConnectionIden::CreatedAt => "created_at"@,
            WebsocketConnectionIden::UpdatedAt => "updated_at"@,
            WebsocketConnectionIden::WorkspaceId => "workspace_id"@,
            WebsocketConnectionIden::RequestId => "request_id"@,
            WebsocketConnectionIden::Elapsed => "elapsed"@,
            WebsocketConnectionIden::Error => "error"@,
            WebsocketConnectionIden::Headers => "headers"@,
            WebsocketConnectionIden::State => "state"@,
            WebsocketConnectionIden::Status => "status"@,
            WebsocketConnectionIden::Url => "url"@,
        }
    }

    /// The name of the table or column in the database.
    pub fn name(&self) -> (r: &'static str)
        ensures
            r@ == self.spec_name(),
    {
        proof {
            reveal_strlit("created_at");
            reveal_strlit("elapsed");
            reveal_strlit("error");
            reveal_strlit("headers");
            reveal_strlit("id");
            reveal_strlit("model");
            reveal_strlit("request_id");
            reveal_strlit("state");
            reveal_strlit("status");
            reveal_strlit("updated_at");
            reveal_strlit("url");
            reveal_strlit("websocket_connections");
            reveal_strlit("workspace_id");
        }
        match self {
            WebsocketConnectionIden::Table => "websocket_connections",
            WebsocketConnectionIden::Id => "id",
            WebsocketConnectionIden::Model => "model",
            WebsocketConnectionIden::CreatedAt => "created_at",
            WebsocketConnectionIden::UpdatedAt => "updated_at",
            WebsocketConnectionIden::WorkspaceId => "workspace_id",
            WebsocketConnectionIden::RequestId => "request_id",
            WebsocketConnectionIden::Elapsed => "elapsed",
            WebsocketConnectionIden::Error => "error",
            WebsocketConnectionIden::Headers => "headers",
            WebsocketConnectionIden::State => "state",
            WebsocketConnectionIden::Status => "status",
            WebsocketConnectionIden::Url => "url",
        }
    }
}

/// Table `websocket_requests` and its columns.
#[derive(Debug, Clone, Copy, PartialEq, Eq, Structural)]
pub enum WebsocketRequestIden {
    Table,
    Id,
    Model,
    CreatedAt,
    UpdatedAt,
    WorkspaceId,
    FolderId,
    Authentication,
    AuthenticationType,
    Message,
    Description,
    Headers,
    Name,
    SortPriority,
    Url,
    UrlParameters,
}

impl WebsocketRequestIden {
    /// The name of the table or column in the database.
    pub open spec fn spec_name(self) -> Seq<char> {
        match self {
            WebsocketRequestIden::Table => "websocket_requests"@,
            WebsocketRequestIden::Id => "id"@,
            WebsocketRequestIden::Model => "model"@,
            WebsocketRequestIden::CreatedAt => "created_at"@,
            WebsocketRequestIden::UpdatedAt => "updated_at"@,
            WebsocketRequestIden::WorkspaceId => "workspace_id"@,
            WebsocketRequestIden::FolderId => "folder_id"@,
            WebsocketRequestIden::Authentication => "authentication"@,
            WebsocketRequestIden::AuthenticationType => "authentication_type"@,
            WebsocketRequestIden::Message => "message"@,
            WebsocketRequestIden::Description => "description"@,
            WebsocketRequestIden::Headers => "headers"@,
            WebsocketRequestIden::Name => "name"@,
            WebsocketRequestIden::SortPriority => "sort_priority"@,
            WebsocketRequestIden::Url => "url"@,
            WebsocketRequestIden::UrlParameters => "url_parameters"@,
        }
    }

    /// The name of the table or column in the database.
    pub fn name(&self) -> (r: &'static str)
        ensures
            r@ == self.spec_name(),
    {
        proof {
            reveal_strlit("authentication");
            reveal_strlit("authentication_type");
            reveal_strlit("created_at");
            reveal_strlit("description");
            reveal_strlit("folder_id");
            reveal_strlit("headers");
            reveal_strlit("id");
            reveal_strlit("message");
            reveal_strlit("model");
            reveal_strlit("name");
            reveal_strlit("sort_priority");
            reveal_strlit("updated_at");
            reveal_strlit("url");
            reveal_strlit("url_parameters");
            reveal_strlit("websocket_requests");
            reveal_strlit("workspace_id");
        }
        match self {
            WebsocketRequestIden::Table => "websocket_requests",
            WebsocketRequestIden::Id => "id",
            WebsocketRequestIden::Model => "model",
            WebsocketRequestIden::CreatedAt => "created_at",
            WebsocketRequestIden::UpdatedAt => "updated_at",
            WebsocketRequestIden::WorkspaceId => "workspace_id",
            WebsocketRequestIden::FolderId => "folder_id",
            WebsocketRequestIden::Authentication => "authentication",
            WebsocketRequestIden::AuthenticationType => "authentication_type",
            WebsocketRequestIden::Message => "message",
            WebsocketRequestIden::Description => "description",
            WebsocketRequestIden::Headers => "headers",
            WebsocketRequestIden::Name => "name",
            WebsocketRequestIden::SortPriority => "sort_priority",
            WebsocketRequestIden::Url => "url",
            WebsocketRequestIden::UrlParameters => "url_parameters",
        }
    }
}

/// Table `websocket_events` and its columns.
#[derive(Debug, Clone, Copy, PartialEq, Eq, Structural)]
pub enum WebsocketEventIden {
    Table,
    Model,
    Id,
    CreatedAt,
    UpdatedAt,
    WorkspaceId,
    RequestId,
    ConnectionId,
    IsServer,
    MessageType,
    Message,
}

impl WebsocketEventIden {
    /// The name of the table or column in the database.
    pub open spec fn spec_name(self) -> Seq<char> {
        match self {
            WebsocketEventIden::Table => "websocket_events"@,
            WebsocketEventIden::Model => "model"@,
            WebsocketEventIden::Id => "id"@,
            WebsocketEventIden::CreatedAt => "created_at"@,
            WebsocketEventIden::UpdatedAt => "updated_at"@,
            WebsocketEventIden::WorkspaceId => "workspace_id"@,
            WebsocketEventIden::RequestId => "request_id"@,
            WebsocketEventIden::ConnectionId => "connection_id"@,
            WebsocketEventIden::IsServer => "is_server"@,
            WebsocketEventIden::MessageType => "message_type"@,
            WebsocketEventIden::Message => "message"@,
        }
    }

    /// The name of the table or column in the database.
    pub fn name(&self) -> (r: &'static str)
        ensures
            r@ == self.spec_name(),
    {
        proof {
            reveal_strlit("connection_id");
            reveal_strlit("created_at");
            reveal_strlit("id");
            reveal_strlit("is_server");
            reveal_strlit("message");
            reveal_strlit("message_type");
            reveal_strlit("model");
            reveal_strlit("request_id");
            reveal_strlit("updated_at");
            reveal_strlit("websocket_events");
            reveal_strlit("workspace_id");
        }
        match self {
            WebsocketEventIden::Table => "websocket_events",
            WebsocketEventIden::Model => "model",
            WebsocketEventIden::Id => "id",
            WebsocketEventIden::CreatedAt => "created_at",
            WebsocketEventIden::UpdatedAt => "updated_at",
            WebsocketEventIden::WorkspaceId => "workspace_id",
            WebsocketEventIden::RequestId => "request_id",
            WebsocketEventIden::ConnectionId => "connection_id",
            WebsocketEventIden::IsServer => "is_server",
            WebsocketEventIden::MessageType => "message_type",
            WebsocketEventIden::Message => "message",
        }
    }
}

/// Table `http_responses` and its columns.
#[derive(Debug, Clone, Copy, PartialEq, Eq, Structural)]
pub enum HttpResponseIden {
    Table,
    Model,
    Id,
    CreatedAt,
    UpdatedAt,
    WorkspaceId,
    RequestId,
    BodyPath,
    ContentLength,
    Elapsed,
    ElapsedHeaders,
    Error,
    Headers,
    RequestHeaders,
    RemoteAddr,
    Status,
    StatusReason,
    State,
    Url,
    Version,
}

impl HttpResponseIden {
    /// The name of the table or column in the database.
    pub open spec fn spec_name(self) -> Seq<char> {
        match self {
            HttpResponseIden::Table => "http_responses"@,
            HttpResponseIden::Model => "model"@,
            HttpResponseIden::Id => "id"@,
            HttpResponseIden::CreatedAt => "created_at"@,
            HttpResponseIden::UpdatedAt => "updated_at"@,
            HttpResponseIden::WorkspaceId => "workspace_id"@,
            HttpResponseIden::RequestId => "request_id"@,
            HttpResponseIden::BodyPath => "body_path"@,
            HttpResponseIden::ContentLength => "content_length"@,
            HttpResponseIden::Elapsed => "elapsed"@,
            HttpResponseIden::ElapsedHeaders => "elapsed_headers"@,
            HttpResponseIden::Error => "error"@,
            HttpResponseIden::Headers => "headers"@,
            HttpResponseIden::RequestHeaders => "request_headers"@,
            HttpResponseIden::RemoteAddr => "remote_addr"@,
            HttpResponseIden::Status => "status"@,
            HttpResponseIden::StatusReason => "status_reason"@,
            HttpResponseIden::State => "state"@,
            HttpResponseIden::Url => "url"@,
            HttpResponseIden::Version => "version"@,
        }
    }

    /// The name of the table or column in the database.
    pub fn name(&self) -> (r: &'static str)
        ensures
            r@ == self.spec_name(),
    {
        proof {
            reveal_strlit("body_path");
            reveal_strlit("content_length");
            reveal_strlit("created_at");
            reveal_strlit("elapsed");
            reveal_strlit("elapsed_headers");
            reveal_strlit("error");
            reveal_strlit("headers");
            reveal_strlit("http_responses");
            reveal_strlit("id");
            reveal_strlit("model");
            reveal_strlit("remote_addr");
            reveal_strlit("request_headers");
            reveal_strlit("request_id");
            reveal_strlit("state");
            reveal_strlit("status");
            reveal_strlit("status_reason");
            reveal_strlit("updated_at");
            reveal_strlit("url");
            reveal_strlit("version");
            reveal_strlit("workspace_id");
        }
        match self {
            HttpResponseIden::Table => "http_responses",
            HttpResponseIden::Model => "model",
            HttpResponseIden::Id => "id",
            HttpResponseIden::CreatedAt => "created_at",
            HttpResponseIden::UpdatedAt => "updated_at",
            HttpResponseIden::WorkspaceId => "workspace_id",
            HttpResponseIden::RequestId => "request_id",
            HttpResponseIden::BodyPath => "body_path",
            HttpResponseIden::ContentLength => "content_length",
            HttpResponseIden::Elapsed => "elapsed",
            HttpResponseIden::ElapsedHeaders => "elapsed_headers",
            HttpResponseIden::Error => "error",
            HttpResponseIden::Headers => "headers",
            HttpResponseIden::RequestHeaders => "request_headers",
            HttpResponseIden::RemoteAddr => "remote_addr",
            HttpResponseIden::Status => "status",
            HttpResponseIden::StatusReason => "status_reason",
            HttpResponseIden::State => "state",
            HttpResponseIden::Url => "url",
            HttpResponseIden::Version => "version",
        }
    }
}

/// Table `grpc_requests` and its columns.
#[derive(Debug, Clone, Copy, PartialEq, Eq, Structural)]
pub enum GrpcRequestIden {
    Table,
    Id,
    Model,
    CreatedAt,
    UpdatedAt,
    WorkspaceId,
    FolderId,
    Authentication,
    AuthenticationType,
    Description,
    Message,
    Metadata,
    Method,
    Name,
    Service,
    SortPriority,
    Url,
}

impl GrpcRequestIden {
    /// The name of the table or column in the database.
    pub open spec fn spec_name(self) -> Seq<char> {
        match self {
            GrpcRequestIden::Table => "grpc_requests"@,
            GrpcRequestIden::Id => "id"@,
            GrpcRequestIden::Model => "model"@,
            GrpcRequestIden::CreatedAt => "created_at"@,
            GrpcRequestIden::UpdatedAt => "updated_at"@,
            GrpcRequestIden::WorkspaceId => "workspace_id"@,
            GrpcRequestIden::FolderId => "folder_id"@,
            GrpcRequestIden::Authentication => "authentication"@,
            GrpcRequestIden::AuthenticationType => "authentication_type"@,
            GrpcRequestIden::Description => "description"@,
            GrpcRequestIden::Message => "message"@,
            GrpcRequestIden::Metadata => "metadata"@,
            GrpcRequestIden::Method => "method"@,
            GrpcRequestIden::Name => "name"@,
            GrpcRequestIden::Service => "service"@,
            GrpcRequestIden::SortPriority => "sort_priority"@,
            GrpcRequestIden::Url => "url"@,
        }
    }

    /// The name of the table or column in the database.
    pub fn name(&self) -> (r: &'static str)
        ensures
            r@ == self.spec_name(),
    {
        proof {
            reveal_strlit("authentication");
            reveal_strlit("authentication_type");
            reveal_strlit("created_at");
            reveal_strlit("description");
            reveal_strlit("folder_id");
            reveal_strlit("grpc_requests");
            reveal_strlit("id");
            reveal_strlit("message");
            reveal_strlit("metadata");
            reveal_strlit("method");
            reveal_strlit("model");
            reveal_strlit("name");
            reveal_strlit("service");
            reveal_strlit("sort_priority");
            reveal_strlit("updated_at");
            reveal_strlit("url");
            reveal_strlit("workspace_id");
        }
        match self {
            GrpcRequestIden::Table => "grpc_requests",
            GrpcRequestIden::Id => "id",
            GrpcRequestIden::Model => "model",
            GrpcRequestIden::CreatedAt => "created_at",
            GrpcRequestIden::UpdatedAt => "updated_at",
            GrpcRequestIden::WorkspaceId => "workspace_id",
            GrpcRequestIden::FolderId => "folder_id",
            GrpcRequestIden::Authentication => "authentication",
            GrpcRequestIden::AuthenticationType => "authentication_type",
            GrpcRequestIden::Description => "description",
            GrpcRequestIden::Message => "message",
            GrpcRequestIden::Metadata => "metadata",
            GrpcRequestIden::Method => "method",
            GrpcRequestIden::Name => "name",
            GrpcRequestIden::Service => "service",
            GrpcRequestIden::SortPriority => "sort_priority",
            GrpcRequestIden::Url => "url",
        }
    }
}

/// Table `grpc_connections` and its columns.
#[derive(Debug, Clone, Copy, PartialEq, Eq, Structural)]
pub enum GrpcConnectionIden {
    Table,
    Model,
    Id,
    CreatedAt,
    UpdatedAt,
    WorkspaceId,
    RequestId,
    Elapsed,
    Error,
    Method,
    Service,
    State,
    Status,
    Trailers,
    Url,
}

impl GrpcConnectionIden {
    /// The name of the table or column in the database.
    pub open spec fn spec_name(self) -> Seq<char> {
        match self {
            GrpcConnectionIden::Table => "grpc_connections"@,
            GrpcConnectionIden::Model => "model"@,
            GrpcConnectionIden::Id => "id"@,
            GrpcConnectionIden::CreatedAt => "created_at"@,
            GrpcConnectionIden::UpdatedAt => "updated_at"@,
            GrpcConnectionIden::WorkspaceId => "workspace_id"@,
            GrpcConnectionIden::RequestId => "request_id"@,
            GrpcConnectionIden::Elapsed => "elapsed"@,
            GrpcConnectionIden::Error => "error"@,
            GrpcConnectionIden::Method => "method"@,
            GrpcConnectionIden::Service => "service"@,
            GrpcConnectionIden::State => "state"@,
            GrpcConnectionIden::Status => "status"@,
            GrpcConnectionIden::Trailers => "trailers"@,
            GrpcConnectionIden::Url => "url"@,
        }
    }

    /// The name of the table or column in the database.
    pub fn name(&self) -> (r: &'static str)
        ensures
            r@ == self.spec_name(),
    {
        proof {
            reveal_strlit("created_at");
            reveal_strlit("elapsed");
            reveal_strlit("error");
            reveal_strlit("grpc_connections");
            reveal_strlit("id");
            reveal_strlit("method");
            reveal_strlit("model");
            reveal_strlit("request_id");
            reveal_strlit("service");
            reveal_strlit("state");
            reveal_strlit("status");
            reveal_strlit("trailers");
            reveal_strlit("updated_at");
            reveal_strlit("url");
            reveal_strlit("workspace_id");
        }
        match self {
            GrpcConnectionIden::Table => "grpc_connections",
            GrpcConnectionIden::Model => "model",
            GrpcConnectionIden::Id => "id",
            GrpcConnectionIden::CreatedAt => "created_at",
            GrpcConnectionIden::UpdatedAt => "updated_at",
            GrpcConnectionIden::WorkspaceId => "workspace_id",
            GrpcConnectionIden::RequestId => "request_id",
            GrpcConnectionIden::Elapsed => "elapsed",
            GrpcConnectionIden::Error => "error",
            GrpcConnectionIden::Method => "method",
            GrpcConnectionIden::Service => "service",
            GrpcConnectionIden::State => "state",
            GrpcConnectionIden::Status => "status",
            GrpcConnectionIden::Trailers => "trailers",
            GrpcConnectionIden::Url => "url",
        }
    }
}

/// Table `grpc_events` and its columns.
#[derive(Debug, Clone, Copy, PartialEq, Eq, Structural)]
pub enum GrpcEventIden {
    Table,
    Model,
    Id,
    CreatedAt,
    UpdatedAt,
    WorkspaceId,
    RequestId,
    ConnectionId,
    Content,
    Error,
    EventType,
    Metadata,
    Status,
}

impl GrpcEventIden {
    /// The name of the table or column in the database.
    pub open spec fn spec_name(self) -> Seq<char> {
        match self {
            GrpcEventIden::Table => "grpc_events"@,
            GrpcEventIden::Model => "model"@,
            GrpcEventIden::Id => "id"@,
            GrpcEventIden::CreatedAt => "created_at"@,
            GrpcEventIden::UpdatedAt => "updated_at"@,
            GrpcEventIden::WorkspaceId => "workspace_id"@,
            GrpcEventIden::RequestId => "request_id"@,
            GrpcEventIden::ConnectionId => "connection_id"@,
            GrpcEventIden::Content => "content"@,
            GrpcEventIden::Error => "error"@,
            GrpcEventIden::EventType => "event_type"@,
            GrpcEventIden::Metadata => "metadata"@,
            GrpcEventIden::Status => "status"@,
        }
    }

    /// The name of the table or column in the database.
    pub fn name(&self) -> (r: &'static str)
        ensures
            r@ == self.spec_name(),
    {
        proof {
            reveal_strlit("connection_id");
            reveal_strlit("content");
            reveal_strlit("created_at");
            reveal_strlit("error");
            reveal_strlit("event_type");
            reveal_strlit("grpc_events");
            reveal_strlit("id");
            reveal_strlit("metadata");
            reveal_strlit("model");
            reveal_strlit("request_id");
            reveal_strlit("status");
            reveal_strlit("updated_at");
            reveal_strlit("workspace_id");
        }
        match self {
            GrpcEventIden::Table => "grpc_events",
            GrpcEventIden::Model => "model",
            GrpcEventIden::Id => "id",
            GrpcEventIden::CreatedAt => "created_at",
            GrpcEventIden::UpdatedAt => "updated_at",
            GrpcEventIden::WorkspaceId => "workspace_id",
            GrpcEventIden::RequestId => "request_id",
            GrpcEventIden::ConnectionId => "connection_id",
            GrpcEventIden::Content => "content",
            GrpcEventIden::Error => "error",
            GrpcEventIden::EventType => "event_type",
            GrpcEventIden::Metadata => "metadata",
            GrpcEventIden::Status => "status",
        }
    }
}

/// Table `plugins` and its columns.
#[derive(Debug, Clone, Copy, PartialEq, Eq, Structural)]
pub enum PluginIden {
    Table,
    Model,
    Id,
    CreatedAt,
    UpdatedAt,
    CheckedAt,
    Directory,
    Enabled,
    Url,
}

impl PluginIden {
    /// The name of the table or column in the database.
    pub open spec fn spec_name(self) -> Seq<char> {
        match self {
            PluginIden::Table => "plugins"@,
            PluginIden::Model => "model"@,
            PluginIden::Id => "id"@,
            PluginIden::CreatedAt => "created_at"@,
            PluginIden::UpdatedAt => "updated_at"@,
            PluginIden::CheckedAt => "checked_at"@,
            PluginIden::Directory => "directory"@,
            PluginIden::Enabled => "enabled"@,
            PluginIden::Url => "url"@,
        }
    }

    /// The name of the table or column in the database.
    pub fn name(&self) -> (r: &'static str)
        ensures
            r@ == self.spec_name(),
    {
        proof {
            reveal_strlit("checked_at");
            reveal_strlit("created_at");
            reveal_strlit("directory");
            reveal_strlit("enabled");
            reveal_strlit("id");
            reveal_strlit("model");
            reveal_strlit("plugins");
            reveal_strlit("updated_at");
            reveal_strlit("url");
        }
        match self {
            PluginIden::Table => "plugins",
            PluginIden::Model => "model",
            PluginIden::Id => "id",
            PluginIden::CreatedAt => "created_at",
            PluginIden::UpdatedAt => "updated_at",
            PluginIden::CheckedAt => "checked_at",
            PluginIden::Directory => "directory",
            PluginIden::Enabled => "enabled",
            PluginIden::Url => "url",
        }
    }
}

/// Table `sync_states` and its columns.
#[derive(Debug, Clone, Copy, PartialEq, Eq, Structural)]
pub enum SyncStateIden {
    Table,
    Model,
    Id,
    WorkspaceId,
    CreatedAt,
    UpdatedAt,
    Checksum,
    FlushedAt,
    ModelId,
    RelPath,
    SyncDir,
}

impl SyncStateIden {
    /// The name of the table or column in the database.
    pub open spec fn spec_name(self) -> Seq<char> {
        match self {
            SyncStateIden::Table => "sync_states"@,
            SyncStateIden::Model => "model"@,
            SyncStateIden::Id => "id"@,
            SyncStateIden::WorkspaceId => "workspace_id"@,
            SyncStateIden::CreatedAt => "created_at"@,
            SyncStateIden::UpdatedAt => "updated_at"@,
            SyncStateIden::Checksum => "checksum"@,
            SyncStateIden::FlushedAt => "flushed_at"@,
            SyncStateIden::ModelId => "model_id"@,
            SyncStateIden::RelPath => "rel_path"@,
            SyncStateIden::SyncDir => "sync_dir"@,
        }
    }

    /// The name of the table or column in the database.
    pub fn name(&self) -> (r: &'static str)
        ensures
            r@ == self.spec_name(),
    {
        proof {
            reveal_strlit("checksum");
            reveal_strlit("created_at");
            reveal_strlit("flushed_at");
            reveal_strlit("id");
            reveal_strlit("model");
            reveal_strlit("model_id");
            reveal_strlit("rel_path");
            reveal_strlit("sync_dir");
            reveal_strlit("sync_states");
            reveal_strlit("updated_at");
            reveal_strlit("workspace_id");
        }
        match self {
            SyncStateIden::Table => "sync_states",
            SyncStateIden::Model => "model",
            SyncStateIden::Id => "id",
            SyncStateIden::WorkspaceId => "workspace_id",
            SyncStateIden::CreatedAt => "created_at",
            SyncStateIden::UpdatedAt => "updated_at",
            SyncStateIden::Checksum => "checksum",
            SyncStateIden::FlushedAt => "flushed_at",
            SyncStateIden::ModelId => "model_id",
            SyncStateIden::RelPath => "rel_path",
            SyncStateIden::SyncDir => "sync_dir",
        }
    }
}

/// Table `key_values` and its columns.
#[derive(Debug, Clone, Copy, PartialEq, Eq, Structural)]
pub enum KeyValueIden {
    Table,
    Model,
    CreatedAt,
    UpdatedAt,
    Key,
    Namespace,
    Value,
}

impl KeyValueIden {
    /// The name of the table or column in the database.
    pub open spec fn spec_name(self) -> Seq<char> {
        match self {
            KeyValueIden::Table => "key_values"@,
            KeyValueIden::Model => "model"@,
            KeyValueIden::CreatedAt => "created_at"@,
            KeyValueIden::UpdatedAt => "updated_at"@,
            KeyValueIden::Key => "key"@,
            KeyValueIden::Namespace => "namespace"@,
            KeyValueIden::Value => "value"@,
        }
    }

    /// The name of the table or column in the database.
    pub fn name(&self) -> (r: &'static str)
        ensures
            r@ == self.spec_name(),
    {
        proof {
            reveal_strlit("created_at");
            reveal_strlit("key");
            reveal_strlit("key_values");
            reveal_strlit("model");
            reveal_strlit("namespace");
            reveal_strlit("updated_at");
            reveal_strlit("value");
        }
        match self {
            KeyValueIden::Table => "key_values",
            KeyValueIden::Model => "model",
            KeyValueIden::CreatedAt => "created_at",
            KeyValueIden::UpdatedAt => "updated_at",
            KeyValueIden::Key => "key",
            KeyValueIden::Namespace => "namespace",
            KeyValueIden::Value => "value",
        }
    }
}

/// Table `plugin_key_values` and its columns.
#[derive(Debug, Clone, Copy, PartialEq, Eq, Structural)]
pub enum PluginKeyValueIden {
    Table,
    Model,
    CreatedAt,
    UpdatedAt,
    PluginName,
    Key,
    Value,
}

impl PluginKeyValueIden {
    /// The name of the table or column in the database.
    pub open spec fn spec_name(self) -> Seq<char> {
        match self {
            PluginKeyValueIden::Table => "plugin_key_values"@,
            PluginKeyValueIden::Model => "model"@,
            PluginKeyValueIden::CreatedAt => "created_at"@,
            PluginKeyValueIden::UpdatedAt => "updated_at"@,
            PluginKeyValueIden::PluginName => "plugin_name"@,
            PluginKeyValueIden::Key => "key"@,
            PluginKeyValueIden::Value => "value"@,
        }
    }

    /// The name of the table or column in the database.
    pub fn name(&self) -> (r: &'static str)
        ensures
            r@ == self.spec_name(),
    {
        proof {
            reveal_strlit("created_at");
            reveal_strlit("key");
            reveal_strlit("model");
            reveal_strlit("plugin_key_values");
            reveal_strlit("plugin_name");
            reveal_strlit("updated_at");
            reveal_strlit("value");
        }
        match self {
            PluginKeyValueIden::Table => "plugin_key_values",
            PluginKeyValueIden::Model => "model",
            PluginKeyValueIden::CreatedAt => "created_at",
            PluginKeyValueIden::UpdatedAt => "updated_at",
            PluginKeyValueIden::PluginName => "plugin_name",
            PluginKeyValueIden::Key => "key",
            PluginKeyValueIden::Value => "value",
        }
    }
}
} // verus!

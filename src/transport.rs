use vstd::prelude::*;
use crate::models::{ProxySetting, ProxySettingAuth, Workspace};

verus! {

/// Redirects followed at most when a workspace follows redirects.
pub const MAX_REDIRECTS: usize = 10;

/// Which proxy the client uses.
#[derive(Debug, Clone)]
pub enum ProxyPlan {
    /// Nothing was configured: the client keeps its own default.
    System,
    /// No proxy at all.
    Disabled,
    /// A proxy per target scheme (an empty URL: none for that scheme), with optional credentials.
    Custom { http: String, https: String, auth: Option<ProxySettingAuth> },
}

/// How the client of one send is configured.
#[derive(Debug, Clone)]
pub struct TransportPolicy {
    /// Redirects followed at most; `None` follows none.
    pub redirect_limit: Option<usize>,
    /// Whether server certificates are checked against the platform's trust store.
    pub validate_certificates: bool,
    pub proxy: ProxyPlan,
    /// Budget of the whole exchange in milliseconds; `None` for no limit.
    pub timeout_ms: Option<u64>,
}

/// The time budget that a workspace setting gives: only a positive one counts.
pub open spec fn timeout_of(t: i32) -> Option<u64> {
    if t > 0 {
        Some(t as u64)
    } else {
        None
    }
}

/// The time budget of a request, from the workspace's setting in milliseconds.
pub fn request_timeout_ms(t: i32) -> (r: Option<u64>)
    ensures
        r == timeout_of(t),
{
    if t > 0 {
        Some(t as u64)
    } else {
        None
    }
}

/// The proxy of a policy, from the proxy setting.
pub open spec fn proxy_plan_matches(p: ProxyPlan, s: Option<ProxySetting>) -> bool {
    match s {
        None => p is System,
        Some(ProxySetting::Disabled) => p is Disabled,
        Some(ProxySetting::Enabled { http, https, auth }) => p == (ProxyPlan::Custom {
            http,
            https,
            auth,
        }),
    }
}

/// Builds the transport policy of a send from the workspace and the proxy setting.
pub fn transport_policy(workspace: &Workspace, proxy: &Option<ProxySetting>) -> (r: TransportPolicy)
    ensures
        r.redirect_limit == (if workspace.setting_follow_redirects {
            Some(MAX_REDIRECTS)
        } else {
            None
        }),
        r.validate_certificates == workspace.setting_validate_certificates,
        r.timeout_ms == timeout_of(workspace.setting_request_timeout),
        proxy_plan_matches(r.proxy, *proxy),
{
    let plan = match proxy {
        None => ProxyPlan::System,
        Some(ProxySetting::Disabled) => ProxyPlan::Disabled,
        Some(ProxySetting::Enabled { http, https, auth }) => {
            let a = match auth {
                Some(x) => Some(ProxySettingAuth { user: x.user.clone(), password: x.password.clone() }),
                None => None,
            };
            ProxyPlan::Custom { http: http.clone(), https: https.clone(), auth: a }
        },
    };
    TransportPolicy {
        redirect_limit: if workspace.setting_follow_redirects {
            Some(MAX_REDIRECTS)
        } else {
            None
        },
        validate_certificates: workspace.setting_validate_certificates,
        proxy: plan,
        timeout_ms: request_timeout_ms(workspace.setting_request_timeout),
    }
}

/// The proxy for a target of scheme `scheme`: the HTTP proxy for `http`, the
/// HTTPS proxy for `https`, and none when that URL is empty or for another scheme.
pub open spec fn proxy_choice(scheme: Seq<char>, http: Seq<char>, https: Seq<char>) -> Option<Seq<char>> {
    if scheme == "http"@ && http.len() > 0 {
        Some(http)
    } else if scheme == "https"@ && https.len() > 0 {
        Some(https)
    } else {
        None
    }
}

/// Picks the proxy URL for a target's scheme.
pub fn proxy_for_scheme(scheme: &str, http: &str, https: &str) -> (r: Option<String>)
    ensures
        match r {
            Some(u) => proxy_choice(scheme@, http@, https@) == Some(u@),
            None => proxy_choice(scheme@, http@, https@) is None,
        },
{
    proof {
        reveal_strlit("http");
        reveal_strlit("https");
    }
    let s = scheme.to_owned();
    if s == "http".to_owned() && !http.is_empty() {
        Some(http.to_owned())
    } else if s == "https".to_owned() && !https.is_empty() {
        Some(https.to_owned())
    } else {
        None
    }
}

} // verus!

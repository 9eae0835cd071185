//! Configuration: the API backend, the clipboard's auto-clear policy and
//! the UI colours, with their defaults, and the choice of backend that the
//! API settings imply.

use vstd::prelude::*;

verus! {

/// The whole configuration.
#[derive(Debug, Clone)]
pub struct KagiConfig {
    pub api: ApiConfig,
    pub clipboard: ClipboardConfig,
    pub appearance: AppearanceConfig,
}

/// How to reach 1Password.
#[derive(Debug, Clone)]
pub struct ApiConfig {
    /// 1Password Connect server URL (if using Connect API)
    pub connect_url: Option<String>,
    /// 1Password Connect token
    pub connect_token: Option<String>,
    /// Path to `op` CLI binary (fallback)
    pub op_path: String,
    /// 1Password service account token (for `op` CLI)
    pub service_account_token: Option<String>,
}

/// Clipboard behaviour for copied secrets.
#[derive(Debug, Clone)]
pub struct ClipboardConfig {
    /// Seconds before clipboard is cleared after copying a secret
    pub clear_timeout_secs: u32,
    /// Whether to auto-clear clipboard
    pub auto_clear: bool,
}

/// UI colours, as `#rrggbb` strings.
#[derive(Debug, Clone)]
pub struct AppearanceConfig {
    pub background: String,
    pub foreground: String,
    pub accent: String,
}

/// Default path of the `op` CLI.
pub open spec fn default_op_path_text() -> Seq<char> {
    "op"@
}

/// Default clipboard clear timeout, in seconds.
pub const DEFAULT_CLEAR_TIMEOUT_SECS: u32 = 30;

/// Default background colour.
pub open spec fn default_bg_text() -> Seq<char> {
    "#2e3440"@
}

/// Default foreground colour.
pub open spec fn default_fg_text() -> Seq<char> {
    "#eceff4"@
}

/// Default accent colour.
pub open spec fn default_accent_text() -> Seq<char> {
    "#88c0d0"@
}

fn default_op_path() -> (r: String)
    ensures
        r@ == default_op_path_text(),
{
    "op".to_owned()
}

fn default_clear_timeout() -> (r: u32)
    ensures
        r == DEFAULT_CLEAR_TIMEOUT_SECS,
{
    DEFAULT_CLEAR_TIMEOUT_SECS
}

fn default_auto_clear() -> (r: bool)
    ensures
        r,
{
    true
}

fn default_bg() -> (r: String)
    ensures
        r@ == default_bg_text(),
{
    "#2e3440".to_owned()
}

fn default_fg() -> (r: String)
    ensures
        r@ == default_fg_text(),
{
    "#eceff4".to_owned()
}

fn default_accent() -> (r: String)
    ensures
        r@ == default_accent_text(),
{
    "#88c0d0".to_owned()
}

impl Default for ApiConfig {
    fn default() -> (r: Self)
        ensures
            r.connect_url is None,
            r.connect_token is None,
            r.op_path@ == default_op_path_text(),
            r.service_account_token is None,
    {
        ApiConfig {
            connect_url: None,
            connect_token: None,
            op_path: default_op_path(),
            service_account_token: None,
        }
    }
}

impl Default for ClipboardConfig {
    fn default() -> (r: Self)
        ensures
            r.clear_timeout_secs == DEFAULT_CLEAR_TIMEOUT_SECS,
            r.auto_clear,
    {
        ClipboardConfig { clear_timeout_secs: default_clear_timeout(), auto_clear: default_auto_clear() }
    }
}

impl Default for AppearanceConfig {
    fn default() -> (r: Self)
        ensures
            r.background@ == default_bg_text(),
            r.foreground@ == default_fg_text(),
            r.accent@ == default_accent_text(),
    {
        AppearanceConfig { background: default_bg(), foreground: default_fg(), accent: default_accent() }
    }
}

impl KagiConfig {
    /// Every setting is at its default.
    pub open spec fn is_default(self) -> bool {
        &&& self.api.connect_url is None
        &&& self.api.connect_token is None
        &&& self.api.op_path@ == default_op_path_text()
        &&& self.api.service_account_token is None
        &&& self.clipboard.clear_timeout_secs == DEFAULT_CLEAR_TIMEOUT_SECS
        &&& self.clipboard.auto_clear
        &&& self.appearance.background@ == default_bg_text()
        &&& self.appearance.foreground@ == default_fg_text()
        &&& self.appearance.accent@ == default_accent_text()
    }
}

impl Default for KagiConfig {
    fn default() -> (r: Self)
        ensures
            r.is_default(),
    {
        KagiConfig {
            api: ApiConfig::default(),
            clipboard: ClipboardConfig::default(),
            appearance: AppearanceConfig::default(),
        }
    }
}

/// Which backend the API settings select, with what it is built from.
#[derive(Debug, Clone)]
pub enum BackendChoice {
    /// The 1Password Connect REST API at `url`, authorised by `token`.
    Connect { url: String, token: String },
    /// The `op` CLI at `op_path`, with an optional service account token.
    Cli { op_path: String, service_account_token: Option<String> },
}

impl ApiConfig {
    /// Both a Connect URL and a Connect token are set.
    pub open spec fn uses_connect(self) -> bool {
        self.connect_url is Some && self.connect_token is Some
    }

    /// The backend these settings select: Connect when both its URL and token
    /// are set, else the `op` CLI.
    pub fn backend_choice(&self) -> (r: BackendChoice)
        ensures
            match r {
                BackendChoice::Connect { url, token } => {
                    &&& self.uses_connect()
                    &&& self.connect_url == Some(url)
                    &&& self.connect_token == Some(token)
                },
                BackendChoice::Cli { op_path, service_account_token } => {
                    &&& !self.uses_connect()
                    &&& op_path == self.op_path
                    &&& service_account_token == self.service_account_token
                },
            },
    {
        match (&self.connect_url, &self.connect_token) {
            (Some(url), Some(token)) => BackendChoice::Connect { url: url.clone(), token: token.clone() },
            _ => BackendChoice::Cli {
                op_path: self.op_path.clone(),
                service_account_token: match &self.service_account_token {
                    Some(t) => Some(t.clone()),
                    None => None,
                },
            },
        }
    }

    /// The backend's name as the MCP `status` tool reports it.
    pub open spec fn backend_label_text(self) -> Seq<char> {
        if self.uses_connect() {
            "connect"@
        } else {
            "op-cli"@
        }
    }

    /// The backend's name as the MCP `status` tool reports it.
    pub fn backend_label(&self) -> (r: &'static str)
        ensures
            r@ == self.backend_label_text(),
    {
        if self.connect_url.is_some() && self.connect_token.is_some() {
            "connect"
        } else {
            "op-cli"
        }
    }
}

/// The status tool reports "connect" exactly when the settings build a
/// Connect backend, and "op-cli" exactly when they build the CLI backend.
pub proof fn law_status_names_backend(config: ApiConfig, choice: BackendChoice)
    requires
        match choice {
            BackendChoice::Connect { url, token } => config.uses_connect(),
            BackendChoice::Cli { .. } => !config.uses_connect(),
        },
    ensures
        (config.backend_label_text() == "connect"@) <==> (choice is Connect),
        (config.backend_label_text() == "op-cli"@) <==> (choice is Cli),
{
    reveal_strlit("connect");
    reveal_strlit("op-cli");
    assert("connect"@[0] != "op-cli"@[0]);
}

} // verus!

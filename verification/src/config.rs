//! Configuration: the endpoint the health monitor probes, the launch
//! options the supervisor injects, and the manager that holds the
//! current configuration. Loading and saving the configuration file is
//! the caller's job; the manager receives what was loaded and hands
//! back what to save.

use vstd::prelude::*;

use crate::json::{JsonModel, JsonVal};

verus! {

/// The backend endpoint: host, port, and the bounded-wait timeout.
pub struct GrpcConfig {
    pub port: u16,
    pub host: String,
    pub timeout_secs: u64,
}

/// Mathematical shape of a `GrpcConfig`.
pub struct GrpcConfigModel {
    pub port: u16,
    pub host: Seq<char>,
    pub timeout_secs: u64,
}

impl View for GrpcConfig {
    type V = GrpcConfigModel;

    open spec fn view(&self) -> GrpcConfigModel {
        GrpcConfigModel { port: self.port, host: self.host@, timeout_secs: self.timeout_secs }
    }
}

/// A usable endpoint has a nonzero port.
pub open spec fn spec_grpc_config_wf(c: GrpcConfigModel) -> bool {
    c.port >= 1
}

/// The endpoint configured out of the box.
pub open spec fn spec_default_grpc_config() -> GrpcConfigModel {
    GrpcConfigModel { port: 26040, host: "127.0.0.1"@, timeout_secs: 30 }
}

impl Default for GrpcConfig {
    /// The default endpoint: local loopback, the fixed backend port,
    /// thirty seconds of readiness patience.
    fn default() -> (r: GrpcConfig)
        ensures
            r@ == spec_default_grpc_config(),
            spec_grpc_config_wf(r@),
    {
        GrpcConfig { port: 26040, host: "127.0.0.1".to_owned(), timeout_secs: 30 }
    }
}

/// The whole application configuration.
pub struct AppConfig {
    pub grpc: GrpcConfig,
    pub log_level: String,
    pub workspace_dir: Option<String>,
    pub auto_start_grpc: bool,
    pub webview_state: Option<JsonVal>,
}

/// Mathematical shape of an `AppConfig`.
pub struct AppConfigModel {
    pub grpc: GrpcConfigModel,
    pub log_level: Seq<char>,
    pub workspace_dir: Option<Seq<char>>,
    pub auto_start_grpc: bool,
    pub webview_state: Option<JsonModel>,
}

impl View for AppConfig {
    type V = AppConfigModel;

    open spec fn view(&self) -> AppConfigModel {
        AppConfigModel {
            grpc: self.grpc@,
            log_level: self.log_level@,
            workspace_dir: match &self.workspace_dir {
                Some(d) => Some(d@),
                None => None,
            },
            auto_start_grpc: self.auto_start_grpc,
            webview_state: match &self.webview_state {
                Some(v) => Some(v@),
                None => None,
            },
        }
    }
}

/// The configuration written out of the box.
pub open spec fn spec_default_app_config() -> AppConfigModel {
    AppConfigModel {
        grpc: spec_default_grpc_config(),
        log_level: "info"@,
        workspace_dir: None,
        auto_start_grpc: true,
        webview_state: None,
    }
}

impl Default for AppConfig {
    /// The default configuration: default endpoint, info-level logging,
    /// no workspace chosen yet, the backend started automatically.
    fn default() -> (r: AppConfig)
        ensures
            r@ == spec_default_app_config(),
    {
        AppConfig {
            grpc: GrpcConfig::default(),
            log_level: "info".to_owned(),
            workspace_dir: None,
            auto_start_grpc: true,
            webview_state: None,
        }
    }
}

/// The decimal digits of a number, most significant first.
pub open spec fn spec_decimal(n: nat) -> Seq<char>
    decreases n,
{
    if n < 10 {
        seq![spec_digit(n)]
    } else {
        spec_decimal(n / 10).push(spec_digit(n % 10))
    }
}

/// The character for one decimal digit.
pub open spec fn spec_digit(d: nat) -> char {
    if d == 0 {
        '0'
    } else if d == 1 {
        '1'
    } else if d == 2 {
        '2'
    } else if d == 3 {
        '3'
    } else if d == 4 {
        '4'
    } else if d == 5 {
        '5'
    } else if d == 6 {
        '6'
    } else if d == 7 {
        '7'
    } else if d == 8 {
        '8'
    } else {
        '9'
    }
}

/// Relies on u64's `Display` implementation: the decimal digits of the
/// value, most significant first, no sign and no padding.
#[verifier::external_body]
fn u64_to_string(n: u64) -> (r: String)
    ensures
        r@ == spec_decimal(n as nat),
{
    n.to_string()
}

/// Holds the current configuration and where it is persisted. The
/// manager never touches the file itself: it is constructed from what
/// the caller loaded (or the default, when there was nothing to load),
/// and the caller saves `get_config` after every update.
pub struct ConfigManager {
    pub config_path: String,
    pub config: AppConfig,
}

impl ConfigManager {
    /// A manager over the configuration the caller loaded from
    /// `config_path`, or over the default one when the file was absent.
    pub fn new(config_path: String, loaded: Option<AppConfig>) -> (r: ConfigManager)
        ensures
            r.config_path@ == config_path@,
            r.config@ == match loaded {
                Some(c) => c@,
                None => spec_default_app_config(),
            },
    {
        let config = match loaded {
            Some(c) => c,
            None => AppConfig::default(),
        };
        ConfigManager { config_path, config }
    }

    /// The current configuration.
    pub fn get_config(&self) -> (r: &AppConfig)
        ensures
            *r == self.config,
    {
        &self.config
    }

    /// Replaces the whole configuration; the caller persists it.
    pub fn update_config(&mut self, new_config: AppConfig)
        ensures
            final(self).config == new_config,
            final(self).config_path == old(self).config_path,
    {
        self.config = new_config;
    }

    /// Points the configuration at another workspace directory.
    pub fn set_workspace_dir(&mut self, dir: Option<String>)
        ensures
            final(self).config_path == old(self).config_path,
            final(self).config@ == (AppConfigModel {
                workspace_dir: match dir {
                    Some(d) => Some(d@),
                    None => None,
                },
                ..old(self).config@
            }),
    {
        self.config.workspace_dir = dir;
    }

    /// The remembered UI state, as a copy.
    pub fn get_webview_state(&self) -> (r: Option<JsonVal>)
        ensures
            match r {
                Some(v) => self.config@.webview_state == Some(v@),
                None => self.config@.webview_state is None,
            },
    {
        match &self.config.webview_state {
            Some(v) => Some(v.deep_clone()),
            None => None,
        }
    }

    /// Replaces the remembered UI state.
    pub fn set_webview_state(&mut self, state: Option<JsonVal>)
        ensures
            final(self).config_path == old(self).config_path,
            final(self).config@ == (AppConfigModel {
                webview_state: match state {
                    Some(v) => Some(v@),
                    None => None,
                },
                ..old(self).config@
            }),
    {
        self.config.webview_state = state;
    }

    /// The environment injected into the backend process: its port and
    /// host, the log level, and the production marker.
    pub fn prepare_node_env(&self) -> (r: Vec<(String, String)>)
        ensures
            r.deep_view() =~= seq![
                ("GRPC_PORT"@, spec_decimal(self.config@.grpc.port as nat)),
                ("GRPC_HOST"@, self.config@.grpc.host),
                ("LOG_LEVEL"@, self.config@.log_level),
                ("NODE_ENV"@, "production"@),
            ],
    {
        let mut env: Vec<(String, String)> = Vec::new();
        env.push(("GRPC_PORT".to_owned(), u64_to_string(self.config.grpc.port as u64)));
        env.push(("GRPC_HOST".to_owned(), self.config.grpc.host.clone()));
        env.push(("LOG_LEVEL".to_owned(), self.config.log_level.clone()));
        env.push(("NODE_ENV".to_owned(), "production".to_owned()));
        env
    }

    /// The backend entry script, resolved from the directory the
    /// process was started in: runs from the shell adapter's own
    /// subdirectory step up to the project root first.
    pub fn get_node_script_path(&self, current_dir: &String) -> (r: String)
        ensures
            r@ == spec_project_root(current_dir@) + "/dist-standalone/cline-core.js"@,
    {
        let root = project_root(current_dir);
        root.concat("/dist-standalone/cline-core.js")
    }
}

/// The project root: the directory itself, unless it is the shell
/// adapter's `src-tauri` subdirectory, whose parent is the root.
pub open spec fn spec_project_root(cur: Seq<char>) -> Seq<char> {
    if cur == "src-tauri"@ {
        Seq::empty()
    } else if cur.len() >= 10 && cur.skip(cur.len() - 10) == "/src-tauri"@ {
        cur.take(cur.len() - 10)
    } else {
        cur
    }
}

/// Executable form of `spec_project_root`.
fn project_root(cur: &String) -> (r: String)
    ensures
        r@ == spec_project_root(cur@),
{
    let s = cur.as_str();
    let n = s.unicode_len();
    if crate::envelope::str_eq(s, "src-tauri") {
        String::new()
    } else if n >= 10 {
        let suffix = s.substring_char(n - 10, n);
        if crate::envelope::str_eq(suffix, "/src-tauri") {
            proof {
                assert(cur@.subrange(n - 10, n as int) =~= cur@.skip(n - 10));
                assert(cur@.subrange(0, n - 10) =~= cur@.take(n - 10));
            }
            s.substring_char(0, n - 10).to_owned()
        } else {
            cur.clone()
        }
    } else {
        cur.clone()
    }
}

} // verus!

//! The configuration model: rules, what they match, and what they do.

use vstd::prelude::*;

use crate::env::env_applied;

verus! {

/// The whole configuration; immutable once built, replaced wholesale on reload.
#[derive(Debug, Clone)]
pub struct Config {
    pub server: ServerConfig,
    pub logging: LoggingConfig,
    pub drop: DropConfig,
    pub response_logging: ResponseLoggingConfig,
}

/// Where the proxy listens and where its configuration file lives.
#[derive(Debug, Clone)]
pub struct ServerConfig {
    pub port: u16,
    pub config_file: String,
}

/// Rules that decide whether a request is logged.
#[derive(Debug, Clone)]
pub struct LoggingConfig {
    pub default: bool,
    pub rules: Vec<LoggingRule>,
}

/// Rules that decide whether a request is answered without reaching an
/// upstream.
#[derive(Debug, Clone)]
pub struct DropConfig {
    pub default: bool,
    pub rules: Vec<DropRule>,
}

#[derive(Debug, Clone)]
pub struct DropRule {
    pub name: String,
    pub match_conditions: MatchConditions,
    pub response: DropResponse,
}

/// The response synthesised for a dropped request.
#[derive(Debug, Clone)]
pub struct DropResponse {
    pub status_code: u16,
    pub body: Option<String>,
}

#[derive(Debug, Clone)]
pub struct LoggingRule {
    pub name: String,
    pub match_conditions: MatchConditions,
    pub capture: CaptureConfig,
    /// A duration literal (`"2s"`, `"500ms"`) bounding the upstream call.
    pub timeout: Option<String>,
}

/// What a request must look like for a rule to apply. Every non-empty
/// category must be satisfied.
#[derive(Debug, Clone)]
pub struct MatchConditions {
    /// Any one pattern must match the path.
    pub path: PathMatch,
    /// The request method must be one of these; empty allows any.
    pub methods: Vec<String>,
    /// Each listed header (a name and a pattern) must be present, and the
    /// pattern must match the value of the first header of that name. The
    /// configuration file writes it as a map, but nothing here relies on
    /// names being distinct: every entry must hold.
    pub headers: Vec<(String, String)>,
    /// Any one pattern must match the body.
    pub body: BodyMatch,
}

#[derive(Debug, Clone)]
pub struct PathMatch {
    pub patterns: Vec<String>,
}

#[derive(Debug, Clone)]
pub struct BodyMatch {
    pub patterns: Vec<String>,
}

/// Which parts of a matched request go into its log entry.
#[derive(Debug, Clone)]
pub struct CaptureConfig {
    pub headers: Vec<String>,
    pub body: bool,
    pub method: bool,
    pub path: bool,
    pub timing: bool,
}

/// Rules that decide whether a response is logged.
#[derive(Debug, Clone)]
pub struct ResponseLoggingConfig {
    pub default: bool,
    pub rules: Vec<ResponseLoggingRule>,
}

#[derive(Debug, Clone)]
pub struct ResponseLoggingRule {
    pub name: String,
    pub match_conditions: ResponseMatchConditions,
    pub capture: ResponseCaptureConfig,
}

/// What a response must look like for a rule to apply.
#[derive(Debug, Clone)]
pub struct ResponseMatchConditions {
    /// The status must be one of these; empty allows any.
    pub status_codes: Vec<u16>,
    /// As for requests: every (name, pattern) entry must hold.
    pub headers: Vec<(String, String)>,
    pub body: BodyMatch,
}

/// Which parts of a matched response go into its log entry.
#[derive(Debug, Clone)]
pub struct ResponseCaptureConfig {
    pub headers: Vec<String>,
    pub body: bool,
    pub status_code: bool,
    pub timing: bool,
}

/// The parts of an inbound request that rules look at. Header names are
/// compared without regard to ASCII case.
#[derive(Debug, Clone)]
pub struct RequestInfo {
    pub method: String,
    pub path: String,
    pub headers: Vec<(String, String)>,
}

impl RequestInfo {
    pub fn new(method: String, path: String, headers: Vec<(String, String)>) -> (r: RequestInfo)
        ensures
            r.method == method,
            r.path == path,
            r.headers == headers,
    {
        RequestInfo { method, path, headers }
    }
}

/// Owns the active configuration. Readers get the whole configuration; a
/// reload replaces it in one step, or, when the new one could not be
/// loaded, leaves it as it was.
#[derive(Debug)]
pub struct ConfigHolder {
    config: Config,
}

impl View for ConfigHolder {
    type V = Config;

    closed spec fn view(&self) -> Config {
        self.config
    }
}

impl ConfigHolder {
    pub fn new(config: Config) -> (r: ConfigHolder)
        ensures
            r@ == config,
    {
        ConfigHolder { config }
    }

    /// The active configuration.
    pub fn get(&self) -> (r: &Config)
        ensures
            *r == self@,
    {
        &self.config
    }

    /// The file that a reload reads.
    pub fn config_path(&self) -> (r: &String)
        ensures
            *r == self@.server.config_file,
    {
        &self.config.server.config_file
    }

    /// Installs a freshly loaded configuration, with `${NAME}` tokens in its
    /// drop-rule bodies substituted from `env`. When loading failed
    /// (`loaded` is an error), the active configuration stays as it was and
    /// the error is handed back.
    pub fn reload(&mut self, loaded: Result<Config, String>, env: &Vec<(String, String)>) -> (r:
        Result<(), String>)
        ensures
            match loaded {
                Ok(c) => r is Ok && env_applied(c, final(self)@, env@),
                Err(e) => r == Err::<(), String>(e) && final(self)@ == old(self)@,
            },
    {
        match loaded {
            Ok(c) => {
                self.config = c.substitute_env(env);
                Ok(())
            },
            Err(e) => Err(e),
        }
    }
}

} // verus!

//! Settings of the assistant and their defaults. Reading and writing the
//! settings file is done by the application.
use crate::text::{ends_with, owned};
use vstd::prelude::*;

verus! {

/// Connection settings for the OpenAI API.
#[derive(Debug, Clone)]
pub struct OpenAIConfig {
    pub api_key: String,
    pub model: String,
    pub base_url: String,
    pub timeout_seconds: u64,
}

/// Where the audit log is kept and for how long.
#[derive(Debug, Clone)]
pub struct AuditConfig {
    pub database_path: String,
    pub retention_days: u32,
}

/// Confirmation and logging switches.
#[derive(Debug, Clone)]
pub struct SafetyConfig {
    pub confirm_destructive: bool,
    pub require_typed_confirmation_in_production: bool,
    pub log_commands: bool,
}

/// What the translation output shows.
#[derive(Debug, Clone)]
pub struct DisplayConfig {
    pub show_confidence_threshold: u8,
    pub show_reasoning: bool,
}

/// Which language model answers: the Gemini API, a local Ollama server,
/// or Gemini first with Ollama as the fallback.
#[derive(Debug, Clone, Copy, PartialEq, Eq, Structural)]
pub enum AIProvider {
    Gemini,
    Ollama,
    Auto,
}

/// Where the local Ollama server listens and which model it runs.
#[derive(Debug, Clone)]
pub struct OllamaConfig {
    pub base_url: String,
    pub model: String,
}

/// All settings.
#[derive(Debug, Clone)]
pub struct Config {
    pub ai: OpenAIConfig,
    pub audit: AuditConfig,
    pub safety: SafetyConfig,
    pub display: DisplayConfig,
    /// Gemini API key; the `GEMINI_API_KEY` variable may give it instead.
    pub gemini_api_key: Option<String>,
    /// Which model answers.
    pub provider: AIProvider,
    /// The local model server.
    pub ollama: OllamaConfig,
}

/// How much is logged.
#[derive(Debug, Clone, Copy, PartialEq, Eq, Structural, PartialOrd, Ord)]
pub enum LogLevel {
    Quiet,
    Normal,
    Verbose,
    Debug,
}

/// The name of a log level.
pub open spec fn log_level_name(l: LogLevel) -> Seq<char> {
    match l {
        LogLevel::Quiet => "quiet"@,
        LogLevel::Normal => "normal"@,
        LogLevel::Verbose => "verbose"@,
        LogLevel::Debug => "debug"@,
    }
}

impl LogLevel {
    /// The name of this log level.
    pub fn as_str(&self) -> (r: &'static str)
        ensures
            r@ == log_level_name(*self),
    {
        match self {
            LogLevel::Quiet => "quiet",
            LogLevel::Normal => "normal",
            LogLevel::Verbose => "verbose",
            LogLevel::Debug => "debug",
        }
    }
}

/// The model used unless configured otherwise.
pub const DEFAULT_OPENAI_MODEL: &'static str = "gpt-4-turbo-preview";

/// The API address used unless configured otherwise.
pub const DEFAULT_OPENAI_BASE_URL: &'static str = "https://api.openai.com/v1";

/// `base` followed by the relative path `seg` (`Path::join` on Unix).
pub open spec fn path_join(base: Seq<char>, seg: Seq<char>) -> Seq<char> {
    if base.len() == 0 {
        seg
    } else if ends_with(base, "/"@) {
        base + seg
    } else {
        base + "/"@ + seg
    }
}

/// `base` followed by the relative path `seg`.
pub fn join_path(base: &str, seg: &str) -> (r: String)
    ensures
        r@ == path_join(base@, seg@),
{
    proof {
        reveal_strlit("/");
    }
    let n = base.unicode_len();
    let mut out = owned(base);
    if n == 0 {
        return owned(seg);
    }
    if base.get_char(n - 1) != '/' {
        out.append("/");
    } else {
        assert(base@.skip(n - 1) =~= "/"@);
    }
    proof {
        if ends_with(base@, "/"@) {
            assert(base@.skip(n - 1)[0] == base@[n - 1]);
        }
    }
    out.append(seg);
    out
}

/// Calls `dirs::home_dir` and converts the path to a string, replacing
/// what is not UTF-8; which directory it names is not described.
#[verifier::external_body]
pub(crate) fn home_dir() -> Option<String> {
    match dirs::home_dir() {
        Some(p) => Some(p.to_string_lossy().into_owned()),
        None => None,
    }
}

/// Calls `dirs::data_local_dir` and converts the path to a string,
/// replacing what is not UTF-8; which directory it names is not described.
#[verifier::external_body]
fn data_local_dir() -> Option<String> {
    match dirs::data_local_dir() {
        Some(p) => Some(p.to_string_lossy().into_owned()),
        None => None,
    }
}

/// The audit database under the directory `home`.
pub open spec fn audit_db_under(home: Seq<char>) -> Seq<char> {
    path_join(path_join(home, ".kaido"@), "audit.db"@)
}

/// The audit database under `home`, or under the current directory when
/// the home directory is unknown.
pub fn audit_db_path(home: Option<String>) -> (r: String)
    ensures
        r@ == audit_db_under(
            match home {
                Some(h) => h@,
                None => "."@,
            },
        ),
{
    let base = match home {
        Some(h) => h,
        None => owned("."),
    };
    let dir = join_path(base.as_str(), ".kaido");
    join_path(dir.as_str(), "audit.db")
}

/// The settings file under the directory `home`.
pub open spec fn config_file_under(home: Seq<char>) -> Seq<char> {
    path_join(path_join(home, ".kaido"@), "config.toml"@)
}

/// The credentials file under the directory `data`.
pub open spec fn auth_file_under(data: Seq<char>) -> Seq<char> {
    path_join(path_join(data, "opencode"@), "auth.json"@)
}

/// The credentials file under `data`, or under the current directory when
/// the data directory is unknown.
pub fn auth_file_path(data: Option<String>) -> (r: String)
    ensures
        r@ == auth_file_under(
            match data {
                Some(d) => d@,
                None => "."@,
            },
        ),
{
    let base = match data {
        Some(d) => d,
        None => owned("."),
    };
    let dir = join_path(base.as_str(), "opencode");
    join_path(dir.as_str(), "auth.json")
}

/// The credentials file in the user's local data directory (or in the
/// current directory when that is unknown).
pub fn auth_path() -> (r: String)
    ensures
        exists|data: Seq<char>| r@ == auth_file_under(data),
{
    let data = data_local_dir();
    let ghost base = match &data {
        Some(d) => d@,
        None => "."@,
    };
    let r = auth_file_path(data);
    assert(r@ == auth_file_under(base));
    r
}

/// Why the settings file could not be located.
pub const NO_HOME_MESSAGE: &'static str = "Cannot determine home directory";

/// The settings file under `home`; an error when the home directory is
/// unknown.
pub fn config_path_under(home: Option<String>) -> (r: Result<String, String>)
    ensures
        match home {
            Some(h) => r matches Ok(p) && p@ == config_file_under(h@),
            None => r matches Err(m) && m@ == NO_HOME_MESSAGE@,
        },
{
    match home {
        Some(h) => {
            let dir = join_path(h.as_str(), ".kaido");
            Ok(join_path(dir.as_str(), "config.toml"))
        },
        None => Err(owned(NO_HOME_MESSAGE)),
    }
}

impl Default for OpenAIConfig {
    fn default() -> (r: Self)
        ensures
            r.api_key@.len() == 0,
            r.model@ == DEFAULT_OPENAI_MODEL@,
            r.base_url@ == DEFAULT_OPENAI_BASE_URL@,
            r.timeout_seconds == 10,
    {
        OpenAIConfig {
            api_key: String::new(),
            model: owned(DEFAULT_OPENAI_MODEL),
            base_url: owned(DEFAULT_OPENAI_BASE_URL),
            timeout_seconds: 10,
        }
    }
}

impl Default for AuditConfig {
    /// The audit database in `~/.kaido`, kept for 90 days.
    fn default() -> (r: Self)
        ensures
            r.retention_days == 90,
            exists|home: Seq<char>| r.database_path@ == audit_db_under(home),
    {
        let home = home_dir();
        let ghost h = match &home {
            Some(h) => h@,
            None => "."@,
        };
        let database_path = audit_db_path(home);
        assert(database_path@ == audit_db_under(h));
        AuditConfig { database_path, retention_days: 90 }
    }
}

impl Default for SafetyConfig {
    fn default() -> (r: Self)
        ensures
            r.confirm_destructive,
            r.require_typed_confirmation_in_production,
            r.log_commands,
    {
        SafetyConfig {
            confirm_destructive: true,
            require_typed_confirmation_in_production: true,
            log_commands: true,
        }
    }
}

impl Default for DisplayConfig {
    fn default() -> (r: Self)
        ensures
            r.show_confidence_threshold == 70,
            !r.show_reasoning,
    {
        DisplayConfig { show_confidence_threshold: 70, show_reasoning: false }
    }
}

impl Default for OllamaConfig {
    /// The server on this machine's default port, running the default
    /// model.
    fn default() -> (r: Self)
        ensures
            r.base_url@ == crate::ai::ollama::DEFAULT_BASE_URL@,
            r.model@ == crate::ai::ollama::DEFAULT_MODEL@,
    {
        OllamaConfig {
            base_url: owned(crate::ai::ollama::DEFAULT_BASE_URL),
            model: owned(crate::ai::ollama::DEFAULT_MODEL),
        }
    }
}

impl Default for Config {
    fn default() -> (r: Self)
        ensures
            r.ai.api_key@.len() == 0,
            r.ai.model@ == DEFAULT_OPENAI_MODEL@,
            r.ai.base_url@ == DEFAULT_OPENAI_BASE_URL@,
            r.ai.timeout_seconds == 10,
            r.audit.retention_days == 90,
            r.safety.confirm_destructive,
            r.safety.require_typed_confirmation_in_production,
            r.safety.log_commands,
            r.display.show_confidence_threshold == 70,
            !r.display.show_reasoning,
            r.gemini_api_key is None,
            r.provider == AIProvider::Auto,
            r.ollama.base_url@ == crate::ai::ollama::DEFAULT_BASE_URL@,
            r.ollama.model@ == crate::ai::ollama::DEFAULT_MODEL@,
    {
        Config {
            ai: OpenAIConfig::default(),
            audit: AuditConfig::default(),
            safety: SafetyConfig::default(),
            display: DisplayConfig::default(),
            gemini_api_key: None,
            provider: AIProvider::Auto,
            ollama: OllamaConfig::default(),
        }
    }
}

impl Config {
    /// The settings file, `~/.kaido/config.toml`; an error when the home
    /// directory is unknown.
    pub fn get_config_path() -> (r: Result<String, String>)
        ensures
            match r {
                Ok(p) => exists|home: Seq<char>| p@ == config_file_under(home),
                Err(m) => m@ == NO_HOME_MESSAGE@,
            },
    {
        let home = home_dir();
        let ghost known = match &home {
            Some(h) => Some(h@),
            None => None::<Seq<char>>,
        };
        let r = config_path_under(home);
        proof {
            if let Some(h) = known {
                assert(r matches Ok(p) && p@ == config_file_under(h));
            }
        }
        r
    }
}

} // verus!

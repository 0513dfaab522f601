//! The MCP configuration file: a JSON document kept under `~/.factory`,
//! checked before it is saved and replaced by a default when absent.

use vstd::prelude::*;

verus! {

/// The directory under the home directory that holds the file.
pub const FACTORY_DIR_NAME: &'static str = ".factory";

/// The file's name.
pub const MCP_CONFIG_FILE_NAME: &'static str = "mcp.json";

/// The configuration read when no file exists.
pub const DEFAULT_MCP_CONFIG: &'static str = "{\"mcpServers\": {}}";

/// What a successful save reports.
pub const SAVE_CONFIRMATION: &'static str = "保存成功";

/// What the JSON parser reports on `s`: nothing where `s` is one JSON
/// document, else the text describing the error.
pub uninterp spec fn json_error_of(s: Seq<char>) -> Option<Seq<char>>;

/// `s` parses as one JSON document.
pub open spec fn json_accepts(s: Seq<char>) -> bool {
    json_error_of(s) is None
}

/// Relies on `serde_json::from_str` into a `serde_json::Value`: it succeeds
/// exactly on text that is one JSON document, and its error, displayed,
/// depends on the text alone.
#[verifier::external_body]
fn json_parse_error(s: &str) -> (r: Option<String>)
    ensures
        match r {
            Some(e) => json_error_of(s@) == Some(e@),
            None => json_error_of(s@) is None,
        },
{
    serde_json::from_str::<serde_json::Value>(s).err().map(|e| e.to_string())
}

/// Why reading or saving the configuration failed.
#[derive(Debug, PartialEq, Eq)]
pub enum ConfigError {
    /// The home directory could not be found.
    HomeUnavailable,
    /// The existing file could not be read.
    ReadFailed { detail: String },
    /// The content to save is not a JSON document.
    InvalidJson { detail: String },
    /// The directory could not be created.
    CreateDirFailed { detail: String },
    /// The file could not be written.
    SaveFailed { detail: String },
}

/// The text shown for each failure.
pub open spec fn config_error_text(e: ConfigError) -> Seq<char> {
    match e {
        ConfigError::HomeUnavailable => "无法获取用户主目录"@,
        ConfigError::ReadFailed { detail } => "读取 MCP 配置失败: "@ + detail@,
        ConfigError::InvalidJson { detail } => "JSON 格式错误: "@ + detail@,
        ConfigError::CreateDirFailed { detail } => "创建 .factory 目录失败: "@ + detail@,
        ConfigError::SaveFailed { detail } => "保存 MCP 配置失败: "@ + detail@,
    }
}

fn with_detail(head: &str, detail: &String) -> (r: String)
    ensures
        r@ == head@ + detail@,
{
    let mut r = String::from_str(head);
    r.append(detail.as_str());
    r
}

impl ConfigError {
    /// The text shown to the user for this failure.
    pub fn message(&self) -> (r: String)
        ensures
            r@ == config_error_text(*self),
    {
        match self {
            ConfigError::HomeUnavailable => String::from_str("无法获取用户主目录"),
            ConfigError::ReadFailed { detail } => with_detail("读取 MCP 配置失败: ", detail),
            ConfigError::InvalidJson { detail } => with_detail("JSON 格式错误: ", detail),
            ConfigError::CreateDirFailed { detail } => with_detail("创建 .factory 目录失败: ", detail),
            ConfigError::SaveFailed { detail } => with_detail("保存 MCP 配置失败: ", detail),
        }
    }
}

/// The configuration text: the stored file's content, or the default where
/// there is no file.
pub fn config_text(stored: Option<String>) -> (r: String)
    ensures
        r@ == match stored {
            Some(s) => s@,
            None => DEFAULT_MCP_CONFIG@,
        },
{
    match stored {
        Some(s) => s,
        None => String::from_str(DEFAULT_MCP_CONFIG),
    }
}

/// The outcome of the JSON check, given the parser's error (`None` where
/// the content parsed).
pub fn config_check_outcome(parse_error: Option<String>) -> (r: Result<(), ConfigError>)
    ensures
        match parse_error {
            None => r is Ok,
            Some(d) => r == Err::<(), ConfigError>(ConfigError::InvalidJson { detail: d }),
        },
{
    match parse_error {
        None => Ok(()),
        Some(d) => Err(ConfigError::InvalidJson { detail: d }),
    }
}

/// Checks that `content` is a JSON document before it is saved, failing
/// with the parser's description of the error; nothing is touched on disk
/// either way.
pub fn validate_config(content: &str) -> (r: Result<(), ConfigError>)
    ensures
        r is Ok <==> json_accepts(content@),
        match r {
            Ok(_) => true,
            Err(ConfigError::InvalidJson { detail }) => json_error_of(content@) == Some(detail@),
            Err(_) => false,
        },
{
    config_check_outcome(json_parse_error(content))
}

} // verus!

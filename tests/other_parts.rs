use factory_env::backend::StorageBackend;
use factory_env::errors::StoreError;
use factory_env::greeting::greet;
use factory_env::mcp_config::{config_check_outcome, config_text, validate_config, ConfigError, DEFAULT_MCP_CONFIG};
use factory_env::quota::{bearer_header, check_status, Customer, QuotaError};
use factory_env::registry::{
    escape_single_quotes, registry_read_result, registry_write_result, registry_write_script,
    trim_whitespace,
};

#[test]
fn escapes_single_quotes_by_doubling() {
    assert_eq!(escape_single_quotes("a'b''"), "a''b''''");
    assert_eq!(escape_single_quotes(""), "");
}

#[test]
fn registry_write_script_embeds_escaped_value() {
    assert_eq!(
        registry_write_script("it's"),
        "[System.Environment]::SetEnvironmentVariable('FACTORY_API_KEY', 'it''s', 'User')"
    );
}

#[test]
fn registry_read_result_trims_output() {
    assert_eq!(registry_read_result("  abc \r\n"), Some("abc".to_string()));
    assert_eq!(registry_read_result(" \u{a0}\t\n"), None);
    assert_eq!(registry_read_result(""), None);
    assert_eq!(trim_whitespace("\u{3000}x y\u{2028}"), "x y");
}

#[test]
fn registry_write_result_by_status() {
    assert_eq!(registry_write_result(true, ""), Ok("环境变量设置成功".to_string()));
    assert_eq!(
        registry_write_result(false, "denied"),
        Err(StoreError::CommandFailed { stderr: "denied".to_string() })
    );
}

#[test]
fn store_error_messages() {
    assert_eq!(StoreError::HomeUnavailable.message(), "无法获取用户主目录");
    let f = || (".zshrc".to_string(), "boom".to_string());
    let (file, detail) = f();
    assert_eq!(StoreError::ReadFailed { file, detail }.message(), "读取 .zshrc 失败: boom");
    let (file, detail) = f();
    assert_eq!(StoreError::CreateFailed { file, detail }.message(), "创建 .zshrc 失败: boom");
    let (file, detail) = f();
    assert_eq!(StoreError::WriteFailed { file, detail }.message(), "写入 .zshrc 失败: boom");
    assert_eq!(StoreError::LaunchFailed { detail: "x".to_string() }.message(), "执行命令失败: x");
    assert_eq!(StoreError::CommandFailed { stderr: "e".to_string() }.message(), "设置环境变量失败: e");
}

#[test]
fn backend_follows_platform() {
    assert_eq!(StorageBackend::for_platform(true), StorageBackend::Registry);
    assert_eq!(StorageBackend::for_platform(false), StorageBackend::ShellFile);
}

#[test]
fn greets_by_name() {
    assert_eq!(greet("Ada"), "Hello, Ada! You've been greeted from Rust!");
}

#[test]
fn config_validation_uses_json_parser() {
    assert_eq!(validate_config("{\"mcpServers\": {}}"), Ok(()));
    assert_eq!(validate_config("[1, 2]"), Ok(()));
    let parser_text = serde_json::from_str::<serde_json::Value>("{").unwrap_err().to_string();
    assert_eq!(validate_config("{"), Err(ConfigError::InvalidJson { detail: parser_text.clone() }));
    assert_eq!(
        validate_config("{").unwrap_err().message(),
        format!("JSON 格式错误: {}", parser_text)
    );
    assert!(matches!(validate_config("{} x"), Err(ConfigError::InvalidJson { .. })));
    assert!(matches!(validate_config(""), Err(ConfigError::InvalidJson { .. })));
    assert_eq!(config_check_outcome(None), Ok(()));
    assert_eq!(
        config_check_outcome(Some("bad".to_string())),
        Err(ConfigError::InvalidJson { detail: "bad".to_string() })
    );
}

#[test]
fn config_text_defaults_when_absent() {
    assert_eq!(config_text(None), "{\"mcpServers\": {}}");
    assert_eq!(DEFAULT_MCP_CONFIG, "{\"mcpServers\": {}}");
    assert_eq!(config_text(Some("{}".to_string())), "{}");
}

#[test]
fn config_error_messages() {
    assert_eq!(ConfigError::HomeUnavailable.message(), "无法获取用户主目录");
    assert_eq!(ConfigError::ReadFailed { detail: "d".to_string() }.message(), "读取 MCP 配置失败: d");
    assert_eq!(ConfigError::InvalidJson { detail: "d".to_string() }.message(), "JSON 格式错误: d");
    assert_eq!(ConfigError::CreateDirFailed { detail: "d".to_string() }.message(), "创建 .factory 目录失败: d");
    assert_eq!(ConfigError::SaveFailed { detail: "d".to_string() }.message(), "保存 MCP 配置失败: d");
}

#[test]
fn status_checks() {
    assert_eq!(check_status(200, "200 OK"), Ok(()));
    assert_eq!(check_status(204, "204 No Content"), Ok(()));
    assert_eq!(check_status(401, "401 Unauthorized"), Err(QuotaError::InvalidKey));
    assert_eq!(check_status(403, "403 Forbidden"), Err(QuotaError::Forbidden));
    assert_eq!(
        check_status(500, "500 Internal Server Error"),
        Err(QuotaError::Failed { status: "500 Internal Server Error".to_string() })
    );
    assert_eq!(
        check_status(302, "302 Found"),
        Err(QuotaError::Failed { status: "302 Found".to_string() })
    );
}

#[test]
fn quota_error_messages() {
    assert_eq!(QuotaError::Network { detail: "t".to_string() }.message(), "网络请求失败: t");
    assert_eq!(QuotaError::InvalidKey.message(), "API Key 无效或已过期");
    assert_eq!(QuotaError::Forbidden.message(), "没有权限访问此资源");
    assert_eq!(QuotaError::Failed { status: "500 Internal Server Error".to_string() }.message(), "请求失败: 500 Internal Server Error");
    assert_eq!(QuotaError::Decode { detail: "t".to_string() }.message(), "解析响应失败: t");
}

#[test]
fn bearer_header_and_customer() {
    assert_eq!(bearer_header("k1"), "Bearer k1");
    let c = Customer { email: "a@b.c".to_string() };
    assert_eq!(c.clone(), c);
}

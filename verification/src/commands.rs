use vstd::prelude::*;
use vstd::string::StringExecFns;

use crate::config::{AIProviderConfig, BridgeConfig, McpServerConfig, ModelConfig};
use crate::docjson::{bridge_config_of_text, read_bridge_config, write_bridge_config};
use crate::docmcp::{mcp_servers_of_text, read_mcp_servers};
use crate::docmodels::{models_of_text, read_models};
use crate::docproviders::{providers_of_text, read_providers};
use crate::json::Json;
use crate::store::patched_config;
use crate::ApiResponse;

verus! {

/// Relies on dirs::home_dir for the user's home directory; nothing is
/// assumed of the result, which depends on the environment.
#[verifier::external_body]
fn home_dir_string() -> (r: Option<String>) {
    dirs::home_dir().map(|p| p.to_string_lossy().to_string())
}

/// The configuration directory a given home directory yields:
/// `.office-local-bridge` under it, or under the current directory
/// when no home directory is known.
pub open spec fn config_dir_of(home: Option<Seq<char>>) -> Seq<char> {
    match home {
        Some(h) => h + "/.office-local-bridge"@,
        None => "."@ + "/.office-local-bridge"@,
    }
}

/// Builds the configuration directory path from a home directory.
pub fn config_dir_under(home: Option<String>) -> (r: String)
    ensures
        r@ == config_dir_of(home.deep_view()),
{
    let mut dir = match home {
        Some(h) => h,
        None => ".".to_owned(),
    };
    dir.append("/.office-local-bridge");
    dir
}

/// The per-user configuration directory, under the home directory the
/// environment reports.
pub fn get_config_dir() -> (r: String)
    ensures
        exists|h: Option<Seq<char>>| r@ == config_dir_of(h),
{
    let home = home_dir_string();
    let ghost h = home.deep_view();
    let dir = config_dir_under(home);
    proof {
        assert(dir@ == config_dir_of(h));
    }
    dir
}

/// Path of the main settings file.
pub fn get_config_path() -> (r: String)
    ensures
        exists|h: Option<Seq<char>>| r@ == config_dir_of(h) + "/config.json"@,
{
    let mut p = get_config_dir();
    p.append("/config.json");
    p
}

/// Path of the provider collection file.
pub fn get_providers_path() -> (r: String)
    ensures
        exists|h: Option<Seq<char>>| r@ == config_dir_of(h) + "/providers.json"@,
{
    let mut p = get_config_dir();
    p.append("/providers.json");
    p
}

/// Path of the model collection file.
pub fn get_models_path() -> (r: String)
    ensures
        exists|h: Option<Seq<char>>| r@ == config_dir_of(h) + "/models.json"@,
{
    let mut p = get_config_dir();
    p.append("/models.json");
    p
}

/// Path of the MCP server collection file.
pub fn get_mcp_servers_path() -> (r: String)
    ensures
        exists|h: Option<Seq<char>>| r@ == config_dir_of(h) + "/mcp-servers.json"@,
{
    let mut p = get_config_dir();
    p.append("/mcp-servers.json");
    p
}

/// Reads the main settings from file content and wraps them for the
/// UI; this never fails.
pub fn get_config(content: Option<&str>) -> (r: ApiResponse<BridgeConfig>)
    ensures
        r.success,
        r.data is Some,
        content is None ==> r.data->0.deep_view() == crate::config::default_bridge_config(),
        content matches Some(s) ==> s@.len() <= 0x0fff_ffff_ffff_ffff ==> r.data->0.deep_view()
            == bridge_config_of_text(s@),
{
    ApiResponse::success(read_bridge_config(content))
}

/// Serializes a full settings replacement: the text to store and the
/// success envelope the UI gets once it is stored.
pub fn save_config(config: BridgeConfig) -> (r: (String, ApiResponse<BridgeConfig>))
    ensures
        r.0@ == crate::codec::ser_json_pretty(
            crate::docjson::bridge_config_json(config.deep_view()),
            0,
        ),
        r.1.success,
        r.1.data == Some(config),
{
    let text = write_bridge_config(&config);
    (text, ApiResponse::success(config))
}

/// Applies a partial update to the stored settings: reads the current
/// document from `content`, changes only recognized well-typed keys of
/// `patch`, and yields the exact text to store with the envelope.
pub fn update_config(content: Option<&str>, patch: &Json) -> (r: (
    String,
    ApiResponse<BridgeConfig>,
))
    ensures
        r.1.success,
        r.1.data is Some,
        content is None ==> r.1.data->0.deep_view() == patched_config(
            crate::config::default_bridge_config(),
            *patch,
        ),
        content matches Some(s) ==> s@.len() <= 0x0fff_ffff_ffff_ffff ==> r.1.data->0.deep_view()
            == patched_config(bridge_config_of_text(s@), *patch),
        r.0@ == crate::codec::ser_json_pretty(
            crate::docjson::bridge_config_json(r.1.data->0.deep_view()),
            0,
        ),
{
    let current = read_bridge_config(content);
    let merged = crate::store::update_config_fields(current, patch);
    let text = write_bridge_config(&merged);
    (text, ApiResponse::success(merged))
}

/// Reads the provider collection and hands the UI its entries.
pub fn get_providers(content: Option<&str>) -> (r: ApiResponse<Vec<AIProviderConfig>>)
    ensures
        r.success,
        r.data is Some,
        content is None ==> r.data->0@.len() == 0,
        content matches Some(s) ==> s@.len() <= 0x0fff_ffff_ffff_ffff ==> r.data->0.deep_view()
            == providers_of_text(s@).providers,
{
    let cfg = read_providers(content);
    ApiResponse::success(cfg.providers)
}

/// Reads the model collection and hands the UI its entries.
pub fn get_models(content: Option<&str>) -> (r: ApiResponse<Vec<ModelConfig>>)
    ensures
        r.success,
        r.data is Some,
        content is None ==> r.data->0@.len() == 0,
        content matches Some(s) ==> s@.len() <= 0x0fff_ffff_ffff_ffff ==> r.data->0.deep_view()
            == models_of_text(s@).models,
{
    let cfg = read_models(content);
    ApiResponse::success(cfg.models)
}

/// Reads the MCP server collection and hands the UI its entries.
pub fn get_mcp_servers(content: Option<&str>) -> (r: ApiResponse<Vec<McpServerConfig>>)
    ensures
        r.success,
        r.data is Some,
        content is None ==> r.data->0@.len() == 0,
        content matches Some(s) ==> s@.len() <= 0x0fff_ffff_ffff_ffff ==> r.data->0.deep_view()
            == mcp_servers_of_text(s@).servers,
{
    let cfg = read_mcp_servers(content);
    ApiResponse::success(cfg.servers)
}

} // verus!

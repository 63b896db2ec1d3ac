use vstd::prelude::*;

verus! {

/// Kind of AI provider a configuration entry talks to.
#[derive(Clone, Copy, Debug, PartialEq, Eq, Structural)]
pub enum AIProviderType {
    OpenAI,
    Azure,
    Anthropic,
    Ollama,
    Custom,
}

/// Kind of model a selected-model entry describes.
#[derive(Clone, Copy, Debug, PartialEq, Eq, Structural)]
pub enum ModelType {
    Chat,
    Embedding,
    Multimodal,
}

/// A model the user has selected under a provider.
#[derive(Clone, Debug, PartialEq)]
pub struct SelectedModel {
    pub id: String,
    pub name: String,
    pub display_name: Option<String>,
    pub model_type: ModelType,
    pub context_window: Option<i64>,
    pub supports_vision: Option<bool>,
    pub supports_tools: Option<bool>,
    pub supports_streaming: Option<bool>,
}

/// Mathematical value of a `SelectedModel`.
#[verifier::ext_equal]
pub ghost struct SelectedModelV {
    pub id: Seq<char>,
    pub name: Seq<char>,
    pub display_name: Option<Seq<char>>,
    pub model_type: ModelType,
    pub context_window: Option<i64>,
    pub supports_vision: Option<bool>,
    pub supports_tools: Option<bool>,
    pub supports_streaming: Option<bool>,
}

impl DeepView for SelectedModel {
    type V = SelectedModelV;

    open spec fn deep_view(&self) -> SelectedModelV {
        SelectedModelV {
            id: self.id@,
            name: self.name@,
            display_name: self.display_name.deep_view(),
            model_type: self.model_type,
            context_window: self.context_window,
            supports_vision: self.supports_vision,
            supports_tools: self.supports_tools,
            supports_streaming: self.supports_streaming,
        }
    }
}

/// The invariant of the string-to-string mappings below (custom
/// headers, environment variables): no key occurs twice. The mapping
/// is kept as a list of pairs in insertion order; a well-formed stored
/// document keeps its keys unique, as the original map type did, and
/// readers then agree on every key whichever occurrence they take.
pub open spec fn unique_keys(m: Seq<(Seq<char>, Seq<char>)>) -> bool {
    forall|i: int, j: int| 0 <= i < j < m.len() ==> m[i].0 != m[j].0
}

/// One configured AI provider. `id` and `name` must each be unique
/// across the collection that holds it.
#[derive(Clone, Debug, PartialEq)]
pub struct AIProviderConfig {
    pub id: String,
    pub provider_type: AIProviderType,
    pub name: String,
    pub enabled: bool,
    pub is_default: bool,
    pub api_key: String,
    pub base_url: Option<String>,
    pub azure_endpoint: Option<String>,
    pub azure_deployment: Option<String>,
    pub azure_api_version: Option<String>,
    /// Custom request headers; `unique_keys` is the intended invariant
    /// of the stored list.
    pub custom_headers: Option<Vec<(String, String)>>,
    pub selected_models: Option<Vec<SelectedModel>>,
    pub connection_status: Option<String>,
    pub last_tested_at: Option<i64>,
}

/// Mathematical value of an `AIProviderConfig`.
#[verifier::ext_equal]
pub ghost struct AIProviderConfigV {
    pub id: Seq<char>,
    pub provider_type: AIProviderType,
    pub name: Seq<char>,
    pub enabled: bool,
    pub is_default: bool,
    pub api_key: Seq<char>,
    pub base_url: Option<Seq<char>>,
    pub azure_endpoint: Option<Seq<char>>,
    pub azure_deployment: Option<Seq<char>>,
    pub azure_api_version: Option<Seq<char>>,
    pub custom_headers: Option<Seq<(Seq<char>, Seq<char>)>>,
    pub selected_models: Option<Seq<SelectedModelV>>,
    pub connection_status: Option<Seq<char>>,
    pub last_tested_at: Option<i64>,
}

impl DeepView for AIProviderConfig {
    type V = AIProviderConfigV;

    open spec fn deep_view(&self) -> AIProviderConfigV {
        AIProviderConfigV {
            id: self.id@,
            provider_type: self.provider_type,
            name: self.name@,
            enabled: self.enabled,
            is_default: self.is_default,
            api_key: self.api_key@,
            base_url: self.base_url.deep_view(),
            azure_endpoint: self.azure_endpoint.deep_view(),
            azure_deployment: self.azure_deployment.deep_view(),
            azure_api_version: self.azure_api_version.deep_view(),
            custom_headers: self.custom_headers.deep_view(),
            selected_models: self.selected_models.deep_view(),
            connection_status: self.connection_status.deep_view(),
            last_tested_at: self.last_tested_at,
        }
    }
}

/// One configured model. The generation parameters that the JSON files
/// hold as fractional numbers are kept as their decimal text, so that a
/// stored document is reproduced digit for digit.
#[derive(Clone, Debug, PartialEq)]
pub struct ModelConfig {
    pub id: String,
    pub provider_id: String,
    pub name: String,
    pub display_name: String,
    pub enabled: bool,
    pub is_default: bool,
    pub max_tokens: Option<i32>,
    pub temperature: Option<String>,
    pub top_p: Option<String>,
    pub frequency_penalty: Option<String>,
    pub presence_penalty: Option<String>,
    pub supports_vision: Option<bool>,
    pub supports_tools: Option<bool>,
    pub supports_streaming: Option<bool>,
    pub context_window: Option<i32>,
}

/// Mathematical value of a `ModelConfig`.
#[verifier::ext_equal]
pub ghost struct ModelConfigV {
    pub id: Seq<char>,
    pub provider_id: Seq<char>,
    pub name: Seq<char>,
    pub display_name: Seq<char>,
    pub enabled: bool,
    pub is_default: bool,
    pub max_tokens: Option<i32>,
    pub temperature: Option<Seq<char>>,
    pub top_p: Option<Seq<char>>,
    pub frequency_penalty: Option<Seq<char>>,
    pub presence_penalty: Option<Seq<char>>,
    pub supports_vision: Option<bool>,
    pub supports_tools: Option<bool>,
    pub supports_streaming: Option<bool>,
    pub context_window: Option<i32>,
}

impl DeepView for ModelConfig {
    type V = ModelConfigV;

    open spec fn deep_view(&self) -> ModelConfigV {
        ModelConfigV {
            id: self.id@,
            provider_id: self.provider_id@,
            name: self.name@,
            display_name: self.display_name@,
            enabled: self.enabled,
            is_default: self.is_default,
            max_tokens: self.max_tokens,
            temperature: self.temperature.deep_view(),
            top_p: self.top_p.deep_view(),
            frequency_penalty: self.frequency_penalty.deep_view(),
            presence_penalty: self.presence_penalty.deep_view(),
            supports_vision: self.supports_vision,
            supports_tools: self.supports_tools,
            supports_streaming: self.supports_streaming,
            context_window: self.context_window,
        }
    }
}

/// One MCP server definition. `id` and `name` must each be unique
/// across the collection that holds it. Live status is never stored
/// here; it is queried from the bridge service.
#[derive(Clone, Debug, PartialEq)]
pub struct McpServerConfig {
    pub id: String,
    pub name: String,
    pub command: String,
    pub args: Option<Vec<String>>,
    pub cwd: Option<String>,
    /// Environment variables for the launch; `unique_keys` is the
    /// intended invariant of the stored list.
    pub env: Option<Vec<(String, String)>>,
    pub enabled: bool,
    pub auto_start: bool,
}

/// Mathematical value of a `McpServerConfig`.
#[verifier::ext_equal]
pub ghost struct McpServerConfigV {
    pub id: Seq<char>,
    pub name: Seq<char>,
    pub command: Seq<char>,
    pub args: Option<Seq<Seq<char>>>,
    pub cwd: Option<Seq<char>>,
    pub env: Option<Seq<(Seq<char>, Seq<char>)>>,
    pub enabled: bool,
    pub auto_start: bool,
}

impl DeepView for McpServerConfig {
    type V = McpServerConfigV;

    open spec fn deep_view(&self) -> McpServerConfigV {
        McpServerConfigV {
            id: self.id@,
            name: self.name@,
            command: self.command@,
            args: self.args.deep_view(),
            cwd: self.cwd.deep_view(),
            env: self.env.deep_view(),
            enabled: self.enabled,
            auto_start: self.auto_start,
        }
    }
}

/// The main settings document.
#[derive(Clone, Debug, PartialEq)]
pub struct BridgeConfig {
    pub version: i32,
    pub port: u16,
    pub host: String,
    pub log_level: String,
    pub default_provider_id: Option<String>,
    pub default_chat_model_id: Option<String>,
    pub default_embedding_model_id: Option<String>,
    pub auto_start: bool,
    pub minimize_to_tray: bool,
}

/// Mathematical value of a `BridgeConfig`.
#[verifier::ext_equal]
pub ghost struct BridgeConfigV {
    pub version: i32,
    pub port: u16,
    pub host: Seq<char>,
    pub log_level: Seq<char>,
    pub default_provider_id: Option<Seq<char>>,
    pub default_chat_model_id: Option<Seq<char>>,
    pub default_embedding_model_id: Option<Seq<char>>,
    pub auto_start: bool,
    pub minimize_to_tray: bool,
}

impl DeepView for BridgeConfig {
    type V = BridgeConfigV;

    open spec fn deep_view(&self) -> BridgeConfigV {
        BridgeConfigV {
            version: self.version,
            port: self.port,
            host: self.host@,
            log_level: self.log_level@,
            default_provider_id: self.default_provider_id.deep_view(),
            default_chat_model_id: self.default_chat_model_id.deep_view(),
            default_embedding_model_id: self.default_embedding_model_id.deep_view(),
            auto_start: self.auto_start,
            minimize_to_tray: self.minimize_to_tray,
        }
    }
}

/// The `BridgeConfig` value used when no settings file exists.
pub open spec fn default_bridge_config() -> BridgeConfigV {
    BridgeConfigV {
        version: 1,
        port: 3001,
        host: "localhost"@,
        log_level: "info"@,
        default_provider_id: None,
        default_chat_model_id: None,
        default_embedding_model_id: None,
        auto_start: true,
        minimize_to_tray: true,
    }
}

impl Default for BridgeConfig {
    /// Hard-coded defaults: port 3001, host "localhost", log level
    /// "info", autostart on, minimize to tray on.
    fn default() -> (r: BridgeConfig)
        ensures
            r.deep_view() == default_bridge_config(),
    {
        BridgeConfig {
            version: 1,
            port: 3001,
            host: "localhost".to_owned(),
            log_level: "info".to_owned(),
            default_provider_id: None,
            default_chat_model_id: None,
            default_embedding_model_id: None,
            auto_start: true,
            minimize_to_tray: true,
        }
    }
}

/// Envelope for the stored provider collection.
#[derive(Clone, Debug, PartialEq)]
pub struct ProvidersConfig {
    pub version: i32,
    pub providers: Vec<AIProviderConfig>,
}

/// Mathematical value of a `ProvidersConfig`.
#[verifier::ext_equal]
pub ghost struct ProvidersConfigV {
    pub version: i32,
    pub providers: Seq<AIProviderConfigV>,
}

impl DeepView for ProvidersConfig {
    type V = ProvidersConfigV;

    open spec fn deep_view(&self) -> ProvidersConfigV {
        ProvidersConfigV { version: self.version, providers: self.providers.deep_view() }
    }
}

impl Default for ProvidersConfig {
    /// An empty collection at schema version 1.
    fn default() -> (r: ProvidersConfig)
        ensures
            r.version == 1,
            r.providers@ =~= Seq::<AIProviderConfig>::empty(),
    {
        ProvidersConfig { version: 1, providers: Vec::new() }
    }
}

/// Envelope for the stored model collection.
#[derive(Clone, Debug, PartialEq)]
pub struct ModelsConfig {
    pub version: i32,
    pub models: Vec<ModelConfig>,
}

/// Mathematical value of a `ModelsConfig`.
#[verifier::ext_equal]
pub ghost struct ModelsConfigV {
    pub version: i32,
    pub models: Seq<ModelConfigV>,
}

impl DeepView for ModelsConfig {
    type V = ModelsConfigV;

    open spec fn deep_view(&self) -> ModelsConfigV {
        ModelsConfigV { version: self.version, models: self.models.deep_view() }
    }
}

impl Default for ModelsConfig {
    /// An empty collection at schema version 1.
    fn default() -> (r: ModelsConfig)
        ensures
            r.version == 1,
            r.models@ =~= Seq::<ModelConfig>::empty(),
    {
        ModelsConfig { version: 1, models: Vec::new() }
    }
}

/// Envelope for the stored MCP server collection.
#[derive(Clone, Debug, PartialEq)]
pub struct McpServersConfig {
    pub version: i32,
    pub servers: Vec<McpServerConfig>,
}

/// Mathematical value of a `McpServersConfig`.
#[verifier::ext_equal]
pub ghost struct McpServersConfigV {
    pub version: i32,
    pub servers: Seq<McpServerConfigV>,
}

impl DeepView for McpServersConfig {
    type V = McpServersConfigV;

    open spec fn deep_view(&self) -> McpServersConfigV {
        McpServersConfigV { version: self.version, servers: self.servers.deep_view() }
    }
}

impl Default for McpServersConfig {
    /// An empty collection at schema version 1.
    fn default() -> (r: McpServersConfig)
        ensures
            r.version == 1,
            r.servers@ =~= Seq::<McpServerConfig>::empty(),
    {
        McpServersConfig { version: 1, servers: Vec::new() }
    }
}

/// Live status of one MCP server, as reported by the bridge service.
#[derive(Clone, Debug, PartialEq)]
pub struct McpServerStatus {
    pub id: String,
    pub name: String,
    pub status: String,
    pub pid: Option<u32>,
    pub start_time: Option<i64>,
    pub last_error: Option<String>,
    pub tool_count: Option<i32>,
}

/// Mathematical value of a `McpServerStatus`.
#[verifier::ext_equal]
pub ghost struct McpServerStatusV {
    pub id: Seq<char>,
    pub name: Seq<char>,
    pub status: Seq<char>,
    pub pid: Option<u32>,
    pub start_time: Option<i64>,
    pub last_error: Option<Seq<char>>,
    pub tool_count: Option<i32>,
}

impl DeepView for McpServerStatus {
    type V = McpServerStatusV;

    open spec fn deep_view(&self) -> McpServerStatusV {
        McpServerStatusV {
            id: self.id@,
            name: self.name@,
            status: self.status@,
            pid: self.pid,
            start_time: self.start_time,
            last_error: self.last_error.deep_view(),
            tool_count: self.tool_count,
        }
    }
}

} // verus!

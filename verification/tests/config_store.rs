use bridge_backend::commands::{get_config, get_mcp_servers, get_providers, update_config};
use bridge_backend::config::{
    AIProviderConfig, AIProviderType, BridgeConfig, McpServerConfig, McpServersConfig,
    ModelConfig, ModelsConfig, ProvidersConfig,
};
use bridge_backend::docjson::{read_bridge_config, write_bridge_config};
use bridge_backend::docmcp::{read_mcp_servers, write_mcp_servers};
use bridge_backend::docmodels::{read_models, write_models};
use bridge_backend::docproviders::{read_providers, write_providers};
use bridge_backend::json::Json;
use bridge_backend::parse::parse_json;
use bridge_backend::store::{
    add_mcp_server, add_model, add_provider, delete_mcp_server, delete_model, delete_provider,
    update_config_fields, update_mcp_server, update_model, update_provider, StoreError,
};

fn sample_provider(id: &str, name: &str) -> AIProviderConfig {
    AIProviderConfig {
        id: id.to_string(),
        provider_type: AIProviderType::OpenAI,
        name: name.to_string(),
        enabled: true,
        is_default: false,
        api_key: "sk-test".to_string(),
        base_url: Some("https://api.example.com/v1".to_string()),
        azure_endpoint: None,
        azure_deployment: None,
        azure_api_version: None,
        custom_headers: Some(vec![("x-tag".to_string(), "a b".to_string())]),
        selected_models: None,
        connection_status: None,
        last_tested_at: Some(1700000000),
    }
}

fn sample_model(id: &str) -> ModelConfig {
    ModelConfig {
        id: id.to_string(),
        provider_id: "p1".to_string(),
        name: "gpt-test".to_string(),
        display_name: "GPT Test".to_string(),
        enabled: true,
        is_default: false,
        max_tokens: Some(4096),
        temperature: Some("0.7".to_string()),
        top_p: Some("0.95".to_string()),
        frequency_penalty: None,
        presence_penalty: None,
        supports_vision: Some(false),
        supports_tools: Some(true),
        supports_streaming: None,
        context_window: Some(128000),
    }
}

fn sample_server(id: &str, name: &str) -> McpServerConfig {
    McpServerConfig {
        id: id.to_string(),
        name: name.to_string(),
        command: "npx".to_string(),
        args: Some(vec!["-y".to_string(), "some-mcp".to_string()]),
        cwd: None,
        env: Some(vec![("PATH_EXTRA".to_string(), "/opt/tools".to_string())]),
        enabled: true,
        auto_start: false,
    }
}

#[test]
fn default_config_values() {
    let c = read_bridge_config(None);
    assert_eq!(c.version, 1);
    assert_eq!(c.port, 3001);
    assert_eq!(c.host, "localhost");
    assert_eq!(c.log_level, "info");
    assert_eq!(c.default_provider_id, None);
    assert!(c.auto_start);
    assert!(c.minimize_to_tray);
}

#[test]
fn get_config_envelope_defaults() {
    let r = get_config(None);
    assert!(r.success);
    let c = r.data.unwrap();
    assert_eq!(c.port, 3001);
    assert_eq!(c.host, "localhost");
    assert!(c.auto_start);
}

#[test]
fn bridge_config_write_read_round_trip() {
    let mut c = BridgeConfig::default();
    c.port = 8080;
    c.host = "127.0.0.1".to_string();
    c.default_provider_id = Some("p1".to_string());
    c.default_chat_model_id = Some("p1:gpt".to_string());
    c.auto_start = false;
    let text = write_bridge_config(&c);
    let back = read_bridge_config(Some(&text));
    assert_eq!(back, c);
}

#[test]
fn bridge_config_round_trip_with_escapes() {
    let mut c = BridgeConfig::default();
    c.host = "a\"b\\c\nd\te".to_string();
    c.log_level = "δ-verbose".to_string();
    let text = write_bridge_config(&c);
    let back = read_bridge_config(Some(&text));
    assert_eq!(back, c);
}

#[test]
fn control_characters_are_escaped_as_valid_json() {
    let mut c = BridgeConfig::default();
    c.host = "a\u{0}b\u{8}c\u{c}d\u{1f}e".to_string();
    let text = write_bridge_config(&c);
    // the stored text is plain JSON any reader takes
    let v: serde_json::Value = serde_json::from_str(&text).unwrap();
    assert_eq!(v.get("host").and_then(|h| h.as_str()), Some("a\u{0}b\u{8}c\u{c}d\u{1f}e"));
    // and it reads back exactly
    let back = read_bridge_config(Some(&text));
    assert_eq!(back, c);
    // a control escape another writer emits is read too
    let theirs = serde_json::to_string(&v).unwrap();
    let back2 = read_bridge_config(Some(&theirs));
    assert_eq!(back2.host, c.host);
}

#[test]
fn written_config_is_valid_json_for_other_readers() {
    let c = BridgeConfig::default();
    let text = write_bridge_config(&c);
    let v: serde_json::Value = serde_json::from_str(&text).unwrap();
    assert_eq!(v.get("port").and_then(|p| p.as_u64()), Some(3001));
    assert_eq!(v.get("host").and_then(|h| h.as_str()), Some("localhost"));
    assert_eq!(v.get("autoStart").and_then(|b| b.as_bool()), Some(true));
}

#[test]
fn reads_pretty_printed_text_from_other_writers() {
    let mut map = serde_json::Map::new();
    map.insert("version".to_string(), serde_json::Value::from(1));
    map.insert("port".to_string(), serde_json::Value::from(9001));
    map.insert("host".to_string(), serde_json::Value::from("box"));
    map.insert("logLevel".to_string(), serde_json::Value::from("warn"));
    map.insert("defaultProviderId".to_string(), serde_json::Value::Null);
    map.insert("defaultChatModelId".to_string(), serde_json::Value::Null);
    map.insert("defaultEmbeddingModelId".to_string(), serde_json::Value::Null);
    map.insert("autoStart".to_string(), serde_json::Value::from(false));
    map.insert("minimizeToTray".to_string(), serde_json::Value::from(true));
    let pretty = serde_json::to_string_pretty(&serde_json::Value::Object(map)).unwrap();
    let back = read_bridge_config(Some(&pretty));
    assert_eq!(back.port, 9001);
    assert_eq!(back.host, "box");
    assert_eq!(back.log_level, "warn");
    assert!(!back.auto_start);
    assert!(back.minimize_to_tray);
}

#[test]
fn corrupt_config_reads_as_default() {
    let back = read_bridge_config(Some("{ not json at all"));
    assert_eq!(back, BridgeConfig::default());
    let back2 = read_bridge_config(Some(""));
    assert_eq!(back2, BridgeConfig::default());
    let back3 = read_bridge_config(Some("[1,2,3]"));
    assert_eq!(back3, BridgeConfig::default());
}

#[test]
fn wrong_typed_field_reads_as_default() {
    let text = "{\"version\":1,\"port\":\"3001\",\"host\":\"localhost\",\"logLevel\":\"info\",\"defaultProviderId\":null,\"defaultChatModelId\":null,\"defaultEmbeddingModelId\":null,\"autoStart\":true,\"minimizeToTray\":true}";
    let back = read_bridge_config(Some(text));
    assert_eq!(back, BridgeConfig::default());
}

#[test]
fn providers_write_read_round_trip() {
    let cfg = ProvidersConfig {
        version: 1,
        providers: vec![sample_provider("p1", "First"), sample_provider("p2", "Second")],
    };
    let text = write_providers(&cfg);
    let back = read_providers(Some(&text));
    assert_eq!(back, cfg);
}

#[test]
fn models_write_read_round_trip() {
    let cfg = ModelsConfig { version: 1, models: vec![sample_model("m1"), sample_model("m2")] };
    let text = write_models(&cfg);
    let back = read_models(Some(&text));
    assert_eq!(back, cfg);
}

#[test]
fn mcp_servers_write_read_round_trip() {
    let cfg = McpServersConfig {
        version: 1,
        servers: vec![sample_server("s1", "files"), sample_server("s2", "search")],
    };
    let text = write_mcp_servers(&cfg);
    let back = read_mcp_servers(Some(&text));
    assert_eq!(back, cfg);
}

#[test]
fn corrupt_collections_read_as_empty_defaults() {
    let p = read_providers(Some("riff raff"));
    assert_eq!(p.version, 1);
    assert!(p.providers.is_empty());
    let m = read_models(Some("{\"version\":true}"));
    assert_eq!(m.version, 1);
    assert!(m.models.is_empty());
    let s = read_mcp_servers(None);
    assert_eq!(s.version, 1);
    assert!(s.servers.is_empty());
}

#[test]
fn add_provider_duplicate_id_is_conflict() {
    let cfg = ProvidersConfig { version: 1, providers: vec![sample_provider("p1", "A")] };
    let text = write_providers(&cfg);
    let r = add_provider(cfg, sample_provider("p1", "B"));
    assert_eq!(r.unwrap_err(), StoreError::Conflict);
    // the stored file is untouched: it still has exactly one entry
    let back = read_providers(Some(&text));
    assert_eq!(back.providers.len(), 1);
    assert_eq!(back.providers[0].name, "A");
}

#[test]
fn add_provider_twice_scenario() {
    let empty = ProvidersConfig { version: 1, providers: vec![] };
    let first = add_provider(empty, sample_provider("p1", "A")).unwrap();
    let text_after_first = write_providers(&first);
    let second = add_provider(first, sample_provider("p1", "A"));
    assert_eq!(second.unwrap_err(), StoreError::Conflict);
    let back = read_providers(Some(&text_after_first));
    assert_eq!(back.providers.len(), 1);
}

#[test]
fn update_provider_missing_is_not_found() {
    let cfg = ProvidersConfig { version: 1, providers: vec![sample_provider("p1", "A")] };
    let r = update_provider(cfg, sample_provider("p2", "B"));
    assert_eq!(r.unwrap_err(), StoreError::NotFound);
}

#[test]
fn update_provider_replaces_entry() {
    let cfg = ProvidersConfig { version: 1, providers: vec![sample_provider("p1", "A")] };
    let r = update_provider(cfg, sample_provider("p1", "Renamed")).unwrap();
    assert_eq!(r.providers.len(), 1);
    assert_eq!(r.providers[0].name, "Renamed");
}

#[test]
fn delete_provider_missing_is_not_found() {
    let cfg = ProvidersConfig { version: 1, providers: vec![sample_provider("p1", "A")] };
    let r = delete_provider(cfg, &"nope".to_string());
    assert_eq!(r.unwrap_err(), StoreError::NotFound);
}

#[test]
fn delete_provider_removes_entry() {
    let cfg = ProvidersConfig {
        version: 1,
        providers: vec![sample_provider("p1", "A"), sample_provider("p2", "B")],
    };
    let r = delete_provider(cfg, &"p1".to_string()).unwrap();
    assert_eq!(r.providers.len(), 1);
    assert_eq!(r.providers[0].id, "p2");
}

#[test]
fn add_model_duplicate_id_is_conflict() {
    let cfg = ModelsConfig { version: 1, models: vec![sample_model("m1")] };
    let r = add_model(cfg, sample_model("m1"));
    assert_eq!(r.unwrap_err(), StoreError::Conflict);
}

#[test]
fn model_ops_happy_path() {
    let cfg = ModelsConfig { version: 1, models: vec![] };
    let cfg = add_model(cfg, sample_model("m1")).unwrap();
    let mut replacement = sample_model("m1");
    replacement.display_name = "Changed".to_string();
    let cfg = update_model(cfg, replacement).unwrap();
    assert_eq!(cfg.models[0].display_name, "Changed");
    let r = delete_model(cfg, &"m9".to_string());
    assert_eq!(r.unwrap_err(), StoreError::NotFound);
}

#[test]
fn add_mcp_server_duplicate_id_is_conflict() {
    let cfg = McpServersConfig { version: 1, servers: vec![sample_server("s1", "files")] };
    let r = add_mcp_server(cfg, sample_server("s1", "other"));
    assert_eq!(r.unwrap_err(), StoreError::Conflict);
}

#[test]
fn add_mcp_server_duplicate_name_is_conflict() {
    let cfg = McpServersConfig { version: 1, servers: vec![sample_server("s1", "files")] };
    let r = add_mcp_server(cfg, sample_server("s2", "files"));
    assert_eq!(r.unwrap_err(), StoreError::Conflict);
}

#[test]
fn update_mcp_server_name_collision_rejected() {
    let cfg = McpServersConfig {
        version: 1,
        servers: vec![sample_server("s1", "files"), sample_server("s2", "search")],
    };
    let text = write_mcp_servers(&cfg);
    let mut renamed = sample_server("s2", "files");
    renamed.id = "s2".to_string();
    let r = update_mcp_server(cfg, renamed);
    assert_eq!(r.unwrap_err(), StoreError::Conflict);
    // stored collection unchanged
    let back = read_mcp_servers(Some(&text));
    assert_eq!(back.servers[1].name, "search");
}

#[test]
fn update_mcp_server_own_name_succeeds() {
    let cfg = McpServersConfig {
        version: 1,
        servers: vec![sample_server("s1", "files"), sample_server("s2", "search")],
    };
    let mut same_name = sample_server("s2", "search");
    same_name.command = "node".to_string();
    let r = update_mcp_server(cfg, same_name).unwrap();
    assert_eq!(r.servers[1].command, "node");
    assert_eq!(r.servers[1].name, "search");
}

#[test]
fn delete_mcp_server_missing_is_not_found() {
    let cfg = McpServersConfig { version: 1, servers: vec![sample_server("s1", "files")] };
    let r = delete_mcp_server(cfg, &"zzz".to_string());
    assert_eq!(r.unwrap_err(), StoreError::NotFound);
}

#[test]
fn partial_update_wrong_type_leaves_field() {
    let current = BridgeConfig::default();
    let patch = parse_json("{\"port\":\"9999\",\"host\":\"example\"}").unwrap();
    let merged = update_config_fields(current, &patch);
    assert_eq!(merged.port, 3001);
    assert_eq!(merged.host, "example");
    assert_eq!(merged.log_level, "info");
}

#[test]
fn partial_update_applies_known_keys() {
    let current = BridgeConfig::default();
    let patch = parse_json(
        "{\"port\":8080,\"logLevel\":\"debug\",\"autoStart\":false,\"unknownKey\":42}",
    )
    .unwrap();
    let merged = update_config_fields(current, &patch);
    assert_eq!(merged.port, 8080);
    assert_eq!(merged.log_level, "debug");
    assert!(!merged.auto_start);
    assert_eq!(merged.host, "localhost");
}

#[test]
fn partial_update_optional_id_semantics() {
    let mut current = BridgeConfig::default();
    current.default_provider_id = Some("p1".to_string());
    // a type-mismatched member is ignored; an absent key keeps the
    // field; a null member clears it
    let patch = parse_json("{\"defaultProviderId\":42}").unwrap();
    let merged = update_config_fields(current.clone(), &patch);
    assert_eq!(merged.default_provider_id, Some("p1".to_string()));
    let patch2 = parse_json("{}").unwrap();
    let merged2 = update_config_fields(current.clone(), &patch2);
    assert_eq!(merged2.default_provider_id, Some("p1".to_string()));
    let patch3 = parse_json("{\"defaultProviderId\":null}").unwrap();
    let merged3 = update_config_fields(current, &patch3);
    assert_eq!(merged3.default_provider_id, None);
}

#[test]
fn update_config_command_round_trips_to_text() {
    let patch = parse_json("{\"port\":4242}").unwrap();
    let (text, resp) = update_config(None, &patch);
    assert!(resp.success);
    assert_eq!(resp.data.as_ref().unwrap().port, 4242);
    let back = read_bridge_config(Some(&text));
    assert_eq!(back.port, 4242);
    assert_eq!(back.host, "localhost");
}

#[test]
fn get_collections_from_missing_files() {
    let p = get_providers(None);
    assert!(p.success && p.data.unwrap().is_empty());
    let s = get_mcp_servers(None);
    assert!(s.success && s.data.unwrap().is_empty());
}

#[test]
fn store_error_messages() {
    assert_eq!(StoreError::Conflict.message(), "already exists");
    assert_eq!(StoreError::NotFound.message(), "not found");
}

#[test]
fn parse_accepts_whitespace_and_escape_forms() {
    let j = parse_json(" {\n  \"a\" : \"x\\u0041\"  ,\n \"b\" : [ 1 , 2 ] }\n");
    // \u escapes are not taken; such a text reads as no document
    assert!(j.is_none());
    let j2 = parse_json(" {\n  \"a\" : \"x\\n\"  ,\n \"b\" : [ 1 , 2 ] }\n").unwrap();
    match j2 {
        Json::Obj(ms) => {
            assert_eq!(ms.len(), 2);
            match &ms[0].1 {
                Json::Str(s) => assert_eq!(s, "x\n"),
                _ => panic!("expected a string member"),
            }
        },
        _ => panic!("expected an object"),
    }
}

#[test]
fn add_provider_duplicate_name_is_conflict() {
    let cfg = ProvidersConfig { version: 1, providers: vec![sample_provider("p1", "A")] };
    let r = add_provider(cfg, sample_provider("p2", "A"));
    assert_eq!(r.unwrap_err(), StoreError::Conflict);
}

#[test]
fn update_provider_name_collision_rejected() {
    let cfg = ProvidersConfig {
        version: 1,
        providers: vec![sample_provider("p1", "A"), sample_provider("p2", "B")],
    };
    let r = update_provider(cfg, sample_provider("p2", "A"));
    assert_eq!(r.unwrap_err(), StoreError::Conflict);
}

#[test]
fn update_provider_own_name_succeeds() {
    let cfg = ProvidersConfig {
        version: 1,
        providers: vec![sample_provider("p1", "A"), sample_provider("p2", "B")],
    };
    let mut same_name = sample_provider("p2", "B");
    same_name.api_key = "sk-new".to_string();
    let r = update_provider(cfg, same_name).unwrap();
    assert_eq!(r.providers[1].api_key, "sk-new");
    assert_eq!(r.providers[1].name, "B");
}

#[test]
fn stored_files_are_pretty_printed() {
    let cfg = McpServersConfig { version: 1, servers: vec![] };
    let text = write_mcp_servers(&cfg);
    assert_eq!(text, "{\n  \"version\": 1,\n  \"servers\": []\n}");
    let mut c = BridgeConfig::default();
    c.default_provider_id = Some("p1".to_string());
    let t2 = bridge_backend::docjson::write_bridge_config(&c);
    assert!(t2.starts_with("{\n  \"version\": 1,\n  \"port\": 3001,\n"));
    assert!(t2.ends_with("\n}"));
    // line-per-member, as other pretty printers lay it out
    assert_eq!(t2.lines().count(), 11);
}

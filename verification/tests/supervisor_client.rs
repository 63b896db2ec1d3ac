use bridge_backend::client::{
    build_base_url, get_bridge_status, health_url, logs_url, mcp_server_action_url,
    mcp_servers_url, provider_models_url, shape_action_response, test_model_url,
    test_provider_connection_request, validate_provider_url,
};
use bridge_backend::config::AIProviderConfig;
use bridge_backend::config::{AIProviderType, BridgeConfig};
use bridge_backend::supervisor::{
    get_bridge_start_command, resolve_service_path, Liveness, ProcessSupervisor, StartDecision,
    StopDecision, SupervisorState,
};
use bridge_backend::wire::{
    test_model_body, validate_provider_body, TestModelRequest, ValidateProviderRequest,
};
use bridge_backend::ApiResponse;

#[test]
fn start_when_idle_spawns() {
    let mut sup = ProcessSupervisor::new();
    assert_eq!(sup.state, SupervisorState::Idle);
    let d = sup.on_start(None);
    assert_eq!(d, StartDecision::Spawn);
    sup.on_spawned(41);
    assert_eq!(sup.state, SupervisorState::Running { token: 41 });
}

#[test]
fn start_when_running_is_already_running() {
    let mut sup = ProcessSupervisor::new();
    sup.on_start(None);
    sup.on_spawned(7);
    let d = sup.on_start(Some(Liveness::Alive));
    assert_eq!(d, StartDecision::AlreadyRunning);
    // the tracked process is untouched
    assert_eq!(sup.state, SupervisorState::Running { token: 7 });
}

#[test]
fn start_after_exit_replaces_handle() {
    let mut sup = ProcessSupervisor::new();
    sup.on_start(None);
    sup.on_spawned(7);
    let d = sup.on_start(Some(Liveness::Exited));
    assert_eq!(d, StartDecision::Spawn);
    assert_eq!(sup.state, SupervisorState::Idle);
    sup.on_spawned(8);
    assert_eq!(sup.state, SupervisorState::Running { token: 8 });
}

#[test]
fn failed_probe_keeps_handle() {
    let mut sup = ProcessSupervisor::new();
    sup.on_start(None);
    sup.on_spawned(7);
    let d = sup.on_start(Some(Liveness::ProbeFailed));
    assert_eq!(d, StartDecision::ProbeError);
    assert_eq!(sup.state, SupervisorState::Running { token: 7 });
}

#[test]
fn stop_when_idle_is_not_running() {
    let mut sup = ProcessSupervisor::new();
    let d = sup.on_stop();
    assert_eq!(d, StopDecision::NotRunning);
    assert_eq!(sup.state, SupervisorState::Idle);
}

#[test]
fn stop_when_running_kills_and_clears() {
    let mut sup = ProcessSupervisor::new();
    sup.on_start(None);
    sup.on_spawned(99);
    let d = sup.on_stop();
    assert_eq!(d, StopDecision::Kill { token: 99 });
    assert_eq!(sup.state, SupervisorState::Idle);
}

#[test]
fn service_path_precedence() {
    let p = resolve_service_path(Some("/override".to_string()), Some("/res".to_string()), true, true);
    assert_eq!(p, "/override");
    let p = resolve_service_path(None, Some("/res".to_string()), true, true);
    assert_eq!(p, "/res");
    let p = resolve_service_path(None, Some("/res".to_string()), false, true);
    assert_eq!(p, "../..");
    let p = resolve_service_path(None, None, false, false);
    assert_eq!(p, ".");
}

#[test]
fn start_command_prefers_packaged_executable() {
    let (cmd, args, cwd) = get_bridge_start_command("/srv/bridge", false, true, true);
    assert_eq!(cmd, "/srv/bridge/dist/office-local-bridge");
    assert!(args.is_empty());
    assert_eq!(cwd, "/srv/bridge");
    let (cmd, _, _) = get_bridge_start_command("/srv/bridge", true, true, false);
    assert_eq!(cmd, "/srv/bridge/dist/office-local-bridge-win.exe");
}

#[test]
fn start_command_falls_back_to_node_then_npm() {
    let (cmd, args, cwd) = get_bridge_start_command("/srv/bridge", false, false, true);
    assert_eq!(cmd, "node");
    assert_eq!(args, vec!["/srv/bridge/dist/server.js".to_string()]);
    assert_eq!(cwd, "/srv/bridge");
    let (cmd, args, _) = get_bridge_start_command("/srv/bridge", false, false, false);
    assert_eq!(cmd, "npm");
    assert_eq!(args, vec!["run".to_string(), "dev".to_string()]);
}

#[test]
fn url_builders_give_exact_urls() {
    assert_eq!(build_base_url("localhost", 3001), "http://localhost:3001");
    assert_eq!(health_url("localhost", 3001), "http://localhost:3001/health");
    assert_eq!(mcp_servers_url("box", 80), "http://box:80/api/mcp/servers");
    assert_eq!(
        mcp_server_action_url("localhost", 3001, "srv-1", "restart"),
        "http://localhost:3001/api/mcp/servers/srv-1/restart"
    );
    assert_eq!(
        validate_provider_url("localhost", 3001),
        "http://localhost:3001/api/config/providers/validate"
    );
    assert_eq!(
        provider_models_url("localhost", 3001, "p1"),
        "http://localhost:3001/api/config/providers/p1/models"
    );
    assert_eq!(
        test_model_url("localhost", 3001, "p1"),
        "http://localhost:3001/api/config/providers/p1/test-model"
    );
}

#[test]
fn logs_url_query_parameters() {
    assert_eq!(logs_url("h", 1, None, None), "http://h:1/api/logs");
    assert_eq!(logs_url("h", 1, Some(50), None), "http://h:1/api/logs?limit=50");
    assert_eq!(logs_url("h", 1, None, Some("error")), "http://h:1/api/logs?level=error");
    assert_eq!(
        logs_url("h", 1, Some(50), Some("error")),
        "http://h:1/api/logs?limit=50&level=error"
    );
}

#[test]
fn bridge_status_unreachable_is_success_not_running() {
    let c = BridgeConfig::default();
    let r = get_bridge_status(&c, None);
    assert!(r.success);
    assert!(r.error.is_none());
    let s = r.data.unwrap();
    assert!(!s.running);
    assert_eq!(s.port, 3001);
    assert_eq!(s.url, "http://localhost:3001");
    assert_eq!(s.uptime, None);
}

#[test]
fn bridge_status_healthy_carries_uptime() {
    let c = BridgeConfig::default();
    let r = get_bridge_status(&c, Some((200, Some("{\"uptime\":12345}".to_string()))));
    let s = r.data.unwrap();
    assert!(s.running);
    assert_eq!(s.uptime, Some(12345));
    let r2 = get_bridge_status(&c, Some((500, None)));
    let s2 = r2.data.unwrap();
    assert!(!s2.running);
    assert_eq!(s2.uptime, None);
}

#[test]
fn action_response_shapes_by_status() {
    let ok: ApiResponse<bool> = shape_action_response(Some(204), "start failed: HTTP ");
    assert!(ok.success);
    assert_eq!(ok.data, Some(true));
    let bad: ApiResponse<bool> = shape_action_response(Some(404), "start failed: HTTP ");
    assert!(!bad.success);
    assert_eq!(bad.error.as_deref(), Some("start failed: HTTP 404"));
    let gone: ApiResponse<bool> = shape_action_response(None, "start failed: HTTP ");
    assert!(!gone.success);
    assert_eq!(gone.error.as_deref(), Some("cannot reach service"));
}

#[test]
fn request_bodies_are_exact_wire_json() {
    let v = validate_provider_body(&ValidateProviderRequest {
        provider_type: AIProviderType::Anthropic,
        api_key: "k".to_string(),
        base_url: None,
        azure_endpoint: None,
        azure_deployment: None,
        azure_api_version: None,
    });
    assert_eq!(
        v,
        "{\"type\":\"anthropic\",\"apiKey\":\"k\",\"baseUrl\":null,\"azureEndpoint\":null,\"azureDeployment\":null,\"azureApiVersion\":null}"
    );
    let t = test_model_body(&TestModelRequest {
        model_id: "m1".to_string(),
        test_message: Some("hi".to_string()),
    });
    assert_eq!(t, "{\"modelId\":\"m1\",\"testMessage\":\"hi\"}");
}

#[test]
fn api_response_constructors() {
    let ok: ApiResponse<u32> = ApiResponse::success(5);
    assert!(ok.success);
    assert_eq!(ok.data, Some(5));
    assert!(ok.error.is_none());
    let err: ApiResponse<u32> = ApiResponse::error("boom");
    assert!(!err.success);
    assert!(err.data.is_none());
    assert_eq!(err.error.as_deref(), Some("boom"));
}

fn connection_probe(t: AIProviderType) -> AIProviderConfig {
    AIProviderConfig {
        id: "p".to_string(),
        provider_type: t,
        name: "p".to_string(),
        enabled: true,
        is_default: false,
        api_key: "k1".to_string(),
        base_url: None,
        azure_endpoint: None,
        azure_deployment: None,
        azure_api_version: None,
        custom_headers: None,
        selected_models: None,
        connection_status: None,
        last_tested_at: None,
    }
}

#[test]
fn connection_test_requests_by_provider_type() {
    let (url, headers) = test_provider_connection_request(&connection_probe(AIProviderType::OpenAI)).unwrap();
    assert_eq!(url, "https://api.openai.com/v1/models");
    assert_eq!(headers, vec![("Authorization".to_string(), "Bearer k1".to_string())]);
    let (url, headers) =
        test_provider_connection_request(&connection_probe(AIProviderType::Anthropic)).unwrap();
    assert_eq!(url, "https://api.anthropic.com/v1/models");
    assert_eq!(headers[0], ("x-api-key".to_string(), "k1".to_string()));
    assert_eq!(headers[1], ("anthropic-version".to_string(), "2023-06-01".to_string()));
    let (url, headers) =
        test_provider_connection_request(&connection_probe(AIProviderType::Ollama)).unwrap();
    assert_eq!(url, "http://localhost:11434/api/tags");
    assert!(headers.is_empty());
    // a custom provider with no endpoint cannot be tested
    assert!(test_provider_connection_request(&connection_probe(AIProviderType::Custom)).is_none());
    let mut azure = connection_probe(AIProviderType::Azure);
    azure.azure_endpoint = Some("https://az.example.com".to_string());
    let (url, headers) = test_provider_connection_request(&azure).unwrap();
    assert_eq!(url, "https://az.example.com/openai/models?api-version=2024-02-15-preview");
    assert_eq!(headers, vec![("api-key".to_string(), "k1".to_string())]);
}

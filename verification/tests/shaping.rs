use bridge_backend::shaping::{
    shape_logs_response, shape_mcp_status_response, shape_provider_models_response,
    shape_test_model_response, shape_tools_response, shape_validate_response,
};
use bridge_backend::json::Json;

fn ok(body: &str) -> Option<(u16, Option<String>)> {
    Some((200, Some(body.to_string())))
}

#[test]
fn status_list_under_servers_member() {
    let body = "{\"servers\":[{\"id\":\"s1\",\"name\":\"files\",\"status\":\"running\",\"pid\":42,\"startTime\":1700000000,\"lastError\":null,\"toolCount\":3}]}";
    let r = shape_mcp_status_response(ok(body));
    assert!(r.success);
    let list = r.data.unwrap();
    assert_eq!(list.len(), 1);
    assert_eq!(list[0].id, "s1");
    assert_eq!(list[0].pid, Some(42));
    assert_eq!(list[0].tool_count, Some(3));
}

#[test]
fn status_list_as_whole_body() {
    let body = "[{\"id\":\"s1\",\"name\":\"files\",\"status\":\"stopped\"}]";
    let r = shape_mcp_status_response(ok(body));
    assert!(r.success);
    let list = r.data.unwrap();
    assert_eq!(list.len(), 1);
    assert_eq!(list[0].status, "stopped");
    assert_eq!(list[0].pid, None);
}

#[test]
fn status_list_degrades_to_empty() {
    // a bad entry fails the list, which degrades to empty, not to an error
    let body = "{\"servers\":[{\"name\":\"missing id\"}]}";
    let r = shape_mcp_status_response(ok(body));
    assert!(r.success);
    assert!(r.data.unwrap().is_empty());
    // no recognizable member at all also degrades to empty
    let r2 = shape_mcp_status_response(ok("{\"other\":1}"));
    assert!(r2.success);
    assert!(r2.data.unwrap().is_empty());
}

#[test]
fn status_errors_on_failure_paths() {
    let gone = shape_mcp_status_response(None);
    assert!(!gone.success && gone.error.is_some());
    let rejected = shape_mcp_status_response(Some((503, None)));
    assert!(!rejected.success);
    assert_eq!(rejected.error.as_deref(), Some("service request failed: HTTP 503"));
    let garbled = shape_mcp_status_response(ok("not json"));
    assert!(!garbled.success && garbled.error.is_some());
}

#[test]
fn logs_nested_under_data() {
    let body = "{\"data\":{\"logs\":[{\"timestamp\":1700000001,\"level\":\"info\",\"module\":\"core\",\"message\":\"up\",\"data\":{\"k\":1}}]}}";
    let r = shape_logs_response(ok(body));
    assert!(r.success);
    let list = r.data.unwrap();
    assert_eq!(list.len(), 1);
    assert_eq!(list[0].message, "up");
    assert!(list[0].data.is_some());
}

#[test]
fn logs_at_top_level_and_degradation() {
    let body = "{\"logs\":[{\"timestamp\":1,\"level\":\"warn\",\"module\":\"m\",\"message\":\"x\"}]}";
    let r = shape_logs_response(ok(body));
    assert!(r.success);
    assert_eq!(r.data.unwrap().len(), 1);
    let r2 = shape_logs_response(ok("{}"));
    assert!(r2.success);
    assert!(r2.data.unwrap().is_empty());
}

#[test]
fn tools_member_and_default_schema() {
    let body = "{\"tools\":[{\"name\":\"read\",\"description\":\"reads\"}]}";
    let r = shape_tools_response(ok(body));
    assert!(r.success);
    let list = r.data.unwrap();
    assert_eq!(list.len(), 1);
    assert_eq!(list[0].input_schema, Json::Null);
    assert_eq!(list[0].category, None);
    let r2 = shape_tools_response(ok("{\"x\":1}"));
    assert!(r2.success);
    assert!(r2.data.unwrap().is_empty());
}

#[test]
fn validate_response_decoded_strictly() {
    let body = "{\"success\":true,\"data\":{\"valid\":true,\"error\":null,\"models\":[{\"id\":\"m\",\"name\":\"M\"}]}}";
    let r = shape_validate_response(ok(body));
    assert!(r.success);
    let v = r.data.unwrap();
    assert!(v.valid);
    assert_eq!(v.models.as_ref().unwrap().len(), 1);
    // a missing data member is surfaced, not swallowed
    let r2 = shape_validate_response(ok("{\"success\":true}"));
    assert!(!r2.success);
    assert_eq!(r2.error.as_deref(), Some("response missing data"));
    // a malformed payload is a shape mismatch
    let r3 = shape_validate_response(ok("{\"data\":{\"valid\":\"yes\"}}"));
    assert!(!r3.success);
    assert_eq!(r3.error.as_deref(), Some("malformed validation result"));
}

#[test]
fn provider_models_takes_data_or_whole_body() {
    let r = shape_provider_models_response(ok("{\"data\":{\"models\":[]}}"));
    assert!(r.success);
    match r.data.unwrap() {
        Json::Obj(ms) => assert_eq!(ms[0].0, "models"),
        _ => panic!("expected the data object"),
    }
    let r2 = shape_provider_models_response(ok("{\"models\":[1]}"));
    assert!(r2.success);
    match r2.data.unwrap() {
        Json::Obj(ms) => assert_eq!(ms[0].0, "models"),
        _ => panic!("expected the whole body"),
    }
}

#[test]
fn test_model_payload_decoded() {
    let body = "{\"data\":{\"success\":true,\"response\":\"pong\",\"latency\":42,\"error\":null}}";
    let r = shape_test_model_response(ok(body));
    assert!(r.success);
    let v = r.data.unwrap();
    assert!(v.success);
    assert_eq!(v.response.as_deref(), Some("pong"));
    assert_eq!(v.latency, Some(42));
    let r2 = shape_test_model_response(Some((401, Some("denied".to_string()))));
    assert!(!r2.success);
    // the rejection carries the status and the response body text
    assert_eq!(r2.error.as_deref(), Some("model test failed: HTTP 401 - denied"));
}

#[test]
fn rejections_carry_status_and_body_text() {
    let r = shape_validate_response(Some((422, Some("bad key".to_string()))));
    assert!(!r.success);
    assert_eq!(r.error.as_deref(), Some("validation failed: HTTP 422 - bad key"));
    let r2 = shape_provider_models_response(Some((500, None)));
    assert!(!r2.success);
    assert_eq!(r2.error.as_deref(), Some("cannot fetch models: HTTP 500"));
}

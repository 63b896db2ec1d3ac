use vstd::prelude::*;
use vstd::string::StringExecFns;

use crate::config::{McpServerStatus, McpServerStatusV};
use crate::docjson::{
    field_bool, field_i64, field_opt_i64, field_opt_str, field_str, jv_bool, jv_i64, jv_lookup,
    jv_opt_i64, jv_opt_str, jv_str,
};
use crate::docmodels::{field_opt_i32, jv_opt_i32};
use crate::json::{json_view, json_views, Json, JsonV};
use crate::json::lemma_json_views_len;
use crate::numtext::{dec_digits, u64_to_string};
use crate::parse::{parse_json, parse_text};
use crate::wire::{
    test_model_response_of, ModelInfo, ModelInfoV, TestModelResponse, ValidateProviderResponse,
    ValidateProviderResponseV,
};
use crate::ApiResponse;

verus! {

/// One log line the bridge service reports. The free-form `data`
/// member is carried through as the JSON node it came as.
#[derive(Debug, PartialEq)]
pub struct LogEntry {
    pub timestamp: i64,
    pub level: String,
    pub module: String,
    pub message: String,
    pub data: Option<Json>,
}

/// Mathematical value of a `LogEntry`.
#[verifier::ext_equal]
pub ghost struct LogEntryV {
    pub timestamp: i64,
    pub level: Seq<char>,
    pub module: Seq<char>,
    pub message: Seq<char>,
    pub data: Option<JsonV>,
}

impl DeepView for LogEntry {
    type V = LogEntryV;

    open spec fn deep_view(&self) -> LogEntryV {
        LogEntryV {
            timestamp: self.timestamp,
            level: self.level@,
            module: self.module@,
            message: self.message@,
            data: self.data.deep_view(),
        }
    }
}

/// One tool an MCP server offers. A missing input schema reads as the
/// null node.
#[derive(Debug, PartialEq)]
pub struct McpTool {
    pub name: String,
    pub description: String,
    pub input_schema: Json,
    pub category: Option<String>,
}

/// Mathematical value of a `McpTool`.
#[verifier::ext_equal]
pub ghost struct McpToolV {
    pub name: Seq<char>,
    pub description: Seq<char>,
    pub input_schema: JsonV,
    pub category: Option<Seq<char>>,
}

impl DeepView for McpTool {
    type V = McpToolV;

    open spec fn deep_view(&self) -> McpToolV {
        McpToolV {
            name: self.name@,
            description: self.description@,
            input_schema: self.input_schema.deep_view(),
            category: self.category.deep_view(),
        }
    }
}

// ===== more field readings =====

/// An optional integer member that must fit a `u32`.
pub open spec fn jv_opt_u32(o: Option<JsonV>) -> Option<Option<u32>> {
    match jv_opt_i64(o) {
        Some(Some(v)) => if 0 <= v <= u32::MAX {
            Some(Some(v as u32))
        } else {
            None
        },
        Some(None) => Some(None),
        None => None,
    }
}

/// Fetches an optional member that must fit a `u32`.
pub fn field_opt_u32(j: &Json, key: &str) -> (r: Option<Option<u32>>)
    ensures
        r == jv_opt_u32(jv_lookup(json_view(*j), key@)),
{
    match field_opt_i64(j, key) {
        Some(Some(v)) => {
            if 0 <= v && v <= u32::MAX as i64 {
                Some(Some(v as u32))
            } else {
                None
            }
        },
        Some(None) => Some(None),
        None => None,
    }
}

/// An optional free-form member: absent or null reads as nothing, any
/// other value is carried through as it is.
pub open spec fn jv_opt_raw(o: Option<JsonV>) -> Option<JsonV> {
    match o {
        None => None,
        Some(JsonV::Null) => None,
        Some(v) => Some(v),
    }
}

/// Fetches an optional free-form member as an owned node.
pub fn field_opt_raw(j: &Json, key: &str) -> (r: Option<Json>)
    ensures
        r.deep_view() == jv_opt_raw(jv_lookup(json_view(*j), key@)),
{
    match j.get(key) {
        None => None,
        Some(Json::Null) => None,
        Some(v) => Some(v.duplicate()),
    }
}

/// A free-form member that defaults to the null node when absent.
pub open spec fn jv_raw_or_null(o: Option<JsonV>) -> JsonV {
    match o {
        None => JsonV::Null,
        Some(v) => v,
    }
}

/// Fetches a free-form member, defaulting to the null node.
pub fn field_raw_or_null(j: &Json, key: &str) -> (r: Json)
    ensures
        json_view(r) == jv_raw_or_null(jv_lookup(json_view(*j), key@)),
{
    match j.get(key) {
        None => Json::Null,
        Some(v) => v.duplicate(),
    }
}

/// `"{prefix}{status}"`, the message a rejected request carries.
pub fn http_error_message(prefix: &str, status: u16) -> (r: String)
    ensures
        r@ == prefix@ + dec_digits(status as int),
{
    let mut m: String = prefix.to_owned();
    let d = u64_to_string(status as u64);
    m.append(d.as_str());
    m
}

/// The message a rejected request carries where the response body is
/// reported too: the prefix, the status code and, when a body text
/// came, that text after a dash.
pub open spec fn rejected_message(prefix: Seq<char>, status: u16, body: Option<Seq<char>>) -> Seq<
    char,
> {
    prefix + dec_digits(status as int) + (match body {
        Some(b) => " - "@ + b,
        None => Seq::empty(),
    })
}

/// Builds `rejected_message`.
pub fn http_error_with_body(prefix: &str, status: u16, body: &Option<String>) -> (r: String)
    ensures
        r@ == rejected_message(prefix@, status, body.deep_view()),
{
    let mut m = http_error_message(prefix, status);
    match body {
        Some(b) => {
            m.append(" - ");
            m.append(b.as_str());
        },
        None => {},
    }
    m
}

// ===== one server status =====

/// Reads one live server status from a JSON value.
pub open spec fn status_of_json(j: JsonV) -> Option<McpServerStatusV> {
    let id = jv_str(jv_lookup(j, "id"@));
    let name = jv_str(jv_lookup(j, "name"@));
    let status = jv_str(jv_lookup(j, "status"@));
    let pid = jv_opt_u32(jv_lookup(j, "pid"@));
    let start_time = jv_opt_i64(jv_lookup(j, "startTime"@));
    let last_error = jv_opt_str(jv_lookup(j, "lastError"@));
    let tool_count = jv_opt_i32(jv_lookup(j, "toolCount"@));
    if j is Obj && id is Some && name is Some && status is Some && pid is Some && start_time
        is Some && last_error is Some && tool_count is Some {
        Some(
            McpServerStatusV {
                id: id->0,
                name: name->0,
                status: status->0,
                pid: pid->0,
                start_time: start_time->0,
                last_error: last_error->0,
                tool_count: tool_count->0,
            },
        )
    } else {
        None
    }
}

/// Reads one live server status from a parsed JSON value.
pub fn mcp_server_status_of(j: &Json) -> (r: Option<McpServerStatus>)
    ensures
        match r {
            Some(v) => status_of_json(json_view(*j)) == Some(v.deep_view()),
            None => status_of_json(json_view(*j)) is None,
        },
{
    match j {
        Json::Obj(_) => {},
        _ => {
            return None;
        },
    }
    let id = match field_str(j, "id") {
        Some(v) => v,
        None => {
            return None;
        },
    };
    let name = match field_str(j, "name") {
        Some(v) => v,
        None => {
            return None;
        },
    };
    let status = match field_str(j, "status") {
        Some(v) => v,
        None => {
            return None;
        },
    };
    let pid = match field_opt_u32(j, "pid") {
        Some(v) => v,
        None => {
            return None;
        },
    };
    let start_time = match field_opt_i64(j, "startTime") {
        Some(v) => v,
        None => {
            return None;
        },
    };
    let last_error = match field_opt_str(j, "lastError") {
        Some(v) => v,
        None => {
            return None;
        },
    };
    let tool_count = match field_opt_i32(j, "toolCount") {
        Some(v) => v,
        None => {
            return None;
        },
    };
    Some(McpServerStatus { id, name, status, pid, start_time, last_error, tool_count })
}

// ===== one log entry =====

/// Reads one log entry from a JSON value.
pub open spec fn log_entry_of_json(j: JsonV) -> Option<LogEntryV> {
    let timestamp = jv_i64(jv_lookup(j, "timestamp"@));
    let level = jv_str(jv_lookup(j, "level"@));
    let module = jv_str(jv_lookup(j, "module"@));
    let message = jv_str(jv_lookup(j, "message"@));
    let data = jv_opt_raw(jv_lookup(j, "data"@));
    if j is Obj && timestamp is Some && level is Some && module is Some && message is Some {
        Some(
            LogEntryV {
                timestamp: timestamp->0,
                level: level->0,
                module: module->0,
                message: message->0,
                data,
            },
        )
    } else {
        None
    }
}

/// Reads one log entry from a parsed JSON value.
pub fn log_entry_of(j: &Json) -> (r: Option<LogEntry>)
    ensures
        match r {
            Some(v) => log_entry_of_json(json_view(*j)) == Some(v.deep_view()),
            None => log_entry_of_json(json_view(*j)) is None,
        },
{
    match j {
        Json::Obj(_) => {},
        _ => {
            return None;
        },
    }
    let timestamp = match field_i64(j, "timestamp") {
        Some(v) => v,
        None => {
            return None;
        },
    };
    let level = match field_str(j, "level") {
        Some(v) => v,
        None => {
            return None;
        },
    };
    let module = match field_str(j, "module") {
        Some(v) => v,
        None => {
            return None;
        },
    };
    let message = match field_str(j, "message") {
        Some(v) => v,
        None => {
            return None;
        },
    };
    let data = field_opt_raw(j, "data");
    Some(LogEntry { timestamp, level, module, message, data })
}

// ===== one tool =====

/// Reads one tool description from a JSON value.
pub open spec fn tool_of_json(j: JsonV) -> Option<McpToolV> {
    let name = jv_str(jv_lookup(j, "name"@));
    let description = jv_str(jv_lookup(j, "description"@));
    let input_schema = jv_raw_or_null(jv_lookup(j, "inputSchema"@));
    let category = jv_opt_str(jv_lookup(j, "category"@));
    if j is Obj && name is Some && description is Some && category is Some {
        Some(
            McpToolV {
                name: name->0,
                description: description->0,
                input_schema,
                category: category->0,
            },
        )
    } else {
        None
    }
}

/// Reads one tool description from a parsed JSON value.
pub fn mcp_tool_of(j: &Json) -> (r: Option<McpTool>)
    ensures
        match r {
            Some(v) => tool_of_json(json_view(*j)) == Some(v.deep_view()),
            None => tool_of_json(json_view(*j)) is None,
        },
{
    match j {
        Json::Obj(_) => {},
        _ => {
            return None;
        },
    }
    let name = match field_str(j, "name") {
        Some(v) => v,
        None => {
            return None;
        },
    };
    let description = match field_str(j, "description") {
        Some(v) => v,
        None => {
            return None;
        },
    };
    let input_schema = field_raw_or_null(j, "inputSchema");
    let category = match field_opt_str(j, "category") {
        Some(v) => v,
        None => {
            return None;
        },
    };
    Some(McpTool { name, description, input_schema, category })
}

// ===== one offered model =====

/// Reads one offered model from a JSON value.
pub open spec fn model_info_of_json(j: JsonV) -> Option<ModelInfoV> {
    let id = jv_str(jv_lookup(j, "id"@));
    let name = jv_str(jv_lookup(j, "name"@));
    let description = jv_opt_str(jv_lookup(j, "description"@));
    let context_window = jv_opt_i64(jv_lookup(j, "contextWindow"@));
    let supports_vision = crate::docjson::jv_opt_bool(jv_lookup(j, "supportsVision"@));
    let supports_tools = crate::docjson::jv_opt_bool(jv_lookup(j, "supportsTools"@));
    let supports_streaming = crate::docjson::jv_opt_bool(jv_lookup(j, "supportsStreaming"@));
    if j is Obj && id is Some && name is Some && description is Some && context_window is Some
        && supports_vision is Some && supports_tools is Some && supports_streaming is Some {
        Some(
            ModelInfoV {
                id: id->0,
                name: name->0,
                description: description->0,
                context_window: context_window->0,
                supports_vision: supports_vision->0,
                supports_tools: supports_tools->0,
                supports_streaming: supports_streaming->0,
            },
        )
    } else {
        None
    }
}

/// Reads one offered model from a parsed JSON value.
pub fn model_info_of(j: &Json) -> (r: Option<ModelInfo>)
    ensures
        match r {
            Some(v) => model_info_of_json(json_view(*j)) == Some(v.deep_view()),
            None => model_info_of_json(json_view(*j)) is None,
        },
{
    match j {
        Json::Obj(_) => {},
        _ => {
            return None;
        },
    }
    let id = match field_str(j, "id") {
        Some(v) => v,
        None => {
            return None;
        },
    };
    let name = match field_str(j, "name") {
        Some(v) => v,
        None => {
            return None;
        },
    };
    let description = match field_opt_str(j, "description") {
        Some(v) => v,
        None => {
            return None;
        },
    };
    let context_window = match field_opt_i64(j, "contextWindow") {
        Some(v) => v,
        None => {
            return None;
        },
    };
    let supports_vision = match crate::docjson::field_opt_bool(j, "supportsVision") {
        Some(v) => v,
        None => {
            return None;
        },
    };
    let supports_tools = match crate::docjson::field_opt_bool(j, "supportsTools") {
        Some(v) => v,
        None => {
            return None;
        },
    };
    let supports_streaming = match crate::docjson::field_opt_bool(j, "supportsStreaming") {
        Some(v) => v,
        None => {
            return None;
        },
    };
    Some(
        ModelInfo {
            id,
            name,
            description,
            context_window,
            supports_vision,
            supports_tools,
            supports_streaming,
        },
    )
}

// ===== list readings =====

/// Reads a list of them; one bad entry fails the whole list.
pub open spec fn status_list_of_json(l: Seq<JsonV>) -> Option<Seq<McpServerStatusV>>
    decreases l.len(),
{
    if l.len() == 0 {
        Some(Seq::empty())
    } else {
        match status_of_json(l[0]) {
            Some(v) => match status_list_of_json(l.skip(1)) {
                Some(rest) => Some(seq![v] + rest),
                None => None,
            },
            None => None,
        }
    }
}

/// Reads a list of them from parsed nodes.
pub fn status_list_of(arr: &Vec<Json>) -> (r: Option<Vec<McpServerStatus>>)
    ensures
        match r {
            Some(out) => status_list_of_json(json_views(arr@)) == Some(out.deep_view()),
            None => status_list_of_json(json_views(arr@)) is None,
        },
{
    proof {
        lemma_json_views_len(arr@);
    }
    let mut out: Vec<McpServerStatus> = Vec::new();
    proof {
        assert(json_views(arr@).skip(0) =~= json_views(arr@));
        assert(out.deep_view() =~= Seq::<McpServerStatusV>::empty());
        match status_list_of_json(json_views(arr@)) {
            Some(r0) => {
                assert(out.deep_view() + r0 =~= r0);
            },
            None => {},
        }
    }
    let n = arr.len();
    let mut i: usize = 0;
    while i < n
        invariant
            n == arr@.len(),
            0 <= i <= n,
            json_views(arr@).len() == n,
            forall|t: int| 0 <= t < n ==> json_views(arr@)[t] == json_view(arr@[t]),
            status_list_of_json(json_views(arr@)) == (match status_list_of_json(
                json_views(arr@).skip(i as int),
            ) {
                Some(rest) => Some(out.deep_view() + rest),
                None => None::<Seq<McpServerStatusV>>,
            }),
            out@.len() == i,
        decreases n - i,
    {
        proof {
            assert(json_views(arr@).skip(i as int)[0] == json_views(arr@)[i as int]);
            assert(json_views(arr@).skip(i as int).skip(1) =~= json_views(arr@).skip(i as int + 1));
        }
        match mcp_server_status_of(&arr[i]) {
            Some(v) => {
                out.push(v);
                proof {
                    lemma_status_prepend(
                        out.deep_view(),
                        status_list_of_json(json_views(arr@).skip(i as int + 1)),
                    );
                }
            },
            None => {
                proof {
                    assert(status_list_of_json(json_views(arr@).skip(i as int)) is None);
                }
                return None;
            },
        }
        i += 1;
    }
    proof {
        assert(json_views(arr@).skip(n as int) =~= Seq::<JsonV>::empty());
        assert(out.deep_view() + Seq::<McpServerStatusV>::empty() =~= out.deep_view());
    }
    Some(out)
}

proof fn lemma_status_prepend(acc_new: Seq<McpServerStatusV>, rest: Option<Seq<McpServerStatusV>>)
    requires
        acc_new.len() > 0,
    ensures
        match rest {
            Some(r) => acc_new.drop_last() + (seq![acc_new.last()] + r) =~= acc_new + r,
            None => true,
        },
{
}

/// Reads a list of them; one bad entry fails the whole list.
pub open spec fn log_list_of_json(l: Seq<JsonV>) -> Option<Seq<LogEntryV>>
    decreases l.len(),
{
    if l.len() == 0 {
        Some(Seq::empty())
    } else {
        match log_entry_of_json(l[0]) {
            Some(v) => match log_list_of_json(l.skip(1)) {
                Some(rest) => Some(seq![v] + rest),
                None => None,
            },
            None => None,
        }
    }
}

/// Reads a list of them from parsed nodes.
pub fn log_list_of(arr: &Vec<Json>) -> (r: Option<Vec<LogEntry>>)
    ensures
        match r {
            Some(out) => log_list_of_json(json_views(arr@)) == Some(out.deep_view()),
            None => log_list_of_json(json_views(arr@)) is None,
        },
{
    proof {
        lemma_json_views_len(arr@);
    }
    let mut out: Vec<LogEntry> = Vec::new();
    proof {
        assert(json_views(arr@).skip(0) =~= json_views(arr@));
        assert(out.deep_view() =~= Seq::<LogEntryV>::empty());
        match log_list_of_json(json_views(arr@)) {
            Some(r0) => {
                assert(out.deep_view() + r0 =~= r0);
            },
            None => {},
        }
    }
    let n = arr.len();
    let mut i: usize = 0;
    while i < n
        invariant
            n == arr@.len(),
            0 <= i <= n,
            json_views(arr@).len() == n,
            forall|t: int| 0 <= t < n ==> json_views(arr@)[t] == json_view(arr@[t]),
            log_list_of_json(json_views(arr@)) == (match log_list_of_json(
                json_views(arr@).skip(i as int),
            ) {
                Some(rest) => Some(out.deep_view() + rest),
                None => None::<Seq<LogEntryV>>,
            }),
            out@.len() == i,
        decreases n - i,
    {
        proof {
            assert(json_views(arr@).skip(i as int)[0] == json_views(arr@)[i as int]);
            assert(json_views(arr@).skip(i as int).skip(1) =~= json_views(arr@).skip(i as int + 1));
        }
        match log_entry_of(&arr[i]) {
            Some(v) => {
                out.push(v);
                proof {
                    lemma_log_prepend(
                        out.deep_view(),
                        log_list_of_json(json_views(arr@).skip(i as int + 1)),
                    );
                }
            },
            None => {
                proof {
                    assert(log_list_of_json(json_views(arr@).skip(i as int)) is None);
                }
                return None;
            },
        }
        i += 1;
    }
    proof {
        assert(json_views(arr@).skip(n as int) =~= Seq::<JsonV>::empty());
        assert(out.deep_view() + Seq::<LogEntryV>::empty() =~= out.deep_view());
    }
    Some(out)
}

proof fn lemma_log_prepend(acc_new: Seq<LogEntryV>, rest: Option<Seq<LogEntryV>>)
    requires
        acc_new.len() > 0,
    ensures
        match rest {
            Some(r) => acc_new.drop_last() + (seq![acc_new.last()] + r) =~= acc_new + r,
            None => true,
        },
{
}

/// Reads a list of them; one bad entry fails the whole list.
pub open spec fn tool_list_of_json(l: Seq<JsonV>) -> Option<Seq<McpToolV>>
    decreases l.len(),
{
    if l.len() == 0 {
        Some(Seq::empty())
    } else {
        match tool_of_json(l[0]) {
            Some(v) => match tool_list_of_json(l.skip(1)) {
                Some(rest) => Some(seq![v] + rest),
                None => None,
            },
            None => None,
        }
    }
}

/// Reads a list of them from parsed nodes.
pub fn tool_list_of(arr: &Vec<Json>) -> (r: Option<Vec<McpTool>>)
    ensures
        match r {
            Some(out) => tool_list_of_json(json_views(arr@)) == Some(out.deep_view()),
            None => tool_list_of_json(json_views(arr@)) is None,
        },
{
    proof {
        lemma_json_views_len(arr@);
    }
    let mut out: Vec<McpTool> = Vec::new();
    proof {
        assert(json_views(arr@).skip(0) =~= json_views(arr@));
        assert(out.deep_view() =~= Seq::<McpToolV>::empty());
        match tool_list_of_json(json_views(arr@)) {
            Some(r0) => {
                assert(out.deep_view() + r0 =~= r0);
            },
            None => {},
        }
    }
    let n = arr.len();
    let mut i: usize = 0;
    while i < n
        invariant
            n == arr@.len(),
            0 <= i <= n,
            json_views(arr@).len() == n,
            forall|t: int| 0 <= t < n ==> json_views(arr@)[t] == json_view(arr@[t]),
            tool_list_of_json(json_views(arr@)) == (match tool_list_of_json(
                json_views(arr@).skip(i as int),
            ) {
                Some(rest) => Some(out.deep_view() + rest),
                None => None::<Seq<McpToolV>>,
            }),
            out@.len() == i,
        decreases n - i,
    {
        proof {
            assert(json_views(arr@).skip(i as int)[0] == json_views(arr@)[i as int]);
            assert(json_views(arr@).skip(i as int).skip(1) =~= json_views(arr@).skip(i as int + 1));
        }
        match mcp_tool_of(&arr[i]) {
            Some(v) => {
                out.push(v);
                proof {
                    lemma_tool_prepend(
                        out.deep_view(),
                        tool_list_of_json(json_views(arr@).skip(i as int + 1)),
                    );
                }
            },
            None => {
                proof {
                    assert(tool_list_of_json(json_views(arr@).skip(i as int)) is None);
                }
                return None;
            },
        }
        i += 1;
    }
    proof {
        assert(json_views(arr@).skip(n as int) =~= Seq::<JsonV>::empty());
        assert(out.deep_view() + Seq::<McpToolV>::empty() =~= out.deep_view());
    }
    Some(out)
}

proof fn lemma_tool_prepend(acc_new: Seq<McpToolV>, rest: Option<Seq<McpToolV>>)
    requires
        acc_new.len() > 0,
    ensures
        match rest {
            Some(r) => acc_new.drop_last() + (seq![acc_new.last()] + r) =~= acc_new + r,
            None => true,
        },
{
}

/// Reads a list of them; one bad entry fails the whole list.
pub open spec fn model_info_list_of_json(l: Seq<JsonV>) -> Option<Seq<ModelInfoV>>
    decreases l.len(),
{
    if l.len() == 0 {
        Some(Seq::empty())
    } else {
        match model_info_of_json(l[0]) {
            Some(v) => match model_info_list_of_json(l.skip(1)) {
                Some(rest) => Some(seq![v] + rest),
                None => None,
            },
            None => None,
        }
    }
}

/// Reads a list of them from parsed nodes.
pub fn model_info_list_of(arr: &Vec<Json>) -> (r: Option<Vec<ModelInfo>>)
    ensures
        match r {
            Some(out) => model_info_list_of_json(json_views(arr@)) == Some(out.deep_view()),
            None => model_info_list_of_json(json_views(arr@)) is None,
        },
{
    proof {
        lemma_json_views_len(arr@);
    }
    let mut out: Vec<ModelInfo> = Vec::new();
    proof {
        assert(json_views(arr@).skip(0) =~= json_views(arr@));
        assert(out.deep_view() =~= Seq::<ModelInfoV>::empty());
        match model_info_list_of_json(json_views(arr@)) {
            Some(r0) => {
                assert(out.deep_view() + r0 =~= r0);
            },
            None => {},
        }
    }
    let n = arr.len();
    let mut i: usize = 0;
    while i < n
        invariant
            n == arr@.len(),
            0 <= i <= n,
            json_views(arr@).len() == n,
            forall|t: int| 0 <= t < n ==> json_views(arr@)[t] == json_view(arr@[t]),
            model_info_list_of_json(json_views(arr@)) == (match model_info_list_of_json(
                json_views(arr@).skip(i as int),
            ) {
                Some(rest) => Some(out.deep_view() + rest),
                None => None::<Seq<ModelInfoV>>,
            }),
            out@.len() == i,
        decreases n - i,
    {
        proof {
            assert(json_views(arr@).skip(i as int)[0] == json_views(arr@)[i as int]);
            assert(json_views(arr@).skip(i as int).skip(1) =~= json_views(arr@).skip(i as int + 1));
        }
        match model_info_of(&arr[i]) {
            Some(v) => {
                out.push(v);
                proof {
                    lemma_model_info_prepend(
                        out.deep_view(),
                        model_info_list_of_json(json_views(arr@).skip(i as int + 1)),
                    );
                }
            },
            None => {
                proof {
                    assert(model_info_list_of_json(json_views(arr@).skip(i as int)) is None);
                }
                return None;
            },
        }
        i += 1;
    }
    proof {
        assert(json_views(arr@).skip(n as int) =~= Seq::<JsonV>::empty());
        assert(out.deep_view() + Seq::<ModelInfoV>::empty() =~= out.deep_view());
    }
    Some(out)
}

proof fn lemma_model_info_prepend(acc_new: Seq<ModelInfoV>, rest: Option<Seq<ModelInfoV>>)
    requires
        acc_new.len() > 0,
    ensures
        match rest {
            Some(r) => acc_new.drop_last() + (seq![acc_new.last()] + r) =~= acc_new + r,
            None => true,
        },
{
}

// ===== lenient document readings =====

/// A node read as a status list, degrading to empty when it is no
/// array or holds a bad entry.
pub open spec fn statuses_or_empty(v: JsonV) -> Seq<McpServerStatusV> {
    match v {
        JsonV::Arr(l) => match status_list_of_json(l) {
            Some(out) => out,
            None => Seq::empty(),
        },
        _ => Seq::empty(),
    }
}

/// The status list a server-status answer carries: the `servers`
/// member when present, else the whole body, degrading to empty.
pub open spec fn statuses_of_doc(j: JsonV) -> Seq<McpServerStatusV> {
    match jv_lookup(j, "servers"@) {
        Some(v) => statuses_or_empty(v),
        None => statuses_or_empty(j),
    }
}

/// The log list a logs answer carries: `data.logs`, else `logs`, else
/// empty, degrading to empty on a bad list.
pub open spec fn logs_of_doc(j: JsonV) -> Seq<LogEntryV> {
    let member = match jv_lookup(j, "data"@) {
        Some(d) => match jv_lookup(d, "logs"@) {
            Some(l) => Some(l),
            None => jv_lookup(j, "logs"@),
        },
        None => jv_lookup(j, "logs"@),
    };
    match member {
        Some(JsonV::Arr(l)) => match log_list_of_json(l) {
            Some(out) => out,
            None => Seq::empty(),
        },
        _ => Seq::empty(),
    }
}

/// The tool list a tools answer carries: the `tools` member, else
/// empty, degrading to empty on a bad list.
pub open spec fn tools_of_doc(j: JsonV) -> Seq<McpToolV> {
    match jv_lookup(j, "tools"@) {
        Some(JsonV::Arr(l)) => match tool_list_of_json(l) {
            Some(out) => out,
            None => Seq::empty(),
        },
        _ => Seq::empty(),
    }
}

/// Reads a validation result from the `data` payload. Unlike the
/// listings above this is strict: a malformed payload is a shape
/// mismatch the caller surfaces.
pub open spec fn validate_of_json(j: JsonV) -> Option<ValidateProviderResponseV> {
    let valid = jv_bool(jv_lookup(j, "valid"@));
    let error = jv_opt_str(jv_lookup(j, "error"@));
    let models = match jv_lookup(j, "models"@) {
        None => Some(None),
        Some(JsonV::Null) => Some(None),
        Some(JsonV::Arr(l)) => match model_info_list_of_json(l) {
            Some(out) => Some(Some(out)),
            None => None,
        },
        Some(_) => None,
    };
    if j is Obj && valid is Some && error is Some && models is Some {
        Some(ValidateProviderResponseV { valid: valid->0, error: error->0, models: models->0 })
    } else {
        None
    }
}

/// Reads a validation result from a parsed payload.
pub fn validate_response_of(j: &Json) -> (r: Option<ValidateProviderResponse>)
    ensures
        match r {
            Some(v) => validate_of_json(json_view(*j)) == Some(v.deep_view()),
            None => validate_of_json(json_view(*j)) is None,
        },
{
    match j {
        Json::Obj(_) => {},
        _ => {
            return None;
        },
    }
    let valid = match field_bool(j, "valid") {
        Some(v) => v,
        None => {
            return None;
        },
    };
    let error = match field_opt_str(j, "error") {
        Some(v) => v,
        None => {
            return None;
        },
    };
    let models = match j.get("models") {
        None => None,
        Some(Json::Null) => None,
        Some(Json::Arr(l)) => {
            match model_info_list_of(l) {
                Some(out) => Some(out),
                None => {
                    return None;
                },
            }
        },
        Some(_) => {
            return None;
        },
    };
    Some(ValidateProviderResponse { valid, error, models })
}

// ===== the envelopes =====

/// Shapes a server-status answer: a reachable service and a parsable
/// body give the status list, leniently; everything else is an error.
pub fn shape_mcp_status_response(response: Option<(u16, Option<String>)>) -> (r: ApiResponse<
    Vec<McpServerStatus>,
>)
    ensures
        response is None ==> !r.success && r.error is Some && r.error->0@
            == "cannot reach service"@,
        response matches Some((st, body)) ==> {
            if crate::client::is_success_status(st) {
                match body {
                    None => !r.success && r.error is Some,
                    Some(b) => b@.len() <= 0x0fff_ffff_ffff_ffff ==> match parse_text(b@) {
                        None => !r.success && r.error is Some,
                        Some(doc) => r.success && r.data is Some && r.data->0.deep_view()
                            == statuses_of_doc(doc),
                    },
                }
            } else {
                !r.success && r.error is Some && r.error->0@ == "service request failed: HTTP "@
                    + dec_digits(st as int)
            }
        },
{
    let (st, body) = match response {
        Some(p) => p,
        None => {
            return ApiResponse::error("cannot reach service");
        },
    };
    if !(200 <= st && st < 300) {
        let m = http_error_message("service request failed: HTTP ", st);
        return ApiResponse::error(m.as_str());
    }
    let text = match body {
        Some(t) => t,
        None => {
            return ApiResponse::error("unreadable response");
        },
    };
    let doc = match parse_json(text.as_str()) {
        Some(d) => d,
        None => {
            return ApiResponse::error("malformed response");
        },
    };
    let list = match doc.get("servers") {
        Some(Json::Arr(l)) => {
            match status_list_of(l) {
                Some(out) => out,
                None => Vec::new(),
            }
        },
        Some(_) => Vec::new(),
        None => {
            match &doc {
                Json::Arr(l) => match status_list_of(l) {
                    Some(out) => out,
                    None => Vec::new(),
                },
                _ => Vec::new(),
            }
        },
    };
    ApiResponse::success(list)
}

/// Shapes a logs answer: `data.logs`, else `logs`, else empty.
pub fn shape_logs_response(response: Option<(u16, Option<String>)>) -> (r: ApiResponse<
    Vec<LogEntry>,
>)
    ensures
        response is None ==> !r.success && r.error is Some && r.error->0@
            == "cannot reach service"@,
        response matches Some((st, body)) ==> {
            if crate::client::is_success_status(st) {
                match body {
                    None => !r.success && r.error is Some,
                    Some(b) => b@.len() <= 0x0fff_ffff_ffff_ffff ==> match parse_text(b@) {
                        None => !r.success && r.error is Some,
                        Some(doc) => r.success && r.data is Some && r.data->0.deep_view()
                            == logs_of_doc(doc),
                    },
                }
            } else {
                !r.success && r.error is Some && r.error->0@ == "cannot fetch logs: HTTP "@
                    + dec_digits(st as int)
            }
        },
{
    let (st, body) = match response {
        Some(p) => p,
        None => {
            return ApiResponse::error("cannot reach service");
        },
    };
    if !(200 <= st && st < 300) {
        let m = http_error_message("cannot fetch logs: HTTP ", st);
        return ApiResponse::error(m.as_str());
    }
    let text = match body {
        Some(t) => t,
        None => {
            return ApiResponse::error("unreadable response");
        },
    };
    let doc = match parse_json(text.as_str()) {
        Some(d) => d,
        None => {
            return ApiResponse::error("malformed response");
        },
    };
    let member = match doc.get("data") {
        Some(d) => match d.get("logs") {
            Some(l) => Some(l),
            None => doc.get("logs"),
        },
        None => doc.get("logs"),
    };
    let list = match member {
        Some(Json::Arr(l)) => {
            match log_list_of(l) {
                Some(out) => out,
                None => Vec::new(),
            }
        },
        _ => Vec::new(),
    };
    ApiResponse::success(list)
}

/// Shapes a tools answer: the `tools` member, else empty.
pub fn shape_tools_response(response: Option<(u16, Option<String>)>) -> (r: ApiResponse<
    Vec<McpTool>,
>)
    ensures
        response is None ==> !r.success && r.error is Some && r.error->0@
            == "cannot reach service"@,
        response matches Some((st, body)) ==> {
            if crate::client::is_success_status(st) {
                match body {
                    None => !r.success && r.error is Some,
                    Some(b) => b@.len() <= 0x0fff_ffff_ffff_ffff ==> match parse_text(b@) {
                        None => !r.success && r.error is Some,
                        Some(doc) => r.success && r.data is Some && r.data->0.deep_view()
                            == tools_of_doc(doc),
                    },
                }
            } else {
                !r.success && r.error is Some && r.error->0@ == "cannot fetch tools: HTTP "@
                    + dec_digits(st as int)
            }
        },
{
    let (st, body) = match response {
        Some(p) => p,
        None => {
            return ApiResponse::error("cannot reach service");
        },
    };
    if !(200 <= st && st < 300) {
        let m = http_error_message("cannot fetch tools: HTTP ", st);
        return ApiResponse::error(m.as_str());
    }
    let text = match body {
        Some(t) => t,
        None => {
            return ApiResponse::error("unreadable response");
        },
    };
    let doc = match parse_json(text.as_str()) {
        Some(d) => d,
        None => {
            return ApiResponse::error("malformed response");
        },
    };
    let list = match doc.get("tools") {
        Some(Json::Arr(l)) => {
            match tool_list_of(l) {
                Some(out) => out,
                None => Vec::new(),
            }
        },
        _ => Vec::new(),
    };
    ApiResponse::success(list)
}

/// Shapes a validation answer: the `data` payload decoded strictly; a
/// missing or malformed payload is surfaced as an error.
pub fn shape_validate_response(response: Option<(u16, Option<String>)>) -> (r: ApiResponse<
    ValidateProviderResponse,
>)
    ensures
        response is None ==> !r.success && r.error is Some && r.error->0@
            == "cannot reach service"@,
        response matches Some((st, body)) ==> {
            if crate::client::is_success_status(st) {
                match body {
                    None => !r.success && r.error is Some,
                    Some(b) => b@.len() <= 0x0fff_ffff_ffff_ffff ==> match parse_text(b@) {
                        None => !r.success && r.error is Some,
                        Some(doc) => match jv_lookup(doc, "data"@) {
                            Some(payload) => match validate_of_json(payload) {
                                Some(v) => r.success && r.data is Some && r.data->0.deep_view()
                                    == v,
                                None => !r.success && r.error is Some,
                            },
                            None => !r.success && r.error is Some,
                        },
                    },
                }
            } else {
                !r.success && r.error is Some && r.error->0@ == rejected_message(
                    "validation failed: HTTP "@,
                    st,
                    body.deep_view(),
                )
            }
        },
{
    let (st, body) = match response {
        Some(p) => p,
        None => {
            return ApiResponse::error("cannot reach service");
        },
    };
    if !(200 <= st && st < 300) {
        let m = http_error_with_body("validation failed: HTTP ", st, &body);
        return ApiResponse::error(m.as_str());
    }
    let text = match body {
        Some(t) => t,
        None => {
            return ApiResponse::error("unreadable response");
        },
    };
    let doc = match parse_json(text.as_str()) {
        Some(d) => d,
        None => {
            return ApiResponse::error("malformed response");
        },
    };
    match doc.get("data") {
        Some(payload) => {
            match validate_response_of(payload) {
                Some(v) => ApiResponse::success(v),
                None => ApiResponse::error("malformed validation result"),
            }
        },
        None => ApiResponse::error("response missing data"),
    }
}

/// Shapes a provider-models answer: the `data` payload when present,
/// else the whole body, carried through as JSON.
pub fn shape_provider_models_response(response: Option<(u16, Option<String>)>) -> (r: ApiResponse<
    Json,
>)
    ensures
        response is None ==> !r.success && r.error is Some && r.error->0@
            == "cannot reach service"@,
        response matches Some((st, body)) ==> {
            if crate::client::is_success_status(st) {
                match body {
                    None => !r.success && r.error is Some,
                    Some(b) => b@.len() <= 0x0fff_ffff_ffff_ffff ==> match parse_text(b@) {
                        None => !r.success && r.error is Some,
                        Some(doc) => r.success && r.data is Some && r.data->0.deep_view() == (
                        match jv_lookup(doc, "data"@) {
                            Some(payload) => payload,
                            None => doc,
                        }),
                    },
                }
            } else {
                !r.success && r.error is Some && r.error->0@ == rejected_message(
                    "cannot fetch models: HTTP "@,
                    st,
                    body.deep_view(),
                )
            }
        },
{
    let (st, body) = match response {
        Some(p) => p,
        None => {
            return ApiResponse::error("cannot reach service");
        },
    };
    if !(200 <= st && st < 300) {
        let m = http_error_with_body("cannot fetch models: HTTP ", st, &body);
        return ApiResponse::error(m.as_str());
    }
    let text = match body {
        Some(t) => t,
        None => {
            return ApiResponse::error("unreadable response");
        },
    };
    let doc = match parse_json(text.as_str()) {
        Some(d) => d,
        None => {
            return ApiResponse::error("malformed response");
        },
    };
    match doc.get("data") {
        Some(payload) => {
            let out = payload.duplicate();
            ApiResponse::success(out)
        },
        None => ApiResponse::success(doc),
    }
}

/// Shapes a model-test answer: the `data` payload decoded strictly.
pub fn shape_test_model_response(response: Option<(u16, Option<String>)>) -> (r: ApiResponse<
    TestModelResponse,
>)
    ensures
        response is None ==> !r.success && r.error is Some && r.error->0@
            == "cannot reach service"@,
        response matches Some((st, body)) ==> {
            if crate::client::is_success_status(st) {
                match body {
                    None => !r.success && r.error is Some,
                    Some(b) => b@.len() <= 0x0fff_ffff_ffff_ffff ==> match parse_text(b@) {
                        None => !r.success && r.error is Some,
                        Some(doc) => match jv_lookup(doc, "data"@) {
                            Some(payload) => match crate::wire::test_model_of_json(payload) {
                                Some(v) => r.success && r.data is Some && r.data->0.deep_view()
                                    == v,
                                None => !r.success && r.error is Some,
                            },
                            None => !r.success && r.error is Some,
                        },
                    },
                }
            } else {
                !r.success && r.error is Some && r.error->0@ == rejected_message(
                    "model test failed: HTTP "@,
                    st,
                    body.deep_view(),
                )
            }
        },
{
    let (st, body) = match response {
        Some(p) => p,
        None => {
            return ApiResponse::error("cannot reach service");
        },
    };
    if !(200 <= st && st < 300) {
        let m = http_error_with_body("model test failed: HTTP ", st, &body);
        return ApiResponse::error(m.as_str());
    }
    let text = match body {
        Some(t) => t,
        None => {
            return ApiResponse::error("unreadable response");
        },
    };
    let doc = match parse_json(text.as_str()) {
        Some(d) => d,
        None => {
            return ApiResponse::error("malformed response");
        },
    };
    match doc.get("data") {
        Some(payload) => {
            match test_model_response_of(payload) {
                Some(v) => ApiResponse::success(v),
                None => ApiResponse::error("malformed test result"),
            }
        },
        None => ApiResponse::error("response missing data"),
    }
}

} // verus!

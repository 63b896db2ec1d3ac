use vstd::prelude::*;

use crate::config::{default_bridge_config, BridgeConfig, BridgeConfigV};
use crate::json::{json_member_views, json_view, Json, JsonV};
use crate::json::{lemma_json_member_views_len, members_lookup};
use crate::numtext::{
    dec_digits, dec_int, is_digit, text_as_i64, i64_to_string, lemma_dec_digits_val,
    lemma_dec_int_round_trip, parse_i64_text, u64_to_string,
};
use crate::codec::{json_to_string, ser_json, str_to_chars};
use crate::parse::{parse_json, parse_text};
use crate::parse::is_num_char;
use crate::roundtrip::{lemma_parse_ser, valid_num_text, wf_items, wf_json, wf_members};

verus! {

broadcast use vstd::string::group_string_axioms;

// ===== field access over JSON values =====

/// The member under `k` when `j` is an object.
pub open spec fn jv_lookup(j: JsonV, k: Seq<char>) -> Option<JsonV> {
    match j {
        JsonV::Obj(ms) => members_lookup(ms, k),
        _ => None,
    }
}

/// A required signed integer member.
pub open spec fn jv_i64(o: Option<JsonV>) -> Option<i64> {
    match o {
        Some(JsonV::Num(t)) => text_as_i64(t),
        _ => None,
    }
}

/// A required string member.
pub open spec fn jv_str(o: Option<JsonV>) -> Option<Seq<char>> {
    match o {
        Some(JsonV::Str(s)) => Some(s),
        _ => None,
    }
}

/// A required boolean member.
pub open spec fn jv_bool(o: Option<JsonV>) -> Option<bool> {
    match o {
        Some(JsonV::Bool(b)) => Some(b),
        _ => None,
    }
}

/// An optional string member: absent or null reads as nothing; any
/// non-string value is a type error.
pub open spec fn jv_opt_str(o: Option<JsonV>) -> Option<Option<Seq<char>>> {
    match o {
        None => Some(None),
        Some(JsonV::Null) => Some(None),
        Some(JsonV::Str(s)) => Some(Some(s)),
        Some(_) => None,
    }
}

/// Fetches a member as a signed integer.
pub fn field_i64(j: &Json, key: &str) -> (r: Option<i64>)
    ensures
        r == jv_i64(jv_lookup(json_view(*j), key@)),
{
    match j.get(key) {
        Some(Json::Num(t)) => {
            let chars = str_to_chars(t.as_str());
            parse_i64_text(&chars)
        },
        _ => None,
    }
}

/// Fetches a member as a string.
pub fn field_str(j: &Json, key: &str) -> (r: Option<String>)
    ensures
        match r {
            Some(s) => jv_str(jv_lookup(json_view(*j), key@)) == Some(s@),
            None => jv_str(jv_lookup(json_view(*j), key@)) is None,
        },
{
    match j.get(key) {
        Some(Json::Str(s)) => Some(s.clone()),
        _ => None,
    }
}

/// Fetches a member as a boolean.
pub fn field_bool(j: &Json, key: &str) -> (r: Option<bool>)
    ensures
        r == jv_bool(jv_lookup(json_view(*j), key@)),
{
    match j.get(key) {
        Some(Json::Bool(b)) => Some(*b),
        _ => None,
    }
}

/// Fetches an optional string member.
pub fn field_opt_str(j: &Json, key: &str) -> (r: Option<Option<String>>)
    ensures
        match r {
            Some(o) => jv_opt_str(jv_lookup(json_view(*j), key@)) == Some(o.deep_view()),
            None => jv_opt_str(jv_lookup(json_view(*j), key@)) is None,
        },
{
    match j.get(key) {
        None => Some(None),
        Some(Json::Null) => Some(None),
        Some(Json::Str(s)) => Some(Some(s.clone())),
        Some(_) => None,
    }
}

/// An optional boolean member: absent or null reads as nothing.
pub open spec fn jv_opt_bool(o: Option<JsonV>) -> Option<Option<bool>> {
    match o {
        None => Some(None),
        Some(JsonV::Null) => Some(None),
        Some(JsonV::Bool(b)) => Some(Some(b)),
        Some(_) => None,
    }
}

/// An optional integer member: absent or null reads as nothing; a
/// number that is no integer, or any other value, is a type error.
pub open spec fn jv_opt_i64(o: Option<JsonV>) -> Option<Option<i64>> {
    match o {
        None => Some(None),
        Some(JsonV::Null) => Some(None),
        Some(JsonV::Num(t)) => match text_as_i64(t) {
            Some(v) => Some(Some(v)),
            None => None,
        },
        Some(_) => None,
    }
}

/// An optional number member kept as its decimal text: absent or null
/// reads as nothing; any non-number value is a type error.
pub open spec fn jv_opt_numtext(o: Option<JsonV>) -> Option<Option<Seq<char>>> {
    match o {
        None => Some(None),
        Some(JsonV::Null) => Some(None),
        Some(JsonV::Num(t)) => Some(Some(t)),
        Some(_) => None,
    }
}

/// Fetches an optional boolean member.
pub fn field_opt_bool(j: &Json, key: &str) -> (r: Option<Option<bool>>)
    ensures
        r == jv_opt_bool(jv_lookup(json_view(*j), key@)),
{
    match j.get(key) {
        None => Some(None),
        Some(Json::Null) => Some(None),
        Some(Json::Bool(b)) => Some(Some(*b)),
        Some(_) => None,
    }
}

/// Fetches an optional integer member.
pub fn field_opt_i64(j: &Json, key: &str) -> (r: Option<Option<i64>>)
    ensures
        r == jv_opt_i64(jv_lookup(json_view(*j), key@)),
{
    match j.get(key) {
        None => Some(None),
        Some(Json::Null) => Some(None),
        Some(Json::Num(t)) => {
            let chars = str_to_chars(t.as_str());
            match parse_i64_text(&chars) {
                Some(v) => Some(Some(v)),
                None => None,
            }
        },
        Some(_) => None,
    }
}

/// Fetches an optional number member as its decimal text.
pub fn field_opt_numtext(j: &Json, key: &str) -> (r: Option<Option<String>>)
    ensures
        match r {
            Some(o) => jv_opt_numtext(jv_lookup(json_view(*j), key@)) == Some(o.deep_view()),
            None => jv_opt_numtext(jv_lookup(json_view(*j), key@)) is None,
        },
{
    match j.get(key) {
        None => Some(None),
        Some(Json::Null) => Some(None),
        Some(Json::Num(t)) => Some(Some(t.clone())),
        Some(_) => None,
    }
}

/// An optional integer field as a JSON node.
pub open spec fn opt_i64_json(o: Option<i64>) -> JsonV {
    match o {
        Some(v) => JsonV::Num(dec_int(v as int)),
        None => JsonV::Null,
    }
}

/// An optional number-text field as a JSON node.
pub open spec fn opt_numtext_json(o: Option<Seq<char>>) -> JsonV {
    match o {
        Some(t) => JsonV::Num(t),
        None => JsonV::Null,
    }
}

/// An optional boolean field as a JSON node.
pub open spec fn opt_bool_json(o: Option<bool>) -> JsonV {
    match o {
        Some(b) => JsonV::Bool(b),
        None => JsonV::Null,
    }
}

/// Builds the node for an optional integer field.
pub fn opt_i64_to_json(o: &Option<i64>) -> (r: Json)
    ensures
        json_view(r) == opt_i64_json(*o),
{
    match o {
        Some(v) => Json::Num(i64_to_string(*v)),
        None => Json::Null,
    }
}

/// Builds the node for an optional number-text field.
pub fn opt_numtext_to_json(o: &Option<String>) -> (r: Json)
    ensures
        json_view(r) == opt_numtext_json(o.deep_view()),
{
    match o {
        Some(t) => Json::Num(t.clone()),
        None => Json::Null,
    }
}

/// Builds the node for an optional boolean field.
pub fn opt_bool_to_json(o: &Option<bool>) -> (r: Json)
    ensures
        json_view(r) == opt_bool_json(*o),
{
    match o {
        Some(b) => Json::Bool(*b),
        None => Json::Null,
    }
}

// ===== the main settings document =====

/// A string field that may be absent, as a JSON value.
pub open spec fn opt_str_json(o: Option<Seq<char>>) -> JsonV {
    match o {
        Some(s) => JsonV::Str(s),
        None => JsonV::Null,
    }
}

/// The JSON document that stores a `BridgeConfig`: one flat object,
/// its keys in camel case.
pub open spec fn bridge_config_json(c: BridgeConfigV) -> JsonV {
    JsonV::Obj(seq![
        ("version"@, JsonV::Num(dec_int(c.version as int))),
        ("port"@, JsonV::Num(dec_digits(c.port as int))),
        ("host"@, JsonV::Str(c.host)),
        ("logLevel"@, JsonV::Str(c.log_level)),
        ("defaultProviderId"@, opt_str_json(c.default_provider_id)),
        ("defaultChatModelId"@, opt_str_json(c.default_chat_model_id)),
        ("defaultEmbeddingModelId"@, opt_str_json(c.default_embedding_model_id)),
        ("autoStart"@, JsonV::Bool(c.auto_start)),
        ("minimizeToTray"@, JsonV::Bool(c.minimize_to_tray))
    ])
}

/// Reads a `BridgeConfig` from a JSON value: every required member
/// must be present and well-typed; unknown members are ignored.
pub open spec fn bridge_config_of_json(j: JsonV) -> Option<BridgeConfigV> {
    let version = jv_i64(jv_lookup(j, "version"@));
    let port = jv_i64(jv_lookup(j, "port"@));
    let host = jv_str(jv_lookup(j, "host"@));
    let log_level = jv_str(jv_lookup(j, "logLevel"@));
    let dpi = jv_opt_str(jv_lookup(j, "defaultProviderId"@));
    let dcm = jv_opt_str(jv_lookup(j, "defaultChatModelId"@));
    let dem = jv_opt_str(jv_lookup(j, "defaultEmbeddingModelId"@));
    let auto_start = jv_bool(jv_lookup(j, "autoStart"@));
    let minimize = jv_bool(jv_lookup(j, "minimizeToTray"@));
    if j is Obj && version is Some && i32::MIN <= version->0 <= i32::MAX && port is Some && 0
        <= port->0 <= u16::MAX && host is Some && log_level is Some && dpi is Some && dcm is Some
        && dem is Some && auto_start is Some && minimize is Some {
        Some(
            BridgeConfigV {
                version: version->0 as i32,
                port: port->0 as u16,
                host: host->0,
                log_level: log_level->0,
                default_provider_id: dpi->0,
                default_chat_model_id: dcm->0,
                default_embedding_model_id: dem->0,
                auto_start: auto_start->0,
                minimize_to_tray: minimize->0,
            },
        )
    } else {
        None
    }
}

/// What reading a settings file with this text yields: the stored
/// document when it is well-formed, and the defaults otherwise.
pub open spec fn bridge_config_of_text(s: Seq<char>) -> BridgeConfigV {
    match parse_text(s) {
        Some(j) => match bridge_config_of_json(j) {
            Some(c) => c,
            None => default_bridge_config(),
        },
        None => default_bridge_config(),
    }
}

/// Builds the JSON document for `c`.
pub fn bridge_config_to_json(c: &BridgeConfig) -> (r: Json)
    ensures
        json_view(r) == bridge_config_json(c.deep_view()),
{
    let mut ms: Vec<(String, Json)> = Vec::new();
    ms.push(("version".to_owned(), Json::Num(i64_to_string(c.version as i64))));
    ms.push(("port".to_owned(), Json::Num(u64_to_string(c.port as u64))));
    ms.push(("host".to_owned(), Json::Str(c.host.clone())));
    ms.push(("logLevel".to_owned(), Json::Str(c.log_level.clone())));
    ms.push(("defaultProviderId".to_owned(), opt_str_to_json(&c.default_provider_id)));
    ms.push(("defaultChatModelId".to_owned(), opt_str_to_json(&c.default_chat_model_id)));
    ms.push(
        ("defaultEmbeddingModelId".to_owned(), opt_str_to_json(&c.default_embedding_model_id)),
    );
    ms.push(("autoStart".to_owned(), Json::Bool(c.auto_start)));
    ms.push(("minimizeToTray".to_owned(), Json::Bool(c.minimize_to_tray)));
    let r = Json::Obj(ms);
    proof {
        let target = bridge_config_json(c.deep_view());
        lemma_json_member_views_len(r->Obj_0@);
        assert(json_member_views(r->Obj_0@) =~= target->Obj_0);
        assert(json_view(r) == target);
    }
    r
}

/// An optional string field as a JSON node.
pub fn opt_str_to_json(o: &Option<String>) -> (r: Json)
    ensures
        json_view(r) == opt_str_json(o.deep_view()),
{
    match o {
        Some(s) => Json::Str(s.clone()),
        None => Json::Null,
    }
}

/// The exact text written for `c`: the pretty layout of its document.
pub fn write_bridge_config(c: &BridgeConfig) -> (r: String)
    ensures
        r@ == crate::codec::ser_json_pretty(bridge_config_json(c.deep_view()), 0),
{
    let j = bridge_config_to_json(c);
    crate::codec::json_to_string_pretty(&j)
}

/// Reads a settings document from file content; a missing file, or
/// any malformed or ill-typed text, yields the defaults, never a
/// failure.
pub fn read_bridge_config(content: Option<&str>) -> (r: BridgeConfig)
    ensures
        match content {
            None => r.deep_view() == default_bridge_config(),
            Some(s) => s@.len() <= 0x0fff_ffff_ffff_ffff ==> r.deep_view()
                == bridge_config_of_text(s@),
        },
{
    let text = match content {
        None => {
            return BridgeConfig::default();
        },
        Some(t) => t,
    };
    let j = match parse_json(text) {
        None => {
            return BridgeConfig::default();
        },
        Some(j) => j,
    };
    match bridge_config_of(&j) {
        Some(c) => c,
        None => BridgeConfig::default(),
    }
}

/// Reads a `BridgeConfig` from a parsed JSON value.
pub fn bridge_config_of(j: &Json) -> (r: Option<BridgeConfig>)
    ensures
        match r {
            Some(c) => bridge_config_of_json(json_view(*j)) == Some(c.deep_view()),
            None => bridge_config_of_json(json_view(*j)) is None,
        },
{
    match j {
        Json::Obj(_) => {},
        _ => {
            return None;
        },
    }
    let version = match field_i64(j, "version") {
        Some(v) => v,
        None => {
            return None;
        },
    };
    if version < i32::MIN as i64 || version > i32::MAX as i64 {
        return None;
    }
    let port = match field_i64(j, "port") {
        Some(v) => v,
        None => {
            return None;
        },
    };
    if port < 0 || port > u16::MAX as i64 {
        return None;
    }
    let host = match field_str(j, "host") {
        Some(v) => v,
        None => {
            return None;
        },
    };
    let log_level = match field_str(j, "logLevel") {
        Some(v) => v,
        None => {
            return None;
        },
    };
    let default_provider_id = match field_opt_str(j, "defaultProviderId") {
        Some(v) => v,
        None => {
            return None;
        },
    };
    let default_chat_model_id = match field_opt_str(j, "defaultChatModelId") {
        Some(v) => v,
        None => {
            return None;
        },
    };
    let default_embedding_model_id = match field_opt_str(j, "defaultEmbeddingModelId") {
        Some(v) => v,
        None => {
            return None;
        },
    };
    let auto_start = match field_bool(j, "autoStart") {
        Some(v) => v,
        None => {
            return None;
        },
    };
    let minimize_to_tray = match field_bool(j, "minimizeToTray") {
        Some(v) => v,
        None => {
            return None;
        },
    };
    Some(
        BridgeConfig {
            version: version as i32,
            port: port as u16,
            host,
            log_level,
            default_provider_id,
            default_chat_model_id,
            default_embedding_model_id,
            auto_start,
            minimize_to_tray,
        },
    )
}

// ===== the round trip =====

pub proof fn lemma_lookup_skip(ms: Seq<(Seq<char>, JsonV)>, k: Seq<char>)
    requires
        ms.len() > 0,
        ms[0].0 != k,
    ensures
        members_lookup(ms, k) == members_lookup(ms.skip(1), k),
{
}

pub proof fn lemma_lookup_hit(ms: Seq<(Seq<char>, JsonV)>, k: Seq<char>)
    requires
        ms.len() > 0,
        ms[0].0 == k,
    ensures
        members_lookup(ms, k) == Some(ms[0].1),
{
}

/// Each member of the stored settings document, looked up by its key.
#[verifier::rlimit(100)]
#[verifier::spinoff_prover]
proof fn lemma_bridge_lookups(c: BridgeConfigV)
    ensures
        jv_lookup(bridge_config_json(c), "version"@) == Some(JsonV::Num(dec_int(c.version as int))),
        jv_lookup(bridge_config_json(c), "port"@) == Some(JsonV::Num(dec_digits(c.port as int))),
        jv_lookup(bridge_config_json(c), "host"@) == Some(JsonV::Str(c.host)),
        jv_lookup(bridge_config_json(c), "logLevel"@) == Some(JsonV::Str(c.log_level)),
        jv_lookup(bridge_config_json(c), "defaultProviderId"@) == Some(
            opt_str_json(c.default_provider_id),
        ),
        jv_lookup(bridge_config_json(c), "defaultChatModelId"@) == Some(
            opt_str_json(c.default_chat_model_id),
        ),
        jv_lookup(bridge_config_json(c), "defaultEmbeddingModelId"@) == Some(
            opt_str_json(c.default_embedding_model_id),
        ),
        jv_lookup(bridge_config_json(c), "autoStart"@) == Some(JsonV::Bool(c.auto_start)),
        jv_lookup(bridge_config_json(c), "minimizeToTray"@) == Some(
            JsonV::Bool(c.minimize_to_tray),
        ),
{
    reveal_strlit("version");
    reveal_strlit("port");
    reveal_strlit("host");
    reveal_strlit("logLevel");
    reveal_strlit("defaultProviderId");
    reveal_strlit("defaultChatModelId");
    reveal_strlit("defaultEmbeddingModelId");
    reveal_strlit("autoStart");
    reveal_strlit("minimizeToTray");
    assert("version"@.len() == 7);
    assert("port"@.len() == 4);
    assert("host"@.len() == 4);
    assert("logLevel"@.len() == 8);
    assert("defaultProviderId"@.len() == 17);
    assert("defaultChatModelId"@.len() == 18);
    assert("defaultEmbeddingModelId"@.len() == 23);
    assert("autoStart"@.len() == 9);
    assert("minimizeToTray"@.len() == 14);
    assert("version"@[0] == 'v');
    assert("port"@[0] == 'p');
    assert("host"@[0] == 'h');
    assert("logLevel"@[0] == 'l');
    assert("defaultProviderId"@[0] == 'd');
    assert("defaultChatModelId"@[0] == 'd');
    assert("defaultEmbeddingModelId"@[0] == 'd');
    assert("autoStart"@[0] == 'a');
    assert("minimizeToTray"@[0] == 'm');
    let ms0 = bridge_config_json(c)->Obj_0;
    let ms1 = ms0.skip(1);
    let ms2 = ms1.skip(1);
    let ms3 = ms2.skip(1);
    let ms4 = ms3.skip(1);
    let ms5 = ms4.skip(1);
    let ms6 = ms5.skip(1);
    let ms7 = ms6.skip(1);
    let ms8 = ms7.skip(1);
    assert(ms1 =~= seq![("port"@, JsonV::Num(dec_digits(c.port as int))), ("host"@, JsonV::Str(c.host)), ("logLevel"@, JsonV::Str(c.log_level)), ("defaultProviderId"@, opt_str_json(c.default_provider_id)), ("defaultChatModelId"@, opt_str_json(c.default_chat_model_id)), ("defaultEmbeddingModelId"@, opt_str_json(c.default_embedding_model_id)), ("autoStart"@, JsonV::Bool(c.auto_start)), ("minimizeToTray"@, JsonV::Bool(c.minimize_to_tray))]);
    assert(ms2 =~= seq![("host"@, JsonV::Str(c.host)), ("logLevel"@, JsonV::Str(c.log_level)), ("defaultProviderId"@, opt_str_json(c.default_provider_id)), ("defaultChatModelId"@, opt_str_json(c.default_chat_model_id)), ("defaultEmbeddingModelId"@, opt_str_json(c.default_embedding_model_id)), ("autoStart"@, JsonV::Bool(c.auto_start)), ("minimizeToTray"@, JsonV::Bool(c.minimize_to_tray))]);
    assert(ms3 =~= seq![("logLevel"@, JsonV::Str(c.log_level)), ("defaultProviderId"@, opt_str_json(c.default_provider_id)), ("defaultChatModelId"@, opt_str_json(c.default_chat_model_id)), ("defaultEmbeddingModelId"@, opt_str_json(c.default_embedding_model_id)), ("autoStart"@, JsonV::Bool(c.auto_start)), ("minimizeToTray"@, JsonV::Bool(c.minimize_to_tray))]);
    assert(ms4 =~= seq![("defaultProviderId"@, opt_str_json(c.default_provider_id)), ("defaultChatModelId"@, opt_str_json(c.default_chat_model_id)), ("defaultEmbeddingModelId"@, opt_str_json(c.default_embedding_model_id)), ("autoStart"@, JsonV::Bool(c.auto_start)), ("minimizeToTray"@, JsonV::Bool(c.minimize_to_tray))]);
    assert(ms5 =~= seq![("defaultChatModelId"@, opt_str_json(c.default_chat_model_id)), ("defaultEmbeddingModelId"@, opt_str_json(c.default_embedding_model_id)), ("autoStart"@, JsonV::Bool(c.auto_start)), ("minimizeToTray"@, JsonV::Bool(c.minimize_to_tray))]);
    assert(ms6 =~= seq![("defaultEmbeddingModelId"@, opt_str_json(c.default_embedding_model_id)), ("autoStart"@, JsonV::Bool(c.auto_start)), ("minimizeToTray"@, JsonV::Bool(c.minimize_to_tray))]);
    assert(ms7 =~= seq![("autoStart"@, JsonV::Bool(c.auto_start)), ("minimizeToTray"@, JsonV::Bool(c.minimize_to_tray))]);
    assert(ms8 =~= seq![("minimizeToTray"@, JsonV::Bool(c.minimize_to_tray))]);
    assert(ms0[0].0 == "version"@);
    lemma_lookup_hit(ms0, "version"@);
    assert(members_lookup(ms0, "version"@) == Some(JsonV::Num(dec_int(c.version as int))));
    assert(ms0[0].0 != "port"@);
    lemma_lookup_skip(ms0, "port"@);
    assert(ms1[0].0 == "port"@);
    lemma_lookup_hit(ms1, "port"@);
    assert(members_lookup(ms0, "port"@) == Some(JsonV::Num(dec_digits(c.port as int))));
    assert(ms0[0].0 != "host"@);
    lemma_lookup_skip(ms0, "host"@);
    assert(ms1[0].0 != "host"@);
    lemma_lookup_skip(ms1, "host"@);
    assert(ms2[0].0 == "host"@);
    lemma_lookup_hit(ms2, "host"@);
    assert(members_lookup(ms0, "host"@) == Some(JsonV::Str(c.host)));
    assert(ms0[0].0 != "logLevel"@);
    lemma_lookup_skip(ms0, "logLevel"@);
    assert(ms1[0].0 != "logLevel"@);
    lemma_lookup_skip(ms1, "logLevel"@);
    assert(ms2[0].0 != "logLevel"@);
    lemma_lookup_skip(ms2, "logLevel"@);
    assert(ms3[0].0 == "logLevel"@);
    lemma_lookup_hit(ms3, "logLevel"@);
    assert(members_lookup(ms0, "logLevel"@) == Some(JsonV::Str(c.log_level)));
    assert(ms0[0].0 != "defaultProviderId"@);
    lemma_lookup_skip(ms0, "defaultProviderId"@);
    assert(ms1[0].0 != "defaultProviderId"@);
    lemma_lookup_skip(ms1, "defaultProviderId"@);
    assert(ms2[0].0 != "defaultProviderId"@);
    lemma_lookup_skip(ms2, "defaultProviderId"@);
    assert(ms3[0].0 != "defaultProviderId"@);
    lemma_lookup_skip(ms3, "defaultProviderId"@);
    assert(ms4[0].0 == "defaultProviderId"@);
    lemma_lookup_hit(ms4, "defaultProviderId"@);
    assert(members_lookup(ms0, "defaultProviderId"@) == Some(opt_str_json(c.default_provider_id)));
    assert(ms0[0].0 != "defaultChatModelId"@);
    lemma_lookup_skip(ms0, "defaultChatModelId"@);
    assert(ms1[0].0 != "defaultChatModelId"@);
    lemma_lookup_skip(ms1, "defaultChatModelId"@);
    assert(ms2[0].0 != "defaultChatModelId"@);
    lemma_lookup_skip(ms2, "defaultChatModelId"@);
    assert(ms3[0].0 != "defaultChatModelId"@);
    lemma_lookup_skip(ms3, "defaultChatModelId"@);
    assert(ms4[0].0 != "defaultChatModelId"@);
    lemma_lookup_skip(ms4, "defaultChatModelId"@);
    assert(ms5[0].0 == "defaultChatModelId"@);
    lemma_lookup_hit(ms5, "defaultChatModelId"@);
    assert(members_lookup(ms0, "defaultChatModelId"@) == Some(opt_str_json(c.default_chat_model_id)));
    assert(ms0[0].0 != "defaultEmbeddingModelId"@);
    lemma_lookup_skip(ms0, "defaultEmbeddingModelId"@);
    assert(ms1[0].0 != "defaultEmbeddingModelId"@);
    lemma_lookup_skip(ms1, "defaultEmbeddingModelId"@);
    assert(ms2[0].0 != "defaultEmbeddingModelId"@);
    lemma_lookup_skip(ms2, "defaultEmbeddingModelId"@);
    assert(ms3[0].0 != "defaultEmbeddingModelId"@);
    lemma_lookup_skip(ms3, "defaultEmbeddingModelId"@);
    assert(ms4[0].0 != "defaultEmbeddingModelId"@);
    lemma_lookup_skip(ms4, "defaultEmbeddingModelId"@);
    assert(ms5[0].0 != "defaultEmbeddingModelId"@);
    lemma_lookup_skip(ms5, "defaultEmbeddingModelId"@);
    assert(ms6[0].0 == "defaultEmbeddingModelId"@);
    lemma_lookup_hit(ms6, "defaultEmbeddingModelId"@);
    assert(members_lookup(ms0, "defaultEmbeddingModelId"@) == Some(opt_str_json(c.default_embedding_model_id)));
    assert(ms0[0].0 != "autoStart"@);
    lemma_lookup_skip(ms0, "autoStart"@);
    assert(ms1[0].0 != "autoStart"@);
    lemma_lookup_skip(ms1, "autoStart"@);
    assert(ms2[0].0 != "autoStart"@);
    lemma_lookup_skip(ms2, "autoStart"@);
    assert(ms3[0].0 != "autoStart"@);
    lemma_lookup_skip(ms3, "autoStart"@);
    assert(ms4[0].0 != "autoStart"@);
    lemma_lookup_skip(ms4, "autoStart"@);
    assert(ms5[0].0 != "autoStart"@);
    lemma_lookup_skip(ms5, "autoStart"@);
    assert(ms6[0].0 != "autoStart"@);
    lemma_lookup_skip(ms6, "autoStart"@);
    assert(ms7[0].0 == "autoStart"@);
    lemma_lookup_hit(ms7, "autoStart"@);
    assert(members_lookup(ms0, "autoStart"@) == Some(JsonV::Bool(c.auto_start)));
    assert(ms0[0].0 != "minimizeToTray"@);
    lemma_lookup_skip(ms0, "minimizeToTray"@);
    assert(ms1[0].0 != "minimizeToTray"@);
    lemma_lookup_skip(ms1, "minimizeToTray"@);
    assert(ms2[0].0 != "minimizeToTray"@);
    lemma_lookup_skip(ms2, "minimizeToTray"@);
    assert(ms3[0].0 != "minimizeToTray"@);
    lemma_lookup_skip(ms3, "minimizeToTray"@);
    assert(ms4[0].0 != "minimizeToTray"@);
    lemma_lookup_skip(ms4, "minimizeToTray"@);
    assert(ms5[0].0 != "minimizeToTray"@);
    lemma_lookup_skip(ms5, "minimizeToTray"@);
    assert(ms6[0].0 != "minimizeToTray"@);
    lemma_lookup_skip(ms6, "minimizeToTray"@);
    assert(ms7[0].0 != "minimizeToTray"@);
    lemma_lookup_skip(ms7, "minimizeToTray"@);
    assert(ms8[0].0 == "minimizeToTray"@);
    lemma_lookup_hit(ms8, "minimizeToTray"@);
    assert(members_lookup(ms0, "minimizeToTray"@) == Some(JsonV::Bool(c.minimize_to_tray)));
}

/// One more member in front of a well-formed member list keeps it
/// well-formed when its value is.
pub proof fn lemma_wf_members_cons(ms: Seq<(Seq<char>, JsonV)>)
    requires
        ms.len() > 0,
        wf_json(ms[0].1),
        wf_members(ms.skip(1)),
    ensures
        wf_members(ms),
{
}

/// The stored settings document is well-formed: its number tokens are
/// the writer's own.
#[verifier::rlimit(100)]
#[verifier::spinoff_prover]
pub proof fn lemma_bridge_json_wf(c: BridgeConfigV)
    ensures
        wf_json(bridge_config_json(c)),
{
    lemma_dec_int_round_trip(c.version as int);
    lemma_dec_digits_val(c.port as int);
    let ms0 = bridge_config_json(c)->Obj_0;
    let ms1 = ms0.skip(1);
    let ms2 = ms1.skip(1);
    let ms3 = ms2.skip(1);
    let ms4 = ms3.skip(1);
    let ms5 = ms4.skip(1);
    let ms6 = ms5.skip(1);
    let ms7 = ms6.skip(1);
    let ms8 = ms7.skip(1);
    assert(ms1 =~= seq![("port"@, JsonV::Num(dec_digits(c.port as int))), ("host"@, JsonV::Str(c.host)), ("logLevel"@, JsonV::Str(c.log_level)), ("defaultProviderId"@, opt_str_json(c.default_provider_id)), ("defaultChatModelId"@, opt_str_json(c.default_chat_model_id)), ("defaultEmbeddingModelId"@, opt_str_json(c.default_embedding_model_id)), ("autoStart"@, JsonV::Bool(c.auto_start)), ("minimizeToTray"@, JsonV::Bool(c.minimize_to_tray))]);
    assert(ms2 =~= seq![("host"@, JsonV::Str(c.host)), ("logLevel"@, JsonV::Str(c.log_level)), ("defaultProviderId"@, opt_str_json(c.default_provider_id)), ("defaultChatModelId"@, opt_str_json(c.default_chat_model_id)), ("defaultEmbeddingModelId"@, opt_str_json(c.default_embedding_model_id)), ("autoStart"@, JsonV::Bool(c.auto_start)), ("minimizeToTray"@, JsonV::Bool(c.minimize_to_tray))]);
    assert(ms3 =~= seq![("logLevel"@, JsonV::Str(c.log_level)), ("defaultProviderId"@, opt_str_json(c.default_provider_id)), ("defaultChatModelId"@, opt_str_json(c.default_chat_model_id)), ("defaultEmbeddingModelId"@, opt_str_json(c.default_embedding_model_id)), ("autoStart"@, JsonV::Bool(c.auto_start)), ("minimizeToTray"@, JsonV::Bool(c.minimize_to_tray))]);
    assert(ms4 =~= seq![("defaultProviderId"@, opt_str_json(c.default_provider_id)), ("defaultChatModelId"@, opt_str_json(c.default_chat_model_id)), ("defaultEmbeddingModelId"@, opt_str_json(c.default_embedding_model_id)), ("autoStart"@, JsonV::Bool(c.auto_start)), ("minimizeToTray"@, JsonV::Bool(c.minimize_to_tray))]);
    assert(ms5 =~= seq![("defaultChatModelId"@, opt_str_json(c.default_chat_model_id)), ("defaultEmbeddingModelId"@, opt_str_json(c.default_embedding_model_id)), ("autoStart"@, JsonV::Bool(c.auto_start)), ("minimizeToTray"@, JsonV::Bool(c.minimize_to_tray))]);
    assert(ms6 =~= seq![("defaultEmbeddingModelId"@, opt_str_json(c.default_embedding_model_id)), ("autoStart"@, JsonV::Bool(c.auto_start)), ("minimizeToTray"@, JsonV::Bool(c.minimize_to_tray))]);
    assert(ms7 =~= seq![("autoStart"@, JsonV::Bool(c.auto_start)), ("minimizeToTray"@, JsonV::Bool(c.minimize_to_tray))]);
    assert(ms8 =~= seq![("minimizeToTray"@, JsonV::Bool(c.minimize_to_tray))]);
    assert(valid_num_text(dec_int(c.version as int))) by {
        assert(forall|i: int|
            0 <= i < dec_int(c.version as int).len() ==> crate::numtext::is_dec_int_char(
                dec_int(c.version as int)[i],
            ) ==> is_num_char(dec_int(c.version as int)[i]));
    }
    assert(valid_num_text(dec_digits(c.port as int)));
    assert(ms8.skip(1) =~= Seq::<(Seq<char>, JsonV)>::empty());
    assert(wf_members(ms8.skip(1)));
    lemma_wf_members_cons(ms8);
    lemma_wf_members_cons(ms7);
    lemma_wf_members_cons(ms6);
    assert(wf_json(ms5[0].1)) by {
        match c.default_embedding_model_id {
            Some(_) => {},
            None => {},
        }
    }
    lemma_wf_members_cons(ms5);
    assert(wf_json(ms4[0].1)) by {
        match c.default_chat_model_id {
            Some(_) => {},
            None => {},
        }
    }
    lemma_wf_members_cons(ms4);
    assert(wf_json(ms3[0].1)) by {
        match c.default_provider_id {
            Some(_) => {},
            None => {},
        }
    }
    lemma_wf_members_cons(ms3);
    lemma_wf_members_cons(ms2);
    lemma_wf_members_cons(ms1);
    lemma_wf_members_cons(ms0);
    assert(wf_json(bridge_config_json(c)));
}

/// Writing a settings document and reading the text back yields the
/// document unchanged.
#[verifier::rlimit(100)]
#[verifier::spinoff_prover]
pub proof fn lemma_bridge_config_round_trip(c: BridgeConfigV)
    ensures
        bridge_config_of_text(crate::codec::ser_json_pretty(bridge_config_json(c), 0)) == c,
{
    lemma_bridge_json_wf(c);
    crate::roundtrip::lemma_parse_ser_pretty(bridge_config_json(c));
    lemma_bridge_lookups(c);
    lemma_dec_int_round_trip(c.version as int);
    lemma_dec_digits_val(c.port as int);
    let t = dec_digits(c.port as int);
    assert(text_as_i64(t) == Some(c.port as i64)) by {
        assert(t[0] != '-');
        assert(crate::numtext::dec_val(t) == c.port as int);
    }
    assert(bridge_config_of_json(bridge_config_json(c)) == Some(c)) by {
        match c.default_provider_id {
            Some(_) => {},
            None => {},
        }
    }
}

} // verus!

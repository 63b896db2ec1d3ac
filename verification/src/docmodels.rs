use vstd::prelude::*;

use crate::config::{ModelConfig, ModelConfigV, ModelsConfig, ModelsConfigV};
use crate::docjson::{
    field_bool, field_i64, field_opt_bool, field_opt_i64, field_opt_numtext, field_opt_str,
    field_str, jv_bool, jv_i64, jv_lookup, jv_opt_bool, jv_opt_i64, jv_opt_numtext, jv_opt_str,
    jv_str, opt_bool_json, opt_bool_to_json, opt_numtext_json, opt_numtext_to_json,
};
use crate::json::{json_member_views, json_view, json_views, Json, JsonV};
use crate::json::{lemma_json_member_views_len, lemma_json_views_len, members_lookup};
use crate::numtext::{dec_int, i64_to_string};
use crate::codec::{json_to_string, ser_json};
use crate::parse::{parse_json, parse_text};

verus! {

/// An optional integer member that must fit an `i32`.
pub open spec fn jv_opt_i32(o: Option<JsonV>) -> Option<Option<i32>> {
    match jv_opt_i64(o) {
        Some(Some(v)) => if i32::MIN <= v <= i32::MAX {
            Some(Some(v as i32))
        } else {
            None
        },
        Some(None) => Some(None),
        None => None,
    }
}

/// Fetches an optional member that must fit an `i32`.
pub fn field_opt_i32(j: &Json, key: &str) -> (r: Option<Option<i32>>)
    ensures
        r == jv_opt_i32(jv_lookup(json_view(*j), key@)),
{
    match field_opt_i64(j, key) {
        Some(Some(v)) => {
            if i32::MIN as i64 <= v && v <= i32::MAX as i64 {
                Some(Some(v as i32))
            } else {
                None
            }
        },
        Some(None) => Some(None),
        None => None,
    }
}

/// An optional `i32` field as a JSON node.
pub open spec fn opt_i32_json(o: Option<i32>) -> JsonV {
    match o {
        Some(v) => JsonV::Num(dec_int(v as int)),
        None => JsonV::Null,
    }
}

/// Builds the node for an optional `i32` field.
pub fn opt_i32_to_json(o: &Option<i32>) -> (r: Json)
    ensures
        json_view(r) == opt_i32_json(*o),
{
    match o {
        Some(v) => Json::Num(i64_to_string(*v as i64)),
        None => Json::Null,
    }
}

/// The JSON object that stores one model entry.
pub open spec fn model_json(v: ModelConfigV) -> JsonV {
    JsonV::Obj(seq![
        ("id"@, JsonV::Str(v.id)),
        ("providerId"@, JsonV::Str(v.provider_id)),
        ("name"@, JsonV::Str(v.name)),
        ("displayName"@, JsonV::Str(v.display_name)),
        ("enabled"@, JsonV::Bool(v.enabled)),
        ("isDefault"@, JsonV::Bool(v.is_default)),
        ("maxTokens"@, opt_i32_json(v.max_tokens)),
        ("temperature"@, opt_numtext_json(v.temperature)),
        ("topP"@, opt_numtext_json(v.top_p)),
        ("frequencyPenalty"@, opt_numtext_json(v.frequency_penalty)),
        ("presencePenalty"@, opt_numtext_json(v.presence_penalty)),
        ("supportsVision"@, opt_bool_json(v.supports_vision)),
        ("supportsTools"@, opt_bool_json(v.supports_tools)),
        ("supportsStreaming"@, opt_bool_json(v.supports_streaming)),
        ("contextWindow"@, opt_i32_json(v.context_window)),
    ])
}

/// Reads one model entry from a JSON value.
pub open spec fn model_of_json(j: JsonV) -> Option<ModelConfigV> {
    let id = jv_str(jv_lookup(j, "id"@));
    let provider_id = jv_str(jv_lookup(j, "providerId"@));
    let name = jv_str(jv_lookup(j, "name"@));
    let display_name = jv_str(jv_lookup(j, "displayName"@));
    let enabled = jv_bool(jv_lookup(j, "enabled"@));
    let is_default = jv_bool(jv_lookup(j, "isDefault"@));
    let max_tokens = jv_opt_i32(jv_lookup(j, "maxTokens"@));
    let temperature = jv_opt_numtext(jv_lookup(j, "temperature"@));
    let top_p = jv_opt_numtext(jv_lookup(j, "topP"@));
    let frequency_penalty = jv_opt_numtext(jv_lookup(j, "frequencyPenalty"@));
    let presence_penalty = jv_opt_numtext(jv_lookup(j, "presencePenalty"@));
    let supports_vision = jv_opt_bool(jv_lookup(j, "supportsVision"@));
    let supports_tools = jv_opt_bool(jv_lookup(j, "supportsTools"@));
    let supports_streaming = jv_opt_bool(jv_lookup(j, "supportsStreaming"@));
    let context_window = jv_opt_i32(jv_lookup(j, "contextWindow"@));
    if j is Obj && id is Some && provider_id is Some && name is Some && display_name is Some
        && enabled is Some && is_default is Some && max_tokens is Some && temperature is Some
        && top_p is Some && frequency_penalty is Some && presence_penalty is Some
        && supports_vision is Some && supports_tools is Some && supports_streaming is Some
        && context_window is Some {
        Some(
            ModelConfigV {
                id: id->0,
                provider_id: provider_id->0,
                name: name->0,
                display_name: display_name->0,
                enabled: enabled->0,
                is_default: is_default->0,
                max_tokens: max_tokens->0,
                temperature: temperature->0,
                top_p: top_p->0,
                frequency_penalty: frequency_penalty->0,
                presence_penalty: presence_penalty->0,
                supports_vision: supports_vision->0,
                supports_tools: supports_tools->0,
                supports_streaming: supports_streaming->0,
                context_window: context_window->0,
            },
        )
    } else {
        None
    }
}

/// Builds the JSON object for one model entry.
pub fn model_to_json(v: &ModelConfig) -> (r: Json)
    ensures
        json_view(r) == model_json(v.deep_view()),
{
    let mut ms: Vec<(String, Json)> = Vec::new();
    ms.push(("id".to_owned(), Json::Str(v.id.clone())));
    ms.push(("providerId".to_owned(), Json::Str(v.provider_id.clone())));
    ms.push(("name".to_owned(), Json::Str(v.name.clone())));
    ms.push(("displayName".to_owned(), Json::Str(v.display_name.clone())));
    ms.push(("enabled".to_owned(), Json::Bool(v.enabled)));
    ms.push(("isDefault".to_owned(), Json::Bool(v.is_default)));
    ms.push(("maxTokens".to_owned(), opt_i32_to_json(&v.max_tokens)));
    ms.push(("temperature".to_owned(), opt_numtext_to_json(&v.temperature)));
    ms.push(("topP".to_owned(), opt_numtext_to_json(&v.top_p)));
    ms.push(("frequencyPenalty".to_owned(), opt_numtext_to_json(&v.frequency_penalty)));
    ms.push(("presencePenalty".to_owned(), opt_numtext_to_json(&v.presence_penalty)));
    ms.push(("supportsVision".to_owned(), opt_bool_to_json(&v.supports_vision)));
    ms.push(("supportsTools".to_owned(), opt_bool_to_json(&v.supports_tools)));
    ms.push(("supportsStreaming".to_owned(), opt_bool_to_json(&v.supports_streaming)));
    ms.push(("contextWindow".to_owned(), opt_i32_to_json(&v.context_window)));
    let r = Json::Obj(ms);
    proof {
        let target = model_json(v.deep_view());
        lemma_json_member_views_len(r->Obj_0@);
        assert(json_member_views(r->Obj_0@) =~= target->Obj_0);
        assert(json_view(r) == target);
    }
    r
}

/// Reads one model entry from a parsed JSON value.
pub fn model_of(j: &Json) -> (r: Option<ModelConfig>)
    ensures
        match r {
            Some(v) => model_of_json(json_view(*j)) == Some(v.deep_view()),
            None => model_of_json(json_view(*j)) is None,
        },
{
    match j {
        Json::Obj(_) => {},
        _ => {
            return None;
        },
    }
    let id = match field_str(j, "id") {
        Some(v) => v,
        None => {
            return None;
        },
    };
    let provider_id = match field_str(j, "providerId") {
        Some(v) => v,
        None => {
            return None;
        },
    };
    let name = match field_str(j, "name") {
        Some(v) => v,
        None => {
            return None;
        },
    };
    let display_name = match field_str(j, "displayName") {
        Some(v) => v,
        None => {
            return None;
        },
    };
    let enabled = match field_bool(j, "enabled") {
        Some(v) => v,
        None => {
            return None;
        },
    };
    let is_default = match field_bool(j, "isDefault") {
        Some(v) => v,
        None => {
            return None;
        },
    };
    let max_tokens = match field_opt_i32(j, "maxTokens") {
        Some(v) => v,
        None => {
            return None;
        },
    };
    let temperature = match field_opt_numtext(j, "temperature") {
        Some(v) => v,
        None => {
            return None;
        },
    };
    let top_p = match field_opt_numtext(j, "topP") {
        Some(v) => v,
        None => {
            return None;
        },
    };
    let frequency_penalty = match field_opt_numtext(j, "frequencyPenalty") {
        Some(v) => v,
        None => {
            return None;
        },
    };
    let presence_penalty = match field_opt_numtext(j, "presencePenalty") {
        Some(v) => v,
        None => {
            return None;
        },
    };
    let supports_vision = match field_opt_bool(j, "supportsVision") {
        Some(v) => v,
        None => {
            return None;
        },
    };
    let supports_tools = match field_opt_bool(j, "supportsTools") {
        Some(v) => v,
        None => {
            return None;
        },
    };
    let supports_streaming = match field_opt_bool(j, "supportsStreaming") {
        Some(v) => v,
        None => {
            return None;
        },
    };
    let context_window = match field_opt_i32(j, "contextWindow") {
        Some(v) => v,
        None => {
            return None;
        },
    };
    Some(
        ModelConfig {
            id,
            provider_id,
            name,
            display_name,
            enabled,
            is_default,
            max_tokens,
            temperature,
            top_p,
            frequency_penalty,
            presence_penalty,
            supports_vision,
            supports_tools,
            supports_streaming,
            context_window,
        },
    )
}

/// The JSON nodes for a list of model entries.
pub open spec fn models_list_json(l: Seq<ModelConfigV>) -> Seq<JsonV>
    decreases l.len(),
{
    if l.len() == 0 {
        Seq::empty()
    } else {
        seq![model_json(l[0])] + models_list_json(l.skip(1))
    }
}

/// Reads a list of model entries; one bad entry fails the whole list.
pub open spec fn models_list_of_json(l: Seq<JsonV>) -> Option<Seq<ModelConfigV>>
    decreases l.len(),
{
    if l.len() == 0 {
        Some(Seq::empty())
    } else {
        match model_of_json(l[0]) {
            Some(v) => match models_list_of_json(l.skip(1)) {
                Some(rest) => Some(seq![v] + rest),
                None => None,
            },
            None => None,
        }
    }
}

/// The JSON document that stores the model collection.
pub open spec fn models_json(c: ModelsConfigV) -> JsonV {
    JsonV::Obj(seq![
        ("version"@, JsonV::Num(dec_int(c.version as int))),
        ("models"@, JsonV::Arr(models_list_json(c.models))),
    ])
}

/// Reads the whole model collection document.
pub open spec fn models_of_json(j: JsonV) -> Option<ModelsConfigV> {
    let version = jv_i64(jv_lookup(j, "version"@));
    let models = match jv_lookup(j, "models"@) {
        Some(JsonV::Arr(l)) => models_list_of_json(l),
        _ => None,
    };
    if j is Obj && version is Some && i32::MIN <= version->0 <= i32::MAX && models is Some {
        Some(ModelsConfigV { version: version->0 as i32, models: models->0 })
    } else {
        None
    }
}

/// What reading a model collection file with this text yields.
pub open spec fn models_of_text(s: Seq<char>) -> ModelsConfigV {
    match parse_text(s) {
        Some(j) => match models_of_json(j) {
            Some(c) => c,
            None => ModelsConfigV { version: 1, models: Seq::empty() },
        },
        None => ModelsConfigV { version: 1, models: Seq::empty() },
    }
}

/// Builds the JSON document for the collection.
pub fn models_to_json(c: &ModelsConfig) -> (r: Json)
    ensures
        json_view(r) == models_json(c.deep_view()),
{
    let mut list: Vec<Json> = Vec::new();
    let n = c.models.len();
    let mut i: usize = 0;
    while i < n
        invariant
            n == c.models@.len(),
            0 <= i <= n,
            json_views(list@) =~= models_list_json(c.models.deep_view().take(i as int)),
            list@.len() == i,
        decreases n - i,
    {
        proof {
            lemma_json_views_len(list@);
        }
        let node = model_to_json(&c.models[i]);
        list.push(node);
        proof {
            lemma_json_views_len(list@);
            lemma_models_list_take_step(c.models.deep_view(), i as int);
            assert(json_views(list@) =~= models_list_json(
                c.models.deep_view().take(i as int + 1),
            ));
        }
        i += 1;
    }
    proof {
        assert(c.models.deep_view().take(n as int) =~= c.models.deep_view());
    }
    let mut ms: Vec<(String, Json)> = Vec::new();
    ms.push(("version".to_owned(), Json::Num(i64_to_string(c.version as i64))));
    ms.push(("models".to_owned(), Json::Arr(list)));
    let r = Json::Obj(ms);
    proof {
        let target = models_json(c.deep_view());
        lemma_json_member_views_len(r->Obj_0@);
        assert(json_member_views(r->Obj_0@) =~= target->Obj_0);
        assert(json_view(r) == target);
    }
    r
}

proof fn lemma_models_list_take_step(l: Seq<ModelConfigV>, i: int)
    requires
        0 <= i < l.len(),
    ensures
        models_list_json(l.take(i + 1)) == models_list_json(l.take(i)).push(model_json(l[i])),
    decreases i,
{
    if i == 0 {
        assert(models_list_json(Seq::<ModelConfigV>::empty()) == Seq::<JsonV>::empty());
        assert(l.take(1)[0] == l[0]);
        assert(l.take(1).skip(1) =~= Seq::<ModelConfigV>::empty());
        assert(models_list_json(l.take(1)) =~= seq![model_json(l[0])]);
        assert(l.take(0) =~= Seq::<ModelConfigV>::empty());
        assert(models_list_json(l.take(0)).push(model_json(l[0])) =~= seq![model_json(l[0])]);
    } else {
        lemma_models_list_take_step(l.skip(1), i - 1);
        assert(l.take(i + 1)[0] == l[0]);
        assert(l.take(i + 1).skip(1) =~= l.skip(1).take(i));
        assert(l.take(i)[0] == l[0]);
        assert(l.take(i).skip(1) =~= l.skip(1).take(i - 1));
        assert(l.skip(1)[i - 1] == l[i]);
        assert(models_list_json(l.take(i + 1)) == seq![model_json(l[0])] + models_list_json(
            l.skip(1).take(i),
        ));
        assert(models_list_json(l.take(i)) == seq![model_json(l[0])] + models_list_json(
            l.skip(1).take(i - 1),
        ));
        assert(seq![model_json(l[0])] + models_list_json(l.skip(1).take(i - 1)).push(
            model_json(l[i]),
        ) =~= (seq![model_json(l[0])] + models_list_json(l.skip(1).take(i - 1))).push(
            model_json(l[i]),
        ));
    }
}

/// The exact text written for the collection: the pretty layout of
/// its document.
pub fn write_models(c: &ModelsConfig) -> (r: String)
    ensures
        r@ == crate::codec::ser_json_pretty(models_json(c.deep_view()), 0),
{
    let j = models_to_json(c);
    crate::codec::json_to_string_pretty(&j)
}

/// Reads the model collection from file content; a missing file, or
/// any malformed or ill-typed text, yields the empty collection at
/// schema version 1, never a failure.
pub fn read_models(content: Option<&str>) -> (r: ModelsConfig)
    ensures
        match content {
            None => r.version == 1 && r.models@.len() == 0,
            Some(s) => s@.len() <= 0x0fff_ffff_ffff_ffff ==> r.deep_view() == models_of_text(s@),
        },
{
    let text = match content {
        None => {
            return ModelsConfig::default();
        },
        Some(t) => t,
    };
    let j = match parse_json(text) {
        None => {
            let d = ModelsConfig::default();
            proof {
                if text@.len() <= 0x0fff_ffff_ffff_ffff {
                    assert(models_of_text(text@) =~= d.deep_view());
                }
            }
            return d;
        },
        Some(j) => j,
    };
    match models_of(&j) {
        Some(c) => c,
        None => {
            let d = ModelsConfig::default();
            proof {
                if text@.len() <= 0x0fff_ffff_ffff_ffff {
                    assert(models_of_text(text@) =~= d.deep_view());
                }
            }
            d
        },
    }
}

/// Reads the collection from a parsed JSON value.
pub fn models_of(j: &Json) -> (r: Option<ModelsConfig>)
    ensures
        match r {
            Some(c) => models_of_json(json_view(*j)) == Some(c.deep_view()),
            None => models_of_json(json_view(*j)) is None,
        },
{
    match j {
        Json::Obj(_) => {},
        _ => {
            return None;
        },
    }
    let version = match field_i64(j, "version") {
        Some(v) => v,
        None => {
            return None;
        },
    };
    if version < i32::MIN as i64 || version > i32::MAX as i64 {
        return None;
    }
    let arr = match j.get("models") {
        Some(Json::Arr(l)) => l,
        _ => {
            return None;
        },
    };
    proof {
        lemma_json_views_len(arr@);
    }
    let mut models: Vec<ModelConfig> = Vec::new();
    proof {
        assert(json_views(arr@).skip(0) =~= json_views(arr@));
        assert(models.deep_view() =~= Seq::<ModelConfigV>::empty());
        match models_list_of_json(json_views(arr@)) {
            Some(r0) => {
                assert(models.deep_view() + r0 =~= r0);
            },
            None => {},
        }
    }
    let n = arr.len();
    let mut i: usize = 0;
    while i < n
        invariant
            n == arr@.len(),
            0 <= i <= n,
            json_views(arr@).len() == n,
            forall|t: int| 0 <= t < n ==> json_views(arr@)[t] == json_view(arr@[t]),
            models_list_of_json(json_views(arr@)) == (match models_list_of_json(
                json_views(arr@).skip(i as int),
            ) {
                Some(rest) => Some(models.deep_view() + rest),
                None => None::<Seq<ModelConfigV>>,
            }),
            models@.len() == i,
            jv_lookup(json_view(*j), "models"@) == Some(JsonV::Arr(json_views(arr@))),
        decreases n - i,
    {
        proof {
            assert(json_views(arr@).skip(i as int)[0] == json_views(arr@)[i as int]);
            assert(json_views(arr@).skip(i as int).skip(1) =~= json_views(arr@).skip(i as int + 1));
        }
        match model_of(&arr[i]) {
            Some(v) => {
                models.push(v);
                proof {
                    lemma_models_prepend(
                        models.deep_view(),
                        models_list_of_json(json_views(arr@).skip(i as int + 1)),
                    );
                }
            },
            None => {
                proof {
                    assert(models_list_of_json(json_views(arr@).skip(i as int)) is None);
                }
                return None;
            },
        }
        i += 1;
    }
    proof {
        assert(json_views(arr@).skip(n as int) =~= Seq::<JsonV>::empty());
        assert(models.deep_view() + Seq::<ModelConfigV>::empty() =~= models.deep_view());
    }
    Some(ModelsConfig { version: version as i32, models })
}

proof fn lemma_models_prepend(acc_new: Seq<ModelConfigV>, rest: Option<Seq<ModelConfigV>>)
    requires
        acc_new.len() > 0,
    ensures
        match rest {
            Some(r) => acc_new.drop_last() + (seq![acc_new.last()] + r) =~= acc_new + r,
            None => true,
        },
{
}


/// The number tokens a model entry carries are ones this writer may
/// emit: its fractional parameters hold valid decimal text.
pub open spec fn wf_model_numbers(v: ModelConfigV) -> bool {
    &&& (match v.temperature {
        Some(t) => crate::roundtrip::valid_num_text(t),
        None => true,
    })
    &&& (match v.top_p {
        Some(t) => crate::roundtrip::valid_num_text(t),
        None => true,
    })
    &&& (match v.frequency_penalty {
        Some(t) => crate::roundtrip::valid_num_text(t),
        None => true,
    })
    &&& (match v.presence_penalty {
        Some(t) => crate::roundtrip::valid_num_text(t),
        None => true,
    })
}

/// Each member of the stored object, looked up by its key.
#[verifier::rlimit(100)]
#[verifier::spinoff_prover]
proof fn lemma_model_lookups(v: ModelConfigV)
    ensures
        jv_lookup(model_json(v), "id"@) == Some(JsonV::Str(v.id)),
        jv_lookup(model_json(v), "providerId"@) == Some(JsonV::Str(v.provider_id)),
        jv_lookup(model_json(v), "name"@) == Some(JsonV::Str(v.name)),
        jv_lookup(model_json(v), "displayName"@) == Some(JsonV::Str(v.display_name)),
        jv_lookup(model_json(v), "enabled"@) == Some(JsonV::Bool(v.enabled)),
        jv_lookup(model_json(v), "isDefault"@) == Some(JsonV::Bool(v.is_default)),
        jv_lookup(model_json(v), "maxTokens"@) == Some(opt_i32_json(v.max_tokens)),
        jv_lookup(model_json(v), "temperature"@) == Some(opt_numtext_json(v.temperature)),
        jv_lookup(model_json(v), "topP"@) == Some(opt_numtext_json(v.top_p)),
        jv_lookup(model_json(v), "frequencyPenalty"@) == Some(opt_numtext_json(v.frequency_penalty)),
        jv_lookup(model_json(v), "presencePenalty"@) == Some(opt_numtext_json(v.presence_penalty)),
        jv_lookup(model_json(v), "supportsVision"@) == Some(opt_bool_json(v.supports_vision)),
        jv_lookup(model_json(v), "supportsTools"@) == Some(opt_bool_json(v.supports_tools)),
        jv_lookup(model_json(v), "supportsStreaming"@) == Some(opt_bool_json(v.supports_streaming)),
        jv_lookup(model_json(v), "contextWindow"@) == Some(opt_i32_json(v.context_window)),
{
    
    reveal_strlit("id");
    reveal_strlit("providerId");
    reveal_strlit("name");
    reveal_strlit("displayName");
    reveal_strlit("enabled");
    reveal_strlit("isDefault");
    reveal_strlit("maxTokens");
    reveal_strlit("temperature");
    reveal_strlit("topP");
    reveal_strlit("frequencyPenalty");
    reveal_strlit("presencePenalty");
    reveal_strlit("supportsVision");
    reveal_strlit("supportsTools");
    reveal_strlit("supportsStreaming");
    reveal_strlit("contextWindow");
    assert("id"@.len() == 2);
    assert("providerId"@.len() == 10);
    assert("name"@.len() == 4);
    assert("displayName"@.len() == 11);
    assert("enabled"@.len() == 7);
    assert("isDefault"@.len() == 9);
    assert("maxTokens"@.len() == 9);
    assert("temperature"@.len() == 11);
    assert("topP"@.len() == 4);
    assert("frequencyPenalty"@.len() == 16);
    assert("presencePenalty"@.len() == 15);
    assert("supportsVision"@.len() == 14);
    assert("supportsTools"@.len() == 13);
    assert("supportsStreaming"@.len() == 17);
    assert("contextWindow"@.len() == 13);
    assert("id"@[0] == 'i');
    assert("providerId"@[0] == 'p');
    assert("name"@[0] == 'n');
    assert("displayName"@[0] == 'd');
    assert("enabled"@[0] == 'e');
    assert("isDefault"@[0] == 'i');
    assert("maxTokens"@[0] == 'm');
    assert("temperature"@[0] == 't');
    assert("topP"@[0] == 't');
    assert("frequencyPenalty"@[0] == 'f');
    assert("presencePenalty"@[0] == 'p');
    assert("supportsVision"@[0] == 's');
    assert("supportsTools"@[0] == 's');
    assert("supportsStreaming"@[0] == 's');
    assert("contextWindow"@[0] == 'c');
    let ms0 = model_json(v)->Obj_0;
    let ms1 = ms0.skip(1);
    let ms2 = ms1.skip(1);
    let ms3 = ms2.skip(1);
    let ms4 = ms3.skip(1);
    let ms5 = ms4.skip(1);
    let ms6 = ms5.skip(1);
    let ms7 = ms6.skip(1);
    let ms8 = ms7.skip(1);
    let ms9 = ms8.skip(1);
    let ms10 = ms9.skip(1);
    let ms11 = ms10.skip(1);
    let ms12 = ms11.skip(1);
    let ms13 = ms12.skip(1);
    let ms14 = ms13.skip(1);
    assert(ms1 =~= seq![("providerId"@, JsonV::Str(v.provider_id)), ("name"@, JsonV::Str(v.name)), ("displayName"@, JsonV::Str(v.display_name)), ("enabled"@, JsonV::Bool(v.enabled)), ("isDefault"@, JsonV::Bool(v.is_default)), ("maxTokens"@, opt_i32_json(v.max_tokens)), ("temperature"@, opt_numtext_json(v.temperature)), ("topP"@, opt_numtext_json(v.top_p)), ("frequencyPenalty"@, opt_numtext_json(v.frequency_penalty)), ("presencePenalty"@, opt_numtext_json(v.presence_penalty)), ("supportsVision"@, opt_bool_json(v.supports_vision)), ("supportsTools"@, opt_bool_json(v.supports_tools)), ("supportsStreaming"@, opt_bool_json(v.supports_streaming)), ("contextWindow"@, opt_i32_json(v.context_window))]);
    assert(ms2 =~= seq![("name"@, JsonV::Str(v.name)), ("displayName"@, JsonV::Str(v.display_name)), ("enabled"@, JsonV::Bool(v.enabled)), ("isDefault"@, JsonV::Bool(v.is_default)), ("maxTokens"@, opt_i32_json(v.max_tokens)), ("temperature"@, opt_numtext_json(v.temperature)), ("topP"@, opt_numtext_json(v.top_p)), ("frequencyPenalty"@, opt_numtext_json(v.frequency_penalty)), ("presencePenalty"@, opt_numtext_json(v.presence_penalty)), ("supportsVision"@, opt_bool_json(v.supports_vision)), ("supportsTools"@, opt_bool_json(v.supports_tools)), ("supportsStreaming"@, opt_bool_json(v.supports_streaming)), ("contextWindow"@, opt_i32_json(v.context_window))]);
    assert(ms3 =~= seq![("displayName"@, JsonV::Str(v.display_name)), ("enabled"@, JsonV::Bool(v.enabled)), ("isDefault"@, JsonV::Bool(v.is_default)), ("maxTokens"@, opt_i32_json(v.max_tokens)), ("temperature"@, opt_numtext_json(v.temperature)), ("topP"@, opt_numtext_json(v.top_p)), ("frequencyPenalty"@, opt_numtext_json(v.frequency_penalty)), ("presencePenalty"@, opt_numtext_json(v.presence_penalty)), ("supportsVision"@, opt_bool_json(v.supports_vision)), ("supportsTools"@, opt_bool_json(v.supports_tools)), ("supportsStreaming"@, opt_bool_json(v.supports_streaming)), ("contextWindow"@, opt_i32_json(v.context_window))]);
    assert(ms4 =~= seq![("enabled"@, JsonV::Bool(v.enabled)), ("isDefault"@, JsonV::Bool(v.is_default)), ("maxTokens"@, opt_i32_json(v.max_tokens)), ("temperature"@, opt_numtext_json(v.temperature)), ("topP"@, opt_numtext_json(v.top_p)), ("frequencyPenalty"@, opt_numtext_json(v.frequency_penalty)), ("presencePenalty"@, opt_numtext_json(v.presence_penalty)), ("supportsVision"@, opt_bool_json(v.supports_vision)), ("supportsTools"@, opt_bool_json(v.supports_tools)), ("supportsStreaming"@, opt_bool_json(v.supports_streaming)), ("contextWindow"@, opt_i32_json(v.context_window))]);
    assert(ms5 =~= seq![("isDefault"@, JsonV::Bool(v.is_default)), ("maxTokens"@, opt_i32_json(v.max_tokens)), ("temperature"@, opt_numtext_json(v.temperature)), ("topP"@, opt_numtext_json(v.top_p)), ("frequencyPenalty"@, opt_numtext_json(v.frequency_penalty)), ("presencePenalty"@, opt_numtext_json(v.presence_penalty)), ("supportsVision"@, opt_bool_json(v.supports_vision)), ("supportsTools"@, opt_bool_json(v.supports_tools)), ("supportsStreaming"@, opt_bool_json(v.supports_streaming)), ("contextWindow"@, opt_i32_json(v.context_window))]);
    assert(ms6 =~= seq![("maxTokens"@, opt_i32_json(v.max_tokens)), ("temperature"@, opt_numtext_json(v.temperature)), ("topP"@, opt_numtext_json(v.top_p)), ("frequencyPenalty"@, opt_numtext_json(v.frequency_penalty)), ("presencePenalty"@, opt_numtext_json(v.presence_penalty)), ("supportsVision"@, opt_bool_json(v.supports_vision)), ("supportsTools"@, opt_bool_json(v.supports_tools)), ("supportsStreaming"@, opt_bool_json(v.supports_streaming)), ("contextWindow"@, opt_i32_json(v.context_window))]);
    assert(ms7 =~= seq![("temperature"@, opt_numtext_json(v.temperature)), ("topP"@, opt_numtext_json(v.top_p)), ("frequencyPenalty"@, opt_numtext_json(v.frequency_penalty)), ("presencePenalty"@, opt_numtext_json(v.presence_penalty)), ("supportsVision"@, opt_bool_json(v.supports_vision)), ("supportsTools"@, opt_bool_json(v.supports_tools)), ("supportsStreaming"@, opt_bool_json(v.supports_streaming)), ("contextWindow"@, opt_i32_json(v.context_window))]);
    assert(ms8 =~= seq![("topP"@, opt_numtext_json(v.top_p)), ("frequencyPenalty"@, opt_numtext_json(v.frequency_penalty)), ("presencePenalty"@, opt_numtext_json(v.presence_penalty)), ("supportsVision"@, opt_bool_json(v.supports_vision)), ("supportsTools"@, opt_bool_json(v.supports_tools)), ("supportsStreaming"@, opt_bool_json(v.supports_streaming)), ("contextWindow"@, opt_i32_json(v.context_window))]);
    assert(ms9 =~= seq![("frequencyPenalty"@, opt_numtext_json(v.frequency_penalty)), ("presencePenalty"@, opt_numtext_json(v.presence_penalty)), ("supportsVision"@, opt_bool_json(v.supports_vision)), ("supportsTools"@, opt_bool_json(v.supports_tools)), ("supportsStreaming"@, opt_bool_json(v.supports_streaming)), ("contextWindow"@, opt_i32_json(v.context_window))]);
    assert(ms10 =~= seq![("presencePenalty"@, opt_numtext_json(v.presence_penalty)), ("supportsVision"@, opt_bool_json(v.supports_vision)), ("supportsTools"@, opt_bool_json(v.supports_tools)), ("supportsStreaming"@, opt_bool_json(v.supports_streaming)), ("contextWindow"@, opt_i32_json(v.context_window))]);
    assert(ms11 =~= seq![("supportsVision"@, opt_bool_json(v.supports_vision)), ("supportsTools"@, opt_bool_json(v.supports_tools)), ("supportsStreaming"@, opt_bool_json(v.supports_streaming)), ("contextWindow"@, opt_i32_json(v.context_window))]);
    assert(ms12 =~= seq![("supportsTools"@, opt_bool_json(v.supports_tools)), ("supportsStreaming"@, opt_bool_json(v.supports_streaming)), ("contextWindow"@, opt_i32_json(v.context_window))]);
    assert(ms13 =~= seq![("supportsStreaming"@, opt_bool_json(v.supports_streaming)), ("contextWindow"@, opt_i32_json(v.context_window))]);
    assert(ms14 =~= seq![("contextWindow"@, opt_i32_json(v.context_window))]);
    assert(ms0[0].0 == "id"@);
    crate::docjson::lemma_lookup_hit(ms0, "id"@);
    assert(members_lookup(ms0, "id"@) == Some(JsonV::Str(v.id)));
    assert(ms0[0].0 != "providerId"@);
    crate::docjson::lemma_lookup_skip(ms0, "providerId"@);
    assert(ms1[0].0 == "providerId"@);
    crate::docjson::lemma_lookup_hit(ms1, "providerId"@);
    assert(members_lookup(ms0, "providerId"@) == Some(JsonV::Str(v.provider_id)));
    assert(ms0[0].0 != "name"@);
    crate::docjson::lemma_lookup_skip(ms0, "name"@);
    assert(ms1[0].0 != "name"@);
    crate::docjson::lemma_lookup_skip(ms1, "name"@);
    assert(ms2[0].0 == "name"@);
    crate::docjson::lemma_lookup_hit(ms2, "name"@);
    assert(members_lookup(ms0, "name"@) == Some(JsonV::Str(v.name)));
    assert(ms0[0].0 != "displayName"@);
    crate::docjson::lemma_lookup_skip(ms0, "displayName"@);
    assert(ms1[0].0 != "displayName"@);
    crate::docjson::lemma_lookup_skip(ms1, "displayName"@);
    assert(ms2[0].0 != "displayName"@);
    crate::docjson::lemma_lookup_skip(ms2, "displayName"@);
    assert(ms3[0].0 == "displayName"@);
    crate::docjson::lemma_lookup_hit(ms3, "displayName"@);
    assert(members_lookup(ms0, "displayName"@) == Some(JsonV::Str(v.display_name)));
    assert(ms0[0].0 != "enabled"@);
    crate::docjson::lemma_lookup_skip(ms0, "enabled"@);
    assert(ms1[0].0 != "enabled"@);
    crate::docjson::lemma_lookup_skip(ms1, "enabled"@);
    assert(ms2[0].0 != "enabled"@);
    crate::docjson::lemma_lookup_skip(ms2, "enabled"@);
    assert(ms3[0].0 != "enabled"@);
    crate::docjson::lemma_lookup_skip(ms3, "enabled"@);
    assert(ms4[0].0 == "enabled"@);
    crate::docjson::lemma_lookup_hit(ms4, "enabled"@);
    assert(members_lookup(ms0, "enabled"@) == Some(JsonV::Bool(v.enabled)));
    assert(ms0[0].0 != "isDefault"@);
    crate::docjson::lemma_lookup_skip(ms0, "isDefault"@);
    assert(ms1[0].0 != "isDefault"@);
    crate::docjson::lemma_lookup_skip(ms1, "isDefault"@);
    assert(ms2[0].0 != "isDefault"@);
    crate::docjson::lemma_lookup_skip(ms2, "isDefault"@);
    assert(ms3[0].0 != "isDefault"@);
    crate::docjson::lemma_lookup_skip(ms3, "isDefault"@);
    assert(ms4[0].0 != "isDefault"@);
    crate::docjson::lemma_lookup_skip(ms4, "isDefault"@);
    assert(ms5[0].0 == "isDefault"@);
    crate::docjson::lemma_lookup_hit(ms5, "isDefault"@);
    assert(members_lookup(ms0, "isDefault"@) == Some(JsonV::Bool(v.is_default)));
    assert(ms0[0].0 != "maxTokens"@);
    crate::docjson::lemma_lookup_skip(ms0, "maxTokens"@);
    assert(ms1[0].0 != "maxTokens"@);
    crate::docjson::lemma_lookup_skip(ms1, "maxTokens"@);
    assert(ms2[0].0 != "maxTokens"@);
    crate::docjson::lemma_lookup_skip(ms2, "maxTokens"@);
    assert(ms3[0].0 != "maxTokens"@);
    crate::docjson::lemma_lookup_skip(ms3, "maxTokens"@);
    assert(ms4[0].0 != "maxTokens"@);
    crate::docjson::lemma_lookup_skip(ms4, "maxTokens"@);
    assert(ms5[0].0 != "maxTokens"@);
    crate::docjson::lemma_lookup_skip(ms5, "maxTokens"@);
    assert(ms6[0].0 == "maxTokens"@);
    crate::docjson::lemma_lookup_hit(ms6, "maxTokens"@);
    assert(members_lookup(ms0, "maxTokens"@) == Some(opt_i32_json(v.max_tokens)));
    assert(ms0[0].0 != "temperature"@);
    crate::docjson::lemma_lookup_skip(ms0, "temperature"@);
    assert(ms1[0].0 != "temperature"@);
    crate::docjson::lemma_lookup_skip(ms1, "temperature"@);
    assert(ms2[0].0 != "temperature"@);
    crate::docjson::lemma_lookup_skip(ms2, "temperature"@);
    assert(ms3[0].0 != "temperature"@);
    crate::docjson::lemma_lookup_skip(ms3, "temperature"@);
    assert(ms4[0].0 != "temperature"@);
    crate::docjson::lemma_lookup_skip(ms4, "temperature"@);
    assert(ms5[0].0 != "temperature"@);
    crate::docjson::lemma_lookup_skip(ms5, "temperature"@);
    assert(ms6[0].0 != "temperature"@);
    crate::docjson::lemma_lookup_skip(ms6, "temperature"@);
    assert(ms7[0].0 == "temperature"@);
    crate::docjson::lemma_lookup_hit(ms7, "temperature"@);
    assert(members_lookup(ms0, "temperature"@) == Some(opt_numtext_json(v.temperature)));
    assert(ms0[0].0 != "topP"@);
    crate::docjson::lemma_lookup_skip(ms0, "topP"@);
    assert(ms1[0].0 != "topP"@);
    crate::docjson::lemma_lookup_skip(ms1, "topP"@);
    assert(ms2[0].0 != "topP"@);
    crate::docjson::lemma_lookup_skip(ms2, "topP"@);
    assert(ms3[0].0 != "topP"@);
    crate::docjson::lemma_lookup_skip(ms3, "topP"@);
    assert(ms4[0].0 != "topP"@);
    crate::docjson::lemma_lookup_skip(ms4, "topP"@);
    assert(ms5[0].0 != "topP"@);
    crate::docjson::lemma_lookup_skip(ms5, "topP"@);
    assert(ms6[0].0 != "topP"@);
    crate::docjson::lemma_lookup_skip(ms6, "topP"@);
    assert(ms7[0].0 != "topP"@);
    crate::docjson::lemma_lookup_skip(ms7, "topP"@);
    assert(ms8[0].0 == "topP"@);
    crate::docjson::lemma_lookup_hit(ms8, "topP"@);
    assert(members_lookup(ms0, "topP"@) == Some(opt_numtext_json(v.top_p)));
    assert(ms0[0].0 != "frequencyPenalty"@);
    crate::docjson::lemma_lookup_skip(ms0, "frequencyPenalty"@);
    assert(ms1[0].0 != "frequencyPenalty"@);
    crate::docjson::lemma_lookup_skip(ms1, "frequencyPenalty"@);
    assert(ms2[0].0 != "frequencyPenalty"@);
    crate::docjson::lemma_lookup_skip(ms2, "frequencyPenalty"@);
    assert(ms3[0].0 != "frequencyPenalty"@);
    crate::docjson::lemma_lookup_skip(ms3, "frequencyPenalty"@);
    assert(ms4[0].0 != "frequencyPenalty"@);
    crate::docjson::lemma_lookup_skip(ms4, "frequencyPenalty"@);
    assert(ms5[0].0 != "frequencyPenalty"@);
    crate::docjson::lemma_lookup_skip(ms5, "frequencyPenalty"@);
    assert(ms6[0].0 != "frequencyPenalty"@);
    crate::docjson::lemma_lookup_skip(ms6, "frequencyPenalty"@);
    assert(ms7[0].0 != "frequencyPenalty"@);
    crate::docjson::lemma_lookup_skip(ms7, "frequencyPenalty"@);
    assert(ms8[0].0 != "frequencyPenalty"@);
    crate::docjson::lemma_lookup_skip(ms8, "frequencyPenalty"@);
    assert(ms9[0].0 == "frequencyPenalty"@);
    crate::docjson::lemma_lookup_hit(ms9, "frequencyPenalty"@);
    assert(members_lookup(ms0, "frequencyPenalty"@) == Some(opt_numtext_json(v.frequency_penalty)));
    assert(ms0[0].0 != "presencePenalty"@);
    crate::docjson::lemma_lookup_skip(ms0, "presencePenalty"@);
    assert(ms1[0].0 != "presencePenalty"@);
    crate::docjson::lemma_lookup_skip(ms1, "presencePenalty"@);
    assert(ms2[0].0 != "presencePenalty"@);
    crate::docjson::lemma_lookup_skip(ms2, "presencePenalty"@);
    assert(ms3[0].0 != "presencePenalty"@);
    crate::docjson::lemma_lookup_skip(ms3, "presencePenalty"@);
    assert(ms4[0].0 != "presencePenalty"@);
    crate::docjson::lemma_lookup_skip(ms4, "presencePenalty"@);
    assert(ms5[0].0 != "presencePenalty"@);
    crate::docjson::lemma_lookup_skip(ms5, "presencePenalty"@);
    assert(ms6[0].0 != "presencePenalty"@);
    crate::docjson::lemma_lookup_skip(ms6, "presencePenalty"@);
    assert(ms7[0].0 != "presencePenalty"@);
    crate::docjson::lemma_lookup_skip(ms7, "presencePenalty"@);
    assert(ms8[0].0 != "presencePenalty"@);
    crate::docjson::lemma_lookup_skip(ms8, "presencePenalty"@);
    assert(ms9[0].0 != "presencePenalty"@);
    crate::docjson::lemma_lookup_skip(ms9, "presencePenalty"@);
    assert(ms10[0].0 == "presencePenalty"@);
    crate::docjson::lemma_lookup_hit(ms10, "presencePenalty"@);
    assert(members_lookup(ms0, "presencePenalty"@) == Some(opt_numtext_json(v.presence_penalty)));
    assert(ms0[0].0 != "supportsVision"@);
    crate::docjson::lemma_lookup_skip(ms0, "supportsVision"@);
    assert(ms1[0].0 != "supportsVision"@);
    crate::docjson::lemma_lookup_skip(ms1, "supportsVision"@);
    assert(ms2[0].0 != "supportsVision"@);
    crate::docjson::lemma_lookup_skip(ms2, "supportsVision"@);
    assert(ms3[0].0 != "supportsVision"@);
    crate::docjson::lemma_lookup_skip(ms3, "supportsVision"@);
    assert(ms4[0].0 != "supportsVision"@);
    crate::docjson::lemma_lookup_skip(ms4, "supportsVision"@);
    assert(ms5[0].0 != "supportsVision"@);
    crate::docjson::lemma_lookup_skip(ms5, "supportsVision"@);
    assert(ms6[0].0 != "supportsVision"@);
    crate::docjson::lemma_lookup_skip(ms6, "supportsVision"@);
    assert(ms7[0].0 != "supportsVision"@);
    crate::docjson::lemma_lookup_skip(ms7, "supportsVision"@);
    assert(ms8[0].0 != "supportsVision"@);
    crate::docjson::lemma_lookup_skip(ms8, "supportsVision"@);
    assert(ms9[0].0 != "supportsVision"@);
    crate::docjson::lemma_lookup_skip(ms9, "supportsVision"@);
    assert(ms10[0].0 != "supportsVision"@);
    crate::docjson::lemma_lookup_skip(ms10, "supportsVision"@);
    assert(ms11[0].0 == "supportsVision"@);
    crate::docjson::lemma_lookup_hit(ms11, "supportsVision"@);
    assert(members_lookup(ms0, "supportsVision"@) == Some(opt_bool_json(v.supports_vision)));
    assert(ms0[0].0 != "supportsTools"@);
    crate::docjson::lemma_lookup_skip(ms0, "supportsTools"@);
    assert(ms1[0].0 != "supportsTools"@);
    crate::docjson::lemma_lookup_skip(ms1, "supportsTools"@);
    assert(ms2[0].0 != "supportsTools"@);
    crate::docjson::lemma_lookup_skip(ms2, "supportsTools"@);
    assert(ms3[0].0 != "supportsTools"@);
    crate::docjson::lemma_lookup_skip(ms3, "supportsTools"@);
    assert(ms4[0].0 != "supportsTools"@);
    crate::docjson::lemma_lookup_skip(ms4, "supportsTools"@);
    assert(ms5[0].0 != "supportsTools"@);
    crate::docjson::lemma_lookup_skip(ms5, "supportsTools"@);
    assert(ms6[0].0 != "supportsTools"@);
    crate::docjson::lemma_lookup_skip(ms6, "supportsTools"@);
    assert(ms7[0].0 != "supportsTools"@);
    crate::docjson::lemma_lookup_skip(ms7, "supportsTools"@);
    assert(ms8[0].0 != "supportsTools"@);
    crate::docjson::lemma_lookup_skip(ms8, "supportsTools"@);
    assert(ms9[0].0 != "supportsTools"@);
    crate::docjson::lemma_lookup_skip(ms9, "supportsTools"@);
    assert(ms10[0].0 != "supportsTools"@);
    crate::docjson::lemma_lookup_skip(ms10, "supportsTools"@);
    assert(ms11[0].0 != "supportsTools"@);
    crate::docjson::lemma_lookup_skip(ms11, "supportsTools"@);
    assert(ms12[0].0 == "supportsTools"@);
    crate::docjson::lemma_lookup_hit(ms12, "supportsTools"@);
    assert(members_lookup(ms0, "supportsTools"@) == Some(opt_bool_json(v.supports_tools)));
    assert(ms0[0].0 != "supportsStreaming"@);
    crate::docjson::lemma_lookup_skip(ms0, "supportsStreaming"@);
    assert(ms1[0].0 != "supportsStreaming"@);
    crate::docjson::lemma_lookup_skip(ms1, "supportsStreaming"@);
    assert(ms2[0].0 != "supportsStreaming"@);
    crate::docjson::lemma_lookup_skip(ms2, "supportsStreaming"@);
    assert(ms3[0].0 != "supportsStreaming"@);
    crate::docjson::lemma_lookup_skip(ms3, "supportsStreaming"@);
    assert(ms4[0].0 != "supportsStreaming"@);
    crate::docjson::lemma_lookup_skip(ms4, "supportsStreaming"@);
    assert(ms5[0].0 != "supportsStreaming"@);
    crate::docjson::lemma_lookup_skip(ms5, "supportsStreaming"@);
    assert(ms6[0].0 != "supportsStreaming"@);
    crate::docjson::lemma_lookup_skip(ms6, "supportsStreaming"@);
    assert(ms7[0].0 != "supportsStreaming"@);
    crate::docjson::lemma_lookup_skip(ms7, "supportsStreaming"@);
    assert(ms8[0].0 != "supportsStreaming"@);
    crate::docjson::lemma_lookup_skip(ms8, "supportsStreaming"@);
    assert(ms9[0].0 != "supportsStreaming"@);
    crate::docjson::lemma_lookup_skip(ms9, "supportsStreaming"@);
    assert(ms10[0].0 != "supportsStreaming"@);
    crate::docjson::lemma_lookup_skip(ms10, "supportsStreaming"@);
    assert(ms11[0].0 != "supportsStreaming"@);
    crate::docjson::lemma_lookup_skip(ms11, "supportsStreaming"@);
    assert(ms12[0].0 != "supportsStreaming"@);
    crate::docjson::lemma_lookup_skip(ms12, "supportsStreaming"@);
    assert(ms13[0].0 == "supportsStreaming"@);
    crate::docjson::lemma_lookup_hit(ms13, "supportsStreaming"@);
    assert(members_lookup(ms0, "supportsStreaming"@) == Some(opt_bool_json(v.supports_streaming)));
    assert(ms0[0].0 != "contextWindow"@);
    crate::docjson::lemma_lookup_skip(ms0, "contextWindow"@);
    assert(ms1[0].0 != "contextWindow"@);
    crate::docjson::lemma_lookup_skip(ms1, "contextWindow"@);
    assert(ms2[0].0 != "contextWindow"@);
    crate::docjson::lemma_lookup_skip(ms2, "contextWindow"@);
    assert(ms3[0].0 != "contextWindow"@);
    crate::docjson::lemma_lookup_skip(ms3, "contextWindow"@);
    assert(ms4[0].0 != "contextWindow"@);
    crate::docjson::lemma_lookup_skip(ms4, "contextWindow"@);
    assert(ms5[0].0 != "contextWindow"@);
    crate::docjson::lemma_lookup_skip(ms5, "contextWindow"@);
    assert(ms6[0].0 != "contextWindow"@);
    crate::docjson::lemma_lookup_skip(ms6, "contextWindow"@);
    assert(ms7[0].0 != "contextWindow"@);
    crate::docjson::lemma_lookup_skip(ms7, "contextWindow"@);
    assert(ms8[0].0 != "contextWindow"@);
    crate::docjson::lemma_lookup_skip(ms8, "contextWindow"@);
    assert(ms9[0].0 != "contextWindow"@);
    crate::docjson::lemma_lookup_skip(ms9, "contextWindow"@);
    assert(ms10[0].0 != "contextWindow"@);
    crate::docjson::lemma_lookup_skip(ms10, "contextWindow"@);
    assert(ms11[0].0 != "contextWindow"@);
    crate::docjson::lemma_lookup_skip(ms11, "contextWindow"@);
    assert(ms12[0].0 != "contextWindow"@);
    crate::docjson::lemma_lookup_skip(ms12, "contextWindow"@);
    assert(ms13[0].0 != "contextWindow"@);
    crate::docjson::lemma_lookup_skip(ms13, "contextWindow"@);
    assert(ms14[0].0 == "contextWindow"@);
    crate::docjson::lemma_lookup_hit(ms14, "contextWindow"@);
    assert(members_lookup(ms0, "contextWindow"@) == Some(opt_i32_json(v.context_window)));
}

/// A written entry is well-formed.
#[verifier::rlimit(100)]
#[verifier::spinoff_prover]
proof fn lemma_model_wf(v: ModelConfigV)
    requires
        wf_model_numbers(v),
    ensures
        crate::roundtrip::wf_json(model_json(v)),
{
    let ms0 = model_json(v)->Obj_0;
    let ms1 = ms0.skip(1);
    let ms2 = ms1.skip(1);
    let ms3 = ms2.skip(1);
    let ms4 = ms3.skip(1);
    let ms5 = ms4.skip(1);
    let ms6 = ms5.skip(1);
    let ms7 = ms6.skip(1);
    let ms8 = ms7.skip(1);
    let ms9 = ms8.skip(1);
    let ms10 = ms9.skip(1);
    let ms11 = ms10.skip(1);
    let ms12 = ms11.skip(1);
    let ms13 = ms12.skip(1);
    let ms14 = ms13.skip(1);
    assert(ms1 =~= seq![("providerId"@, JsonV::Str(v.provider_id)), ("name"@, JsonV::Str(v.name)), ("displayName"@, JsonV::Str(v.display_name)), ("enabled"@, JsonV::Bool(v.enabled)), ("isDefault"@, JsonV::Bool(v.is_default)), ("maxTokens"@, opt_i32_json(v.max_tokens)), ("temperature"@, opt_numtext_json(v.temperature)), ("topP"@, opt_numtext_json(v.top_p)), ("frequencyPenalty"@, opt_numtext_json(v.frequency_penalty)), ("presencePenalty"@, opt_numtext_json(v.presence_penalty)), ("supportsVision"@, opt_bool_json(v.supports_vision)), ("supportsTools"@, opt_bool_json(v.supports_tools)), ("supportsStreaming"@, opt_bool_json(v.supports_streaming)), ("contextWindow"@, opt_i32_json(v.context_window))]);
    assert(ms2 =~= seq![("name"@, JsonV::Str(v.name)), ("displayName"@, JsonV::Str(v.display_name)), ("enabled"@, JsonV::Bool(v.enabled)), ("isDefault"@, JsonV::Bool(v.is_default)), ("maxTokens"@, opt_i32_json(v.max_tokens)), ("temperature"@, opt_numtext_json(v.temperature)), ("topP"@, opt_numtext_json(v.top_p)), ("frequencyPenalty"@, opt_numtext_json(v.frequency_penalty)), ("presencePenalty"@, opt_numtext_json(v.presence_penalty)), ("supportsVision"@, opt_bool_json(v.supports_vision)), ("supportsTools"@, opt_bool_json(v.supports_tools)), ("supportsStreaming"@, opt_bool_json(v.supports_streaming)), ("contextWindow"@, opt_i32_json(v.context_window))]);
    assert(ms3 =~= seq![("displayName"@, JsonV::Str(v.display_name)), ("enabled"@, JsonV::Bool(v.enabled)), ("isDefault"@, JsonV::Bool(v.is_default)), ("maxTokens"@, opt_i32_json(v.max_tokens)), ("temperature"@, opt_numtext_json(v.temperature)), ("topP"@, opt_numtext_json(v.top_p)), ("frequencyPenalty"@, opt_numtext_json(v.frequency_penalty)), ("presencePenalty"@, opt_numtext_json(v.presence_penalty)), ("supportsVision"@, opt_bool_json(v.supports_vision)), ("supportsTools"@, opt_bool_json(v.supports_tools)), ("supportsStreaming"@, opt_bool_json(v.supports_streaming)), ("contextWindow"@, opt_i32_json(v.context_window))]);
    assert(ms4 =~= seq![("enabled"@, JsonV::Bool(v.enabled)), ("isDefault"@, JsonV::Bool(v.is_default)), ("maxTokens"@, opt_i32_json(v.max_tokens)), ("temperature"@, opt_numtext_json(v.temperature)), ("topP"@, opt_numtext_json(v.top_p)), ("frequencyPenalty"@, opt_numtext_json(v.frequency_penalty)), ("presencePenalty"@, opt_numtext_json(v.presence_penalty)), ("supportsVision"@, opt_bool_json(v.supports_vision)), ("supportsTools"@, opt_bool_json(v.supports_tools)), ("supportsStreaming"@, opt_bool_json(v.supports_streaming)), ("contextWindow"@, opt_i32_json(v.context_window))]);
    assert(ms5 =~= seq![("isDefault"@, JsonV::Bool(v.is_default)), ("maxTokens"@, opt_i32_json(v.max_tokens)), ("temperature"@, opt_numtext_json(v.temperature)), ("topP"@, opt_numtext_json(v.top_p)), ("frequencyPenalty"@, opt_numtext_json(v.frequency_penalty)), ("presencePenalty"@, opt_numtext_json(v.presence_penalty)), ("supportsVision"@, opt_bool_json(v.supports_vision)), ("supportsTools"@, opt_bool_json(v.supports_tools)), ("supportsStreaming"@, opt_bool_json(v.supports_streaming)), ("contextWindow"@, opt_i32_json(v.context_window))]);
    assert(ms6 =~= seq![("maxTokens"@, opt_i32_json(v.max_tokens)), ("temperature"@, opt_numtext_json(v.temperature)), ("topP"@, opt_numtext_json(v.top_p)), ("frequencyPenalty"@, opt_numtext_json(v.frequency_penalty)), ("presencePenalty"@, opt_numtext_json(v.presence_penalty)), ("supportsVision"@, opt_bool_json(v.supports_vision)), ("supportsTools"@, opt_bool_json(v.supports_tools)), ("supportsStreaming"@, opt_bool_json(v.supports_streaming)), ("contextWindow"@, opt_i32_json(v.context_window))]);
    assert(ms7 =~= seq![("temperature"@, opt_numtext_json(v.temperature)), ("topP"@, opt_numtext_json(v.top_p)), ("frequencyPenalty"@, opt_numtext_json(v.frequency_penalty)), ("presencePenalty"@, opt_numtext_json(v.presence_penalty)), ("supportsVision"@, opt_bool_json(v.supports_vision)), ("supportsTools"@, opt_bool_json(v.supports_tools)), ("supportsStreaming"@, opt_bool_json(v.supports_streaming)), ("contextWindow"@, opt_i32_json(v.context_window))]);
    assert(ms8 =~= seq![("topP"@, opt_numtext_json(v.top_p)), ("frequencyPenalty"@, opt_numtext_json(v.frequency_penalty)), ("presencePenalty"@, opt_numtext_json(v.presence_penalty)), ("supportsVision"@, opt_bool_json(v.supports_vision)), ("supportsTools"@, opt_bool_json(v.supports_tools)), ("supportsStreaming"@, opt_bool_json(v.supports_streaming)), ("contextWindow"@, opt_i32_json(v.context_window))]);
    assert(ms9 =~= seq![("frequencyPenalty"@, opt_numtext_json(v.frequency_penalty)), ("presencePenalty"@, opt_numtext_json(v.presence_penalty)), ("supportsVision"@, opt_bool_json(v.supports_vision)), ("supportsTools"@, opt_bool_json(v.supports_tools)), ("supportsStreaming"@, opt_bool_json(v.supports_streaming)), ("contextWindow"@, opt_i32_json(v.context_window))]);
    assert(ms10 =~= seq![("presencePenalty"@, opt_numtext_json(v.presence_penalty)), ("supportsVision"@, opt_bool_json(v.supports_vision)), ("supportsTools"@, opt_bool_json(v.supports_tools)), ("supportsStreaming"@, opt_bool_json(v.supports_streaming)), ("contextWindow"@, opt_i32_json(v.context_window))]);
    assert(ms11 =~= seq![("supportsVision"@, opt_bool_json(v.supports_vision)), ("supportsTools"@, opt_bool_json(v.supports_tools)), ("supportsStreaming"@, opt_bool_json(v.supports_streaming)), ("contextWindow"@, opt_i32_json(v.context_window))]);
    assert(ms12 =~= seq![("supportsTools"@, opt_bool_json(v.supports_tools)), ("supportsStreaming"@, opt_bool_json(v.supports_streaming)), ("contextWindow"@, opt_i32_json(v.context_window))]);
    assert(ms13 =~= seq![("supportsStreaming"@, opt_bool_json(v.supports_streaming)), ("contextWindow"@, opt_i32_json(v.context_window))]);
    assert(ms14 =~= seq![("contextWindow"@, opt_i32_json(v.context_window))]);
    assert(ms14.skip(1) =~= Seq::<(Seq<char>, JsonV)>::empty());
    assert(crate::roundtrip::wf_members(ms14.skip(1)));
    assert(crate::roundtrip::wf_json(ms14[0].1)) by {
        assert(ms14[0].1 == opt_i32_json(v.context_window));
        match v.context_window {
            Some(x) => {
                crate::numtext::lemma_dec_int_round_trip(x as int);
                assert(crate::roundtrip::valid_num_text(crate::numtext::dec_int(x as int))) by {
                    assert(forall|i: int|
                        0 <= i < crate::numtext::dec_int(x as int).len()
                            ==> crate::numtext::is_dec_int_char(crate::numtext::dec_int(x as int)[i])
                            ==> crate::parse::is_num_char(crate::numtext::dec_int(x as int)[i]));
                }
            },
            None => {},
        }
    }
    crate::docjson::lemma_wf_members_cons(ms14);
    assert(crate::roundtrip::wf_json(ms13[0].1)) by {
        assert(ms13[0].1 == opt_bool_json(v.supports_streaming));
        match v.supports_streaming {
            Some(_) => {},
            None => {},
        }
    }
    crate::docjson::lemma_wf_members_cons(ms13);
    assert(crate::roundtrip::wf_json(ms12[0].1)) by {
        assert(ms12[0].1 == opt_bool_json(v.supports_tools));
        match v.supports_tools {
            Some(_) => {},
            None => {},
        }
    }
    crate::docjson::lemma_wf_members_cons(ms12);
    assert(crate::roundtrip::wf_json(ms11[0].1)) by {
        assert(ms11[0].1 == opt_bool_json(v.supports_vision));
        match v.supports_vision {
            Some(_) => {},
            None => {},
        }
    }
    crate::docjson::lemma_wf_members_cons(ms11);
    assert(crate::roundtrip::wf_json(ms10[0].1)) by {
        assert(ms10[0].1 == opt_numtext_json(v.presence_penalty));
        match v.presence_penalty {
            Some(_) => {},
            None => {},
        }
    }
    crate::docjson::lemma_wf_members_cons(ms10);
    assert(crate::roundtrip::wf_json(ms9[0].1)) by {
        assert(ms9[0].1 == opt_numtext_json(v.frequency_penalty));
        match v.frequency_penalty {
            Some(_) => {},
            None => {},
        }
    }
    crate::docjson::lemma_wf_members_cons(ms9);
    assert(crate::roundtrip::wf_json(ms8[0].1)) by {
        assert(ms8[0].1 == opt_numtext_json(v.top_p));
        match v.top_p {
            Some(_) => {},
            None => {},
        }
    }
    crate::docjson::lemma_wf_members_cons(ms8);
    assert(crate::roundtrip::wf_json(ms7[0].1)) by {
        assert(ms7[0].1 == opt_numtext_json(v.temperature));
        match v.temperature {
            Some(_) => {},
            None => {},
        }
    }
    crate::docjson::lemma_wf_members_cons(ms7);
    assert(crate::roundtrip::wf_json(ms6[0].1)) by {
        assert(ms6[0].1 == opt_i32_json(v.max_tokens));
        match v.max_tokens {
            Some(x) => {
                crate::numtext::lemma_dec_int_round_trip(x as int);
                assert(crate::roundtrip::valid_num_text(crate::numtext::dec_int(x as int))) by {
                    assert(forall|i: int|
                        0 <= i < crate::numtext::dec_int(x as int).len()
                            ==> crate::numtext::is_dec_int_char(crate::numtext::dec_int(x as int)[i])
                            ==> crate::parse::is_num_char(crate::numtext::dec_int(x as int)[i]));
                }
            },
            None => {},
        }
    }
    crate::docjson::lemma_wf_members_cons(ms6);
    assert(crate::roundtrip::wf_json(ms5[0].1)) by {
        assert(ms5[0].1 == JsonV::Bool(v.is_default));
    }
    crate::docjson::lemma_wf_members_cons(ms5);
    assert(crate::roundtrip::wf_json(ms4[0].1)) by {
        assert(ms4[0].1 == JsonV::Bool(v.enabled));
    }
    crate::docjson::lemma_wf_members_cons(ms4);
    assert(crate::roundtrip::wf_json(ms3[0].1)) by {
        assert(ms3[0].1 == JsonV::Str(v.display_name));
    }
    crate::docjson::lemma_wf_members_cons(ms3);
    assert(crate::roundtrip::wf_json(ms2[0].1)) by {
        assert(ms2[0].1 == JsonV::Str(v.name));
    }
    crate::docjson::lemma_wf_members_cons(ms2);
    assert(crate::roundtrip::wf_json(ms1[0].1)) by {
        assert(ms1[0].1 == JsonV::Str(v.provider_id));
    }
    crate::docjson::lemma_wf_members_cons(ms1);
    assert(crate::roundtrip::wf_json(ms0[0].1)) by {
        assert(ms0[0].1 == JsonV::Str(v.id));
    }
    crate::docjson::lemma_wf_members_cons(ms0);
}

/// A written model entry reads back as itself.
#[verifier::rlimit(100)]
#[verifier::spinoff_prover]
proof fn lemma_model_of_to(v: ModelConfigV)
    ensures
        model_of_json(model_json(v)) == Some(v),
{
    lemma_model_lookups(v);
    assert(jv_opt_i32(Some(opt_i32_json(v.max_tokens))) == Some(v.max_tokens)) by {
        match v.max_tokens {
            Some(x) => {
                crate::numtext::lemma_dec_int_round_trip(x as int);
            },
            None => {},
        }
    }
    assert(jv_opt_i32(Some(opt_i32_json(v.context_window))) == Some(v.context_window)) by {
        match v.context_window {
            Some(x) => {
                crate::numtext::lemma_dec_int_round_trip(x as int);
            },
            None => {},
        }
    }
    assert(crate::docjson::jv_opt_numtext(Some(opt_numtext_json(v.temperature))) == Some(
        v.temperature,
    )) by {
        match v.temperature {
            Some(_) => {},
            None => {},
        }
    }
    assert(crate::docjson::jv_opt_numtext(Some(opt_numtext_json(v.top_p))) == Some(v.top_p)) by {
        match v.top_p {
            Some(_) => {},
            None => {},
        }
    }
    assert(crate::docjson::jv_opt_numtext(Some(opt_numtext_json(v.frequency_penalty))) == Some(
        v.frequency_penalty,
    )) by {
        match v.frequency_penalty {
            Some(_) => {},
            None => {},
        }
    }
    assert(crate::docjson::jv_opt_numtext(Some(opt_numtext_json(v.presence_penalty))) == Some(
        v.presence_penalty,
    )) by {
        match v.presence_penalty {
            Some(_) => {},
            None => {},
        }
    }
    assert(crate::docjson::jv_opt_bool(Some(opt_bool_json(v.supports_vision))) == Some(
        v.supports_vision,
    )) by {
        match v.supports_vision {
            Some(_) => {},
            None => {},
        }
    }
    assert(crate::docjson::jv_opt_bool(Some(opt_bool_json(v.supports_tools))) == Some(
        v.supports_tools,
    )) by {
        match v.supports_tools {
            Some(_) => {},
            None => {},
        }
    }
    assert(crate::docjson::jv_opt_bool(Some(opt_bool_json(v.supports_streaming))) == Some(
        v.supports_streaming,
    )) by {
        match v.supports_streaming {
            Some(_) => {},
            None => {},
        }
    }
    assert(model_of_json(model_json(v)) == Some(v)) by {
        assert(model_json(v) is Obj);
    }
}

/// Every model entry of the collection carries valid number text.
pub open spec fn wf_models(l: Seq<ModelConfigV>) -> bool {
    forall|i: int| 0 <= i < l.len() ==> wf_model_numbers(#[trigger] l[i])
}

/// A written model list is well-formed and reads back as itself.
proof fn lemma_models_list_rt(l: Seq<ModelConfigV>)
    requires
        wf_models(l),
    ensures
        crate::roundtrip::wf_items(models_list_json(l)),
        models_list_of_json(models_list_json(l)) == Some(l),
    decreases l.len(),
{
    if l.len() == 0 {
        assert(models_list_json(l) =~= Seq::<JsonV>::empty());
    } else {
        assert(wf_models(l.skip(1))) by {
            assert(forall|i: int| 0 <= i < l.skip(1).len() ==> l.skip(1)[i] == l[i + 1]);
        }
        lemma_models_list_rt(l.skip(1));
        lemma_model_wf(l[0]);
        lemma_model_of_to(l[0]);
        let s = models_list_json(l);
        assert(s[0] == model_json(l[0]));
        assert(s.skip(1) =~= models_list_json(l.skip(1)));
        assert(seq![l[0]] + l.skip(1) =~= l);
        assert(crate::roundtrip::wf_json(s[0]));
        assert(crate::roundtrip::wf_items(s.skip(1)));
        assert(crate::roundtrip::wf_items(s));
    }
}

/// Writing the model collection and reading the text back yields the
/// collection unchanged; the one premise is that its number tokens are
/// ones this writer may emit.
#[verifier::rlimit(100)]
#[verifier::spinoff_prover]
pub proof fn lemma_models_round_trip(c: ModelsConfigV)
    requires
        wf_models(c.models),
    ensures
        models_of_text(crate::codec::ser_json_pretty(models_json(c), 0)) == c,
{
    reveal_strlit("version");
    reveal_strlit("models");
    assert("version"@.len() == 7);
    assert("models"@.len() == 6);
    crate::numtext::lemma_dec_int_round_trip(c.version as int);
    lemma_models_list_rt(c.models);
    let ms0 = models_json(c)->Obj_0;
    let ms1 = ms0.skip(1);
    assert(ms1 =~= seq![("models"@, JsonV::Arr(models_list_json(c.models)))]);
    assert(ms1.skip(1) =~= Seq::<(Seq<char>, JsonV)>::empty());
    assert(crate::roundtrip::wf_members(ms1.skip(1)));
    assert(crate::roundtrip::wf_json(ms1[0].1)) by {
        assert(ms1[0].1 == JsonV::Arr(models_list_json(c.models)));
    }
    crate::docjson::lemma_wf_members_cons(ms1);
    assert(crate::roundtrip::wf_json(ms0[0].1)) by {
        assert(ms0[0].1 == JsonV::Num(crate::numtext::dec_int(c.version as int)));
        assert(crate::roundtrip::valid_num_text(crate::numtext::dec_int(c.version as int))) by {
            assert(forall|i: int|
                0 <= i < crate::numtext::dec_int(c.version as int).len()
                    ==> crate::numtext::is_dec_int_char(
                    crate::numtext::dec_int(c.version as int)[i],
                ) ==> crate::parse::is_num_char(crate::numtext::dec_int(c.version as int)[i]));
        }
    }
    crate::docjson::lemma_wf_members_cons(ms0);
    assert(crate::roundtrip::wf_json(models_json(c)));
    crate::roundtrip::lemma_parse_ser_pretty(models_json(c));
    crate::roundtrip::lemma_parse_ser_pretty(models_json(c));
    assert(ms0[0].0 == "version"@);
    crate::docjson::lemma_lookup_hit(ms0, "version"@);
    assert(ms0[0].0 != "models"@);
    crate::docjson::lemma_lookup_skip(ms0, "models"@);
    assert(ms1[0].0 == "models"@);
    crate::docjson::lemma_lookup_hit(ms1, "models"@);
    assert(members_lookup(ms0, "models"@) == Some(JsonV::Arr(models_list_json(c.models))));
    assert(models_of_json(models_json(c)) =~= Some(c));
}

} // verus!

use vstd::prelude::*;

use crate::config::{
    AIProviderConfig, AIProviderConfigV, AIProviderType, ModelType, ProvidersConfig,
    ProvidersConfigV, SelectedModel, SelectedModelV,
};
use crate::docjson::{
    field_bool, field_i64, field_opt_bool, field_opt_i64, field_opt_str, field_str, jv_bool,
    jv_i64, jv_lookup, jv_opt_bool, jv_opt_i64, jv_opt_str, jv_str, opt_bool_json,
    opt_bool_to_json, opt_i64_json, opt_i64_to_json, opt_str_json, opt_str_to_json,
};
use crate::docmcp::{
    field_opt_str_map, jv_opt_str_map, opt_str_map_json, opt_str_map_to_json,
};
use crate::json::{json_member_views, json_view, json_views, str_eq, Json, JsonV};
use crate::json::{lemma_json_member_views_len, lemma_json_views_len, members_lookup};
use crate::numtext::{dec_int, i64_to_string};
use crate::codec::{json_to_string, ser_json};
use crate::parse::{parse_json, parse_text};

verus! {

// ===== the two closed enums, stored as lower-case tags =====

/// The tag a provider type is stored under.
pub open spec fn provider_type_tag(t: AIProviderType) -> Seq<char> {
    match t {
        AIProviderType::OpenAI => "openai"@,
        AIProviderType::Azure => "azure"@,
        AIProviderType::Anthropic => "anthropic"@,
        AIProviderType::Ollama => "ollama"@,
        AIProviderType::Custom => "custom"@,
    }
}

/// The provider type a tag names, if any.
pub open spec fn provider_type_of_tag(s: Seq<char>) -> Option<AIProviderType> {
    if s == "openai"@ {
        Some(AIProviderType::OpenAI)
    } else if s == "azure"@ {
        Some(AIProviderType::Azure)
    } else if s == "anthropic"@ {
        Some(AIProviderType::Anthropic)
    } else if s == "ollama"@ {
        Some(AIProviderType::Ollama)
    } else if s == "custom"@ {
        Some(AIProviderType::Custom)
    } else {
        None
    }
}

/// Tags are read back as the type they were written from.
pub proof fn lemma_provider_type_tag(t: AIProviderType)
    ensures
        provider_type_of_tag(provider_type_tag(t)) == Some(t),
{
    reveal_strlit("openai");
    reveal_strlit("azure");
    reveal_strlit("anthropic");
    reveal_strlit("ollama");
    reveal_strlit("custom");
    assert("openai"@.len() == 6);
    assert("azure"@.len() == 5);
    assert("anthropic"@.len() == 9);
    assert("ollama"@.len() == 6);
    assert("custom"@.len() == 6);
    assert("openai"@[0] == 'o');
    assert("ollama"@[0] == 'o');
    assert("custom"@[0] == 'c');
    assert("openai"@[1] == 'p');
    assert("ollama"@[1] == 'l');
}

pub fn provider_type_to_string(t: &AIProviderType) -> (r: String)
    ensures
        r@ == provider_type_tag(*t),
{
    match t {
        AIProviderType::OpenAI => "openai".to_owned(),
        AIProviderType::Azure => "azure".to_owned(),
        AIProviderType::Anthropic => "anthropic".to_owned(),
        AIProviderType::Ollama => "ollama".to_owned(),
        AIProviderType::Custom => "custom".to_owned(),
    }
}

pub fn provider_type_from_str(s: &str) -> (r: Option<AIProviderType>)
    ensures
        r == provider_type_of_tag(s@),
{
    if str_eq(s, "openai") {
        Some(AIProviderType::OpenAI)
    } else if str_eq(s, "azure") {
        Some(AIProviderType::Azure)
    } else if str_eq(s, "anthropic") {
        Some(AIProviderType::Anthropic)
    } else if str_eq(s, "ollama") {
        Some(AIProviderType::Ollama)
    } else if str_eq(s, "custom") {
        Some(AIProviderType::Custom)
    } else {
        None
    }
}

/// The tag a model type is stored under.
pub open spec fn model_type_tag(t: ModelType) -> Seq<char> {
    match t {
        ModelType::Chat => "chat"@,
        ModelType::Embedding => "embedding"@,
        ModelType::Multimodal => "multimodal"@,
    }
}

/// The model type a tag names, if any.
pub open spec fn model_type_of_tag(s: Seq<char>) -> Option<ModelType> {
    if s == "chat"@ {
        Some(ModelType::Chat)
    } else if s == "embedding"@ {
        Some(ModelType::Embedding)
    } else if s == "multimodal"@ {
        Some(ModelType::Multimodal)
    } else {
        None
    }
}

/// Tags are read back as the type they were written from.
pub proof fn lemma_model_type_tag(t: ModelType)
    ensures
        model_type_of_tag(model_type_tag(t)) == Some(t),
{
    reveal_strlit("chat");
    reveal_strlit("embedding");
    reveal_strlit("multimodal");
    assert("chat"@.len() == 4);
    assert("embedding"@.len() == 9);
    assert("multimodal"@.len() == 10);
}

pub fn model_type_to_string(t: &ModelType) -> (r: String)
    ensures
        r@ == model_type_tag(*t),
{
    match t {
        ModelType::Chat => "chat".to_owned(),
        ModelType::Embedding => "embedding".to_owned(),
        ModelType::Multimodal => "multimodal".to_owned(),
    }
}

pub fn model_type_from_str(s: &str) -> (r: Option<ModelType>)
    ensures
        r == model_type_of_tag(s@),
{
    if str_eq(s, "chat") {
        Some(ModelType::Chat)
    } else if str_eq(s, "embedding") {
        Some(ModelType::Embedding)
    } else if str_eq(s, "multimodal") {
        Some(ModelType::Multimodal)
    } else {
        None
    }
}

// ===== one selected model =====

/// The JSON object that stores one selected model.
pub open spec fn selected_model_json(v: SelectedModelV) -> JsonV {
    JsonV::Obj(seq![
        ("id"@, JsonV::Str(v.id)),
        ("name"@, JsonV::Str(v.name)),
        ("displayName"@, opt_str_json(v.display_name)),
        ("modelType"@, JsonV::Str(model_type_tag(v.model_type))),
        ("contextWindow"@, opt_i64_json(v.context_window)),
        ("supportsVision"@, opt_bool_json(v.supports_vision)),
        ("supportsTools"@, opt_bool_json(v.supports_tools)),
        ("supportsStreaming"@, opt_bool_json(v.supports_streaming)),
    ])
}

/// Reads one selected model from a JSON value.
pub open spec fn selected_model_of_json(j: JsonV) -> Option<SelectedModelV> {
    let id = jv_str(jv_lookup(j, "id"@));
    let name = jv_str(jv_lookup(j, "name"@));
    let display_name = jv_opt_str(jv_lookup(j, "displayName"@));
    let model_type = match jv_str(jv_lookup(j, "modelType"@)) {
        Some(s) => model_type_of_tag(s),
        None => None,
    };
    let context_window = jv_opt_i64(jv_lookup(j, "contextWindow"@));
    let supports_vision = jv_opt_bool(jv_lookup(j, "supportsVision"@));
    let supports_tools = jv_opt_bool(jv_lookup(j, "supportsTools"@));
    let supports_streaming = jv_opt_bool(jv_lookup(j, "supportsStreaming"@));
    if j is Obj && id is Some && name is Some && display_name is Some && model_type is Some
        && context_window is Some && supports_vision is Some && supports_tools is Some
        && supports_streaming is Some {
        Some(
            SelectedModelV {
                id: id->0,
                name: name->0,
                display_name: display_name->0,
                model_type: model_type->0,
                context_window: context_window->0,
                supports_vision: supports_vision->0,
                supports_tools: supports_tools->0,
                supports_streaming: supports_streaming->0,
            },
        )
    } else {
        None
    }
}

/// Builds the JSON object for one selected model.
pub fn selected_model_to_json(v: &SelectedModel) -> (r: Json)
    ensures
        json_view(r) == selected_model_json(v.deep_view()),
{
    let mut ms: Vec<(String, Json)> = Vec::new();
    ms.push(("id".to_owned(), Json::Str(v.id.clone())));
    ms.push(("name".to_owned(), Json::Str(v.name.clone())));
    ms.push(("displayName".to_owned(), opt_str_to_json(&v.display_name)));
    ms.push(("modelType".to_owned(), Json::Str(model_type_to_string(&v.model_type))));
    ms.push(("contextWindow".to_owned(), opt_i64_to_json(&v.context_window)));
    ms.push(("supportsVision".to_owned(), opt_bool_to_json(&v.supports_vision)));
    ms.push(("supportsTools".to_owned(), opt_bool_to_json(&v.supports_tools)));
    ms.push(("supportsStreaming".to_owned(), opt_bool_to_json(&v.supports_streaming)));
    let r = Json::Obj(ms);
    proof {
        let target = selected_model_json(v.deep_view());
        lemma_json_member_views_len(r->Obj_0@);
        assert(json_member_views(r->Obj_0@) =~= target->Obj_0);
        assert(json_view(r) == target);
    }
    r
}

/// Reads one selected model from a parsed JSON value.
pub fn selected_model_of(j: &Json) -> (r: Option<SelectedModel>)
    ensures
        match r {
            Some(v) => selected_model_of_json(json_view(*j)) == Some(v.deep_view()),
            None => selected_model_of_json(json_view(*j)) is None,
        },
{
    match j {
        Json::Obj(_) => {},
        _ => {
            return None;
        },
    }
    let id = match field_str(j, "id") {
        Some(v) => v,
        None => {
            return None;
        },
    };
    let name = match field_str(j, "name") {
        Some(v) => v,
        None => {
            return None;
        },
    };
    let display_name = match field_opt_str(j, "displayName") {
        Some(v) => v,
        None => {
            return None;
        },
    };
    let type_tag = match field_str(j, "modelType") {
        Some(v) => v,
        None => {
            return None;
        },
    };
    let model_type = match model_type_from_str(type_tag.as_str()) {
        Some(v) => v,
        None => {
            return None;
        },
    };
    let context_window = match field_opt_i64(j, "contextWindow") {
        Some(v) => v,
        None => {
            return None;
        },
    };
    let supports_vision = match field_opt_bool(j, "supportsVision") {
        Some(v) => v,
        None => {
            return None;
        },
    };
    let supports_tools = match field_opt_bool(j, "supportsTools") {
        Some(v) => v,
        None => {
            return None;
        },
    };
    let supports_streaming = match field_opt_bool(j, "supportsStreaming") {
        Some(v) => v,
        None => {
            return None;
        },
    };
    Some(
        SelectedModel {
            id,
            name,
            display_name,
            model_type,
            context_window,
            supports_vision,
            supports_tools,
            supports_streaming,
        },
    )
}

// ===== the optional selected-model list =====

/// The JSON nodes for a list of selected models.
pub open spec fn selected_list_json(l: Seq<SelectedModelV>) -> Seq<JsonV>
    decreases l.len(),
{
    if l.len() == 0 {
        Seq::empty()
    } else {
        seq![selected_model_json(l[0])] + selected_list_json(l.skip(1))
    }
}

/// Reads a list of selected models; one bad entry fails the whole
/// list.
pub open spec fn selected_list_of_json(l: Seq<JsonV>) -> Option<Seq<SelectedModelV>>
    decreases l.len(),
{
    if l.len() == 0 {
        Some(Seq::empty())
    } else {
        match selected_model_of_json(l[0]) {
            Some(v) => match selected_list_of_json(l.skip(1)) {
                Some(rest) => Some(seq![v] + rest),
                None => None,
            },
            None => None,
        }
    }
}

pub open spec fn opt_selected_list_json(o: Option<Seq<SelectedModelV>>) -> JsonV {
    match o {
        Some(l) => JsonV::Arr(selected_list_json(l)),
        None => JsonV::Null,
    }
}

/// An optional selected-model list member.
pub open spec fn jv_opt_selected_list(o: Option<JsonV>) -> Option<Option<Seq<SelectedModelV>>> {
    match o {
        None => Some(None),
        Some(JsonV::Null) => Some(None),
        Some(JsonV::Arr(l)) => match selected_list_of_json(l) {
            Some(v) => Some(Some(v)),
            None => None,
        },
        Some(_) => None,
    }
}

/// Builds the array node for an optional selected-model list.
pub fn opt_selected_list_to_json(o: &Option<Vec<SelectedModel>>) -> (r: Json)
    ensures
        json_view(r) == opt_selected_list_json(o.deep_view()),
{
    match o {
        None => Json::Null,
        Some(l) => {
            let mut out: Vec<Json> = Vec::new();
            let n = l.len();
            let mut i: usize = 0;
            while i < n
                invariant
                    n == l@.len(),
                    0 <= i <= n,
                    json_views(out@) =~= selected_list_json(l.deep_view().take(i as int)),
                    out@.len() == i,
                decreases n - i,
            {
                proof {
                    lemma_json_views_len(out@);
                }
                let node = selected_model_to_json(&l[i]);
                out.push(node);
                proof {
                    lemma_json_views_len(out@);
                    lemma_selected_list_take_step(l.deep_view(), i as int);
                    assert(json_views(out@) =~= selected_list_json(
                        l.deep_view().take(i as int + 1),
                    ));
                }
                i += 1;
            }
            proof {
                assert(l.deep_view().take(n as int) =~= l.deep_view());
            }
            Json::Arr(out)
        },
    }
}

proof fn lemma_selected_list_take_step(l: Seq<SelectedModelV>, i: int)
    requires
        0 <= i < l.len(),
    ensures
        selected_list_json(l.take(i + 1)) == selected_list_json(l.take(i)).push(
            selected_model_json(l[i]),
        ),
    decreases i,
{
    if i == 0 {
        assert(selected_list_json(Seq::<SelectedModelV>::empty()) == Seq::<JsonV>::empty());
        assert(l.take(1)[0] == l[0]);
        assert(l.take(1).skip(1) =~= Seq::<SelectedModelV>::empty());
        assert(selected_list_json(l.take(1)) =~= seq![selected_model_json(l[0])]);
        assert(l.take(0) =~= Seq::<SelectedModelV>::empty());
        assert(selected_list_json(l.take(0)).push(selected_model_json(l[0])) =~= seq![
            selected_model_json(l[0]),
        ]);
    } else {
        lemma_selected_list_take_step(l.skip(1), i - 1);
        assert(l.take(i + 1)[0] == l[0]);
        assert(l.take(i + 1).skip(1) =~= l.skip(1).take(i));
        assert(l.take(i)[0] == l[0]);
        assert(l.take(i).skip(1) =~= l.skip(1).take(i - 1));
        assert(l.skip(1)[i - 1] == l[i]);
        assert(selected_list_json(l.take(i + 1)) == seq![selected_model_json(l[0])]
            + selected_list_json(l.skip(1).take(i)));
        assert(selected_list_json(l.take(i)) == seq![selected_model_json(l[0])]
            + selected_list_json(l.skip(1).take(i - 1)));
        assert(seq![selected_model_json(l[0])] + selected_list_json(l.skip(1).take(i - 1)).push(
            selected_model_json(l[i]),
        ) =~= (seq![selected_model_json(l[0])] + selected_list_json(l.skip(1).take(i - 1))).push(
            selected_model_json(l[i]),
        ));
    }
}

/// Fetches an optional selected-model list member.
pub fn field_opt_selected_list(j: &Json, key: &str) -> (r: Option<Option<Vec<SelectedModel>>>)
    ensures
        match r {
            Some(o) => jv_opt_selected_list(jv_lookup(json_view(*j), key@)) == Some(o.deep_view()),
            None => jv_opt_selected_list(jv_lookup(json_view(*j), key@)) is None,
        },
{
    match j.get(key) {
        None => Some(None),
        Some(Json::Null) => Some(None),
        Some(Json::Arr(l)) => {
            proof {
                lemma_json_views_len(l@);
            }
            let mut out: Vec<SelectedModel> = Vec::new();
            proof {
                assert(json_views(l@).skip(0) =~= json_views(l@));
                assert(out.deep_view() =~= Seq::<SelectedModelV>::empty());
                match selected_list_of_json(json_views(l@)) {
                    Some(r0) => {
                        assert(out.deep_view() + r0 =~= r0);
                    },
                    None => {},
                }
            }
            let n = l.len();
            let mut i: usize = 0;
            while i < n
                invariant
                    n == l@.len(),
                    0 <= i <= n,
                    json_views(l@).len() == n,
                    forall|t: int| 0 <= t < n ==> json_views(l@)[t] == json_view(l@[t]),
                    selected_list_of_json(json_views(l@)) == (match selected_list_of_json(
                        json_views(l@).skip(i as int),
                    ) {
                        Some(rest) => Some(out.deep_view() + rest),
                        None => None::<Seq<SelectedModelV>>,
                    }),
                    out@.len() == i,
                    jv_lookup(json_view(*j), key@) == Some(JsonV::Arr(json_views(l@))),
                decreases n - i,
            {
                proof {
                    assert(json_views(l@).skip(i as int)[0] == json_views(l@)[i as int]);
                    assert(json_views(l@).skip(i as int).skip(1) =~= json_views(l@).skip(
                        i as int + 1,
                    ));
                }
                match selected_model_of(&l[i]) {
                    Some(v) => {
                        out.push(v);
                        proof {
                            lemma_selected_prepend(
                                out.deep_view(),
                                selected_list_of_json(json_views(l@).skip(i as int + 1)),
                            );
                        }
                    },
                    None => {
                        proof {
                            assert(selected_list_of_json(json_views(l@).skip(i as int)) is None);
                        }
                        return None;
                    },
                }
                i += 1;
            }
            proof {
                assert(json_views(l@).skip(n as int) =~= Seq::<JsonV>::empty());
                assert(out.deep_view() + Seq::<SelectedModelV>::empty() =~= out.deep_view());
            }
            Some(Some(out))
        },
        Some(_) => None,
    }
}

proof fn lemma_selected_prepend(acc_new: Seq<SelectedModelV>, rest: Option<Seq<SelectedModelV>>)
    requires
        acc_new.len() > 0,
    ensures
        match rest {
            Some(r) => acc_new.drop_last() + (seq![acc_new.last()] + r) =~= acc_new + r,
            None => true,
        },
{
}

// ===== one provider =====

/// The JSON object that stores one provider.
pub open spec fn provider_json(v: AIProviderConfigV) -> JsonV {
    JsonV::Obj(seq![
        ("id"@, JsonV::Str(v.id)),
        ("type"@, JsonV::Str(provider_type_tag(v.provider_type))),
        ("name"@, JsonV::Str(v.name)),
        ("enabled"@, JsonV::Bool(v.enabled)),
        ("isDefault"@, JsonV::Bool(v.is_default)),
        ("apiKey"@, JsonV::Str(v.api_key)),
        ("baseUrl"@, opt_str_json(v.base_url)),
        ("azureEndpoint"@, opt_str_json(v.azure_endpoint)),
        ("azureDeployment"@, opt_str_json(v.azure_deployment)),
        ("azureApiVersion"@, opt_str_json(v.azure_api_version)),
        ("customHeaders"@, opt_str_map_json(v.custom_headers)),
        ("selectedModels"@, opt_selected_list_json(v.selected_models)),
        ("connectionStatus"@, opt_str_json(v.connection_status)),
        ("lastTestedAt"@, opt_i64_json(v.last_tested_at)),
    ])
}

/// Reads one provider from a JSON value.
pub open spec fn provider_of_json(j: JsonV) -> Option<AIProviderConfigV> {
    let id = jv_str(jv_lookup(j, "id"@));
    let provider_type = match jv_str(jv_lookup(j, "type"@)) {
        Some(s) => provider_type_of_tag(s),
        None => None,
    };
    let name = jv_str(jv_lookup(j, "name"@));
    let enabled = jv_bool(jv_lookup(j, "enabled"@));
    let is_default = jv_bool(jv_lookup(j, "isDefault"@));
    let api_key = jv_str(jv_lookup(j, "apiKey"@));
    let base_url = jv_opt_str(jv_lookup(j, "baseUrl"@));
    let azure_endpoint = jv_opt_str(jv_lookup(j, "azureEndpoint"@));
    let azure_deployment = jv_opt_str(jv_lookup(j, "azureDeployment"@));
    let azure_api_version = jv_opt_str(jv_lookup(j, "azureApiVersion"@));
    let custom_headers = jv_opt_str_map(jv_lookup(j, "customHeaders"@));
    let selected_models = jv_opt_selected_list(jv_lookup(j, "selectedModels"@));
    let connection_status = jv_opt_str(jv_lookup(j, "connectionStatus"@));
    let last_tested_at = jv_opt_i64(jv_lookup(j, "lastTestedAt"@));
    if j is Obj && id is Some && provider_type is Some && name is Some && enabled is Some
        && is_default is Some && api_key is Some && base_url is Some && azure_endpoint is Some
        && azure_deployment is Some && azure_api_version is Some && custom_headers is Some
        && selected_models is Some && connection_status is Some && last_tested_at is Some {
        Some(
            AIProviderConfigV {
                id: id->0,
                provider_type: provider_type->0,
                name: name->0,
                enabled: enabled->0,
                is_default: is_default->0,
                api_key: api_key->0,
                base_url: base_url->0,
                azure_endpoint: azure_endpoint->0,
                azure_deployment: azure_deployment->0,
                azure_api_version: azure_api_version->0,
                custom_headers: custom_headers->0,
                selected_models: selected_models->0,
                connection_status: connection_status->0,
                last_tested_at: last_tested_at->0,
            },
        )
    } else {
        None
    }
}

/// Builds the JSON object for one provider.
pub fn provider_to_json(v: &AIProviderConfig) -> (r: Json)
    ensures
        json_view(r) == provider_json(v.deep_view()),
{
    let mut ms: Vec<(String, Json)> = Vec::new();
    ms.push(("id".to_owned(), Json::Str(v.id.clone())));
    ms.push(("type".to_owned(), Json::Str(provider_type_to_string(&v.provider_type))));
    ms.push(("name".to_owned(), Json::Str(v.name.clone())));
    ms.push(("enabled".to_owned(), Json::Bool(v.enabled)));
    ms.push(("isDefault".to_owned(), Json::Bool(v.is_default)));
    ms.push(("apiKey".to_owned(), Json::Str(v.api_key.clone())));
    ms.push(("baseUrl".to_owned(), opt_str_to_json(&v.base_url)));
    ms.push(("azureEndpoint".to_owned(), opt_str_to_json(&v.azure_endpoint)));
    ms.push(("azureDeployment".to_owned(), opt_str_to_json(&v.azure_deployment)));
    ms.push(("azureApiVersion".to_owned(), opt_str_to_json(&v.azure_api_version)));
    ms.push(("customHeaders".to_owned(), opt_str_map_to_json(&v.custom_headers)));
    ms.push(("selectedModels".to_owned(), opt_selected_list_to_json(&v.selected_models)));
    ms.push(("connectionStatus".to_owned(), opt_str_to_json(&v.connection_status)));
    ms.push(("lastTestedAt".to_owned(), opt_i64_to_json(&v.last_tested_at)));
    let r = Json::Obj(ms);
    proof {
        let target = provider_json(v.deep_view());
        lemma_json_member_views_len(r->Obj_0@);
        assert(json_member_views(r->Obj_0@) =~= target->Obj_0);
        assert(json_view(r) == target);
    }
    r
}

/// Reads one provider from a parsed JSON value.
pub fn provider_of(j: &Json) -> (r: Option<AIProviderConfig>)
    ensures
        match r {
            Some(v) => provider_of_json(json_view(*j)) == Some(v.deep_view()),
            None => provider_of_json(json_view(*j)) is None,
        },
{
    match j {
        Json::Obj(_) => {},
        _ => {
            return None;
        },
    }
    let id = match field_str(j, "id") {
        Some(v) => v,
        None => {
            return None;
        },
    };
    let type_tag = match field_str(j, "type") {
        Some(v) => v,
        None => {
            return None;
        },
    };
    let provider_type = match provider_type_from_str(type_tag.as_str()) {
        Some(v) => v,
        None => {
            return None;
        },
    };
    let name = match field_str(j, "name") {
        Some(v) => v,
        None => {
            return None;
        },
    };
    let enabled = match field_bool(j, "enabled") {
        Some(v) => v,
        None => {
            return None;
        },
    };
    let is_default = match field_bool(j, "isDefault") {
        Some(v) => v,
        None => {
            return None;
        },
    };
    let api_key = match field_str(j, "apiKey") {
        Some(v) => v,
        None => {
            return None;
        },
    };
    let base_url = match field_opt_str(j, "baseUrl") {
        Some(v) => v,
        None => {
            return None;
        },
    };
    let azure_endpoint = match field_opt_str(j, "azureEndpoint") {
        Some(v) => v,
        None => {
            return None;
        },
    };
    let azure_deployment = match field_opt_str(j, "azureDeployment") {
        Some(v) => v,
        None => {
            return None;
        },
    };
    let azure_api_version = match field_opt_str(j, "azureApiVersion") {
        Some(v) => v,
        None => {
            return None;
        },
    };
    let custom_headers = match field_opt_str_map(j, "customHeaders") {
        Some(v) => v,
        None => {
            return None;
        },
    };
    let selected_models = match field_opt_selected_list(j, "selectedModels") {
        Some(v) => v,
        None => {
            return None;
        },
    };
    let connection_status = match field_opt_str(j, "connectionStatus") {
        Some(v) => v,
        None => {
            return None;
        },
    };
    let last_tested_at = match field_opt_i64(j, "lastTestedAt") {
        Some(v) => v,
        None => {
            return None;
        },
    };
    Some(
        AIProviderConfig {
            id,
            provider_type,
            name,
            enabled,
            is_default,
            api_key,
            base_url,
            azure_endpoint,
            azure_deployment,
            azure_api_version,
            custom_headers,
            selected_models,
            connection_status,
            last_tested_at,
        },
    )
}

// ===== the whole document =====

/// The JSON nodes for a list of providers.
pub open spec fn providers_list_json(l: Seq<AIProviderConfigV>) -> Seq<JsonV>
    decreases l.len(),
{
    if l.len() == 0 {
        Seq::empty()
    } else {
        seq![provider_json(l[0])] + providers_list_json(l.skip(1))
    }
}

/// Reads a list of providers; one bad entry fails the whole list.
pub open spec fn providers_list_of_json(l: Seq<JsonV>) -> Option<Seq<AIProviderConfigV>>
    decreases l.len(),
{
    if l.len() == 0 {
        Some(Seq::empty())
    } else {
        match provider_of_json(l[0]) {
            Some(v) => match providers_list_of_json(l.skip(1)) {
                Some(rest) => Some(seq![v] + rest),
                None => None,
            },
            None => None,
        }
    }
}

/// The JSON document that stores the provider collection.
pub open spec fn providers_json(c: ProvidersConfigV) -> JsonV {
    JsonV::Obj(seq![
        ("version"@, JsonV::Num(dec_int(c.version as int))),
        ("providers"@, JsonV::Arr(providers_list_json(c.providers))),
    ])
}

/// Reads the whole provider collection document.
pub open spec fn providers_of_json(j: JsonV) -> Option<ProvidersConfigV> {
    let version = jv_i64(jv_lookup(j, "version"@));
    let providers = match jv_lookup(j, "providers"@) {
        Some(JsonV::Arr(l)) => providers_list_of_json(l),
        _ => None,
    };
    if j is Obj && version is Some && i32::MIN <= version->0 <= i32::MAX && providers is Some {
        Some(ProvidersConfigV { version: version->0 as i32, providers: providers->0 })
    } else {
        None
    }
}

/// What reading a provider collection file with this text yields.
pub open spec fn providers_of_text(s: Seq<char>) -> ProvidersConfigV {
    match parse_text(s) {
        Some(j) => match providers_of_json(j) {
            Some(c) => c,
            None => ProvidersConfigV { version: 1, providers: Seq::empty() },
        },
        None => ProvidersConfigV { version: 1, providers: Seq::empty() },
    }
}

/// Builds the JSON document for the collection.
pub fn providers_to_json(c: &ProvidersConfig) -> (r: Json)
    ensures
        json_view(r) == providers_json(c.deep_view()),
{
    let mut list: Vec<Json> = Vec::new();
    let n = c.providers.len();
    let mut i: usize = 0;
    while i < n
        invariant
            n == c.providers@.len(),
            0 <= i <= n,
            json_views(list@) =~= providers_list_json(c.providers.deep_view().take(i as int)),
            list@.len() == i,
        decreases n - i,
    {
        proof {
            lemma_json_views_len(list@);
        }
        let node = provider_to_json(&c.providers[i]);
        list.push(node);
        proof {
            lemma_json_views_len(list@);
            lemma_providers_list_take_step(c.providers.deep_view(), i as int);
            assert(json_views(list@) =~= providers_list_json(
                c.providers.deep_view().take(i as int + 1),
            ));
        }
        i += 1;
    }
    proof {
        assert(c.providers.deep_view().take(n as int) =~= c.providers.deep_view());
    }
    let mut ms: Vec<(String, Json)> = Vec::new();
    ms.push(("version".to_owned(), Json::Num(i64_to_string(c.version as i64))));
    ms.push(("providers".to_owned(), Json::Arr(list)));
    let r = Json::Obj(ms);
    proof {
        let target = providers_json(c.deep_view());
        lemma_json_member_views_len(r->Obj_0@);
        assert(json_member_views(r->Obj_0@) =~= target->Obj_0);
        assert(json_view(r) == target);
    }
    r
}

proof fn lemma_providers_list_take_step(l: Seq<AIProviderConfigV>, i: int)
    requires
        0 <= i < l.len(),
    ensures
        providers_list_json(l.take(i + 1)) == providers_list_json(l.take(i)).push(
            provider_json(l[i]),
        ),
    decreases i,
{
    if i == 0 {
        assert(providers_list_json(Seq::<AIProviderConfigV>::empty()) == Seq::<JsonV>::empty());
        assert(l.take(1)[0] == l[0]);
        assert(l.take(1).skip(1) =~= Seq::<AIProviderConfigV>::empty());
        assert(providers_list_json(l.take(1)) =~= seq![provider_json(l[0])]);
        assert(l.take(0) =~= Seq::<AIProviderConfigV>::empty());
        assert(providers_list_json(l.take(0)).push(provider_json(l[0])) =~= seq![
            provider_json(l[0]),
        ]);
    } else {
        lemma_providers_list_take_step(l.skip(1), i - 1);
        assert(l.take(i + 1)[0] == l[0]);
        assert(l.take(i + 1).skip(1) =~= l.skip(1).take(i));
        assert(l.take(i)[0] == l[0]);
        assert(l.take(i).skip(1) =~= l.skip(1).take(i - 1));
        assert(l.skip(1)[i - 1] == l[i]);
        assert(providers_list_json(l.take(i + 1)) == seq![provider_json(l[0])]
            + providers_list_json(l.skip(1).take(i)));
        assert(providers_list_json(l.take(i)) == seq![provider_json(l[0])]
            + providers_list_json(l.skip(1).take(i - 1)));
        assert(seq![provider_json(l[0])] + providers_list_json(l.skip(1).take(i - 1)).push(
            provider_json(l[i]),
        ) =~= (seq![provider_json(l[0])] + providers_list_json(l.skip(1).take(i - 1))).push(
            provider_json(l[i]),
        ));
    }
}

/// The exact text written for the collection: the pretty layout of
/// its document.
pub fn write_providers(c: &ProvidersConfig) -> (r: String)
    ensures
        r@ == crate::codec::ser_json_pretty(providers_json(c.deep_view()), 0),
{
    let j = providers_to_json(c);
    crate::codec::json_to_string_pretty(&j)
}

/// Reads the provider collection from file content; a missing file, or
/// any malformed or ill-typed text, yields the empty collection at
/// schema version 1, never a failure.
pub fn read_providers(content: Option<&str>) -> (r: ProvidersConfig)
    ensures
        match content {
            None => r.version == 1 && r.providers@.len() == 0,
            Some(s) => s@.len() <= 0x0fff_ffff_ffff_ffff ==> r.deep_view() == providers_of_text(
                s@,
            ),
        },
{
    let text = match content {
        None => {
            return ProvidersConfig::default();
        },
        Some(t) => t,
    };
    let j = match parse_json(text) {
        None => {
            let d = ProvidersConfig::default();
            proof {
                if text@.len() <= 0x0fff_ffff_ffff_ffff {
                    assert(providers_of_text(text@) =~= d.deep_view());
                }
            }
            return d;
        },
        Some(j) => j,
    };
    match providers_of(&j) {
        Some(c) => c,
        None => {
            let d = ProvidersConfig::default();
            proof {
                if text@.len() <= 0x0fff_ffff_ffff_ffff {
                    assert(providers_of_text(text@) =~= d.deep_view());
                }
            }
            d
        },
    }
}

/// Reads the collection from a parsed JSON value.
pub fn providers_of(j: &Json) -> (r: Option<ProvidersConfig>)
    ensures
        match r {
            Some(c) => providers_of_json(json_view(*j)) == Some(c.deep_view()),
            None => providers_of_json(json_view(*j)) is None,
        },
{
    match j {
        Json::Obj(_) => {},
        _ => {
            return None;
        },
    }
    let version = match field_i64(j, "version") {
        Some(v) => v,
        None => {
            return None;
        },
    };
    if version < i32::MIN as i64 || version > i32::MAX as i64 {
        return None;
    }
    let arr = match j.get("providers") {
        Some(Json::Arr(l)) => l,
        _ => {
            return None;
        },
    };
    proof {
        lemma_json_views_len(arr@);
    }
    let mut providers: Vec<AIProviderConfig> = Vec::new();
    proof {
        assert(json_views(arr@).skip(0) =~= json_views(arr@));
        assert(providers.deep_view() =~= Seq::<AIProviderConfigV>::empty());
        match providers_list_of_json(json_views(arr@)) {
            Some(r0) => {
                assert(providers.deep_view() + r0 =~= r0);
            },
            None => {},
        }
    }
    let n = arr.len();
    let mut i: usize = 0;
    while i < n
        invariant
            n == arr@.len(),
            0 <= i <= n,
            json_views(arr@).len() == n,
            forall|t: int| 0 <= t < n ==> json_views(arr@)[t] == json_view(arr@[t]),
            providers_list_of_json(json_views(arr@)) == (match providers_list_of_json(
                json_views(arr@).skip(i as int),
            ) {
                Some(rest) => Some(providers.deep_view() + rest),
                None => None::<Seq<AIProviderConfigV>>,
            }),
            providers@.len() == i,
            jv_lookup(json_view(*j), "providers"@) == Some(JsonV::Arr(json_views(arr@))),
        decreases n - i,
    {
        proof {
            assert(json_views(arr@).skip(i as int)[0] == json_views(arr@)[i as int]);
            assert(json_views(arr@).skip(i as int).skip(1) =~= json_views(arr@).skip(i as int + 1));
        }
        match provider_of(&arr[i]) {
            Some(v) => {
                providers.push(v);
                proof {
                    lemma_providers_prepend(
                        providers.deep_view(),
                        providers_list_of_json(json_views(arr@).skip(i as int + 1)),
                    );
                }
            },
            None => {
                proof {
                    assert(providers_list_of_json(json_views(arr@).skip(i as int)) is None);
                }
                return None;
            },
        }
        i += 1;
    }
    proof {
        assert(json_views(arr@).skip(n as int) =~= Seq::<JsonV>::empty());
        assert(providers.deep_view() + Seq::<AIProviderConfigV>::empty() =~= providers.deep_view());
    }
    Some(ProvidersConfig { version: version as i32, providers })
}

proof fn lemma_providers_prepend(
    acc_new: Seq<AIProviderConfigV>,
    rest: Option<Seq<AIProviderConfigV>>,
)
    requires
        acc_new.len() > 0,
    ensures
        match rest {
            Some(r) => acc_new.drop_last() + (seq![acc_new.last()] + r) =~= acc_new + r,
            None => true,
        },
{
}


/// Each member of the stored object, looked up by its key.
#[verifier::rlimit(100)]
#[verifier::spinoff_prover]
proof fn lemma_selected_lookups(v: SelectedModelV)
    ensures
        jv_lookup(selected_model_json(v), "id"@) == Some(JsonV::Str(v.id)),
        jv_lookup(selected_model_json(v), "name"@) == Some(JsonV::Str(v.name)),
        jv_lookup(selected_model_json(v), "displayName"@) == Some(opt_str_json(v.display_name)),
        jv_lookup(selected_model_json(v), "modelType"@) == Some(JsonV::Str(model_type_tag(v.model_type))),
        jv_lookup(selected_model_json(v), "contextWindow"@) == Some(opt_i64_json(v.context_window)),
        jv_lookup(selected_model_json(v), "supportsVision"@) == Some(opt_bool_json(v.supports_vision)),
        jv_lookup(selected_model_json(v), "supportsTools"@) == Some(opt_bool_json(v.supports_tools)),
        jv_lookup(selected_model_json(v), "supportsStreaming"@) == Some(opt_bool_json(v.supports_streaming)),
{
    reveal_strlit("id");
    reveal_strlit("name");
    reveal_strlit("displayName");
    reveal_strlit("modelType");
    reveal_strlit("contextWindow");
    reveal_strlit("supportsVision");
    reveal_strlit("supportsTools");
    reveal_strlit("supportsStreaming");
    assert("id"@.len() == 2);
    assert("name"@.len() == 4);
    assert("displayName"@.len() == 11);
    assert("modelType"@.len() == 9);
    assert("contextWindow"@.len() == 13);
    assert("supportsVision"@.len() == 14);
    assert("supportsTools"@.len() == 13);
    assert("supportsStreaming"@.len() == 17);
    assert("id"@[0] == 'i');
    assert("name"@[0] == 'n');
    assert("displayName"@[0] == 'd');
    assert("modelType"@[0] == 'm');
    assert("contextWindow"@[0] == 'c');
    assert("supportsVision"@[0] == 's');
    assert("supportsTools"@[0] == 's');
    assert("supportsStreaming"@[0] == 's');
    let ms0 = selected_model_json(v)->Obj_0;
    let ms1 = ms0.skip(1);
    let ms2 = ms1.skip(1);
    let ms3 = ms2.skip(1);
    let ms4 = ms3.skip(1);
    let ms5 = ms4.skip(1);
    let ms6 = ms5.skip(1);
    let ms7 = ms6.skip(1);
    assert(ms1 =~= seq![("name"@, JsonV::Str(v.name)), ("displayName"@, opt_str_json(v.display_name)), ("modelType"@, JsonV::Str(model_type_tag(v.model_type))), ("contextWindow"@, opt_i64_json(v.context_window)), ("supportsVision"@, opt_bool_json(v.supports_vision)), ("supportsTools"@, opt_bool_json(v.supports_tools)), ("supportsStreaming"@, opt_bool_json(v.supports_streaming))]);
    assert(ms2 =~= seq![("displayName"@, opt_str_json(v.display_name)), ("modelType"@, JsonV::Str(model_type_tag(v.model_type))), ("contextWindow"@, opt_i64_json(v.context_window)), ("supportsVision"@, opt_bool_json(v.supports_vision)), ("supportsTools"@, opt_bool_json(v.supports_tools)), ("supportsStreaming"@, opt_bool_json(v.supports_streaming))]);
    assert(ms3 =~= seq![("modelType"@, JsonV::Str(model_type_tag(v.model_type))), ("contextWindow"@, opt_i64_json(v.context_window)), ("supportsVision"@, opt_bool_json(v.supports_vision)), ("supportsTools"@, opt_bool_json(v.supports_tools)), ("supportsStreaming"@, opt_bool_json(v.supports_streaming))]);
    assert(ms4 =~= seq![("contextWindow"@, opt_i64_json(v.context_window)), ("supportsVision"@, opt_bool_json(v.supports_vision)), ("supportsTools"@, opt_bool_json(v.supports_tools)), ("supportsStreaming"@, opt_bool_json(v.supports_streaming))]);
    assert(ms5 =~= seq![("supportsVision"@, opt_bool_json(v.supports_vision)), ("supportsTools"@, opt_bool_json(v.supports_tools)), ("supportsStreaming"@, opt_bool_json(v.supports_streaming))]);
    assert(ms6 =~= seq![("supportsTools"@, opt_bool_json(v.supports_tools)), ("supportsStreaming"@, opt_bool_json(v.supports_streaming))]);
    assert(ms7 =~= seq![("supportsStreaming"@, opt_bool_json(v.supports_streaming))]);
    assert(ms0[0].0 == "id"@);
    crate::docjson::lemma_lookup_hit(ms0, "id"@);
    assert(members_lookup(ms0, "id"@) == Some(JsonV::Str(v.id)));
    assert(ms0[0].0 != "name"@);
    crate::docjson::lemma_lookup_skip(ms0, "name"@);
    assert(ms1[0].0 == "name"@);
    crate::docjson::lemma_lookup_hit(ms1, "name"@);
    assert(members_lookup(ms0, "name"@) == Some(JsonV::Str(v.name)));
    assert(ms0[0].0 != "displayName"@);
    crate::docjson::lemma_lookup_skip(ms0, "displayName"@);
    assert(ms1[0].0 != "displayName"@);
    crate::docjson::lemma_lookup_skip(ms1, "displayName"@);
    assert(ms2[0].0 == "displayName"@);
    crate::docjson::lemma_lookup_hit(ms2, "displayName"@);
    assert(members_lookup(ms0, "displayName"@) == Some(opt_str_json(v.display_name)));
    assert(ms0[0].0 != "modelType"@);
    crate::docjson::lemma_lookup_skip(ms0, "modelType"@);
    assert(ms1[0].0 != "modelType"@);
    crate::docjson::lemma_lookup_skip(ms1, "modelType"@);
    assert(ms2[0].0 != "modelType"@);
    crate::docjson::lemma_lookup_skip(ms2, "modelType"@);
    assert(ms3[0].0 == "modelType"@);
    crate::docjson::lemma_lookup_hit(ms3, "modelType"@);
    assert(members_lookup(ms0, "modelType"@) == Some(JsonV::Str(model_type_tag(v.model_type))));
    assert(ms0[0].0 != "contextWindow"@);
    crate::docjson::lemma_lookup_skip(ms0, "contextWindow"@);
    assert(ms1[0].0 != "contextWindow"@);
    crate::docjson::lemma_lookup_skip(ms1, "contextWindow"@);
    assert(ms2[0].0 != "contextWindow"@);
    crate::docjson::lemma_lookup_skip(ms2, "contextWindow"@);
    assert(ms3[0].0 != "contextWindow"@);
    crate::docjson::lemma_lookup_skip(ms3, "contextWindow"@);
    assert(ms4[0].0 == "contextWindow"@);
    crate::docjson::lemma_lookup_hit(ms4, "contextWindow"@);
    assert(members_lookup(ms0, "contextWindow"@) == Some(opt_i64_json(v.context_window)));
    assert(ms0[0].0 != "supportsVision"@);
    crate::docjson::lemma_lookup_skip(ms0, "supportsVision"@);
    assert(ms1[0].0 != "supportsVision"@);
    crate::docjson::lemma_lookup_skip(ms1, "supportsVision"@);
    assert(ms2[0].0 != "supportsVision"@);
    crate::docjson::lemma_lookup_skip(ms2, "supportsVision"@);
    assert(ms3[0].0 != "supportsVision"@);
    crate::docjson::lemma_lookup_skip(ms3, "supportsVision"@);
    assert(ms4[0].0 != "supportsVision"@);
    crate::docjson::lemma_lookup_skip(ms4, "supportsVision"@);
    assert(ms5[0].0 == "supportsVision"@);
    crate::docjson::lemma_lookup_hit(ms5, "supportsVision"@);
    assert(members_lookup(ms0, "supportsVision"@) == Some(opt_bool_json(v.supports_vision)));
    assert(ms0[0].0 != "supportsTools"@);
    crate::docjson::lemma_lookup_skip(ms0, "supportsTools"@);
    assert(ms1[0].0 != "supportsTools"@);
    crate::docjson::lemma_lookup_skip(ms1, "supportsTools"@);
    assert(ms2[0].0 != "supportsTools"@);
    crate::docjson::lemma_lookup_skip(ms2, "supportsTools"@);
    assert(ms3[0].0 != "supportsTools"@);
    crate::docjson::lemma_lookup_skip(ms3, "supportsTools"@);
    assert(ms4[0].0 != "supportsTools"@);
    crate::docjson::lemma_lookup_skip(ms4, "supportsTools"@);
    assert(ms5[0].0 != "supportsTools"@);
    crate::docjson::lemma_lookup_skip(ms5, "supportsTools"@);
    assert(ms6[0].0 == "supportsTools"@);
    crate::docjson::lemma_lookup_hit(ms6, "supportsTools"@);
    assert(members_lookup(ms0, "supportsTools"@) == Some(opt_bool_json(v.supports_tools)));
    assert(ms0[0].0 != "supportsStreaming"@);
    crate::docjson::lemma_lookup_skip(ms0, "supportsStreaming"@);
    assert(ms1[0].0 != "supportsStreaming"@);
    crate::docjson::lemma_lookup_skip(ms1, "supportsStreaming"@);
    assert(ms2[0].0 != "supportsStreaming"@);
    crate::docjson::lemma_lookup_skip(ms2, "supportsStreaming"@);
    assert(ms3[0].0 != "supportsStreaming"@);
    crate::docjson::lemma_lookup_skip(ms3, "supportsStreaming"@);
    assert(ms4[0].0 != "supportsStreaming"@);
    crate::docjson::lemma_lookup_skip(ms4, "supportsStreaming"@);
    assert(ms5[0].0 != "supportsStreaming"@);
    crate::docjson::lemma_lookup_skip(ms5, "supportsStreaming"@);
    assert(ms6[0].0 != "supportsStreaming"@);
    crate::docjson::lemma_lookup_skip(ms6, "supportsStreaming"@);
    assert(ms7[0].0 == "supportsStreaming"@);
    crate::docjson::lemma_lookup_hit(ms7, "supportsStreaming"@);
    assert(members_lookup(ms0, "supportsStreaming"@) == Some(opt_bool_json(v.supports_streaming)));
}

/// A written entry is well-formed.
#[verifier::rlimit(100)]
#[verifier::spinoff_prover]
proof fn lemma_selected_wf(v: SelectedModelV)
    ensures
        crate::roundtrip::wf_json(selected_model_json(v)),
{
    let ms0 = selected_model_json(v)->Obj_0;
    let ms1 = ms0.skip(1);
    let ms2 = ms1.skip(1);
    let ms3 = ms2.skip(1);
    let ms4 = ms3.skip(1);
    let ms5 = ms4.skip(1);
    let ms6 = ms5.skip(1);
    let ms7 = ms6.skip(1);
    assert(ms1 =~= seq![("name"@, JsonV::Str(v.name)), ("displayName"@, opt_str_json(v.display_name)), ("modelType"@, JsonV::Str(model_type_tag(v.model_type))), ("contextWindow"@, opt_i64_json(v.context_window)), ("supportsVision"@, opt_bool_json(v.supports_vision)), ("supportsTools"@, opt_bool_json(v.supports_tools)), ("supportsStreaming"@, opt_bool_json(v.supports_streaming))]);
    assert(ms2 =~= seq![("displayName"@, opt_str_json(v.display_name)), ("modelType"@, JsonV::Str(model_type_tag(v.model_type))), ("contextWindow"@, opt_i64_json(v.context_window)), ("supportsVision"@, opt_bool_json(v.supports_vision)), ("supportsTools"@, opt_bool_json(v.supports_tools)), ("supportsStreaming"@, opt_bool_json(v.supports_streaming))]);
    assert(ms3 =~= seq![("modelType"@, JsonV::Str(model_type_tag(v.model_type))), ("contextWindow"@, opt_i64_json(v.context_window)), ("supportsVision"@, opt_bool_json(v.supports_vision)), ("supportsTools"@, opt_bool_json(v.supports_tools)), ("supportsStreaming"@, opt_bool_json(v.supports_streaming))]);
    assert(ms4 =~= seq![("contextWindow"@, opt_i64_json(v.context_window)), ("supportsVision"@, opt_bool_json(v.supports_vision)), ("supportsTools"@, opt_bool_json(v.supports_tools)), ("supportsStreaming"@, opt_bool_json(v.supports_streaming))]);
    assert(ms5 =~= seq![("supportsVision"@, opt_bool_json(v.supports_vision)), ("supportsTools"@, opt_bool_json(v.supports_tools)), ("supportsStreaming"@, opt_bool_json(v.supports_streaming))]);
    assert(ms6 =~= seq![("supportsTools"@, opt_bool_json(v.supports_tools)), ("supportsStreaming"@, opt_bool_json(v.supports_streaming))]);
    assert(ms7 =~= seq![("supportsStreaming"@, opt_bool_json(v.supports_streaming))]);
    assert(ms7.skip(1) =~= Seq::<(Seq<char>, JsonV)>::empty());
    assert(crate::roundtrip::wf_members(ms7.skip(1)));
    assert(crate::roundtrip::wf_json(ms7[0].1)) by {
        assert(ms7[0].1 == opt_bool_json(v.supports_streaming));
        match v.supports_streaming {
            Some(_) => {},
            None => {},
        }
    }
    crate::docjson::lemma_wf_members_cons(ms7);
    assert(crate::roundtrip::wf_json(ms6[0].1)) by {
        assert(ms6[0].1 == opt_bool_json(v.supports_tools));
        match v.supports_tools {
            Some(_) => {},
            None => {},
        }
    }
    crate::docjson::lemma_wf_members_cons(ms6);
    assert(crate::roundtrip::wf_json(ms5[0].1)) by {
        assert(ms5[0].1 == opt_bool_json(v.supports_vision));
        match v.supports_vision {
            Some(_) => {},
            None => {},
        }
    }
    crate::docjson::lemma_wf_members_cons(ms5);
    assert(crate::roundtrip::wf_json(ms4[0].1)) by {
        assert(ms4[0].1 == opt_i64_json(v.context_window));
        match v.context_window {
            Some(x) => {
                crate::numtext::lemma_dec_int_round_trip(x as int);
                assert(crate::roundtrip::valid_num_text(crate::numtext::dec_int(x as int))) by {
                    assert(forall|i: int|
                        0 <= i < crate::numtext::dec_int(x as int).len()
                            ==> crate::numtext::is_dec_int_char(crate::numtext::dec_int(x as int)[i])
                            ==> crate::parse::is_num_char(crate::numtext::dec_int(x as int)[i]));
                }
            },
            None => {},
        }
    }
    crate::docjson::lemma_wf_members_cons(ms4);
    assert(crate::roundtrip::wf_json(ms3[0].1)) by {
        assert(ms3[0].1 == JsonV::Str(model_type_tag(v.model_type)));
    }
    crate::docjson::lemma_wf_members_cons(ms3);
    assert(crate::roundtrip::wf_json(ms2[0].1)) by {
        assert(ms2[0].1 == opt_str_json(v.display_name));
        match v.display_name {
            Some(_) => {},
            None => {},
        }
    }
    crate::docjson::lemma_wf_members_cons(ms2);
    assert(crate::roundtrip::wf_json(ms1[0].1)) by {
        assert(ms1[0].1 == JsonV::Str(v.name));
    }
    crate::docjson::lemma_wf_members_cons(ms1);
    assert(crate::roundtrip::wf_json(ms0[0].1)) by {
        assert(ms0[0].1 == JsonV::Str(v.id));
    }
    crate::docjson::lemma_wf_members_cons(ms0);
}

/// A written selected model reads back as itself.
#[verifier::rlimit(100)]
#[verifier::spinoff_prover]
proof fn lemma_selected_of_to(v: SelectedModelV)
    ensures
        selected_model_of_json(selected_model_json(v)) == Some(v),
{
    lemma_selected_lookups(v);
    lemma_model_type_tag(v.model_type);
    assert(jv_opt_str(Some(opt_str_json(v.display_name))) == Some(v.display_name)) by {
        match v.display_name {
            Some(_) => {},
            None => {},
        }
    }
    assert(crate::docjson::jv_opt_i64(Some(opt_i64_json(v.context_window))) == Some(
        v.context_window,
    )) by {
        match v.context_window {
            Some(x) => {
                crate::numtext::lemma_dec_int_round_trip(x as int);
            },
            None => {},
        }
    }
    assert(crate::docjson::jv_opt_bool(Some(opt_bool_json(v.supports_vision))) == Some(
        v.supports_vision,
    )) by {
        match v.supports_vision {
            Some(_) => {},
            None => {},
        }
    }
    assert(crate::docjson::jv_opt_bool(Some(opt_bool_json(v.supports_tools))) == Some(
        v.supports_tools,
    )) by {
        match v.supports_tools {
            Some(_) => {},
            None => {},
        }
    }
    assert(crate::docjson::jv_opt_bool(Some(opt_bool_json(v.supports_streaming))) == Some(
        v.supports_streaming,
    )) by {
        match v.supports_streaming {
            Some(_) => {},
            None => {},
        }
    }
    assert(selected_model_of_json(selected_model_json(v)) == Some(v)) by {
        assert(selected_model_json(v) is Obj);
    }
}

/// A written selected-model list is well-formed and reads back as
/// itself.
proof fn lemma_selected_list_rt(l: Seq<SelectedModelV>)
    ensures
        crate::roundtrip::wf_items(selected_list_json(l)),
        selected_list_of_json(selected_list_json(l)) == Some(l),
    decreases l.len(),
{
    if l.len() == 0 {
        assert(selected_list_json(l) =~= Seq::<JsonV>::empty());
    } else {
        lemma_selected_list_rt(l.skip(1));
        lemma_selected_wf(l[0]);
        lemma_selected_of_to(l[0]);
        let s = selected_list_json(l);
        assert(s[0] == selected_model_json(l[0]));
        assert(s.skip(1) =~= selected_list_json(l.skip(1)));
        assert(seq![l[0]] + l.skip(1) =~= l);
        assert(crate::roundtrip::wf_json(s[0]));
        assert(crate::roundtrip::wf_items(s.skip(1)));
        assert(crate::roundtrip::wf_items(s));
    }
}

/// Each member of the stored object, looked up by its key.
#[verifier::rlimit(100)]
#[verifier::spinoff_prover]
proof fn lemma_provider_lookups(v: AIProviderConfigV)
    ensures
        jv_lookup(provider_json(v), "id"@) == Some(JsonV::Str(v.id)),
        jv_lookup(provider_json(v), "type"@) == Some(JsonV::Str(provider_type_tag(v.provider_type))),
        jv_lookup(provider_json(v), "name"@) == Some(JsonV::Str(v.name)),
        jv_lookup(provider_json(v), "enabled"@) == Some(JsonV::Bool(v.enabled)),
        jv_lookup(provider_json(v), "isDefault"@) == Some(JsonV::Bool(v.is_default)),
        jv_lookup(provider_json(v), "apiKey"@) == Some(JsonV::Str(v.api_key)),
        jv_lookup(provider_json(v), "baseUrl"@) == Some(opt_str_json(v.base_url)),
        jv_lookup(provider_json(v), "azureEndpoint"@) == Some(opt_str_json(v.azure_endpoint)),
        jv_lookup(provider_json(v), "azureDeployment"@) == Some(opt_str_json(v.azure_deployment)),
        jv_lookup(provider_json(v), "azureApiVersion"@) == Some(opt_str_json(v.azure_api_version)),
        jv_lookup(provider_json(v), "customHeaders"@) == Some(opt_str_map_json(v.custom_headers)),
        jv_lookup(provider_json(v), "selectedModels"@) == Some(opt_selected_list_json(v.selected_models)),
        jv_lookup(provider_json(v), "connectionStatus"@) == Some(opt_str_json(v.connection_status)),
        jv_lookup(provider_json(v), "lastTestedAt"@) == Some(opt_i64_json(v.last_tested_at)),
{
    reveal_strlit("id");
    reveal_strlit("type");
    reveal_strlit("name");
    reveal_strlit("enabled");
    reveal_strlit("isDefault");
    reveal_strlit("apiKey");
    reveal_strlit("baseUrl");
    reveal_strlit("azureEndpoint");
    reveal_strlit("azureDeployment");
    reveal_strlit("azureApiVersion");
    reveal_strlit("customHeaders");
    reveal_strlit("selectedModels");
    reveal_strlit("connectionStatus");
    reveal_strlit("lastTestedAt");
    assert("id"@.len() == 2);
    assert("type"@.len() == 4);
    assert("name"@.len() == 4);
    assert("enabled"@.len() == 7);
    assert("isDefault"@.len() == 9);
    assert("apiKey"@.len() == 6);
    assert("baseUrl"@.len() == 7);
    assert("azureEndpoint"@.len() == 13);
    assert("azureDeployment"@.len() == 15);
    assert("azureApiVersion"@.len() == 15);
    assert("customHeaders"@.len() == 13);
    assert("selectedModels"@.len() == 14);
    assert("connectionStatus"@.len() == 16);
    assert("lastTestedAt"@.len() == 12);
    assert("id"@[0] == 'i');
    assert("type"@[0] == 't');
    assert("name"@[0] == 'n');
    assert("enabled"@[0] == 'e');
    assert("isDefault"@[0] == 'i');
    assert("apiKey"@[0] == 'a');
    assert("baseUrl"@[0] == 'b');
    assert("azureEndpoint"@[0] == 'a');
    assert("azureDeployment"@[0] == 'a');
    assert("azureApiVersion"@[0] == 'a');
    assert("customHeaders"@[0] == 'c');
    assert("selectedModels"@[0] == 's');
    assert("connectionStatus"@[0] == 'c');
    assert("lastTestedAt"@[0] == 'l');
    assert("azureDeployment"@[5] == 'D');
    assert("azureApiVersion"@[5] == 'A');
    let ms0 = provider_json(v)->Obj_0;
    let ms1 = ms0.skip(1);
    let ms2 = ms1.skip(1);
    let ms3 = ms2.skip(1);
    let ms4 = ms3.skip(1);
    let ms5 = ms4.skip(1);
    let ms6 = ms5.skip(1);
    let ms7 = ms6.skip(1);
    let ms8 = ms7.skip(1);
    let ms9 = ms8.skip(1);
    let ms10 = ms9.skip(1);
    let ms11 = ms10.skip(1);
    let ms12 = ms11.skip(1);
    let ms13 = ms12.skip(1);
    assert(ms1 =~= seq![("type"@, JsonV::Str(provider_type_tag(v.provider_type))), ("name"@, JsonV::Str(v.name)), ("enabled"@, JsonV::Bool(v.enabled)), ("isDefault"@, JsonV::Bool(v.is_default)), ("apiKey"@, JsonV::Str(v.api_key)), ("baseUrl"@, opt_str_json(v.base_url)), ("azureEndpoint"@, opt_str_json(v.azure_endpoint)), ("azureDeployment"@, opt_str_json(v.azure_deployment)), ("azureApiVersion"@, opt_str_json(v.azure_api_version)), ("customHeaders"@, opt_str_map_json(v.custom_headers)), ("selectedModels"@, opt_selected_list_json(v.selected_models)), ("connectionStatus"@, opt_str_json(v.connection_status)), ("lastTestedAt"@, opt_i64_json(v.last_tested_at))]);
    assert(ms2 =~= seq![("name"@, JsonV::Str(v.name)), ("enabled"@, JsonV::Bool(v.enabled)), ("isDefault"@, JsonV::Bool(v.is_default)), ("apiKey"@, JsonV::Str(v.api_key)), ("baseUrl"@, opt_str_json(v.base_url)), ("azureEndpoint"@, opt_str_json(v.azure_endpoint)), ("azureDeployment"@, opt_str_json(v.azure_deployment)), ("azureApiVersion"@, opt_str_json(v.azure_api_version)), ("customHeaders"@, opt_str_map_json(v.custom_headers)), ("selectedModels"@, opt_selected_list_json(v.selected_models)), ("connectionStatus"@, opt_str_json(v.connection_status)), ("lastTestedAt"@, opt_i64_json(v.last_tested_at))]);
    assert(ms3 =~= seq![("enabled"@, JsonV::Bool(v.enabled)), ("isDefault"@, JsonV::Bool(v.is_default)), ("apiKey"@, JsonV::Str(v.api_key)), ("baseUrl"@, opt_str_json(v.base_url)), ("azureEndpoint"@, opt_str_json(v.azure_endpoint)), ("azureDeployment"@, opt_str_json(v.azure_deployment)), ("azureApiVersion"@, opt_str_json(v.azure_api_version)), ("customHeaders"@, opt_str_map_json(v.custom_headers)), ("selectedModels"@, opt_selected_list_json(v.selected_models)), ("connectionStatus"@, opt_str_json(v.connection_status)), ("lastTestedAt"@, opt_i64_json(v.last_tested_at))]);
    assert(ms4 =~= seq![("isDefault"@, JsonV::Bool(v.is_default)), ("apiKey"@, JsonV::Str(v.api_key)), ("baseUrl"@, opt_str_json(v.base_url)), ("azureEndpoint"@, opt_str_json(v.azure_endpoint)), ("azureDeployment"@, opt_str_json(v.azure_deployment)), ("azureApiVersion"@, opt_str_json(v.azure_api_version)), ("customHeaders"@, opt_str_map_json(v.custom_headers)), ("selectedModels"@, opt_selected_list_json(v.selected_models)), ("connectionStatus"@, opt_str_json(v.connection_status)), ("lastTestedAt"@, opt_i64_json(v.last_tested_at))]);
    assert(ms5 =~= seq![("apiKey"@, JsonV::Str(v.api_key)), ("baseUrl"@, opt_str_json(v.base_url)), ("azureEndpoint"@, opt_str_json(v.azure_endpoint)), ("azureDeployment"@, opt_str_json(v.azure_deployment)), ("azureApiVersion"@, opt_str_json(v.azure_api_version)), ("customHeaders"@, opt_str_map_json(v.custom_headers)), ("selectedModels"@, opt_selected_list_json(v.selected_models)), ("connectionStatus"@, opt_str_json(v.connection_status)), ("lastTestedAt"@, opt_i64_json(v.last_tested_at))]);
    assert(ms6 =~= seq![("baseUrl"@, opt_str_json(v.base_url)), ("azureEndpoint"@, opt_str_json(v.azure_endpoint)), ("azureDeployment"@, opt_str_json(v.azure_deployment)), ("azureApiVersion"@, opt_str_json(v.azure_api_version)), ("customHeaders"@, opt_str_map_json(v.custom_headers)), ("selectedModels"@, opt_selected_list_json(v.selected_models)), ("connectionStatus"@, opt_str_json(v.connection_status)), ("lastTestedAt"@, opt_i64_json(v.last_tested_at))]);
    assert(ms7 =~= seq![("azureEndpoint"@, opt_str_json(v.azure_endpoint)), ("azureDeployment"@, opt_str_json(v.azure_deployment)), ("azureApiVersion"@, opt_str_json(v.azure_api_version)), ("customHeaders"@, opt_str_map_json(v.custom_headers)), ("selectedModels"@, opt_selected_list_json(v.selected_models)), ("connectionStatus"@, opt_str_json(v.connection_status)), ("lastTestedAt"@, opt_i64_json(v.last_tested_at))]);
    assert(ms8 =~= seq![("azureDeployment"@, opt_str_json(v.azure_deployment)), ("azureApiVersion"@, opt_str_json(v.azure_api_version)), ("customHeaders"@, opt_str_map_json(v.custom_headers)), ("selectedModels"@, opt_selected_list_json(v.selected_models)), ("connectionStatus"@, opt_str_json(v.connection_status)), ("lastTestedAt"@, opt_i64_json(v.last_tested_at))]);
    assert(ms9 =~= seq![("azureApiVersion"@, opt_str_json(v.azure_api_version)), ("customHeaders"@, opt_str_map_json(v.custom_headers)), ("selectedModels"@, opt_selected_list_json(v.selected_models)), ("connectionStatus"@, opt_str_json(v.connection_status)), ("lastTestedAt"@, opt_i64_json(v.last_tested_at))]);
    assert(ms10 =~= seq![("customHeaders"@, opt_str_map_json(v.custom_headers)), ("selectedModels"@, opt_selected_list_json(v.selected_models)), ("connectionStatus"@, opt_str_json(v.connection_status)), ("lastTestedAt"@, opt_i64_json(v.last_tested_at))]);
    assert(ms11 =~= seq![("selectedModels"@, opt_selected_list_json(v.selected_models)), ("connectionStatus"@, opt_str_json(v.connection_status)), ("lastTestedAt"@, opt_i64_json(v.last_tested_at))]);
    assert(ms12 =~= seq![("connectionStatus"@, opt_str_json(v.connection_status)), ("lastTestedAt"@, opt_i64_json(v.last_tested_at))]);
    assert(ms13 =~= seq![("lastTestedAt"@, opt_i64_json(v.last_tested_at))]);
    assert(ms0[0].0 == "id"@);
    crate::docjson::lemma_lookup_hit(ms0, "id"@);
    assert(members_lookup(ms0, "id"@) == Some(JsonV::Str(v.id)));
    assert(ms0[0].0 != "type"@);
    crate::docjson::lemma_lookup_skip(ms0, "type"@);
    assert(ms1[0].0 == "type"@);
    crate::docjson::lemma_lookup_hit(ms1, "type"@);
    assert(members_lookup(ms0, "type"@) == Some(JsonV::Str(provider_type_tag(v.provider_type))));
    assert(ms0[0].0 != "name"@);
    crate::docjson::lemma_lookup_skip(ms0, "name"@);
    assert(ms1[0].0 != "name"@);
    crate::docjson::lemma_lookup_skip(ms1, "name"@);
    assert(ms2[0].0 == "name"@);
    crate::docjson::lemma_lookup_hit(ms2, "name"@);
    assert(members_lookup(ms0, "name"@) == Some(JsonV::Str(v.name)));
    assert(ms0[0].0 != "enabled"@);
    crate::docjson::lemma_lookup_skip(ms0, "enabled"@);
    assert(ms1[0].0 != "enabled"@);
    crate::docjson::lemma_lookup_skip(ms1, "enabled"@);
    assert(ms2[0].0 != "enabled"@);
    crate::docjson::lemma_lookup_skip(ms2, "enabled"@);
    assert(ms3[0].0 == "enabled"@);
    crate::docjson::lemma_lookup_hit(ms3, "enabled"@);
    assert(members_lookup(ms0, "enabled"@) == Some(JsonV::Bool(v.enabled)));
    assert(ms0[0].0 != "isDefault"@);
    crate::docjson::lemma_lookup_skip(ms0, "isDefault"@);
    assert(ms1[0].0 != "isDefault"@);
    crate::docjson::lemma_lookup_skip(ms1, "isDefault"@);
    assert(ms2[0].0 != "isDefault"@);
    crate::docjson::lemma_lookup_skip(ms2, "isDefault"@);
    assert(ms3[0].0 != "isDefault"@);
    crate::docjson::lemma_lookup_skip(ms3, "isDefault"@);
    assert(ms4[0].0 == "isDefault"@);
    crate::docjson::lemma_lookup_hit(ms4, "isDefault"@);
    assert(members_lookup(ms0, "isDefault"@) == Some(JsonV::Bool(v.is_default)));
    assert(ms0[0].0 != "apiKey"@);
    crate::docjson::lemma_lookup_skip(ms0, "apiKey"@);
    assert(ms1[0].0 != "apiKey"@);
    crate::docjson::lemma_lookup_skip(ms1, "apiKey"@);
    assert(ms2[0].0 != "apiKey"@);
    crate::docjson::lemma_lookup_skip(ms2, "apiKey"@);
    assert(ms3[0].0 != "apiKey"@);
    crate::docjson::lemma_lookup_skip(ms3, "apiKey"@);
    assert(ms4[0].0 != "apiKey"@);
    crate::docjson::lemma_lookup_skip(ms4, "apiKey"@);
    assert(ms5[0].0 == "apiKey"@);
    crate::docjson::lemma_lookup_hit(ms5, "apiKey"@);
    assert(members_lookup(ms0, "apiKey"@) == Some(JsonV::Str(v.api_key)));
    assert(ms0[0].0 != "baseUrl"@);
    crate::docjson::lemma_lookup_skip(ms0, "baseUrl"@);
    assert(ms1[0].0 != "baseUrl"@);
    crate::docjson::lemma_lookup_skip(ms1, "baseUrl"@);
    assert(ms2[0].0 != "baseUrl"@);
    crate::docjson::lemma_lookup_skip(ms2, "baseUrl"@);
    assert(ms3[0].0 != "baseUrl"@);
    crate::docjson::lemma_lookup_skip(ms3, "baseUrl"@);
    assert(ms4[0].0 != "baseUrl"@);
    crate::docjson::lemma_lookup_skip(ms4, "baseUrl"@);
    assert(ms5[0].0 != "baseUrl"@);
    crate::docjson::lemma_lookup_skip(ms5, "baseUrl"@);
    assert(ms6[0].0 == "baseUrl"@);
    crate::docjson::lemma_lookup_hit(ms6, "baseUrl"@);
    assert(members_lookup(ms0, "baseUrl"@) == Some(opt_str_json(v.base_url)));
    assert(ms0[0].0 != "azureEndpoint"@);
    crate::docjson::lemma_lookup_skip(ms0, "azureEndpoint"@);
    assert(ms1[0].0 != "azureEndpoint"@);
    crate::docjson::lemma_lookup_skip(ms1, "azureEndpoint"@);
    assert(ms2[0].0 != "azureEndpoint"@);
    crate::docjson::lemma_lookup_skip(ms2, "azureEndpoint"@);
    assert(ms3[0].0 != "azureEndpoint"@);
    crate::docjson::lemma_lookup_skip(ms3, "azureEndpoint"@);
    assert(ms4[0].0 != "azureEndpoint"@);
    crate::docjson::lemma_lookup_skip(ms4, "azureEndpoint"@);
    assert(ms5[0].0 != "azureEndpoint"@);
    crate::docjson::lemma_lookup_skip(ms5, "azureEndpoint"@);
    assert(ms6[0].0 != "azureEndpoint"@);
    crate::docjson::lemma_lookup_skip(ms6, "azureEndpoint"@);
    assert(ms7[0].0 == "azureEndpoint"@);
    crate::docjson::lemma_lookup_hit(ms7, "azureEndpoint"@);
    assert(members_lookup(ms0, "azureEndpoint"@) == Some(opt_str_json(v.azure_endpoint)));
    assert(ms0[0].0 != "azureDeployment"@);
    crate::docjson::lemma_lookup_skip(ms0, "azureDeployment"@);
    assert(ms1[0].0 != "azureDeployment"@);
    crate::docjson::lemma_lookup_skip(ms1, "azureDeployment"@);
    assert(ms2[0].0 != "azureDeployment"@);
    crate::docjson::lemma_lookup_skip(ms2, "azureDeployment"@);
    assert(ms3[0].0 != "azureDeployment"@);
    crate::docjson::lemma_lookup_skip(ms3, "azureDeployment"@);
    assert(ms4[0].0 != "azureDeployment"@);
    crate::docjson::lemma_lookup_skip(ms4, "azureDeployment"@);
    assert(ms5[0].0 != "azureDeployment"@);
    crate::docjson::lemma_lookup_skip(ms5, "azureDeployment"@);
    assert(ms6[0].0 != "azureDeployment"@);
    crate::docjson::lemma_lookup_skip(ms6, "azureDeployment"@);
    assert(ms7[0].0 != "azureDeployment"@);
    crate::docjson::lemma_lookup_skip(ms7, "azureDeployment"@);
    assert(ms8[0].0 == "azureDeployment"@);
    crate::docjson::lemma_lookup_hit(ms8, "azureDeployment"@);
    assert(members_lookup(ms0, "azureDeployment"@) == Some(opt_str_json(v.azure_deployment)));
    assert(ms0[0].0 != "azureApiVersion"@);
    crate::docjson::lemma_lookup_skip(ms0, "azureApiVersion"@);
    assert(ms1[0].0 != "azureApiVersion"@);
    crate::docjson::lemma_lookup_skip(ms1, "azureApiVersion"@);
    assert(ms2[0].0 != "azureApiVersion"@);
    crate::docjson::lemma_lookup_skip(ms2, "azureApiVersion"@);
    assert(ms3[0].0 != "azureApiVersion"@);
    crate::docjson::lemma_lookup_skip(ms3, "azureApiVersion"@);
    assert(ms4[0].0 != "azureApiVersion"@);
    crate::docjson::lemma_lookup_skip(ms4, "azureApiVersion"@);
    assert(ms5[0].0 != "azureApiVersion"@);
    crate::docjson::lemma_lookup_skip(ms5, "azureApiVersion"@);
    assert(ms6[0].0 != "azureApiVersion"@);
    crate::docjson::lemma_lookup_skip(ms6, "azureApiVersion"@);
    assert(ms7[0].0 != "azureApiVersion"@);
    crate::docjson::lemma_lookup_skip(ms7, "azureApiVersion"@);
    assert(ms8[0].0 != "azureApiVersion"@);
    crate::docjson::lemma_lookup_skip(ms8, "azureApiVersion"@);
    assert(ms9[0].0 == "azureApiVersion"@);
    crate::docjson::lemma_lookup_hit(ms9, "azureApiVersion"@);
    assert(members_lookup(ms0, "azureApiVersion"@) == Some(opt_str_json(v.azure_api_version)));
    assert(ms0[0].0 != "customHeaders"@);
    crate::docjson::lemma_lookup_skip(ms0, "customHeaders"@);
    assert(ms1[0].0 != "customHeaders"@);
    crate::docjson::lemma_lookup_skip(ms1, "customHeaders"@);
    assert(ms2[0].0 != "customHeaders"@);
    crate::docjson::lemma_lookup_skip(ms2, "customHeaders"@);
    assert(ms3[0].0 != "customHeaders"@);
    crate::docjson::lemma_lookup_skip(ms3, "customHeaders"@);
    assert(ms4[0].0 != "customHeaders"@);
    crate::docjson::lemma_lookup_skip(ms4, "customHeaders"@);
    assert(ms5[0].0 != "customHeaders"@);
    crate::docjson::lemma_lookup_skip(ms5, "customHeaders"@);
    assert(ms6[0].0 != "customHeaders"@);
    crate::docjson::lemma_lookup_skip(ms6, "customHeaders"@);
    assert(ms7[0].0 != "customHeaders"@);
    crate::docjson::lemma_lookup_skip(ms7, "customHeaders"@);
    assert(ms8[0].0 != "customHeaders"@);
    crate::docjson::lemma_lookup_skip(ms8, "customHeaders"@);
    assert(ms9[0].0 != "customHeaders"@);
    crate::docjson::lemma_lookup_skip(ms9, "customHeaders"@);
    assert(ms10[0].0 == "customHeaders"@);
    crate::docjson::lemma_lookup_hit(ms10, "customHeaders"@);
    assert(members_lookup(ms0, "customHeaders"@) == Some(opt_str_map_json(v.custom_headers)));
    assert(ms0[0].0 != "selectedModels"@);
    crate::docjson::lemma_lookup_skip(ms0, "selectedModels"@);
    assert(ms1[0].0 != "selectedModels"@);
    crate::docjson::lemma_lookup_skip(ms1, "selectedModels"@);
    assert(ms2[0].0 != "selectedModels"@);
    crate::docjson::lemma_lookup_skip(ms2, "selectedModels"@);
    assert(ms3[0].0 != "selectedModels"@);
    crate::docjson::lemma_lookup_skip(ms3, "selectedModels"@);
    assert(ms4[0].0 != "selectedModels"@);
    crate::docjson::lemma_lookup_skip(ms4, "selectedModels"@);
    assert(ms5[0].0 != "selectedModels"@);
    crate::docjson::lemma_lookup_skip(ms5, "selectedModels"@);
    assert(ms6[0].0 != "selectedModels"@);
    crate::docjson::lemma_lookup_skip(ms6, "selectedModels"@);
    assert(ms7[0].0 != "selectedModels"@);
    crate::docjson::lemma_lookup_skip(ms7, "selectedModels"@);
    assert(ms8[0].0 != "selectedModels"@);
    crate::docjson::lemma_lookup_skip(ms8, "selectedModels"@);
    assert(ms9[0].0 != "selectedModels"@);
    crate::docjson::lemma_lookup_skip(ms9, "selectedModels"@);
    assert(ms10[0].0 != "selectedModels"@);
    crate::docjson::lemma_lookup_skip(ms10, "selectedModels"@);
    assert(ms11[0].0 == "selectedModels"@);
    crate::docjson::lemma_lookup_hit(ms11, "selectedModels"@);
    assert(members_lookup(ms0, "selectedModels"@) == Some(opt_selected_list_json(v.selected_models)));
    assert(ms0[0].0 != "connectionStatus"@);
    crate::docjson::lemma_lookup_skip(ms0, "connectionStatus"@);
    assert(ms1[0].0 != "connectionStatus"@);
    crate::docjson::lemma_lookup_skip(ms1, "connectionStatus"@);
    assert(ms2[0].0 != "connectionStatus"@);
    crate::docjson::lemma_lookup_skip(ms2, "connectionStatus"@);
    assert(ms3[0].0 != "connectionStatus"@);
    crate::docjson::lemma_lookup_skip(ms3, "connectionStatus"@);
    assert(ms4[0].0 != "connectionStatus"@);
    crate::docjson::lemma_lookup_skip(ms4, "connectionStatus"@);
    assert(ms5[0].0 != "connectionStatus"@);
    crate::docjson::lemma_lookup_skip(ms5, "connectionStatus"@);
    assert(ms6[0].0 != "connectionStatus"@);
    crate::docjson::lemma_lookup_skip(ms6, "connectionStatus"@);
    assert(ms7[0].0 != "connectionStatus"@);
    crate::docjson::lemma_lookup_skip(ms7, "connectionStatus"@);
    assert(ms8[0].0 != "connectionStatus"@);
    crate::docjson::lemma_lookup_skip(ms8, "connectionStatus"@);
    assert(ms9[0].0 != "connectionStatus"@);
    crate::docjson::lemma_lookup_skip(ms9, "connectionStatus"@);
    assert(ms10[0].0 != "connectionStatus"@);
    crate::docjson::lemma_lookup_skip(ms10, "connectionStatus"@);
    assert(ms11[0].0 != "connectionStatus"@);
    crate::docjson::lemma_lookup_skip(ms11, "connectionStatus"@);
    assert(ms12[0].0 == "connectionStatus"@);
    crate::docjson::lemma_lookup_hit(ms12, "connectionStatus"@);
    assert(members_lookup(ms0, "connectionStatus"@) == Some(opt_str_json(v.connection_status)));
    assert(ms0[0].0 != "lastTestedAt"@);
    crate::docjson::lemma_lookup_skip(ms0, "lastTestedAt"@);
    assert(ms1[0].0 != "lastTestedAt"@);
    crate::docjson::lemma_lookup_skip(ms1, "lastTestedAt"@);
    assert(ms2[0].0 != "lastTestedAt"@);
    crate::docjson::lemma_lookup_skip(ms2, "lastTestedAt"@);
    assert(ms3[0].0 != "lastTestedAt"@);
    crate::docjson::lemma_lookup_skip(ms3, "lastTestedAt"@);
    assert(ms4[0].0 != "lastTestedAt"@);
    crate::docjson::lemma_lookup_skip(ms4, "lastTestedAt"@);
    assert(ms5[0].0 != "lastTestedAt"@);
    crate::docjson::lemma_lookup_skip(ms5, "lastTestedAt"@);
    assert(ms6[0].0 != "lastTestedAt"@);
    crate::docjson::lemma_lookup_skip(ms6, "lastTestedAt"@);
    assert(ms7[0].0 != "lastTestedAt"@);
    crate::docjson::lemma_lookup_skip(ms7, "lastTestedAt"@);
    assert(ms8[0].0 != "lastTestedAt"@);
    crate::docjson::lemma_lookup_skip(ms8, "lastTestedAt"@);
    assert(ms9[0].0 != "lastTestedAt"@);
    crate::docjson::lemma_lookup_skip(ms9, "lastTestedAt"@);
    assert(ms10[0].0 != "lastTestedAt"@);
    crate::docjson::lemma_lookup_skip(ms10, "lastTestedAt"@);
    assert(ms11[0].0 != "lastTestedAt"@);
    crate::docjson::lemma_lookup_skip(ms11, "lastTestedAt"@);
    assert(ms12[0].0 != "lastTestedAt"@);
    crate::docjson::lemma_lookup_skip(ms12, "lastTestedAt"@);
    assert(ms13[0].0 == "lastTestedAt"@);
    crate::docjson::lemma_lookup_hit(ms13, "lastTestedAt"@);
    assert(members_lookup(ms0, "lastTestedAt"@) == Some(opt_i64_json(v.last_tested_at)));
}

/// A written entry is well-formed.
#[verifier::rlimit(100)]
#[verifier::spinoff_prover]
proof fn lemma_provider_wf(v: AIProviderConfigV)
    ensures
        crate::roundtrip::wf_json(provider_json(v)),
{
    let ms0 = provider_json(v)->Obj_0;
    let ms1 = ms0.skip(1);
    let ms2 = ms1.skip(1);
    let ms3 = ms2.skip(1);
    let ms4 = ms3.skip(1);
    let ms5 = ms4.skip(1);
    let ms6 = ms5.skip(1);
    let ms7 = ms6.skip(1);
    let ms8 = ms7.skip(1);
    let ms9 = ms8.skip(1);
    let ms10 = ms9.skip(1);
    let ms11 = ms10.skip(1);
    let ms12 = ms11.skip(1);
    let ms13 = ms12.skip(1);
    assert(ms1 =~= seq![("type"@, JsonV::Str(provider_type_tag(v.provider_type))), ("name"@, JsonV::Str(v.name)), ("enabled"@, JsonV::Bool(v.enabled)), ("isDefault"@, JsonV::Bool(v.is_default)), ("apiKey"@, JsonV::Str(v.api_key)), ("baseUrl"@, opt_str_json(v.base_url)), ("azureEndpoint"@, opt_str_json(v.azure_endpoint)), ("azureDeployment"@, opt_str_json(v.azure_deployment)), ("azureApiVersion"@, opt_str_json(v.azure_api_version)), ("customHeaders"@, opt_str_map_json(v.custom_headers)), ("selectedModels"@, opt_selected_list_json(v.selected_models)), ("connectionStatus"@, opt_str_json(v.connection_status)), ("lastTestedAt"@, opt_i64_json(v.last_tested_at))]);
    assert(ms2 =~= seq![("name"@, JsonV::Str(v.name)), ("enabled"@, JsonV::Bool(v.enabled)), ("isDefault"@, JsonV::Bool(v.is_default)), ("apiKey"@, JsonV::Str(v.api_key)), ("baseUrl"@, opt_str_json(v.base_url)), ("azureEndpoint"@, opt_str_json(v.azure_endpoint)), ("azureDeployment"@, opt_str_json(v.azure_deployment)), ("azureApiVersion"@, opt_str_json(v.azure_api_version)), ("customHeaders"@, opt_str_map_json(v.custom_headers)), ("selectedModels"@, opt_selected_list_json(v.selected_models)), ("connectionStatus"@, opt_str_json(v.connection_status)), ("lastTestedAt"@, opt_i64_json(v.last_tested_at))]);
    assert(ms3 =~= seq![("enabled"@, JsonV::Bool(v.enabled)), ("isDefault"@, JsonV::Bool(v.is_default)), ("apiKey"@, JsonV::Str(v.api_key)), ("baseUrl"@, opt_str_json(v.base_url)), ("azureEndpoint"@, opt_str_json(v.azure_endpoint)), ("azureDeployment"@, opt_str_json(v.azure_deployment)), ("azureApiVersion"@, opt_str_json(v.azure_api_version)), ("customHeaders"@, opt_str_map_json(v.custom_headers)), ("selectedModels"@, opt_selected_list_json(v.selected_models)), ("connectionStatus"@, opt_str_json(v.connection_status)), ("lastTestedAt"@, opt_i64_json(v.last_tested_at))]);
    assert(ms4 =~= seq![("isDefault"@, JsonV::Bool(v.is_default)), ("apiKey"@, JsonV::Str(v.api_key)), ("baseUrl"@, opt_str_json(v.base_url)), ("azureEndpoint"@, opt_str_json(v.azure_endpoint)), ("azureDeployment"@, opt_str_json(v.azure_deployment)), ("azureApiVersion"@, opt_str_json(v.azure_api_version)), ("customHeaders"@, opt_str_map_json(v.custom_headers)), ("selectedModels"@, opt_selected_list_json(v.selected_models)), ("connectionStatus"@, opt_str_json(v.connection_status)), ("lastTestedAt"@, opt_i64_json(v.last_tested_at))]);
    assert(ms5 =~= seq![("apiKey"@, JsonV::Str(v.api_key)), ("baseUrl"@, opt_str_json(v.base_url)), ("azureEndpoint"@, opt_str_json(v.azure_endpoint)), ("azureDeployment"@, opt_str_json(v.azure_deployment)), ("azureApiVersion"@, opt_str_json(v.azure_api_version)), ("customHeaders"@, opt_str_map_json(v.custom_headers)), ("selectedModels"@, opt_selected_list_json(v.selected_models)), ("connectionStatus"@, opt_str_json(v.connection_status)), ("lastTestedAt"@, opt_i64_json(v.last_tested_at))]);
    assert(ms6 =~= seq![("baseUrl"@, opt_str_json(v.base_url)), ("azureEndpoint"@, opt_str_json(v.azure_endpoint)), ("azureDeployment"@, opt_str_json(v.azure_deployment)), ("azureApiVersion"@, opt_str_json(v.azure_api_version)), ("customHeaders"@, opt_str_map_json(v.custom_headers)), ("selectedModels"@, opt_selected_list_json(v.selected_models)), ("connectionStatus"@, opt_str_json(v.connection_status)), ("lastTestedAt"@, opt_i64_json(v.last_tested_at))]);
    assert(ms7 =~= seq![("azureEndpoint"@, opt_str_json(v.azure_endpoint)), ("azureDeployment"@, opt_str_json(v.azure_deployment)), ("azureApiVersion"@, opt_str_json(v.azure_api_version)), ("customHeaders"@, opt_str_map_json(v.custom_headers)), ("selectedModels"@, opt_selected_list_json(v.selected_models)), ("connectionStatus"@, opt_str_json(v.connection_status)), ("lastTestedAt"@, opt_i64_json(v.last_tested_at))]);
    assert(ms8 =~= seq![("azureDeployment"@, opt_str_json(v.azure_deployment)), ("azureApiVersion"@, opt_str_json(v.azure_api_version)), ("customHeaders"@, opt_str_map_json(v.custom_headers)), ("selectedModels"@, opt_selected_list_json(v.selected_models)), ("connectionStatus"@, opt_str_json(v.connection_status)), ("lastTestedAt"@, opt_i64_json(v.last_tested_at))]);
    assert(ms9 =~= seq![("azureApiVersion"@, opt_str_json(v.azure_api_version)), ("customHeaders"@, opt_str_map_json(v.custom_headers)), ("selectedModels"@, opt_selected_list_json(v.selected_models)), ("connectionStatus"@, opt_str_json(v.connection_status)), ("lastTestedAt"@, opt_i64_json(v.last_tested_at))]);
    assert(ms10 =~= seq![("customHeaders"@, opt_str_map_json(v.custom_headers)), ("selectedModels"@, opt_selected_list_json(v.selected_models)), ("connectionStatus"@, opt_str_json(v.connection_status)), ("lastTestedAt"@, opt_i64_json(v.last_tested_at))]);
    assert(ms11 =~= seq![("selectedModels"@, opt_selected_list_json(v.selected_models)), ("connectionStatus"@, opt_str_json(v.connection_status)), ("lastTestedAt"@, opt_i64_json(v.last_tested_at))]);
    assert(ms12 =~= seq![("connectionStatus"@, opt_str_json(v.connection_status)), ("lastTestedAt"@, opt_i64_json(v.last_tested_at))]);
    assert(ms13 =~= seq![("lastTestedAt"@, opt_i64_json(v.last_tested_at))]);
    assert(ms13.skip(1) =~= Seq::<(Seq<char>, JsonV)>::empty());
    assert(crate::roundtrip::wf_members(ms13.skip(1)));
    assert(crate::roundtrip::wf_json(ms13[0].1)) by {
        assert(ms13[0].1 == opt_i64_json(v.last_tested_at));
        match v.last_tested_at {
            Some(x) => {
                crate::numtext::lemma_dec_int_round_trip(x as int);
                assert(crate::roundtrip::valid_num_text(crate::numtext::dec_int(x as int))) by {
                    assert(forall|i: int|
                        0 <= i < crate::numtext::dec_int(x as int).len()
                            ==> crate::numtext::is_dec_int_char(crate::numtext::dec_int(x as int)[i])
                            ==> crate::parse::is_num_char(crate::numtext::dec_int(x as int)[i]));
                }
            },
            None => {},
        }
    }
    crate::docjson::lemma_wf_members_cons(ms13);
    assert(crate::roundtrip::wf_json(ms12[0].1)) by {
        assert(ms12[0].1 == opt_str_json(v.connection_status));
        match v.connection_status {
            Some(_) => {},
            None => {},
        }
    }
    crate::docjson::lemma_wf_members_cons(ms12);
    assert(crate::roundtrip::wf_json(ms11[0].1)) by {
        assert(ms11[0].1 == opt_selected_list_json(v.selected_models));
        match v.selected_models {
            Some(l) => {
                lemma_selected_list_rt(l);
            },
            None => {},
        }
    }
    crate::docjson::lemma_wf_members_cons(ms11);
    assert(crate::roundtrip::wf_json(ms10[0].1)) by {
        assert(ms10[0].1 == opt_str_map_json(v.custom_headers));
        match v.custom_headers {
            Some(m) => {
                crate::docmcp::lemma_str_map_rt(m);
            },
            None => {},
        }
    }
    crate::docjson::lemma_wf_members_cons(ms10);
    assert(crate::roundtrip::wf_json(ms9[0].1)) by {
        assert(ms9[0].1 == opt_str_json(v.azure_api_version));
        match v.azure_api_version {
            Some(_) => {},
            None => {},
        }
    }
    crate::docjson::lemma_wf_members_cons(ms9);
    assert(crate::roundtrip::wf_json(ms8[0].1)) by {
        assert(ms8[0].1 == opt_str_json(v.azure_deployment));
        match v.azure_deployment {
            Some(_) => {},
            None => {},
        }
    }
    crate::docjson::lemma_wf_members_cons(ms8);
    assert(crate::roundtrip::wf_json(ms7[0].1)) by {
        assert(ms7[0].1 == opt_str_json(v.azure_endpoint));
        match v.azure_endpoint {
            Some(_) => {},
            None => {},
        }
    }
    crate::docjson::lemma_wf_members_cons(ms7);
    assert(crate::roundtrip::wf_json(ms6[0].1)) by {
        assert(ms6[0].1 == opt_str_json(v.base_url));
        match v.base_url {
            Some(_) => {},
            None => {},
        }
    }
    crate::docjson::lemma_wf_members_cons(ms6);
    assert(crate::roundtrip::wf_json(ms5[0].1)) by {
        assert(ms5[0].1 == JsonV::Str(v.api_key));
    }
    crate::docjson::lemma_wf_members_cons(ms5);
    assert(crate::roundtrip::wf_json(ms4[0].1)) by {
        assert(ms4[0].1 == JsonV::Bool(v.is_default));
    }
    crate::docjson::lemma_wf_members_cons(ms4);
    assert(crate::roundtrip::wf_json(ms3[0].1)) by {
        assert(ms3[0].1 == JsonV::Bool(v.enabled));
    }
    crate::docjson::lemma_wf_members_cons(ms3);
    assert(crate::roundtrip::wf_json(ms2[0].1)) by {
        assert(ms2[0].1 == JsonV::Str(v.name));
    }
    crate::docjson::lemma_wf_members_cons(ms2);
    assert(crate::roundtrip::wf_json(ms1[0].1)) by {
        assert(ms1[0].1 == JsonV::Str(provider_type_tag(v.provider_type)));
    }
    crate::docjson::lemma_wf_members_cons(ms1);
    assert(crate::roundtrip::wf_json(ms0[0].1)) by {
        assert(ms0[0].1 == JsonV::Str(v.id));
    }
    crate::docjson::lemma_wf_members_cons(ms0);
}

/// A written provider reads back as itself.
#[verifier::rlimit(100)]
#[verifier::spinoff_prover]
proof fn lemma_provider_of_to(v: AIProviderConfigV)
    ensures
        provider_of_json(provider_json(v)) == Some(v),
{
    lemma_provider_lookups(v);
    lemma_provider_type_tag(v.provider_type);
    assert(jv_opt_str(Some(opt_str_json(v.base_url))) == Some(v.base_url)) by {
        match v.base_url {
            Some(_) => {},
            None => {},
        }
    }
    assert(jv_opt_str(Some(opt_str_json(v.azure_endpoint))) == Some(v.azure_endpoint)) by {
        match v.azure_endpoint {
            Some(_) => {},
            None => {},
        }
    }
    assert(jv_opt_str(Some(opt_str_json(v.azure_deployment))) == Some(v.azure_deployment)) by {
        match v.azure_deployment {
            Some(_) => {},
            None => {},
        }
    }
    assert(jv_opt_str(Some(opt_str_json(v.azure_api_version))) == Some(v.azure_api_version)) by {
        match v.azure_api_version {
            Some(_) => {},
            None => {},
        }
    }
    assert(jv_opt_str(Some(opt_str_json(v.connection_status))) == Some(v.connection_status)) by {
        match v.connection_status {
            Some(_) => {},
            None => {},
        }
    }
    assert(crate::docjson::jv_opt_i64(Some(opt_i64_json(v.last_tested_at))) == Some(
        v.last_tested_at,
    )) by {
        match v.last_tested_at {
            Some(x) => {
                crate::numtext::lemma_dec_int_round_trip(x as int);
            },
            None => {},
        }
    }
    assert(crate::docmcp::jv_opt_str_map(Some(opt_str_map_json(v.custom_headers))) == Some(
        v.custom_headers,
    )) by {
        match v.custom_headers {
            Some(m) => {
                crate::docmcp::lemma_str_map_rt(m);
            },
            None => {},
        }
    }
    assert(jv_opt_selected_list(Some(opt_selected_list_json(v.selected_models))) == Some(
        v.selected_models,
    )) by {
        match v.selected_models {
            Some(l) => {
                lemma_selected_list_rt(l);
            },
            None => {},
        }
    }
    assert(provider_of_json(provider_json(v)) == Some(v)) by {
        assert(provider_json(v) is Obj);
    }
}

/// A written provider list is well-formed and reads back as itself.
proof fn lemma_providers_list_rt(l: Seq<AIProviderConfigV>)
    ensures
        crate::roundtrip::wf_items(providers_list_json(l)),
        providers_list_of_json(providers_list_json(l)) == Some(l),
    decreases l.len(),
{
    if l.len() == 0 {
        assert(providers_list_json(l) =~= Seq::<JsonV>::empty());
    } else {
        lemma_providers_list_rt(l.skip(1));
        lemma_provider_wf(l[0]);
        lemma_provider_of_to(l[0]);
        let s = providers_list_json(l);
        assert(s[0] == provider_json(l[0]));
        assert(s.skip(1) =~= providers_list_json(l.skip(1)));
        assert(seq![l[0]] + l.skip(1) =~= l);
        assert(crate::roundtrip::wf_json(s[0]));
        assert(crate::roundtrip::wf_items(s.skip(1)));
        assert(crate::roundtrip::wf_items(s));
    }
}

/// Writing the provider collection and reading the text back yields
/// the collection unchanged.
#[verifier::rlimit(100)]
#[verifier::spinoff_prover]
pub proof fn lemma_providers_round_trip(c: ProvidersConfigV)
    ensures
        providers_of_text(crate::codec::ser_json_pretty(providers_json(c), 0)) == c,
{
    reveal_strlit("version");
    reveal_strlit("providers");
    assert("version"@.len() == 7);
    assert("providers"@.len() == 9);
    crate::numtext::lemma_dec_int_round_trip(c.version as int);
    lemma_providers_list_rt(c.providers);
    let ms0 = providers_json(c)->Obj_0;
    let ms1 = ms0.skip(1);
    assert(ms1 =~= seq![("providers"@, JsonV::Arr(providers_list_json(c.providers)))]);
    assert(ms1.skip(1) =~= Seq::<(Seq<char>, JsonV)>::empty());
    assert(crate::roundtrip::wf_members(ms1.skip(1)));
    assert(crate::roundtrip::wf_json(ms1[0].1)) by {
        assert(ms1[0].1 == JsonV::Arr(providers_list_json(c.providers)));
    }
    crate::docjson::lemma_wf_members_cons(ms1);
    assert(crate::roundtrip::wf_json(ms0[0].1)) by {
        assert(ms0[0].1 == JsonV::Num(crate::numtext::dec_int(c.version as int)));
        assert(crate::roundtrip::valid_num_text(crate::numtext::dec_int(c.version as int))) by {
            assert(forall|i: int|
                0 <= i < crate::numtext::dec_int(c.version as int).len()
                    ==> crate::numtext::is_dec_int_char(
                    crate::numtext::dec_int(c.version as int)[i],
                ) ==> crate::parse::is_num_char(crate::numtext::dec_int(c.version as int)[i]));
        }
    }
    crate::docjson::lemma_wf_members_cons(ms0);
    assert(crate::roundtrip::wf_json(providers_json(c)));
    crate::roundtrip::lemma_parse_ser_pretty(providers_json(c));
    crate::roundtrip::lemma_parse_ser_pretty(providers_json(c));
    assert(ms0[0].0 == "version"@);
    crate::docjson::lemma_lookup_hit(ms0, "version"@);
    assert(ms0[0].0 != "providers"@);
    crate::docjson::lemma_lookup_skip(ms0, "providers"@);
    assert(ms1[0].0 == "providers"@);
    crate::docjson::lemma_lookup_hit(ms1, "providers"@);
    assert(members_lookup(ms0, "providers"@) == Some(
        JsonV::Arr(providers_list_json(c.providers)),
    ));
    assert(providers_of_json(providers_json(c)) =~= Some(c));
}

} // verus!

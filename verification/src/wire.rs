use vstd::prelude::*;

use crate::config::AIProviderType;
use crate::docjson::{
    field_bool, field_opt_i64, field_opt_str, jv_bool, jv_lookup,
    jv_opt_i64, jv_opt_str,
    opt_str_json, opt_str_to_json,
};
use crate::docproviders::{provider_type_tag, provider_type_to_string};
use crate::json::{json_member_views, json_view, Json, JsonV};
use crate::json::{lemma_json_member_views_len};
use crate::codec::{json_to_string, ser_json};

verus! {

/// One model a provider offers, as the bridge service reports it.
#[derive(Clone, Debug, PartialEq)]
pub struct ModelInfo {
    pub id: String,
    pub name: String,
    pub description: Option<String>,
    pub context_window: Option<i64>,
    pub supports_vision: Option<bool>,
    pub supports_tools: Option<bool>,
    pub supports_streaming: Option<bool>,
}

/// Mathematical value of a `ModelInfo`.
#[verifier::ext_equal]
pub ghost struct ModelInfoV {
    pub id: Seq<char>,
    pub name: Seq<char>,
    pub description: Option<Seq<char>>,
    pub context_window: Option<i64>,
    pub supports_vision: Option<bool>,
    pub supports_tools: Option<bool>,
    pub supports_streaming: Option<bool>,
}

impl DeepView for ModelInfo {
    type V = ModelInfoV;

    open spec fn deep_view(&self) -> ModelInfoV {
        ModelInfoV {
            id: self.id@,
            name: self.name@,
            description: self.description.deep_view(),
            context_window: self.context_window,
            supports_vision: self.supports_vision,
            supports_tools: self.supports_tools,
            supports_streaming: self.supports_streaming,
        }
    }
}

/// A candidate provider configuration offered for validation.
#[derive(Clone, Debug, PartialEq)]
pub struct ValidateProviderRequest {
    pub provider_type: AIProviderType,
    pub api_key: String,
    pub base_url: Option<String>,
    pub azure_endpoint: Option<String>,
    pub azure_deployment: Option<String>,
    pub azure_api_version: Option<String>,
}

/// The bridge service's answer to a validation request.
#[derive(Clone, Debug, PartialEq)]
pub struct ValidateProviderResponse {
    pub valid: bool,
    pub error: Option<String>,
    pub models: Option<Vec<ModelInfo>>,
}

/// Mathematical value of a `ValidateProviderResponse`.
#[verifier::ext_equal]
pub ghost struct ValidateProviderResponseV {
    pub valid: bool,
    pub error: Option<Seq<char>>,
    pub models: Option<Seq<ModelInfoV>>,
}

impl DeepView for ValidateProviderResponse {
    type V = ValidateProviderResponseV;

    open spec fn deep_view(&self) -> ValidateProviderResponseV {
        ValidateProviderResponseV {
            valid: self.valid,
            error: self.error.deep_view(),
            models: self.models.deep_view(),
        }
    }
}

/// A test invocation of one model.
#[derive(Clone, Debug, PartialEq)]
pub struct TestModelRequest {
    pub model_id: String,
    pub test_message: Option<String>,
}

/// The bridge service's answer to a model test.
#[derive(Clone, Debug, PartialEq)]
pub struct TestModelResponse {
    pub success: bool,
    pub response: Option<String>,
    pub latency: Option<i64>,
    pub error: Option<String>,
}

/// Mathematical value of a `TestModelResponse`.
#[verifier::ext_equal]
pub ghost struct TestModelResponseV {
    pub success: bool,
    pub response: Option<Seq<char>>,
    pub latency: Option<i64>,
    pub error: Option<Seq<char>>,
}

impl DeepView for TestModelResponse {
    type V = TestModelResponseV;

    open spec fn deep_view(&self) -> TestModelResponseV {
        TestModelResponseV {
            success: self.success,
            response: self.response.deep_view(),
            latency: self.latency,
            error: self.error.deep_view(),
        }
    }
}

/// The JSON body sent with a validation request, keys in the wire's
/// camel case, the provider type as its lower-case tag.
pub open spec fn validate_request_json(
    t: AIProviderType,
    api_key: Seq<char>,
    base_url: Option<Seq<char>>,
    azure_endpoint: Option<Seq<char>>,
    azure_deployment: Option<Seq<char>>,
    azure_api_version: Option<Seq<char>>,
) -> JsonV {
    JsonV::Obj(seq![
        ("type"@, JsonV::Str(provider_type_tag(t))),
        ("apiKey"@, JsonV::Str(api_key)),
        ("baseUrl"@, opt_str_json(base_url)),
        ("azureEndpoint"@, opt_str_json(azure_endpoint)),
        ("azureDeployment"@, opt_str_json(azure_deployment)),
        ("azureApiVersion"@, opt_str_json(azure_api_version)),
    ])
}

/// Builds the exact body text for a validation request.
pub fn validate_provider_body(req: &ValidateProviderRequest) -> (r: String)
    ensures
        r@ == ser_json(
            validate_request_json(
                req.provider_type,
                req.api_key@,
                req.base_url.deep_view(),
                req.azure_endpoint.deep_view(),
                req.azure_deployment.deep_view(),
                req.azure_api_version.deep_view(),
            ),
        ),
{
    let mut ms: Vec<(String, Json)> = Vec::new();
    ms.push(("type".to_owned(), Json::Str(provider_type_to_string(&req.provider_type))));
    ms.push(("apiKey".to_owned(), Json::Str(req.api_key.clone())));
    ms.push(("baseUrl".to_owned(), opt_str_to_json(&req.base_url)));
    ms.push(("azureEndpoint".to_owned(), opt_str_to_json(&req.azure_endpoint)));
    ms.push(("azureDeployment".to_owned(), opt_str_to_json(&req.azure_deployment)));
    ms.push(("azureApiVersion".to_owned(), opt_str_to_json(&req.azure_api_version)));
    let j = Json::Obj(ms);
    proof {
        let target = validate_request_json(
            req.provider_type,
            req.api_key@,
            req.base_url.deep_view(),
            req.azure_endpoint.deep_view(),
            req.azure_deployment.deep_view(),
            req.azure_api_version.deep_view(),
        );
        lemma_json_member_views_len(j->Obj_0@);
        assert(json_member_views(j->Obj_0@) =~= target->Obj_0);
        assert(json_view(j) == target);
    }
    json_to_string(&j)
}

/// The JSON body sent with a model test.
pub open spec fn test_model_json(model_id: Seq<char>, test_message: Option<Seq<char>>) -> JsonV {
    JsonV::Obj(seq![
        ("modelId"@, JsonV::Str(model_id)),
        ("testMessage"@, opt_str_json(test_message)),
    ])
}

/// Builds the exact body text for a model test.
pub fn test_model_body(req: &TestModelRequest) -> (r: String)
    ensures
        r@ == ser_json(test_model_json(req.model_id@, req.test_message.deep_view())),
{
    let mut ms: Vec<(String, Json)> = Vec::new();
    ms.push(("modelId".to_owned(), Json::Str(req.model_id.clone())));
    ms.push(("testMessage".to_owned(), opt_str_to_json(&req.test_message)));
    let j = Json::Obj(ms);
    proof {
        let target = test_model_json(req.model_id@, req.test_message.deep_view());
        lemma_json_member_views_len(j->Obj_0@);
        assert(json_member_views(j->Obj_0@) =~= target->Obj_0);
        assert(json_view(j) == target);
    }
    json_to_string(&j)
}

/// Reads a model test answer from a JSON value: every recognized
/// member must be well-typed, with absent optional members reading as
/// nothing.
pub open spec fn test_model_of_json(j: JsonV) -> Option<TestModelResponseV> {
    let success = jv_bool(jv_lookup(j, "success"@));
    let response = jv_opt_str(jv_lookup(j, "response"@));
    let latency = jv_opt_i64(jv_lookup(j, "latency"@));
    let error = jv_opt_str(jv_lookup(j, "error"@));
    if j is Obj && success is Some && response is Some && latency is Some && error is Some {
        Some(
            TestModelResponseV {
                success: success->0,
                response: response->0,
                latency: latency->0,
                error: error->0,
            },
        )
    } else {
        None
    }
}

/// Reads a model test answer from a parsed payload, as
/// `test_model_of_json` describes.
pub fn test_model_response_of(j: &Json) -> (r: Option<TestModelResponse>)
    ensures
        match r {
            Some(v) => test_model_of_json(json_view(*j)) == Some(v.deep_view()),
            None => test_model_of_json(json_view(*j)) is None,
        },
{
    match j {
        Json::Obj(_) => {},
        _ => {
            return None;
        },
    }
    let success = match field_bool(j, "success") {
        Some(v) => v,
        None => {
            return None;
        },
    };
    let response = match field_opt_str(j, "response") {
        Some(v) => v,
        None => {
            return None;
        },
    };
    let latency = match field_opt_i64(j, "latency") {
        Some(v) => v,
        None => {
            return None;
        },
    };
    let error = match field_opt_str(j, "error") {
        Some(v) => v,
        None => {
            return None;
        },
    };
    Some(TestModelResponse { success, response, latency, error })
}

} // verus!

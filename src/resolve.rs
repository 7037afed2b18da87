use vstd::prelude::*;

use crate::model::Model;
use crate::request::{ChatBody, MessagePrompt, SafetySetting, TextBody, TextPrompt};
use crate::status::{ApiError, Parameter};

verus! {

/// A chat request with every sampling parameter fixed: the payload sent to
/// the service.
pub struct ChatRequest {
    pub prompt: MessagePrompt,
    /// Temperature, as the bits of a binary64 value.
    pub temperature: u64,
    pub candidate_count: u32,
    /// Nucleus-sampling probability, as the bits of a binary64 value.
    pub top_p: u64,
    pub top_k: i32,
}

/// A text request with every sampling parameter fixed: the payload sent to
/// the service.
pub struct TextRequest {
    pub prompt: TextPrompt,
    pub safety_settings: Vec<SafetySetting>,
    pub stop_sequences: Vec<String>,
    /// Temperature, as the bits of a binary64 value.
    pub temperature: u64,
    pub candidate_count: u32,
    pub max_output_tokens: u32,
    /// Nucleus-sampling probability, as the bits of a binary64 value.
    pub top_p: u64,
    pub top_k: i32,
}

/// The value a parameter is sent with: the one set, else the model's default.
pub open spec fn resolved<T>(set: Option<T>, default: Option<T>) -> Option<T> {
    match set {
        Some(v) => Some(v),
        None => default,
    }
}

/// The first parameter, in the order temperature, top-p, top-k, that is
/// left unset and has no default in `model`.
pub open spec fn missing_default(
    temperature: Option<u64>,
    top_p: Option<u64>,
    top_k: Option<i32>,
    model: Model,
) -> Option<Parameter> {
    if resolved(temperature, model.temperature) is None {
        Some(Parameter::Temperature)
    } else if resolved(top_p, model.top_p) is None {
        Some(Parameter::TopP)
    } else if resolved(top_k, model.top_k) is None {
        Some(Parameter::TopK)
    } else {
        None
    }
}

fn pick<T: Copy>(set: Option<T>, default: Option<T>) -> (r: Option<T>)
    ensures
        r == resolved(set, default),
{
    match set {
        Some(v) => Some(v),
        None => default,
    }
}

impl ChatBody {
    /// What resolving this request against `model` gives.
    pub open spec fn resolved_with(self, model: Model) -> Result<ChatRequest, ApiError> {
        match missing_default(self.temperature, self.top_p, self.top_k, model) {
            Some(p) => Err(ApiError::MissingDefault(p)),
            None => Ok(
                ChatRequest {
                    prompt: self.prompt,
                    temperature: resolved(self.temperature, model.temperature).unwrap(),
                    candidate_count: self.candidate_count,
                    top_p: resolved(self.top_p, model.top_p).unwrap(),
                    top_k: resolved(self.top_k, model.top_k).unwrap(),
                },
            ),
        }
    }

    /// Fixes every unset sampling parameter to `model`'s default. Fails
    /// with `MissingDefault` naming the first unset parameter that `model`
    /// has no default for.
    pub fn resolve(self, model: &Model) -> (r: Result<ChatRequest, ApiError>)
        ensures
            r == self.resolved_with(*model),
    {
        let temperature = match pick(self.temperature, model.temperature) {
            Some(v) => v,
            None => return Err(ApiError::MissingDefault(Parameter::Temperature)),
        };
        let top_p = match pick(self.top_p, model.top_p) {
            Some(v) => v,
            None => return Err(ApiError::MissingDefault(Parameter::TopP)),
        };
        let top_k = match pick(self.top_k, model.top_k) {
            Some(v) => v,
            None => return Err(ApiError::MissingDefault(Parameter::TopK)),
        };
        Ok(
            ChatRequest {
                prompt: self.prompt,
                temperature: temperature,
                candidate_count: self.candidate_count,
                top_p: top_p,
                top_k: top_k,
            },
        )
    }
}

impl TextBody {
    /// What resolving this request against `model` gives.
    pub open spec fn resolved_with(self, model: Model) -> Result<TextRequest, ApiError> {
        match missing_default(self.temperature, self.top_p, self.top_k, model) {
            Some(p) => Err(ApiError::MissingDefault(p)),
            None => Ok(
                TextRequest {
                    prompt: self.prompt,
                    safety_settings: self.safety_settings,
                    stop_sequences: self.stop_sequences,
                    temperature: resolved(self.temperature, model.temperature).unwrap(),
                    candidate_count: self.candidate_count,
                    max_output_tokens: self.max_output_tokens,
                    top_p: resolved(self.top_p, model.top_p).unwrap(),
                    top_k: resolved(self.top_k, model.top_k).unwrap(),
                },
            ),
        }
    }

    /// Fixes every unset sampling parameter to `model`'s default. Fails
    /// with `MissingDefault` naming the first unset parameter that `model`
    /// has no default for.
    pub fn resolve(self, model: &Model) -> (r: Result<TextRequest, ApiError>)
        ensures
            r == self.resolved_with(*model),
    {
        let temperature = match pick(self.temperature, model.temperature) {
            Some(v) => v,
            None => return Err(ApiError::MissingDefault(Parameter::Temperature)),
        };
        let top_p = match pick(self.top_p, model.top_p) {
            Some(v) => v,
            None => return Err(ApiError::MissingDefault(Parameter::TopP)),
        };
        let top_k = match pick(self.top_k, model.top_k) {
            Some(v) => v,
            None => return Err(ApiError::MissingDefault(Parameter::TopK)),
        };
        Ok(
            TextRequest {
                prompt: self.prompt,
                safety_settings: self.safety_settings,
                stop_sequences: self.stop_sequences,
                temperature: temperature,
                candidate_count: self.candidate_count,
                max_output_tokens: self.max_output_tokens,
                top_p: top_p,
                top_k: top_k,
            },
        )
    }
}

/// `sent` is what a parameter that was `set` is sent with when the model's
/// default is `default`.
pub open spec fn fills<T>(set: Option<T>, default: Option<T>, sent: T) -> bool {
    match set {
        Some(v) => sent == v,
        None => default == Some(sent),
    }
}

/// A chat request that leaves every sampling parameter unset resolves,
/// against a model that has all three defaults, to exactly those defaults.
pub proof fn lemma_unset_chat_takes_model_defaults(body: ChatBody, model: Model)
    requires
        body.temperature is None,
        body.top_p is None,
        body.top_k is None,
        model.temperature is Some,
        model.top_p is Some,
        model.top_k is Some,
    ensures
        body.resolved_with(model) matches Ok(req) && req.temperature == model.temperature.unwrap()
            && req.top_p == model.top_p.unwrap() && req.top_k == model.top_k.unwrap(),
{
}

/// A text request that leaves every sampling parameter unset resolves,
/// against a model that has all three defaults, to exactly those defaults.
pub proof fn lemma_unset_text_takes_model_defaults(body: TextBody, model: Model)
    requires
        body.temperature is None,
        body.top_p is None,
        body.top_k is None,
        model.temperature is Some,
        model.top_p is Some,
        model.top_k is Some,
    ensures
        body.resolved_with(model) matches Ok(req) && req.temperature == model.temperature.unwrap()
            && req.top_p == model.top_p.unwrap() && req.top_k == model.top_k.unwrap(),
{
}

/// Resolving a chat request keeps every parameter that was set and fills
/// every unset one with the model's default; it succeeds exactly when each
/// unset parameter has a default.
pub proof fn lemma_chat_resolution_keeps_set_parameters(body: ChatBody, model: Model)
    ensures
        body.resolved_with(model) is Ok <==> {
            &&& body.temperature is Some || model.temperature is Some
            &&& body.top_p is Some || model.top_p is Some
            &&& body.top_k is Some || model.top_k is Some
        },
        body.resolved_with(model) matches Ok(req) ==> {
            &&& fills(body.temperature, model.temperature, req.temperature)
            &&& fills(body.top_p, model.top_p, req.top_p)
            &&& fills(body.top_k, model.top_k, req.top_k)
            &&& req.candidate_count == body.candidate_count
        },
{
}

/// Resolving a text request keeps every parameter that was set and fills
/// every unset one with the model's default; it succeeds exactly when each
/// unset parameter has a default.
pub proof fn lemma_text_resolution_keeps_set_parameters(body: TextBody, model: Model)
    ensures
        body.resolved_with(model) is Ok <==> {
            &&& body.temperature is Some || model.temperature is Some
            &&& body.top_p is Some || model.top_p is Some
            &&& body.top_k is Some || model.top_k is Some
        },
        body.resolved_with(model) matches Ok(req) ==> {
            &&& fills(body.temperature, model.temperature, req.temperature)
            &&& fills(body.top_p, model.top_p, req.top_p)
            &&& fills(body.top_k, model.top_k, req.top_k)
            &&& req.candidate_count == body.candidate_count
            &&& req.max_output_tokens == body.max_output_tokens
        },
{
}

/// Resolving a chat request keeps its context, and its examples and
/// messages in their order.
pub proof fn lemma_chat_resolution_keeps_lists(body: ChatBody, model: Model)
    ensures
        body.resolved_with(model) matches Ok(req) ==> {
            &&& req.prompt.context@ == body.prompt.context@
            &&& req.prompt.examples@ == body.prompt.examples@
            &&& req.prompt.messages@ == body.prompt.messages@
        },
{
}

/// Resolving a text request keeps its prompt, and its safety settings and
/// stop sequences in their order.
pub proof fn lemma_text_resolution_keeps_lists(body: TextBody, model: Model)
    ensures
        body.resolved_with(model) matches Ok(req) ==> {
            &&& req.prompt.text@ == body.prompt.text@
            &&& req.safety_settings@ == body.safety_settings@
            &&& req.stop_sequences@ == body.stop_sequences@
        },
{
}

} // verus!

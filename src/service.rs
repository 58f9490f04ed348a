use vstd::prelude::*;
use vstd::utf8::{decode_utf8, valid_utf8};

use crate::config::{ModelConfig, UomiConfig};
use crate::error::ServiceError;
use crate::headers::{build_headers, header_view, request_headers};
use crate::message::Message;
use crate::text::{decimal, lossy_text, utf8_lossy, utf8_text};

verus! {

/// The endpoint that serves models registered without a URL.
pub fn default_api_url() -> (r: String)
    ensures
        r@ == "http://localhost:8888/run"@,
{
    String::from_str("http://localhost:8888/run")
}

/// The JSON body of an inference request.
#[derive(Debug, Clone)]
pub enum RequestBody {
    /// For a remote model: `{ "model": .., "messages": [..] }`.
    Chat { model: String, messages: Vec<Message> },
    /// For the default endpoint: `{ "model": .., "input": .. }`, the input
    /// being the guest's request text as it came.
    Plain { model: String, input: String },
}

/// Everything needed to send one inference request, and to retry it.
#[derive(Debug, Clone)]
pub struct InferenceRequest {
    pub url: String,
    pub headers: Vec<(String, String)>,
    pub body: RequestBody,
    pub timeout_ms: u64,
    pub retry_attempts: u32,
}

/// Where the guest's inference request goes and what its text is: the index
/// of the model's registry entry, and the request bytes decoded as UTF-8.
pub fn decode_inference_input(config: &UomiConfig, model_id: i32, data: &[u8]) -> (r: Result<
    (usize, String),
    ServiceError,
>)
    ensures
        match r {
            Ok((i, text)) => config.has_model(model_id) && valid_utf8(data@) && i
                < config.models@.len() && config.models@[i as int].0@ == decimal(model_id as int)
                && text@ == decode_utf8(data@) && (config.wf() ==> forall|j: int|
                0 <= j < config.models@.len() && config.models@[j].0@ == decimal(model_id as int)
                    ==> j == i),
            Err(e) => if !config.has_model(model_id) {
                e == ServiceError::UnknownModel(model_id)
            } else {
                !valid_utf8(data@) && (e matches ServiceError::EncodingError(m) && m@ == "request is not UTF-8"@)
            },
        },
{
    let index = match config.find_model(model_id) {
        None => return Err(ServiceError::UnknownModel(model_id)),
        Some(i) => i,
    };
    match utf8_text(data) {
        None => Err(ServiceError::EncodingError(String::from_str("request is not UTF-8"))),
        Some(text) => Ok((index, text)),
    }
}

/// The request that a model's entry calls for: the chat form to its own URL
/// when it has one, else the plain form to the default endpoint.
pub open spec fn routed(model: ModelConfig, req: InferenceRequest, input: Seq<char>, messages: Seq<
    Message,
>) -> bool {
    match model.url {
        Some(u) => req.url@ == u@ && (req.body matches RequestBody::Chat { model: m, messages: ms }
            && m@ == model.name@ && ms@ == messages),
        None => req.url@ == "http://localhost:8888/run"@ && (req.body matches RequestBody::Plain {
            model: m,
            input: t,
        } && m@ == model.name@ && t@ == input),
    }
}

/// Builds the inference request for the registry entry at `model_index`,
/// given the request text and the messages parsed from it.
pub fn build_inference_request(
    config: &UomiConfig,
    model_index: usize,
    input: String,
    messages: Vec<Message>,
) -> (r: Result<InferenceRequest, ServiceError>)
    requires
        model_index < config.models@.len(),
    ensures
        match r {
            Ok(req) => routed(config.models@[model_index as int].1, req, input@, messages@)
                && request_headers(config.api.headers@, config.models@[model_index as int].1) == Ok::<
                _,
                Seq<char>,
            >(header_view(req.headers@)) && req.timeout_ms == config.api.timeout_ms
                && req.retry_attempts == config.api.retry_attempts,
            Err(e) => e matches ServiceError::Header(k) && request_headers(
                config.api.headers@,
                config.models@[model_index as int].1,
            ) == Err::<Seq<(Seq<char>, Seq<char>)>, _>(k@),
        },
{
    let model = &config.models[model_index].1;
    let headers = match build_headers(&config.api.headers, model) {
        Ok(h) => h,
        Err(e) => return Err(e),
    };
    let (url, body) = match &model.url {
        Some(u) => (u.clone(), RequestBody::Chat { model: model.name.clone(), messages }),
        None => (default_api_url(), RequestBody::Plain { model: model.name.clone(), input }),
    };
    Ok(
        InferenceRequest {
            url,
            headers,
            body,
            timeout_ms: config.api.timeout_ms,
            retry_attempts: config.api.retry_attempts,
        },
    )
}

/// The gateway address of a content identifier.
pub fn cid_url(gateway: &String, cid: &String) -> (r: String)
    ensures
        r@ == gateway@ + "/"@ + cid@,
{
    let mut url = gateway.clone();
    url.append("/");
    url.append(cid.as_str());
    url
}

/// An HTTP status in the success class, 200 to 299.
pub open spec fn success_status(status: u16) -> bool {
    200 <= status < 300
}

/// Whether an HTTP status is in the success class.
pub fn is_success_status(status: u16) -> (r: bool)
    ensures
        r == success_status(status),
{
    200 <= status && status < 300
}

/// The result of a gateway fetch that got an answer: its bytes as they came
/// on success, else the status and the body's text, invalid UTF-8
/// replaced.
pub fn fetch_result(status: u16, body: Vec<u8>) -> (r: Result<Vec<u8>, ServiceError>)
    ensures
        success_status(status) ==> r == Ok::<_, ServiceError>(body),
        !success_status(status) ==> (r matches Err(ServiceError::RequestFailed { status: s, message: m })
            && s == status && m@ == lossy_text(body@)),
{
    if is_success_status(status) {
        Ok(body)
    } else {
        Err(ServiceError::RequestFailed { status, message: utf8_lossy(body.as_slice()) })
    }
}

} // verus!

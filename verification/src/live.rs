use crate::config::{ConfigKey, OpenAIConfig};
use crate::json::{
    copy_value, is_object, json_entries, json_is_object, json_member, json_number,
    json_object_text, json_text, json_unsigned, member, new_object, number_value, object_text, put,
    text_value, unsigned, JsonObject,
};
use crate::metrics::RequestMetrics;
use crate::provider::{byte_len, ProviderError};
use vstd::prelude::*;
use vstd::string::*;

verus! {

/// The entries with one more setting, where the setting is present.
pub open spec fn with_setting(
    entries: Map<Seq<char>, serde_json::Value>,
    key: ConfigKey,
    value: Option<serde_json::Value>,
) -> Map<Seq<char>, serde_json::Value> {
    match value {
        Some(v) => entries.insert(key.spec_name(), v),
        None => entries,
    }
}

pub open spec fn model_setting(model: Seq<char>) -> Option<serde_json::Value> {
    if model.len() > 0 {
        Some(json_text(model))
    } else {
        None
    }
}

pub open spec fn limit_setting(max_tokens: Option<usize>) -> Option<serde_json::Value> {
    match max_tokens {
        Some(n) => Some(json_number(n as nat)),
        None => None,
    }
}

/// The request body for a configuration and a conversation: messages
/// and temperature always, the model unless it is empty, and each
/// other setting where it is present, as it was given.
pub open spec fn payload_entries(
    config: OpenAIConfig<serde_json::Value>,
    messages: serde_json::Value,
) -> Map<Seq<char>, serde_json::Value> {
    let required = with_setting(Map::empty(), ConfigKey::Model, model_setting(config.model@))
        .insert("messages"@, messages).insert(ConfigKey::Temperature.spec_name(), config.temperature);
    let limited = with_setting(required, ConfigKey::MaxTokens, limit_setting(config.max_tokens));
    let nucleus = with_setting(limited, ConfigKey::TopP, config.top_p);
    let frequency = with_setting(nucleus, ConfigKey::FrequencyPenalty, config.frequency_penalty);
    with_setting(frequency, ConfigKey::PresencePenalty, config.presence_penalty)
}

fn put_setting(payload: &mut JsonObject, key: ConfigKey, value: &Option<serde_json::Value>)
    ensures
        json_entries(*final(payload)) == with_setting(json_entries(*old(payload)), key, *value),
{
    match value {
        Some(v) => {
            put(payload, key.name(), copy_value(v));
        },
        None => {},
    }
}

/// Builds the request body. The sampling numbers of the configuration
/// are JSON values already; they are copied into the body untouched.
pub fn build_payload(config: &OpenAIConfig<serde_json::Value>, messages: serde_json::Value) -> (payload:
    JsonObject)
    ensures
        json_entries(payload) == payload_entries(*config, messages),
{
    let mut payload = new_object();
    if !config.model.as_str().is_empty() {
        put(&mut payload, ConfigKey::Model.name(), text_value(config.model.as_str()));
    }
    put(&mut payload, "messages", messages);
    put(&mut payload, ConfigKey::Temperature.name(), copy_value(&config.temperature));
    match config.max_tokens {
        Some(n) => {
            put(&mut payload, ConfigKey::MaxTokens.name(), number_value(n));
        },
        None => {},
    }
    put_setting(&mut payload, ConfigKey::TopP, &config.top_p);
    put_setting(&mut payload, ConfigKey::FrequencyPenalty, &config.frequency_penalty);
    put_setting(&mut payload, ConfigKey::PresencePenalty, &config.presence_penalty);
    payload
}

/// A live request as it is sent: the body's text and the approximate
/// size on the wire.
pub struct LiveRequest {
    pub body: String,
    pub request_bytes: usize,
}

/// The text of a request body and the request's size: the length of
/// the text and of the authorization line. There is none where the
/// body cannot be written as text or the size does not fit a machine
/// word.
pub fn live_request(payload: &JsonObject, api_key: &str) -> (r: Option<LiveRequest>)
    ensures
        match json_object_text(json_entries(*payload)) {
            Some(text) => if byte_len(text) + 23 + byte_len(api_key@) <= usize::MAX {
                r.is_some() && r.unwrap().body@ == text && r.unwrap().request_bytes == byte_len(
                    text,
                ) + 23 + byte_len(api_key@)
            } else {
                r.is_none()
            },
            None => r.is_none(),
        },
{
    let body = match object_text(payload) {
        Some(text) => text,
        None => {
            return None;
        },
    };
    let body_len: usize = body.as_str().len();
    let key_len: usize = api_key.len();
    if body_len > usize::MAX - AUTH_LINE_OVERHEAD || key_len > usize::MAX - AUTH_LINE_OVERHEAD
        - body_len {
        return None;
    }
    let request_bytes = live_request_bytes(body_len, api_key);
    Some(LiveRequest { body, request_bytes })
}

/// A text without the slashes at its end.
pub open spec fn trim_trailing_slashes(text: Seq<char>) -> Seq<char>
    decreases text.len(),
{
    if text.len() > 0 && text.last() == '/' {
        trim_trailing_slashes(text.drop_last())
    } else {
        text
    }
}

pub open spec fn completions_path() -> Seq<char> {
    "/v1/chat/completions"@
}

/// The address that a chat request is posted to.
pub fn endpoint_url(base_url: &str) -> (url: String)
    ensures
        url@ == trim_trailing_slashes(base_url@) + completions_path(),
{
    let mut end: usize = base_url.unicode_len();
    proof {
        assert(base_url@.subrange(0, base_url@.len() as int) =~= base_url@);
    }
    while end > 0 && base_url.get_char(end - 1) == '/'
        invariant
            end <= base_url@.len(),
            trim_trailing_slashes(base_url@) == trim_trailing_slashes(
                base_url@.subrange(0, end as int),
            ),
        decreases end,
    {
        proof {
            let kept = base_url@.subrange(0, end as int);
            assert(kept.drop_last() =~= base_url@.subrange(0, end - 1));
        }
        end = end - 1;
    }
    let kept = base_url.substring_char(0, end);
    String::from_str(kept).concat("/v1/chat/completions")
}

/// The value of the authorization header: the credential as a bearer.
pub fn bearer_value(api_key: &str) -> (value: String)
    ensures
        value@ == "Bearer "@ + api_key@,
{
    String::from_str("Bearer ").concat(api_key)
}

/// The bytes that the header line `Authorization: Bearer ` takes before
/// the credential, and the line's end after it.
pub const AUTH_LINE_OVERHEAD: usize = 23;

/// The approximate size of a live request on the wire: the body and
/// the authorization line.
pub fn live_request_bytes(body_len: usize, api_key: &str) -> (bytes: usize)
    requires
        body_len + 23 + byte_len(api_key@) <= usize::MAX,
    ensures
        bytes == body_len + 23 + byte_len(api_key@),
{
    body_len + AUTH_LINE_OVERHEAD + api_key.len()
}

/// The two counters of a response's usage object, each as found.
#[derive(Clone, Copy, Debug, PartialEq, Eq, Structural)]
pub struct Usage {
    pub prompt_tokens: Option<u64>,
    pub completion_tokens: Option<u64>,
}

/// One counter of a usage object: absent where the object has no such
/// member, or where the member is no unsigned number.
pub open spec fn counter_in(usage: serde_json::Value, key: Seq<char>) -> Option<u64> {
    match json_member(usage, key) {
        Some(v) => json_unsigned(v),
        None => None,
    }
}

/// The usage that a response body holds: that of its member `usage`,
/// where there is one and it is an object.
pub open spec fn usage_in(body: serde_json::Value) -> Option<Usage> {
    match json_member(body, "usage"@) {
        Some(u) => if json_is_object(u) {
            Some(
                Usage {
                    prompt_tokens: counter_in(u, "prompt_tokens"@),
                    completion_tokens: counter_in(u, "completion_tokens"@),
                },
            )
        } else {
            None
        },
        None => None,
    }
}

fn counter_of(usage: &serde_json::Value, key: &str) -> (n: Option<u64>)
    ensures
        n == counter_in(*usage, key@),
{
    match member(usage, key) {
        Some(v) => unsigned(v),
        None => None,
    }
}

/// Reads the usage object of a response body.
pub fn usage_of(body: &serde_json::Value) -> (usage: Option<Usage>)
    ensures
        usage == usage_in(*body),
{
    match member(body, "usage") {
        Some(u) => {
            if is_object(u) {
                Some(
                    Usage {
                        prompt_tokens: counter_of(u, "prompt_tokens"),
                        completion_tokens: counter_of(u, "completion_tokens"),
                    },
                )
            } else {
                None
            }
        },
        None => None,
    }
}

pub open spec fn or_zero(value: Option<u64>) -> nat {
    match value {
        Some(n) => n as nat,
        None => 0,
    }
}

/// Whether the numbers of a response fit this machine's metrics.
pub open spec fn response_fits(usage: Usage, content_length: Option<u64>) -> bool {
    &&& or_zero(usage.prompt_tokens) + or_zero(usage.completion_tokens) <= usize::MAX
    &&& or_zero(content_length) <= usize::MAX
}

/// What the metrics of a response are: without a usage object the
/// request fails; numbers too large for this machine make the response
/// malformed; otherwise each counter as found, a missing one as 0, and
/// the declared content length, 0 where none was declared.
pub open spec fn is_response_result(
    r: Result<RequestMetrics, ProviderError>,
    usage: Option<Usage>,
    content_length: Option<u64>,
    request_bytes: usize,
    provider_name: Seq<char>,
) -> bool {
    match usage {
        None => r == Err::<RequestMetrics, ProviderError>(ProviderError::MissingUsage),
        Some(u) => if response_fits(u, content_length) {
            &&& r.is_ok()
            &&& r.unwrap().consistent()
            &&& r.unwrap().spec_prompt_tokens() == or_zero(u.prompt_tokens)
            &&& r.unwrap().spec_completion_tokens() == or_zero(u.completion_tokens)
            &&& r.unwrap().spec_total_tokens() == or_zero(u.prompt_tokens) + or_zero(
                u.completion_tokens,
            )
            &&& r.unwrap().spec_request_bytes() == request_bytes
            &&& r.unwrap().spec_response_bytes() == or_zero(content_length)
            &&& r.unwrap().spec_provider_name() == provider_name
        } else {
            r == Err::<RequestMetrics, ProviderError>(ProviderError::MalformedResponse)
        },
    }
}

/// The metrics of a live request, from what the response held.
pub fn metrics_from_response(
    usage: Option<Usage>,
    content_length: Option<u64>,
    request_bytes: usize,
    provider_name: String,
) -> (r: Result<RequestMetrics, ProviderError>)
    ensures
        is_response_result(r, usage, content_length, request_bytes, provider_name@),
{
    let usage = match usage {
        Some(u) => u,
        None => {
            return Err(ProviderError::MissingUsage);
        },
    };
    let prompt: u64 = match usage.prompt_tokens {
        Some(n) => n,
        None => 0,
    };
    let completion: u64 = match usage.completion_tokens {
        Some(n) => n,
        None => 0,
    };
    let length: u64 = match content_length {
        Some(n) => n,
        None => 0,
    };
    let limit: u128 = usize::MAX as u128;
    if prompt as u128 + completion as u128 > limit || length as u128 > limit {
        return Err(ProviderError::MalformedResponse);
    }
    Ok(
        RequestMetrics::new(
            prompt as usize,
            completion as usize,
            request_bytes,
            length as usize,
            provider_name,
        ),
    )
}

/// Whether a response status reports success: 200 to 299.
pub open spec fn success_status(status: u16) -> bool {
    200 <= status <= 299
}

pub fn is_success_status(status: u16) -> (b: bool)
    ensures
        b == success_status(status),
{
    200 <= status && status <= 299
}

/// The outcome of a live request, from the response's status and what
/// it held. Any status but a successful one fails the request,
/// whatever the body; with a successful one the metrics are those of
/// the response.
pub fn response_outcome(
    status: u16,
    usage: Option<Usage>,
    content_length: Option<u64>,
    request_bytes: usize,
    provider_name: String,
) -> (r: Result<RequestMetrics, ProviderError>)
    ensures
        !success_status(status) ==> r == Err::<RequestMetrics, ProviderError>(
            ProviderError::HttpStatus(status),
        ),
        success_status(status) ==> is_response_result(
            r,
            usage,
            content_length,
            request_bytes,
            provider_name@,
        ),
{
    if !is_success_status(status) {
        return Err(ProviderError::HttpStatus(status));
    }
    metrics_from_response(usage, content_length, request_bytes, provider_name)
}

} // verus!

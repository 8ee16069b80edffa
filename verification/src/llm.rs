//! The language model behind a gateway: what is sent and what is read.

use crate::text::{concat2, copy_opt, copy_str, is_blank, opt_text, same_text, trim, trim_spec};
use vstd::prelude::*;

verus! {

/// Where the gateway is and what it is asked for.
#[derive(Debug)]
pub struct LlmConfig {
    pub gateway_url: String,
    pub api_key: Option<String>,
    pub function_name: Option<String>,
    pub model: Option<String>,
}

/// Why the model gave no answer.
#[derive(Debug)]
pub enum LlmError {
    MissingGateway,
    Http(String),
    InvalidResponse(String),
}

impl LlmError {
    /// The text of the failure.
    pub open spec fn message_spec(self) -> Seq<char> {
        match self {
            LlmError::MissingGateway => "missing gateway url"@,
            LlmError::Http(detail) => "http error: "@ + detail@,
            LlmError::InvalidResponse(detail) => "invalid response: "@ + detail@,
        }
    }

    /// The text of the failure.
    pub fn message(&self) -> (out: String)
        ensures
            out@ == self.message_spec(),
    {
        match self {
            LlmError::MissingGateway => copy_str("missing gateway url"),
            LlmError::Http(detail) => concat2("http error: ", detail.as_str()),
            LlmError::InvalidResponse(detail) => concat2("invalid response: ", detail.as_str()),
        }
    }
}

/// One message of a chat.
#[derive(Debug)]
pub struct LlmMessage {
    pub role: String,
    pub content: String,
}

/// How many tokens a chat took.
#[derive(Debug, Clone, Copy)]
pub struct LlmUsage {
    pub input_tokens: Option<u32>,
    pub output_tokens: Option<u32>,
}

/// The answer of the model.
#[derive(Debug)]
pub struct LlmResponse {
    pub text: String,
    pub usage: Option<LlmUsage>,
}

/// One part of the gateway's answer: its kind and its text.
#[derive(Debug)]
pub struct ResponseContent {
    pub kind: String,
    pub text: String,
}

/// A chat as the gateway takes it.
#[derive(Debug)]
pub struct ChatRequest {
    pub url: String,
    pub function_name: String,
    pub model_name: Option<String>,
    pub api_key: Option<String>,
    pub messages: Vec<LlmMessage>,
}

/// The function that a chat names when the configuration names none.
pub open spec fn default_function() -> Seq<char> {
    "hsuf_enrichment"@
}

/// The position of the first part of kind `text`, or the number of parts when there is none.
pub open spec fn first_text_part(parts: Seq<ResponseContent>) -> int
    decreases parts.len(),
{
    if parts.len() == 0 {
        0
    } else if parts[0].kind@ == "text"@ {
        0
    } else {
        1 + first_text_part(parts.drop_first())
    }
}

/// The chat that carries `messages` to the gateway of `config`: sent to the
/// inference address below the trimmed gateway address, naming the
/// configured function or the default one. Without a gateway there is no chat.
pub fn chat_request(config: &LlmConfig, messages: Vec<LlmMessage>) -> (out: Result<
    ChatRequest,
    LlmError,
>)
    ensures
        is_blank(config.gateway_url@) ==> out is Err && out->Err_0 is MissingGateway,
        !is_blank(config.gateway_url@) ==> out is Ok && ({
            let req = out->Ok_0;
            &&& req.url@ == trim_spec(config.gateway_url@) + "/inference"@
            &&& req.function_name@ == match config.function_name {
                Some(f) => f@,
                None => default_function(),
            }
            &&& opt_text(req.model_name) == opt_text(config.model)
            &&& opt_text(req.api_key) == opt_text(config.api_key)
            &&& req.messages == messages
        }),
{
    let gateway = trim(config.gateway_url.as_str());
    if gateway.as_str().is_empty() {
        return Err(LlmError::MissingGateway);
    }
    Ok(
        ChatRequest {
            url: concat2(gateway.as_str(), "/inference"),
            function_name: match &config.function_name {
                Some(f) => f.clone(),
                None => copy_str("hsuf_enrichment"),
            },
            model_name: copy_opt(&config.model),
            api_key: copy_opt(&config.api_key),
            messages,
        },
    )
}

/// What an answer's status means: success for 200 to 299, a failure that
/// quotes `status_line` for every other status.
pub fn check_chat_status(status: u16, status_line: &str) -> (out: Result<(), LlmError>)
    ensures
        out is Ok <==> 200 <= status < 300,
        out is Err ==> out->Err_0 is Http && out->Err_0->Http_0@ == "HTTP "@ + status_line@,
{
    if 200 <= status && status < 300 {
        Ok(())
    } else {
        Err(LlmError::Http(concat2("HTTP ", status_line)))
    }
}

/// The answer that the parts of a gateway's answer hold: the text of the
/// first part of kind `text`; without such a part the answer is invalid.
pub fn read_response(parts: Vec<ResponseContent>, usage: Option<LlmUsage>) -> (out: Result<
    LlmResponse,
    LlmError,
>)
    ensures
        first_text_part(parts@) < parts@.len() ==> out is Ok && out->Ok_0.text@
            == parts@[first_text_part(parts@)].text@ && out->Ok_0.usage == usage,
        first_text_part(parts@) >= parts@.len() ==> out is Err && out->Err_0 is InvalidResponse
            && out->Err_0->InvalidResponse_0@ == "missing text"@,
{
    let mut i: usize = 0;
    assert(parts@.subrange(0, parts@.len() as int) =~= parts@);
    while i < parts.len()
        invariant
            i <= parts@.len(),
            first_text_part(parts@) == i + first_text_part(
                parts@.subrange(i as int, parts@.len() as int),
            ),
        decreases parts@.len() - i,
    {
        let ghost rest = parts@.subrange(i as int, parts@.len() as int);
        assert(rest[0] == parts@[i as int]);
        if same_text(parts[i].kind.as_str(), "text") {
            return Ok(LlmResponse { text: parts[i].text.clone(), usage });
        }
        assert(rest.drop_first() =~= parts@.subrange(i + 1, parts@.len() as int));
        i += 1;
    }
    Err(LlmError::InvalidResponse(copy_str("missing text")))
}

} // verus!

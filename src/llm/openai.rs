use vstd::prelude::*;
use crate::config::ModelConfig;
use crate::error::AppError;
use crate::llm::request::{opt_text, LlmRequest};
use crate::llm::response::LlmResponse;
use crate::text::{trim_text, trimmed};

verus! {

/// The bound on generated tokens when neither the request nor the model sets one.
pub const DEFAULT_MAX_TOKENS: usize = 1024;

/// `s` without the `/` characters at its end.
pub open spec fn without_trailing_slashes(s: Seq<char>) -> Seq<char>
    decreases s.len(),
{
    if s.len() > 0 && s.last() == '/' {
        without_trailing_slashes(s.drop_last())
    } else {
        s
    }
}

/// The chat-completions address under an API base.
pub open spec fn endpoint_of(api_base: Seq<char>) -> Seq<char> {
    without_trailing_slashes(api_base) + "/chat/completions"@
}

/// The message of the error for an unset API-key variable.
pub open spec fn missing_key_message(var: Seq<char>) -> Seq<char> {
    "environment variable "@ + var + " is not set; it must hold the API key"@
}

/// The message of the error for a response that is not a success.
pub open spec fn failed_status_message(status: Seq<char>, body: Seq<char>) -> Seq<char> {
    "the API returned an error ("@ + status + "): "@ + body
}

/// The message of the error for a response without generated text.
pub open spec fn no_content_message() -> Seq<char> {
    "cannot extract the commit message from the response"@
}

/// The backend settings taken from a model and its API key.
pub open spec fn settings_for(config: ModelConfig, api_key: String) -> OpenAiProvider {
    OpenAiProvider {
        api_base: config.api_base,
        api_key,
        model_id: config.model_id,
        max_tokens: config.max_tokens,
    }
}

/// The JSON pointer of the generated text in a chat-completions reply.
pub const CONTENT_POINTER: &'static str = "/choices/0/message/content";

/// The JSON pointer of the reported token count in a chat-completions reply.
pub const USAGE_POINTER: &'static str = "/usage/total_tokens";

/// The string that a JSON text holds at a JSON pointer; `None` when the text
/// does not parse or holds no string there.
pub uninterp spec fn json_text_at(body: Seq<char>, pointer: Seq<char>) -> Option<Seq<char>>;

/// The unsigned integer that a JSON text holds at a JSON pointer; `None`
/// when the text does not parse or holds no such number there.
pub uninterp spec fn json_count_at(body: Seq<char>, pointer: Seq<char>) -> Option<u64>;

/// Relies on `serde_json::from_str`, `Value::pointer`, `Value::as_str` and
/// `Value::as_u64`: the string at `text_pointer` and the unsigned integer at
/// `count_pointer` of the JSON text `body`.
#[verifier::external_body]
fn json_fields(body: &str, text_pointer: &str, count_pointer: &str) -> (r: (
    Option<String>,
    Option<u64>,
))
    ensures
        opt_text(r.0) == json_text_at(body@, text_pointer@),
        r.1 == json_count_at(body@, count_pointer@),
{
    let v: Option<serde_json::Value> = serde_json::from_str(body).ok();
    let text = v.as_ref().and_then(|v| v.pointer(text_pointer)).and_then(|x| x.as_str());
    let count = v.as_ref().and_then(|v| v.pointer(count_pointer)).and_then(|x| x.as_u64());
    (text.map(|t| t.to_string()), count)
}

/// A backend that speaks the OpenAI chat-completions protocol.
#[derive(Debug)]
pub struct OpenAiProvider {
    pub api_base: String,
    pub api_key: String,
    pub model_id: String,
    pub max_tokens: Option<usize>,
}

impl OpenAiProvider {
    /// The backend for `config`, given the value of its API-key variable;
    /// a `Config` error when that variable is unset.
    pub fn new(config: &ModelConfig, api_key: Option<String>) -> (r: Result<Self, AppError>)
        ensures
            r is Ok <==> api_key is Some,
            r is Ok ==> r->Ok_0 == settings_for(*config, api_key->Some_0),
            r is Err ==> r->Err_0 is Config && r->Err_0->Config_0@ == missing_key_message(
                config.api_key_env@,
            ),
    {
        match api_key {
            Some(key) => Ok(OpenAiProvider {
                api_base: config.api_base.clone(),
                api_key: key,
                model_id: config.model_id.clone(),
                max_tokens: config.max_tokens,
            }),
            None => {
                let msg = String::from_str("environment variable ");
                let msg = msg.concat(config.api_key_env.as_str());
                let msg = msg.concat(" is not set; it must hold the API key");
                Err(AppError::Config(msg))
            },
        }
    }

    pub fn name(&self) -> (r: &'static str)
        ensures
            r@ == "openai"@,
    {
        "openai"
    }

    /// The address the request is posted to.
    pub fn endpoint(&self) -> (r: String)
        ensures
            r@ == endpoint_of(self.api_base@),
    {
        let base = self.api_base.as_str();
        let mut k: usize = base.unicode_len();
        assert(base@.subrange(0, k as int) =~= base@);
        while k > 0 && base.get_char(k - 1) == '/'
            invariant
                k <= base@.len(),
                without_trailing_slashes(base@.subrange(0, k as int)) == without_trailing_slashes(
                    base@,
                ),
            decreases k,
        {
            assert(base@.subrange(0, k as int).drop_last() =~= base@.subrange(0, k - 1));
            k = k - 1;
        }
        assert(base@.subrange(0, k as int) == without_trailing_slashes(base@.subrange(0, k as int)));
        let stem = String::from_str(base.substring_char(0, k));
        stem.concat("/chat/completions")
    }

    /// The bound on generated tokens: the request's, else the model's, else
    /// `DEFAULT_MAX_TOKENS`.
    pub fn max_tokens_for(&self, request: &LlmRequest) -> (r: usize)
        ensures
            r == match request.max_tokens {
                Some(n) => n,
                None => match self.max_tokens {
                    Some(m) => m,
                    None => DEFAULT_MAX_TOKENS,
                },
            },
    {
        match request.max_tokens {
            Some(n) => n,
            None => match self.max_tokens {
                Some(m) => m,
                None => DEFAULT_MAX_TOKENS,
            },
        }
    }

    /// Reads the backend's answer: an `Llm` error for a status that is not a
    /// success or an answer without generated text; otherwise the trimmed
    /// text and the reported token count.
    pub fn read_reply(
        success: bool,
        status: &str,
        body: &str,
        content: Option<&str>,
        total_tokens: Option<u64>,
    ) -> (r: Result<LlmResponse, AppError>)
        ensures
            r is Ok <==> success && content is Some,
            !success ==> r->Err_0 is Llm && r->Err_0->Llm_0@ == failed_status_message(
                status@,
                body@,
            ),
            success && content is None ==> r->Err_0 is Llm && r->Err_0->Llm_0@
                == no_content_message(),
            r is Ok ==> r->Ok_0.commit_message@ == trimmed(content->Some_0@)
                && r->Ok_0.usage_tokens == match total_tokens {
                Some(n) => Some(n as usize),
                None => None,
            },
    {
        if !success {
            let msg = String::from_str("the API returned an error (");
            let msg = msg.concat(status);
            let msg = msg.concat("): ");
            let msg = msg.concat(body);
            return Err(AppError::Llm(msg));
        }
        match content {
            None => Err(AppError::Llm(String::from_str("cannot extract the commit message from the response"))),
            Some(text) => {
                let usage_tokens = match total_tokens {
                    Some(n) => Some(n as usize),
                    None => None,
                };
                Ok(LlmResponse { commit_message: trim_text(text), usage_tokens })
            },
        }
    }

    /// Reads a reply from its status and JSON body: the generated text is
    /// taken from `CONTENT_POINTER` and the token count from `USAGE_POINTER`,
    /// then judged as `read_reply` does.
    pub fn parse_reply(success: bool, status: &str, body: &str) -> (r: Result<LlmResponse, AppError>)
        ensures
            r is Ok <==> success && json_text_at(body@, CONTENT_POINTER@) is Some,
            !success ==> r->Err_0 is Llm && r->Err_0->Llm_0@ == failed_status_message(
                status@,
                body@,
            ),
            success && json_text_at(body@, CONTENT_POINTER@) is None ==> r->Err_0 is Llm
                && r->Err_0->Llm_0@ == no_content_message(),
            r is Ok ==> r->Ok_0.commit_message@ == trimmed(
                json_text_at(body@, CONTENT_POINTER@)->Some_0,
            ) && r->Ok_0.usage_tokens == match json_count_at(body@, USAGE_POINTER@) {
                Some(n) => Some(n as usize),
                None => None,
            },
    {
        if !success {
            return Self::read_reply(false, status, body, None, None);
        }
        let (text, count) = json_fields(body, CONTENT_POINTER, USAGE_POINTER);
        match text {
            Some(t) => Self::read_reply(true, status, body, Some(t.as_str()), count),
            None => Self::read_reply(true, status, body, None, count),
        }
    }
}

} // verus!

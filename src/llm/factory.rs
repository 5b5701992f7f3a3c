use vstd::prelude::*;
use crate::config::ModelConfig;
use crate::error::AppError;
use crate::llm::openai::{missing_key_message, settings_for, OpenAiProvider};

verus! {

/// The message of the error for a provider that no backend is registered for.
pub open spec fn unknown_provider_message(provider: Seq<char>) -> Seq<char> {
    "unknown provider: "@ + provider
}

/// A selected backend, one variant per vendor.
#[derive(Debug)]
pub enum Backend {
    OpenAi(OpenAiProvider),
}

impl Backend {
    pub fn name(&self) -> (r: &'static str)
        ensures
            self is OpenAi ==> r@ == "openai"@,
    {
        match self {
            Backend::OpenAi(p) => p.name(),
        }
    }
}

/// Selects the backend for a model by its provider.
#[derive(Debug)]
pub struct LlmProviderFactory;

impl LlmProviderFactory {
    /// The backend for `model_config`, given the value of its API-key
    /// variable. `openai` is the one registered provider; any other fails with
    /// a `Config` error that names it.
    pub fn create(model_config: &ModelConfig, api_key: Option<String>) -> (r: Result<
        Backend,
        AppError,
    >)
        ensures
            r is Ok <==> model_config.provider@ == "openai"@ && api_key is Some,
            r is Ok ==> r->Ok_0 == Backend::OpenAi(settings_for(*model_config, api_key->Some_0)),
            model_config.provider@ == "openai"@ && api_key is None ==> r->Err_0 is Config
                && r->Err_0->Config_0@ == missing_key_message(model_config.api_key_env@),
            model_config.provider@ != "openai"@ ==> r->Err_0 is Config && r->Err_0->Config_0@
                == unknown_provider_message(model_config.provider@),
    {
        let openai = String::from_str("openai");
        if model_config.provider == openai {
            match OpenAiProvider::new(model_config, api_key) {
                Ok(p) => Ok(Backend::OpenAi(p)),
                Err(e) => Err(e),
            }
        } else {
            let msg = String::from_str("unknown provider: ");
            Err(AppError::Config(msg.concat(model_config.provider.as_str())))
        }
    }
}

} // verus!

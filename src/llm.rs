pub mod factory;
pub mod openai;
pub mod request;
pub mod response;

pub use factory::{Backend, LlmProviderFactory};
pub use openai::OpenAiProvider;
pub use request::{LlmRequest, LlmRequestBuilder};
pub use response::LlmResponse;

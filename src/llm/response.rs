use vstd::prelude::*;

verus! {

/// What a backend answered.
#[derive(Debug)]
pub struct LlmResponse {
    /// The generated message, without surrounding white space.
    pub commit_message: String,
    /// The tokens the backend reports having used, if it does.
    pub usage_tokens: Option<usize>,
}

} // verus!

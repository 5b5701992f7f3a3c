use vstd::prelude::*;

verus! {

/// The failures a run can end with.
#[derive(Debug)]
pub enum AppError {
    /// The repository could not be found, read or written.
    Git(String),
    /// The configuration is missing, invalid or names an unknown provider.
    Config(String),
    /// The request was invalid or the backend call failed.
    Llm(String),
    /// Reading the terminal or the file system failed.
    Io(String),
    /// Reserved for a hard token limit; the soft limit only warns.
    TokenLimitExceeded { current: usize, limit: usize },
    /// No model of the configuration carries the requested name.
    ModelNotFound(String),
}

} // verus!

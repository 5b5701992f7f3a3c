use vstd::prelude::*;
use crate::error::AppError;

verus! {

/// The user prompt of a request: the given one when it is not empty, else
/// the default sentence followed by the diff.
pub open spec fn resolved_user_prompt(given: Option<Seq<char>>, diff: Seq<char>) -> Seq<char> {
    match given {
        Some(u) => if u.len() > 0 {
            u
        } else {
            default_user_prompt(diff)
        },
        None => default_user_prompt(diff),
    }
}

/// The user prompt used when none is given: a fixed sentence followed by the diff.
pub open spec fn default_user_prompt(diff: Seq<char>) -> Seq<char> {
    "Generate a commit message for the following git diff:\n\n"@ + diff
}

/// The contents of an optional text.
pub open spec fn opt_text(o: Option<String>) -> Option<Seq<char>> {
    match o {
        Some(s) => Some(s@),
        None => None,
    }
}

/// A request to a language-model backend.
#[derive(Debug)]
pub struct LlmRequest {
    pub system_prompt: String,
    pub user_prompt: String,
    pub diff_content: String,
    pub max_tokens: Option<usize>,
}

/// What a builder has gathered so far.
pub struct RequestDraft {
    pub system_prompt: Option<Seq<char>>,
    pub user_prompt: Option<Seq<char>>,
    pub diff_content: Option<Seq<char>>,
    pub max_tokens: Option<usize>,
}

impl LlmRequest {
    pub fn builder() -> (r: LlmRequestBuilder)
        ensures
            r@ == (RequestDraft {
                system_prompt: None,
                user_prompt: None,
                diff_content: None,
                max_tokens: None,
            }),
    {
        LlmRequestBuilder { system_prompt: None, user_prompt: None, diff_content: None, max_tokens: None }
    }
}

/// Gathers the fields of a request one at a time; `build` checks them.
#[derive(Debug)]
pub struct LlmRequestBuilder {
    system_prompt: Option<String>,
    user_prompt: Option<String>,
    diff_content: Option<String>,
    max_tokens: Option<usize>,
}

impl View for LlmRequestBuilder {
    type V = RequestDraft;

    closed spec fn view(&self) -> RequestDraft {
        RequestDraft {
            system_prompt: opt_text(self.system_prompt),
            user_prompt: opt_text(self.user_prompt),
            diff_content: opt_text(self.diff_content),
            max_tokens: self.max_tokens,
        }
    }
}

impl LlmRequestBuilder {
    pub fn system_prompt(self, prompt: &str) -> (r: Self)
        ensures
            r@ == (RequestDraft { system_prompt: Some(prompt@), ..self@ }),
    {
        LlmRequestBuilder { system_prompt: Some(prompt.to_owned()), ..self }
    }

    pub fn user_prompt(self, prompt: &str) -> (r: Self)
        ensures
            r@ == (RequestDraft { user_prompt: Some(prompt@), ..self@ }),
    {
        LlmRequestBuilder { user_prompt: Some(prompt.to_owned()), ..self }
    }

    pub fn diff_content(self, diff: &str) -> (r: Self)
        ensures
            r@ == (RequestDraft { diff_content: Some(diff@), ..self@ }),
    {
        LlmRequestBuilder { diff_content: Some(diff.to_owned()), ..self }
    }

    pub fn max_tokens(self, n: usize) -> (r: Self)
        ensures
            r@ == (RequestDraft { max_tokens: Some(n), ..self@ }),
    {
        LlmRequestBuilder { max_tokens: Some(n), ..self }
    }

    /// The request, or an `Llm` error when the system prompt or the diff is
    /// missing; a missing or empty user prompt is replaced by the default
    /// sentence, so the user prompt of a request is never empty.
    pub fn build(self) -> (r: Result<LlmRequest, AppError>)
        ensures
            r is Ok <==> (self@.system_prompt is Some && self@.diff_content is Some),
            r is Err ==> r->Err_0 is Llm,
            self@.system_prompt is None ==> r->Err_0->Llm_0@ == "system_prompt is required"@,
            self@.system_prompt is Some && self@.diff_content is None ==> r->Err_0->Llm_0@
                == "diff_content is required"@,
            r is Ok ==> {
                let req = r->Ok_0;
                &&& Some(req.system_prompt@) == self@.system_prompt
                &&& Some(req.diff_content@) == self@.diff_content
                &&& req.user_prompt@ == resolved_user_prompt(self@.user_prompt, req.diff_content@)
                &&& req.user_prompt@.len() > 0
                &&& req.max_tokens == self@.max_tokens
            },
    {
        let system_prompt = match self.system_prompt {
            Some(s) => s,
            None => {
                return Err(AppError::Llm(String::from_str("system_prompt is required")));
            },
        };
        let diff_content = match self.diff_content {
            Some(d) => d,
            None => {
                return Err(AppError::Llm(String::from_str("diff_content is required")));
            },
        };
        proof {
            reveal_strlit("system_prompt is required");
            reveal_strlit("diff_content is required");
            reveal_strlit("Generate a commit message for the following git diff:\n\n");
        }
        let given = match self.user_prompt {
            Some(u) => if u.as_str().is_empty() {
                None
            } else {
                Some(u)
            },
            None => None,
        };
        let user_prompt = match given {
            Some(u) => u,
            None => {
                let lead = String::from_str("Generate a commit message for the following git diff:\n\n");
                lead.concat(diff_content.as_str())
            },
        };
        Ok(LlmRequest { system_prompt, user_prompt, diff_content, max_tokens: self.max_tokens })
    }
}

} // verus!

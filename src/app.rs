use vstd::prelude::*;
use crate::config::{AppConfig, ModelConfig};
use crate::error::AppError;
use crate::git::DiffResult;
use crate::llm::request::resolved_user_prompt;
use crate::llm::{LlmRequest, LlmResponse};
use crate::text::{decimal, decimal_text, replace_all, replaced};

verus! {

/// The message of the error for a run with nothing staged.
pub open spec fn nothing_staged_message() -> Seq<char> {
    "nothing is staged; add changes with git add first"@
}

/// The warning for a diff whose estimate exceeds the token limit.
pub open spec fn limit_warning(estimated: nat, limit: nat) -> Seq<char> {
    "the diff is estimated at "@ + decimal(estimated) + " tokens, over the limit of "@ + decimal(
        limit,
    ) + " tokens; the reply may be truncated"@
}

/// Where a run stands, named by what it waits for.
#[derive(Debug)]
pub enum Stage {
    /// Not started.
    Start,
    /// Waiting for the repository to be found.
    Discovering,
    /// The repository is known; waiting for its staged diff.
    ReadingDiff { repo: String },
    /// The limit is checked and the request sent; waiting for the reply.
    Generating { repo: String },
    /// The reply is in; waiting for the user's decision on `message`.
    Confirming { repo: String, message: String },
    /// Confirmed; waiting for the commit to be written.
    Committing,
    /// The commit was written.
    Committed,
    /// The user declined; the repository was not touched.
    Cancelled,
    /// The run stopped on an error.
    Failed,
}

/// The outcome of the work an action asked for.
#[derive(Debug)]
pub enum Event {
    Begin,
    RepoDiscovered(Result<String, AppError>),
    DiffObtained(Result<DiffResult, AppError>),
    ResponseReceived(Result<LlmResponse, AppError>),
    UserDecided(Result<bool, AppError>),
    CommitDone(Result<(), AppError>),
}

/// The work the caller is to do next.
#[derive(Debug)]
pub enum Action {
    /// Find the repository that encloses the working directory.
    DiscoverRepo,
    /// Compute the staged diff of `repo`.
    ReadStagedDiff { repo: String },
    /// Show `warning`, if any, then send `request` to the backend once.
    Generate { warning: Option<String>, request: LlmRequest },
    /// Ask the user to confirm `message`.
    Confirm { message: String },
    /// Commit the index of `repo` with `message`.
    Commit { repo: String, message: String },
    /// The run is over, with this outcome.
    Finish(Result<(), AppError>),
}

/// Whether `stage` waits for an event of the kind of `event`.
pub open spec fn expects(stage: Stage, event: Event) -> bool {
    match stage {
        Stage::Start => event is Begin,
        Stage::Discovering => event is RepoDiscovered,
        Stage::ReadingDiff { .. } => event is DiffObtained,
        Stage::Generating { .. } => event is ResponseReceived,
        Stage::Confirming { .. } => event is UserDecided,
        Stage::Committing => event is CommitDone,
        _ => false,
    }
}

/// Whether the run is over.
pub open spec fn is_terminal(stage: Stage) -> bool {
    stage is Committed || stage is Cancelled || stage is Failed
}

/// How far a run has come.
pub open spec fn rank(stage: Stage) -> nat {
    match stage {
        Stage::Start => 0,
        Stage::Discovering => 1,
        Stage::ReadingDiff { .. } => 2,
        Stage::Generating { .. } => 3,
        Stage::Confirming { .. } => 4,
        Stage::Committing => 5,
        _ => 6,
    }
}

/// The run stops with `e`.
pub open spec fn fails_with(next: Stage, action: Action, e: AppError) -> bool {
    next == Stage::Failed && action == Action::Finish(Err(e))
}

/// `action` sends the request for the diff `d`, with the limit warning
/// exactly when the estimate exceeds the configured limit.
pub open spec fn generates_for(config: AppConfig, d: DiffResult, action: Action) -> bool {
    match action {
        Action::Generate { warning, request } => {
            &&& (warning is Some <==> d.tokens() > config.token_limit)
            &&& (warning is Some ==> warning->Some_0@ == limit_warning(
                d.tokens(),
                config.token_limit as nat,
            ))
            &&& request.system_prompt@ == config.prompt.system@
            &&& request.user_prompt@ == resolved_user_prompt(
                Some(replaced(config.prompt.user@, "{diff}"@, d.raw_text())),
                d.raw_text(),
            )
            &&& request.user_prompt@.len() > 0
            &&& request.diff_content@ == d.raw_text()
            &&& request.max_tokens is None
        },
        _ => false,
    }
}

/// One step of a run: from `stage`, on `event`, to `next`, asking for `action`.
pub open spec fn transition(
    config: AppConfig,
    stage: Stage,
    event: Event,
    next: Stage,
    action: Action,
) -> bool {
    match stage {
        Stage::Start => next == Stage::Discovering && action == Action::DiscoverRepo,
        Stage::Discovering => match event {
            Event::RepoDiscovered(Ok(repo)) => next == (Stage::ReadingDiff { repo })
                && action == (Action::ReadStagedDiff { repo }),
            Event::RepoDiscovered(Err(e)) => fails_with(next, action, e),
            _ => false,
        },
        Stage::ReadingDiff { repo } => match event {
            Event::DiffObtained(Ok(d)) => if d.raw_text().len() == 0 {
                &&& next == Stage::Failed
                &&& action is Finish
                &&& action->Finish_0 is Err
                &&& action->Finish_0->Err_0 is Git
                &&& action->Finish_0->Err_0->Git_0@ == nothing_staged_message()
            } else {
                next == (Stage::Generating { repo }) && generates_for(config, d, action)
            },
            Event::DiffObtained(Err(e)) => fails_with(next, action, e),
            _ => false,
        },
        Stage::Generating { repo } => match event {
            Event::ResponseReceived(Ok(resp)) => next == (Stage::Confirming {
                repo,
                message: resp.commit_message,
            }) && action == (Action::Confirm { message: resp.commit_message }),
            Event::ResponseReceived(Err(e)) => fails_with(next, action, e),
            _ => false,
        },
        Stage::Confirming { repo, message } => match event {
            Event::UserDecided(Ok(true)) => next == Stage::Committing && action == (Action::Commit {
                repo,
                message,
            }),
            Event::UserDecided(Ok(false)) => next == Stage::Cancelled && action == Action::Finish(
                Ok(()),
            ),
            Event::UserDecided(Err(e)) => fails_with(next, action, e),
            _ => false,
        },
        Stage::Committing => match event {
            Event::CommitDone(Ok(())) => next == Stage::Committed && action == Action::Finish(
                Ok(()),
            ),
            Event::CommitDone(Err(e)) => fails_with(next, action, e),
            _ => false,
        },
        _ => false,
    }
}

/// A run of the pipeline over one configuration.
#[derive(Debug)]
pub struct App {
    config: AppConfig,
    stage: Stage,
}

impl App {
    /// The configuration of the run.
    pub closed spec fn spec_config(&self) -> AppConfig {
        self.config
    }

    /// Where the run stands.
    pub closed spec fn spec_stage(&self) -> Stage {
        self.stage
    }

    pub fn new(config: AppConfig) -> (r: Self)
        ensures
            r.spec_config() == config,
            r.spec_stage() == Stage::Start,
    {
        App { config, stage: Stage::Start }
    }

    /// The models the configuration offers, for listing.
    pub fn list_models(&self) -> (r: &Vec<ModelConfig>)
        ensures
            r@ == self.spec_config().models@,
    {
        &self.config.models
    }

    pub fn config(&self) -> (r: &AppConfig)
        ensures
            *r == self.spec_config(),
    {
        &self.config
    }

    pub fn stage(&self) -> (r: &Stage)
        ensures
            *r == self.spec_stage(),
    {
        &self.stage
    }

    /// Whether the run waits for an event of this kind.
    pub fn awaits(&self, event: &Event) -> (r: bool)
        ensures
            r == expects(self.spec_stage(), *event),
    {
        match (&self.stage, event) {
            (Stage::Start, Event::Begin) => true,
            (Stage::Discovering, Event::RepoDiscovered(_)) => true,
            (Stage::ReadingDiff { .. }, Event::DiffObtained(_)) => true,
            (Stage::Generating { .. }, Event::ResponseReceived(_)) => true,
            (Stage::Confirming { .. }, Event::UserDecided(_)) => true,
            (Stage::Committing, Event::CommitDone(_)) => true,
            _ => false,
        }
    }

    /// Takes the outcome of the last action and says what to do next.
    pub fn step(&mut self, event: Event) -> (r: Action)
        requires
            expects(old(self).spec_stage(), event),
        ensures
            final(self).spec_config() == old(self).spec_config(),
            transition(old(self).spec_config(), old(self).spec_stage(), event, final(self).spec_stage(), r),
    {
        // The `_` arms below are the events that `expects` rules out.
        let mut stage = Stage::Failed;
        std::mem::swap(&mut self.stage, &mut stage);
        match stage {
            Stage::Start => {
                self.stage = Stage::Discovering;
                Action::DiscoverRepo
            },
            Stage::Discovering => match event {
                Event::RepoDiscovered(Ok(repo)) => {
                    self.stage = Stage::ReadingDiff { repo: repo.clone() };
                    Action::ReadStagedDiff { repo }
                },
                Event::RepoDiscovered(Err(e)) => Action::Finish(Err(e)),
                _ => Action::Finish(Ok(())),
            },
            Stage::ReadingDiff { repo } => match event {
                Event::DiffObtained(Ok(d)) => self.after_diff(repo, d),
                Event::DiffObtained(Err(e)) => Action::Finish(Err(e)),
                _ => Action::Finish(Ok(())),
            },
            Stage::Generating { repo } => match event {
                Event::ResponseReceived(Ok(resp)) => {
                    let message = resp.commit_message;
                    self.stage = Stage::Confirming { repo, message: message.clone() };
                    Action::Confirm { message }
                },
                Event::ResponseReceived(Err(e)) => Action::Finish(Err(e)),
                _ => Action::Finish(Ok(())),
            },
            Stage::Confirming { repo, message } => match event {
                Event::UserDecided(Ok(confirmed)) => {
                    if confirmed {
                        self.stage = Stage::Committing;
                        Action::Commit { repo, message }
                    } else {
                        self.stage = Stage::Cancelled;
                        Action::Finish(Ok(()))
                    }
                },
                Event::UserDecided(Err(e)) => Action::Finish(Err(e)),
                _ => Action::Finish(Ok(())),
            },
            Stage::Committing => match event {
                Event::CommitDone(Ok(())) => {
                    self.stage = Stage::Committed;
                    Action::Finish(Ok(()))
                },
                Event::CommitDone(Err(e)) => Action::Finish(Err(e)),
                _ => Action::Finish(Ok(())),
            },
            _ => Action::Finish(Ok(())),
        }
    }

    /// The step on a diff: stop when nothing is staged, else warn when the
    /// estimate is over the limit and build the request.
    fn after_diff(&mut self, repo: String, d: DiffResult) -> (r: Action)
        requires
            old(self).stage == Stage::Failed,
        ensures
            final(self).config == old(self).config,
            transition(
                old(self).config,
                Stage::ReadingDiff { repo },
                Event::DiffObtained(Ok(d)),
                final(self).stage,
                r,
            ),
    {
        if d.is_empty() {
            let msg = String::from_str("nothing is staged; add changes with git add first");
            return Action::Finish(Err(AppError::Git(msg)));
        }
        let estimated = d.estimated_tokens();
        let limit = self.config.token_limit;
        let warning = if estimated > limit {
            let w = String::from_str("the diff is estimated at ");
            let w = w.concat(decimal_text(estimated).as_str());
            let w = w.concat(" tokens, over the limit of ");
            let w = w.concat(decimal_text(limit).as_str());
            Some(w.concat(" tokens; the reply may be truncated"))
        } else {
            None
        };
        proof {
            reveal_strlit("{diff}");
        }
        let user = replace_all(self.config.prompt.user.as_str(), "{diff}", d.raw().as_str());
        let built = LlmRequest::builder().system_prompt(self.config.prompt.system.as_str()).user_prompt(
            user.as_str(),
        ).diff_content(d.raw().as_str()).build();
        match built {
            Ok(request) => {
                self.stage = Stage::Generating { repo };
                Action::Generate { warning, request }
            },
            Err(e) => Action::Finish(Err(e)),
        }
    }
}

} // verus!

use vstd::prelude::*;
use crate::app::{expects, is_terminal, rank, transition, Action, Event, Stage};
use crate::config::AppConfig;
use crate::error::AppError;
use crate::git::DiffResult;

verus! {

/// Each step moves a run forward, so no stage is passed through twice.
pub proof fn lemma_steps_advance(
    config: AppConfig,
    stage: Stage,
    event: Event,
    next: Stage,
    action: Action,
)
    requires
        transition(config, stage, event, next, action),
    ensures
        rank(next) > rank(stage),
{
}

/// A finished run takes no further event.
pub proof fn lemma_finished_run_is_final(stage: Stage, event: Event)
    requires
        is_terminal(stage),
    ensures
        !expects(stage, event),
{
}

/// With nothing staged the run stops at the diff with a repository error,
/// before any request is sent and before any limit warning.
pub proof fn lemma_empty_diff_stops(
    config: AppConfig,
    repo: String,
    d: DiffResult,
    next: Stage,
    action: Action,
)
    requires
        transition(config, Stage::ReadingDiff { repo }, Event::DiffObtained(Ok(d)), next, action),
        d.raw_text().len() == 0,
    ensures
        is_terminal(next),
        !(action is Generate),
        action is Finish && action->Finish_0 is Err && action->Finish_0->Err_0 is Git,
{
}

/// Only the step on a non-empty diff sends a request, and with it the only
/// warning of a run; it leaves the stage it starts from for good.
pub proof fn lemma_request_only_after_diff(
    config: AppConfig,
    stage: Stage,
    event: Event,
    next: Stage,
    action: Action,
)
    requires
        transition(config, stage, event, next, action),
        action is Generate,
    ensures
        stage is ReadingDiff,
        next is Generating,
        event is DiffObtained && event->DiffObtained_0 is Ok,
        event->DiffObtained_0->Ok_0.raw_text().len() > 0,
{
}

/// An estimate over the limit brings the warning, and the request is sent
/// all the same; within the limit there is no warning.
pub proof fn lemma_soft_limit(
    config: AppConfig,
    repo: String,
    d: DiffResult,
    next: Stage,
    action: Action,
)
    requires
        transition(config, Stage::ReadingDiff { repo }, Event::DiffObtained(Ok(d)), next, action),
        d.raw_text().len() > 0,
    ensures
        next is Generating,
        action is Generate,
        match action {
            Action::Generate { warning, .. } => (warning is Some <==> d.tokens()
                > config.token_limit),
            _ => false,
        },
{
}

/// A failed backend call ends the run with its error: no confirmation is
/// asked for and nothing is committed.
pub proof fn lemma_backend_failure_ends_run(
    config: AppConfig,
    repo: String,
    e: AppError,
    next: Stage,
    action: Action,
)
    requires
        transition(config, Stage::Generating { repo }, Event::ResponseReceived(Err(e)), next, action),
    ensures
        is_terminal(next),
        action == Action::Finish(Err(e)),
{
}

/// A commit is asked for only after the user confirmed, and with the
/// message that was confirmed.
pub proof fn lemma_commit_needs_confirmation(
    config: AppConfig,
    stage: Stage,
    event: Event,
    next: Stage,
    action: Action,
)
    requires
        transition(config, stage, event, next, action),
        action is Commit,
    ensures
        event == Event::UserDecided(Ok(true)),
        match stage {
            Stage::Confirming { repo, message } => action == (Action::Commit { repo, message }),
            _ => false,
        },
{
}

/// Declining ends the run successfully without a commit.
pub proof fn lemma_decline_commits_nothing(
    config: AppConfig,
    repo: String,
    message: String,
    next: Stage,
    action: Action,
)
    requires
        transition(
            config,
            Stage::Confirming { repo, message },
            Event::UserDecided(Ok(false)),
            next,
            action,
        ),
    ensures
        next == Stage::Cancelled,
        is_terminal(next),
        action == Action::Finish(Ok(())),
{
}

} // verus!

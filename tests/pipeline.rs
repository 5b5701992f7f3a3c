use llmc::app::{Action, App, Event, Stage};
use llmc::config::{AppConfig, ModelConfig, PromptConfig};
use llmc::error::AppError;
use llmc::git::DiffResult;
use llmc::llm::LlmResponse;

fn config(limit: usize) -> AppConfig {
    AppConfig {
        default_model: "gpt".to_string(),
        token_limit: limit,
        prompt: PromptConfig {
            system: "You write commit messages.".to_string(),
            user: "Summarise:\n{diff}\n(end of {diff})".to_string(),
        },
        models: vec![ModelConfig {
            name: "gpt".to_string(),
            provider: "openai".to_string(),
            api_base: "https://api.example.com/v1".to_string(),
            api_key_env: "EXAMPLE_API_KEY".to_string(),
            model_id: "gpt-x".to_string(),
            max_tokens: None,
        }],
    }
}

/// Drives a run up to the point where the diff has been handed over.
fn run_to_diff(app: &mut App, diff: DiffResult) -> Action {
    assert!(matches!(app.step(Event::Begin), Action::DiscoverRepo));
    match app.step(Event::RepoDiscovered(Ok("/work/repo".to_string()))) {
        Action::ReadStagedDiff { repo } => assert_eq!(repo, "/work/repo"),
        other => panic!("unexpected {:?}", other),
    }
    app.step(Event::DiffObtained(Ok(diff)))
}

fn four_hundred_char_diff() -> DiffResult {
    let raw = format!("+{}", "a".repeat(399));
    assert_eq!(raw.chars().count(), 400);
    DiffResult::new(raw, 1)
}

#[test]
fn scenario_a_confirmed_commit() {
    let diff = four_hundred_char_diff();
    assert_eq!(diff.files_changed(), 1);
    assert_eq!(diff.estimated_tokens(), 100);
    let raw = diff.raw().clone();
    let mut app = App::new(config(4000));
    match run_to_diff(&mut app, diff) {
        Action::Generate { warning, request } => {
            assert!(warning.is_none());
            assert_eq!(request.system_prompt, "You write commit messages.");
            assert_eq!(request.diff_content, raw);
            assert_eq!(request.user_prompt, format!("Summarise:\n{}\n(end of {})", raw, raw));
            assert_eq!(request.max_tokens, None);
        }
        other => panic!("unexpected {:?}", other),
    }
    let reply = LlmResponse { commit_message: "feat: add foo".to_string(), usage_tokens: Some(42) };
    match app.step(Event::ResponseReceived(Ok(reply))) {
        Action::Confirm { message } => assert_eq!(message, "feat: add foo"),
        other => panic!("unexpected {:?}", other),
    }
    match app.step(Event::UserDecided(Ok(true))) {
        Action::Commit { repo, message } => {
            assert_eq!(repo, "/work/repo");
            assert_eq!(message, "feat: add foo");
        }
        other => panic!("unexpected {:?}", other),
    }
    assert!(matches!(app.step(Event::CommitDone(Ok(()))), Action::Finish(Ok(()))));
    assert!(matches!(app.stage(), Stage::Committed));
    assert!(!app.awaits(&Event::Begin));
}

#[test]
fn scenario_b_nothing_staged() {
    let mut app = App::new(config(0));
    match run_to_diff(&mut app, DiffResult::new(String::new(), 0)) {
        Action::Finish(Err(AppError::Git(m))) => {
            assert_eq!(m, "nothing is staged; add changes with git add first")
        }
        other => panic!("unexpected {:?}", other),
    }
    assert!(matches!(app.stage(), Stage::Failed));
    assert!(!app.awaits(&Event::ResponseReceived(Err(AppError::Llm("x".to_string())))));
}

#[test]
fn scenario_c_backend_failure() {
    let mut app = App::new(config(4000));
    assert!(matches!(run_to_diff(&mut app, four_hundred_char_diff()), Action::Generate { .. }));
    let err = AppError::Llm("the API returned an error (500): down".to_string());
    match app.step(Event::ResponseReceived(Err(err))) {
        Action::Finish(Err(AppError::Llm(m))) => assert_eq!(m, "the API returned an error (500): down"),
        other => panic!("unexpected {:?}", other),
    }
    assert!(matches!(app.stage(), Stage::Failed));
    assert!(!app.awaits(&Event::UserDecided(Ok(true))));
}

#[test]
fn scenario_d_user_declines() {
    let mut app = App::new(config(4000));
    assert!(matches!(run_to_diff(&mut app, four_hundred_char_diff()), Action::Generate { .. }));
    let reply = LlmResponse { commit_message: "feat: add foo".to_string(), usage_tokens: None };
    assert!(matches!(app.step(Event::ResponseReceived(Ok(reply))), Action::Confirm { .. }));
    assert!(matches!(app.step(Event::UserDecided(Ok(false))), Action::Finish(Ok(()))));
    assert!(matches!(app.stage(), Stage::Cancelled));
    assert!(!app.awaits(&Event::CommitDone(Ok(()))));
}

#[test]
fn empty_diff_stops_even_over_limit() {
    let mut app = App::new(config(0));
    let action = run_to_diff(&mut app, DiffResult::new(String::new(), 2));
    assert!(matches!(action, Action::Finish(Err(AppError::Git(_)))));
}

#[test]
fn over_limit_warns_and_proceeds() {
    let mut app = App::new(config(10));
    let diff = DiffResult::new("+".repeat(100), 1);
    match run_to_diff(&mut app, diff) {
        Action::Generate { warning, request } => {
            assert_eq!(
                warning.unwrap(),
                "the diff is estimated at 25 tokens, over the limit of 10 tokens; the reply may be truncated"
            );
            assert_eq!(request.diff_content, "+".repeat(100));
        }
        other => panic!("unexpected {:?}", other),
    }
    assert!(matches!(app.stage(), Stage::Generating { .. }));
}

#[test]
fn limit_reached_exactly_does_not_warn() {
    let mut app = App::new(config(25));
    match run_to_diff(&mut app, DiffResult::new("+".repeat(100), 1)) {
        Action::Generate { warning, .. } => assert!(warning.is_none()),
        other => panic!("unexpected {:?}", other),
    }
}

#[test]
fn discovery_failure_ends_run() {
    let mut app = App::new(config(10));
    assert!(matches!(app.step(Event::Begin), Action::DiscoverRepo));
    let err = AppError::Git("no repository".to_string());
    assert!(matches!(app.step(Event::RepoDiscovered(Err(err))), Action::Finish(Err(AppError::Git(_)))));
    assert!(matches!(app.stage(), Stage::Failed));
}

#[test]
fn commit_failure_ends_run() {
    let mut app = App::new(config(4000));
    run_to_diff(&mut app, four_hundred_char_diff());
    let reply = LlmResponse { commit_message: "m".to_string(), usage_tokens: None };
    app.step(Event::ResponseReceived(Ok(reply)));
    assert!(matches!(app.step(Event::UserDecided(Ok(true))), Action::Commit { .. }));
    let err = AppError::Git("locked".to_string());
    assert!(matches!(app.step(Event::CommitDone(Err(err))), Action::Finish(Err(AppError::Git(_)))));
}

#[test]
fn list_models_shows_configuration() {
    let app = App::new(config(1));
    assert_eq!(app.list_models().len(), 1);
    assert_eq!(app.list_models()[0].name, "gpt");
    assert_eq!(app.config().token_limit, 1);
    assert!(app.awaits(&Event::Begin));
}

#[test]
fn empty_user_template_falls_back_to_default_prompt() {
    let mut cfg = config(4000);
    cfg.prompt.user = String::new();
    let mut app = App::new(cfg);
    match run_to_diff(&mut app, DiffResult::new("+a".to_string(), 1)) {
        Action::Generate { request, .. } => assert_eq!(
            request.user_prompt,
            "Generate a commit message for the following git diff:\n\n+a"
        ),
        other => panic!("unexpected {:?}", other),
    }
}

#[test]
fn warning_spells_large_numbers() {
    let mut app = App::new(config(1234567));
    let diff = DiffResult::new("x".repeat(4_938_272), 1);
    match run_to_diff(&mut app, diff) {
        Action::Generate { warning, .. } => assert_eq!(
            warning.unwrap(),
            "the diff is estimated at 1234568 tokens, over the limit of 1234567 tokens; the reply may be truncated"
        ),
        other => panic!("unexpected {:?}", other),
    }
}

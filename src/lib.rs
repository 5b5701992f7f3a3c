//! Commit-message assistant: the decisions of a run that inspects staged
//! changes, asks a language-model backend for a message and commits it.

pub mod app;
pub mod config;
pub mod error;
pub mod git;
pub mod llm;
pub mod prompt;
pub mod text;
pub mod laws;

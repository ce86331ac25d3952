//! Prompt construction, command explanations and the parsing of model output.
pub mod explainer;
pub mod ollama;
pub mod parser;
pub mod prompt_builder;
pub mod react;

pub use explainer::CommandExplainer;
pub use ollama::{OllamaBackend, OllamaStatus};
pub use parser::{single_command_fallback, Command, CommandSequence};
pub use prompt_builder::PromptBuilder;
pub use react::{NextAction, ReActStep, ValidationResult};

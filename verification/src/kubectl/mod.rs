//! kubectl support: risk classification, contexts, execution results and
//! the prompts used to translate requests into kubectl commands.
pub mod context;
pub mod executor;
pub mod openai;
pub mod risk_classifier;
pub mod translator;

pub use context::{EnvironmentType, KubectlContext};
pub use executor::{format_output, ExecutionResult};
pub use risk_classifier::RiskLevel;
pub use translator::TranslationResult;

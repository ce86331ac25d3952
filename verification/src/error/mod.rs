//! Known errors of ops tools and their explanations.
pub mod explainer;
pub mod patterns;

pub use explainer::{ErrorExplainer, ExplainStep, ExplanationReply, SolutionReply};
pub use patterns::{ErrorExplanation, ErrorPattern, PatternMatcher, Solution};

//! The mentor: detects errors in command output and explains them.
pub mod cache;
pub mod colorless;
pub mod colors;
pub mod detector;
pub mod guidance;
pub mod llm_fallback;
pub mod display;
pub mod engine;
pub mod types;

pub use colors::MentorColors;
pub use types::{ErrorInfo, ErrorType, SourceLocation};
pub use display::{DisplayConfig, MentorDisplay, Verbosity};
pub use guidance::{GuidanceSource, MentorGuidance, NextStep};

//! What the learner has met and learned: skill levels, error records and
//! session summaries.
pub mod skill;
pub mod summary;
pub mod tracker;

pub use skill::{SkillDetector, SkillLevel, VerbosityMode};
pub use summary::{Achievement, ConceptSummary, SessionStats, SessionSummary, SummaryGenerator};
pub use tracker::{ErrorEncounter, ErrorSummary};

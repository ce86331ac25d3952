//! Skill levels and how they set the mentor's verbosity. The weighted
//! scoring of a learner's progress works on fractions and is done by the
//! application.
use crate::mentor::Verbosity;
use vstd::prelude::*;

verus! {

/// How experienced the user is.
#[derive(Debug, Clone, Copy, PartialEq, Eq, Structural)]
pub enum SkillLevel {
    /// Needs detailed explanations.
    Beginner,
    /// Standard guidance.
    Intermediate,
    /// Minimal hints.
    Advanced,
}

/// The verbosity that suits a skill level: verbose for beginners, normal
/// for intermediate users, compact for advanced ones.
pub open spec fn verbosity_for(level: SkillLevel) -> Verbosity {
    match level {
        SkillLevel::Beginner => Verbosity::Verbose,
        SkillLevel::Intermediate => Verbosity::Normal,
        SkillLevel::Advanced => Verbosity::Compact,
    }
}

/// The description of a skill level.
pub open spec fn skill_description(level: SkillLevel) -> Seq<char> {
    match level {
        SkillLevel::Beginner => "Beginner - Learning the basics"@,
        SkillLevel::Intermediate => "Intermediate - Building competence"@,
        SkillLevel::Advanced => "Advanced - Confident practitioner"@,
    }
}

impl SkillLevel {
    /// The verbosity that suits this level.
    pub fn recommended_verbosity(&self) -> (r: Verbosity)
        ensures
            r == verbosity_for(*self),
    {
        match self {
            SkillLevel::Beginner => Verbosity::Verbose,
            SkillLevel::Intermediate => Verbosity::Normal,
            SkillLevel::Advanced => Verbosity::Compact,
        }
    }

    /// A human-readable description of this level.
    pub fn description(&self) -> (r: &'static str)
        ensures
            r@ == skill_description(*self),
    {
        match self {
            SkillLevel::Beginner => "Beginner - Learning the basics",
            SkillLevel::Intermediate => "Intermediate - Building competence",
            SkillLevel::Advanced => "Advanced - Confident practitioner",
        }
    }
}

/// Assesses skill from a learner's progress.
pub struct SkillDetector {
    /// Fewest errors seen before an assessment is made.
    min_errors_for_assessment: u32,
}

impl View for SkillDetector {
    /// The fewest errors seen before an assessment is made.
    type V = u32;

    closed spec fn view(&self) -> u32 {
        self.min_errors_for_assessment
    }
}

impl SkillDetector {
    /// A detector that assesses after five errors.
    pub fn new() -> (r: Self)
        ensures
            r@ == 5,
    {
        SkillDetector { min_errors_for_assessment: 5 }
    }

    /// Whether `total_errors` is too few to assess: such a learner counts as
    /// a beginner.
    pub fn needs_more_data(&self, total_errors: u32) -> (r: bool)
        ensures
            r == (total_errors < self@),
    {
        total_errors < self.min_errors_for_assessment
    }
}

impl Default for SkillDetector {
    fn default() -> (r: Self)
        ensures
            r@ == 5,
    {
        SkillDetector::new()
    }
}

/// How the verbosity is chosen.
#[derive(Debug, Clone, Copy, PartialEq, Eq, Structural)]
pub enum VerbosityMode {
    /// Follow the user's skill level.
    Auto,
    /// Always this verbosity.
    Fixed(Verbosity),
}

impl Default for VerbosityMode {
    fn default() -> (r: Self)
        ensures
            r == VerbosityMode::Auto,
    {
        VerbosityMode::Auto
    }
}

/// The verbosity used under `mode` for a user at `level`.
pub open spec fn effective_verbosity(mode: VerbosityMode, level: SkillLevel) -> Verbosity {
    match mode {
        VerbosityMode::Auto => verbosity_for(level),
        VerbosityMode::Fixed(v) => v,
    }
}

impl VerbosityMode {
    /// The verbosity used for a user at `skill_level`: the one the level
    /// suits in automatic mode, the fixed one otherwise.
    pub fn get_verbosity(&self, skill_level: SkillLevel) -> (r: Verbosity)
        ensures
            r == effective_verbosity(*self, skill_level),
    {
        match self {
            VerbosityMode::Auto => skill_level.recommended_verbosity(),
            VerbosityMode::Fixed(v) => *v,
        }
    }
}

/// A fixed verbosity does not depend on the skill level.
pub proof fn law_fixed_mode_ignores_skill(v: Verbosity, a: SkillLevel, b: SkillLevel)
    ensures
        effective_verbosity(VerbosityMode::Fixed(v), a) == effective_verbosity(
            VerbosityMode::Fixed(v),
            b,
        ),
{
}

} // verus!

//! Risk levels of kubectl commands.
use vstd::prelude::*;
use crate::text::{contains, lowercase, str_contains, to_lowercase};

verus! {

/// Risk level of a kubectl command.
#[derive(Debug, Clone, Copy, PartialEq, Eq, Structural)]
pub enum RiskLevel {
    /// Read-only operations (get, describe, logs, top).
    Low,
    /// State-modifying operations (apply, scale, create, patch).
    Medium,
    /// Destructive operations (delete, drain, scale to 0).
    High,
}

/// The label of a risk level.
pub open spec fn risk_label(r: RiskLevel) -> Seq<char> {
    match r {
        RiskLevel::Low => "LOW"@,
        RiskLevel::Medium => "MEDIUM"@,
        RiskLevel::High => "HIGH"@,
    }
}

/// The command scales to zero replicas.
pub open spec fn scales_to_zero(l: Seq<char>) -> bool {
    contains(l, "scale"@) && (contains(l, "--replicas=0"@) || contains(l, "--replicas 0"@))
}

/// The command holds a word of a state-modifying operation.
pub open spec fn modifies_state(l: Seq<char>) -> bool {
    ||| contains(l, "apply"@)
    ||| contains(l, "create"@)
    ||| contains(l, "patch"@)
    ||| contains(l, "edit"@)
    ||| contains(l, "scale"@)
    ||| contains(l, "rollout"@)
    ||| contains(l, "restart"@)
    ||| contains(l, "label"@)
    ||| contains(l, "annotate"@)
}

/// Risk of a command given in lower case: destructive words or scaling to
/// zero are high, state-modifying words are medium, anything else is low.
pub open spec fn risk_of(l: Seq<char>) -> RiskLevel {
    if contains(l, "delete"@) || contains(l, "drain"@) || scales_to_zero(l) {
        RiskLevel::High
    } else if modifies_state(l) {
        RiskLevel::Medium
    } else {
        RiskLevel::Low
    }
}

impl RiskLevel {
    /// Label for storage and display.
    pub fn as_str(&self) -> (r: &'static str)
        ensures
            r@ == risk_label(*self),
            *self == RiskLevel::Low ==> r@ == "LOW"@,
            *self == RiskLevel::Medium ==> r@ == "MEDIUM"@,
            *self == RiskLevel::High ==> r@ == "HIGH"@,
    {
        match self {
            RiskLevel::Low => "LOW",
            RiskLevel::Medium => "MEDIUM",
            RiskLevel::High => "HIGH",
        }
    }

    /// Classifies a command that is already in lower case.
    pub fn classify_lowered(cmd_lower: &str) -> (r: RiskLevel)
        ensures
            r == risk_of(cmd_lower@),
            (r == RiskLevel::High) <==> (contains(cmd_lower@, "delete"@) || contains(cmd_lower@, "drain"@)
            || (contains(cmd_lower@, "scale"@) && (contains(cmd_lower@, "--replicas=0"@) || contains(cmd_lower@, "--replicas 0"@)))),
            (r == RiskLevel::Low) <==> !(contains(cmd_lower@, "delete"@) || contains(cmd_lower@, "drain"@) || contains(cmd_lower@, "apply"@)
            || contains(cmd_lower@, "create"@) || contains(cmd_lower@, "patch"@) || contains(cmd_lower@, "edit"@)
            || contains(cmd_lower@, "scale"@) || contains(cmd_lower@, "rollout"@) || contains(cmd_lower@, "restart"@)
            || contains(cmd_lower@, "label"@) || contains(cmd_lower@, "annotate"@)),
    {
        let l = cmd_lower;
        if str_contains(l, "delete") || str_contains(l, "drain") {
            return RiskLevel::High;
        }
        if str_contains(l, "scale") && (str_contains(l, "--replicas=0") || str_contains(
            l,
            "--replicas 0",
        )) {
            return RiskLevel::High;
        }
        if str_contains(l, "apply") || str_contains(l, "create") || str_contains(l, "patch")
            || str_contains(l, "edit") || str_contains(l, "scale") || str_contains(l, "rollout")
            || str_contains(l, "restart") || str_contains(l, "label") || str_contains(
            l,
            "annotate",
        ) {
            return RiskLevel::Medium;
        }
        RiskLevel::Low
    }

    /// Classifies a kubectl command by risk level, ignoring case.
    pub fn classify(command: &str) -> (r: RiskLevel)
        ensures
            r == risk_of(lowercase(command@)),
            (r == RiskLevel::High) <==> (contains(lowercase(command@), "delete"@) || contains(lowercase(command@), "drain"@)
            || (contains(lowercase(command@), "scale"@) && (contains(lowercase(command@), "--replicas=0"@) || contains(lowercase(command@), "--replicas 0"@)))),
            (r == RiskLevel::Low) <==> !(contains(lowercase(command@), "delete"@) || contains(lowercase(command@), "drain"@) || contains(lowercase(command@), "apply"@)
            || contains(lowercase(command@), "create"@) || contains(lowercase(command@), "patch"@) || contains(lowercase(command@), "edit"@)
            || contains(lowercase(command@), "scale"@) || contains(lowercase(command@), "rollout"@) || contains(lowercase(command@), "restart"@)
            || contains(lowercase(command@), "label"@) || contains(lowercase(command@), "annotate"@)),
    {
        let l = to_lowercase(command);
        Self::classify_lowered(l.as_str())
    }

    /// Whether a command of this level needs confirmation.
    pub fn requires_confirmation(&self) -> (b: bool)
        ensures
            b == (*self != RiskLevel::Low),
    {
        match self {
            RiskLevel::Low => false,
            RiskLevel::Medium | RiskLevel::High => true,
        }
    }
}

/// Classification ignores case: two commands with the same lower-case form
/// get the same risk level.
pub proof fn law_classify_ignores_case(a: Seq<char>, b: Seq<char>)
    requires
        lowercase(a) == lowercase(b),
    ensures
        risk_of(lowercase(a)) == risk_of(lowercase(b)),
{
}

/// Every destructive command needs confirmation, and a command needs
/// confirmation exactly when it is not read-only.
pub proof fn law_destructive_needs_confirmation(l: Seq<char>)
    ensures
        contains(l, "delete"@) ==> risk_of(l) == RiskLevel::High,
        contains(l, "drain"@) ==> risk_of(l) == RiskLevel::High,
        (risk_of(l) != RiskLevel::Low) <==> (contains(l, "delete"@) || contains(l, "drain"@)
            || scales_to_zero(l) || modifies_state(l)),
{
}

/// The words that decide a command's risk: it is high exactly when it
/// deletes, drains, or scales to zero replicas; it is low (read-only, no
/// confirmation asked) exactly when it holds none of the destructive words
/// and none of the state-modifying ones (apply, create, patch, edit, scale,
/// rollout, restart, label, annotate). So every command with one of those
/// words is at least medium and needs confirmation.
pub proof fn law_risk_words(l: Seq<char>)
    ensures
        (risk_of(l) == RiskLevel::High) <==> (contains(l, "delete"@) || contains(l, "drain"@)
            || (contains(l, "scale"@) && (contains(l, "--replicas=0"@) || contains(l, "--replicas 0"@)))),
        (risk_of(l) == RiskLevel::Low) <==> !(contains(l, "delete"@) || contains(l, "drain"@) || contains(l, "apply"@)
            || contains(l, "create"@) || contains(l, "patch"@) || contains(l, "edit"@)
            || contains(l, "scale"@) || contains(l, "rollout"@) || contains(l, "restart"@)
            || contains(l, "label"@) || contains(l, "annotate"@)),
{
}

} // verus!

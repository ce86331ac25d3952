//! Prompts for translating a request into a kubectl command, and the checks
//! applied to the translation that comes back.
use vstd::prelude::*;
use crate::text::{contains, dec, lowercase, owned, starts_with, str_contains, str_starts_with, str_trim, to_lowercase, trim, u64_to_dec};
use super::context::{environment_label, effective_namespace_of, KubectlContext};
use super::translator::TranslationResult;

verus! {

pub const SYSTEM_PROMPT_INTRO: &'static str = "You are a kubectl expert assistant. Translate natural language requests into valid kubectl commands.\n\nCURRENT CONTEXT:\n- Cluster: ";
pub const SYSTEM_PROMPT_NAMESPACE: &'static str = "\n- Namespace: ";
pub const SYSTEM_PROMPT_ENVIRONMENT: &'static str = "\n- Environment: ";
pub const SYSTEM_PROMPT_RULES: &'static str = "\n\nSUPPORTED OPERATIONS:\nget, describe, logs, delete, scale, apply, create, patch, edit, exec, port-forward, drain, cordon, uncordon, top, rollout, label, annotate, cp, auth\n\nRULES:\n1. Return ONLY valid JSON with this exact structure:\n   {\n     \"command\": \"kubectl [subcommand] [args]\",\n     \"confidence\": <0-100>,\n     \"reasoning\": \"<explanation>\"\n   }\n\n2. If the request is ambiguous (missing pod name, namespace, resource type), set confidence below 70 and include \"NEEDS_CLARIFICATION: [specific question]\" in reasoning.\n\n3. Always use the current namespace unless user explicitly specifies another with \"-n\" or \"--namespace\".\n\n4. Never return commands that:\n   - Use absolute paths or file references\n   - Require interactive input (kubectl exec -it is OK, but note it's interactive)\n   - Include shell pipes or redirects\n\n5. For destructive operations (delete, drain), ensure resource name is explicitly provided. If not, set confidence below 70.\n\nEXAMPLES:\nUser: \"show all pods\"\nResponse: {\"command\": \"kubectl get pods -n ";
pub const SYSTEM_PROMPT_EXAMPLE_DELETE: &'static str = "\", \"confidence\": 95, \"reasoning\": \"Standard pod listing in current namespace\"}\n\nUser: \"delete deployment nginx\"\nResponse: {\"command\": \"kubectl delete deployment nginx -n ";
pub const SYSTEM_PROMPT_EXAMPLE_SCALE: &'static str = "\", \"confidence\": 90, \"reasoning\": \"Explicit deployment deletion with resource name provided\"}\n\nUser: \"show logs\"\nResponse: {\"command\": \"kubectl logs\", \"confidence\": 40, \"reasoning\": \"NEEDS_CLARIFICATION: Which pod? Command requires pod name (e.g., 'kubectl logs <pod-name>')\"}\n\nUser: \"scale my api to 5\"\nResponse: {\"command\": \"kubectl scale deployment api --replicas=5 -n ";
pub const SYSTEM_PROMPT_END: &'static str = "\", \"confidence\": 75, \"reasoning\": \"Assuming 'api' is deployment name. If it's a different resource type, please specify.\"}\n\nNow translate the following request:";

pub const USER_PROMPT_INTRO: &'static str = "Natural language request: \"";
pub const USER_PROMPT_CLUSTER: &'static str = "\"\n\nContext reminder:\n- Current cluster: ";
pub const USER_PROMPT_NAMESPACE: &'static str = "\n- Current namespace: ";
pub const USER_PROMPT_ENVIRONMENT: &'static str = "\n- Environment type: ";
pub const USER_PROMPT_END: &'static str = "\n\nProvide your response as JSON with command, confidence, and reasoning fields.";

/// The system prompt for a context with the given cluster, namespace and
/// environment label.
pub open spec fn system_prompt_text(cluster: Seq<char>, ns: Seq<char>, env: Seq<char>) -> Seq<char> {
    SYSTEM_PROMPT_INTRO@ + cluster + SYSTEM_PROMPT_NAMESPACE@ + ns + SYSTEM_PROMPT_ENVIRONMENT@ + env
        + SYSTEM_PROMPT_RULES@ + ns + SYSTEM_PROMPT_EXAMPLE_DELETE@ + ns + SYSTEM_PROMPT_EXAMPLE_SCALE@
        + ns + SYSTEM_PROMPT_END@
}

/// The user prompt for a request in a context.
pub open spec fn user_prompt_text(input: Seq<char>, cluster: Seq<char>, ns: Seq<char>, env: Seq<char>) -> Seq<char> {
    USER_PROMPT_INTRO@ + input + USER_PROMPT_CLUSTER@ + cluster + USER_PROMPT_NAMESPACE@ + ns
        + USER_PROMPT_ENVIRONMENT@ + env + USER_PROMPT_END@
}

/// Builds the system prompt for a context.
pub fn build_system_prompt(context: &KubectlContext) -> (r: String)
    ensures
        r@ == system_prompt_text(
            context.cluster@,
            effective_namespace_of(context.namespace),
            environment_label(context.environment_type),
        ),
{
    let ns = context.effective_namespace();
    let env = context.environment_type.as_str();
    let mut p = owned(SYSTEM_PROMPT_INTRO);
    p.append(context.cluster.as_str());
    p.append(SYSTEM_PROMPT_NAMESPACE);
    p.append(ns);
    p.append(SYSTEM_PROMPT_ENVIRONMENT);
    p.append(env);
    p.append(SYSTEM_PROMPT_RULES);
    p.append(ns);
    p.append(SYSTEM_PROMPT_EXAMPLE_DELETE);
    p.append(ns);
    p.append(SYSTEM_PROMPT_EXAMPLE_SCALE);
    p.append(ns);
    p.append(SYSTEM_PROMPT_END);
    p
}

/// Builds the user prompt for a request in a context.
pub fn build_user_prompt(input: &str, context: &KubectlContext) -> (r: String)
    ensures
        r@ == user_prompt_text(
            input@,
            context.cluster@,
            effective_namespace_of(context.namespace),
            environment_label(context.environment_type),
        ),
{
    let mut p = owned(USER_PROMPT_INTRO);
    p.append(input);
    p.append(USER_PROMPT_CLUSTER);
    p.append(context.cluster.as_str());
    p.append(USER_PROMPT_NAMESPACE);
    p.append(context.effective_namespace());
    p.append(USER_PROMPT_ENVIRONMENT);
    p.append(context.environment_type.as_str());
    p.append(USER_PROMPT_END);
    p
}

/// An error message (in lower case) names a network problem.
pub open spec fn retryable(l: Seq<char>) -> bool {
    contains(l, "timeout"@) || contains(l, "connection"@) || contains(l, "network"@)
}

/// Whether an error message names a network problem worth one retry, case
/// ignored.
pub fn is_retryable_error(message: &str) -> (b: bool)
    ensures
        b == retryable(lowercase(message@)),
{
    let l = to_lowercase(message);
    is_retryable_lowered(l.as_str())
}

/// Whether an error message given in lower case names a network problem.
pub fn is_retryable_lowered(message_lower: &str) -> (b: bool)
    ensures
        b == retryable(message_lower@),
{
    str_contains(message_lower, "timeout") || str_contains(message_lower, "connection")
        || str_contains(message_lower, "network")
}

/// Kinds of failure of a translation request, each with its message.
pub open spec fn openai_error_text(e: Seq<char>) -> Seq<char> {
    if contains(e, "401"@) || contains(e, "Incorrect API key"@) {
        "Invalid OpenAI API key. Check your configuration in ~/.kaido/config.toml\nOriginal error: "@ + e
    } else if contains(e, "429"@) || contains(e, "Rate limit"@) {
        "OpenAI API rate limit exceeded. Try again in 60 seconds or enter kubectl command manually.\nOriginal error: "@ + e
    } else if contains(e, "500"@) || contains(e, "503"@) {
        "OpenAI service unavailable. Enter kubectl command manually.\nOriginal error: "@ + e
    } else if contains(e, "timeout"@) {
        "OpenAI request timed out. Enter kubectl command manually.\nOriginal error: "@ + e
    } else {
        "OpenAI translation failed. Enter kubectl command manually.\nOriginal error: "@ + e
    }
}

/// The user-facing message for a failed translation request.
pub fn handle_openai_error(error: &str) -> (r: String)
    ensures
        r@ == openai_error_text(error@),
{
    let mut r = if str_contains(error, "401") || str_contains(error, "Incorrect API key") {
        owned("Invalid OpenAI API key. Check your configuration in ~/.kaido/config.toml\nOriginal error: ")
    } else if str_contains(error, "429") || str_contains(error, "Rate limit") {
        owned("OpenAI API rate limit exceeded. Try again in 60 seconds or enter kubectl command manually.\nOriginal error: ")
    } else if str_contains(error, "500") || str_contains(error, "503") {
        owned("OpenAI service unavailable. Enter kubectl command manually.\nOriginal error: ")
    } else if str_contains(error, "timeout") {
        owned("OpenAI request timed out. Enter kubectl command manually.\nOriginal error: ")
    } else {
        owned("OpenAI translation failed. Enter kubectl command manually.\nOriginal error: ")
    };
    r.append(error);
    r
}

/// Why a translation was rejected.
#[derive(Debug, Clone, PartialEq, Eq)]
pub enum TranslationError {
    /// The command does not start with `kubectl `; holds the command.
    NotKubectl(String),
    /// The confidence is above 100; holds the confidence.
    ConfidenceOutOfRange(u8),
}

/// The message shown for a rejected translation.
pub open spec fn translation_error_text(e: TranslationError) -> Seq<char> {
    match e {
        TranslationError::NotKubectl(c) => "Invalid command from AI: does not start with 'kubectl '. Got: "@ + c@,
        TranslationError::ConfidenceOutOfRange(n) => "Invalid confidence score: "@ + dec(n as nat)
            + " (must be 0-100)"@,
    }
}

impl TranslationError {
    /// The message shown for this rejection.
    pub fn message(&self) -> (r: String)
        ensures
            r@ == translation_error_text(*self),
    {
        match self {
            TranslationError::NotKubectl(c) => {
                let mut m = owned("Invalid command from AI: does not start with 'kubectl '. Got: ");
                m.append(c.as_str());
                m
            },
            TranslationError::ConfidenceOutOfRange(n) => {
                let mut m = owned("Invalid confidence score: ");
                let d = u64_to_dec(*n as u64);
                m.append(d.as_str());
                m.append(" (must be 0-100)");
                m
            },
        }
    }
}

/// Checks a translation read from the model's reply: the command, trimmed,
/// must start with `kubectl ` and the confidence must be at most 100.
pub fn validate_translation(command: String, confidence: u8, reasoning: String) -> (r: Result<TranslationResult, TranslationError>)
    ensures
        !starts_with(trim(command@), "kubectl "@) ==> r == Err::<TranslationResult, TranslationError>(TranslationError::NotKubectl(command)),
        starts_with(trim(command@), "kubectl "@) && confidence > 100 ==> r == Err::<TranslationResult, TranslationError>(TranslationError::ConfidenceOutOfRange(confidence)),
        starts_with(trim(command@), "kubectl "@) && confidence <= 100 ==> (r matches Ok(t) && t.kubectl_command == command
            && t.confidence_score == confidence && t.reasoning == reasoning),
{
    let t = str_trim(command.as_str());
    if !str_starts_with(t.as_str(), "kubectl ") {
        return Err(TranslationError::NotKubectl(command));
    }
    if confidence > 100 {
        return Err(TranslationError::ConfidenceOutOfRange(confidence));
    }
    Ok(TranslationResult::new(command, confidence, reasoning))
}

/// An error is retried exactly when its message, in lower case, holds
/// `timeout`, `connection` or `network`.
pub proof fn law_retryable_words(message: Seq<char>)
    ensures
        retryable(lowercase(message)) <==> (contains(lowercase(message), "timeout"@)
            || contains(lowercase(message), "connection"@) || contains(lowercase(message), "network"@)),
{
}

/// The message for a failed request names the first kind of failure its
/// error shows: an invalid key (`401`, `Incorrect API key`), the rate
/// limit (`429`, `Rate limit`), the service unavailable (`500`, `503`), a
/// timeout; a general failure otherwise. The original error always follows.
pub proof fn law_openai_error_kinds(e: Seq<char>)
    ensures
        contains(e, "401"@) || contains(e, "Incorrect API key"@) ==> openai_error_text(e)
            == "Invalid OpenAI API key. Check your configuration in ~/.kaido/config.toml\nOriginal error: "@ + e,
        !(contains(e, "401"@) || contains(e, "Incorrect API key"@)) && (contains(e, "429"@) || contains(e, "Rate limit"@))
            ==> openai_error_text(e)
            == "OpenAI API rate limit exceeded. Try again in 60 seconds or enter kubectl command manually.\nOriginal error: "@ + e,
        !(contains(e, "401"@) || contains(e, "Incorrect API key"@) || contains(e, "429"@) || contains(e, "Rate limit"@))
            && (contains(e, "500"@) || contains(e, "503"@)) ==> openai_error_text(e)
            == "OpenAI service unavailable. Enter kubectl command manually.\nOriginal error: "@ + e,
        !(contains(e, "401"@) || contains(e, "Incorrect API key"@) || contains(e, "429"@) || contains(e, "Rate limit"@)
            || contains(e, "500"@) || contains(e, "503"@)) && contains(e, "timeout"@) ==> openai_error_text(e)
            == "OpenAI request timed out. Enter kubectl command manually.\nOriginal error: "@ + e,
        !(contains(e, "401"@) || contains(e, "Incorrect API key"@) || contains(e, "429"@) || contains(e, "Rate limit"@)
            || contains(e, "500"@) || contains(e, "503"@) || contains(e, "timeout"@)) ==> openai_error_text(e)
            == "OpenAI translation failed. Enter kubectl command manually.\nOriginal error: "@ + e,
{
}

} // verus!

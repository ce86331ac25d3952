//! The `kaido init` setup wizard: which backends to set up, whether a key
//! is kept, which model is used and which provider answers. The prompts,
//! the environment, the HTTP probes and the settings file are handled by
//! the application, which hands each answer or result to `setup_step`.
use crate::config::{AIProvider, Config};
use crate::text::{
    all_digits, byte_boundary, byte_len, chars_of, digits_value, lemma_digits_value_grows, lowercase,
    opt_view, owned, prefix_bytes, skip_bytes, str_byte_len, str_eq, str_trim, suffix_bytes, take_bytes,
    to_lowercase, trim, views,
};
use vstd::prelude::*;

verus! {

/// Which setups the user asked for.
#[derive(Debug, Clone, Copy, PartialEq, Eq, Structural)]
pub enum InitChoice {
    Gemini,
    Ollama,
    Both,
    Skip,
}

/// The choice an answer makes: `1` Gemini, `2` Ollama, `3` or nothing both,
/// anything else skips (surrounding whitespace ignored).
pub open spec fn init_choice_of(answer: Seq<char>) -> InitChoice {
    let t = trim(answer);
    if t == "1"@ {
        InitChoice::Gemini
    } else if t == "2"@ {
        InitChoice::Ollama
    } else if t == "3"@ || t.len() == 0 {
        InitChoice::Both
    } else {
        InitChoice::Skip
    }
}

/// The setups an answer asks for.
pub fn init_choice(answer: &str) -> (r: InitChoice)
    ensures
        r == init_choice_of(answer@),
{
    let t = str_trim(answer);
    let t = t.as_str();
    if str_eq(t, "1") {
        InitChoice::Gemini
    } else if str_eq(t, "2") {
        InitChoice::Ollama
    } else if str_eq(t, "3") || t.unicode_len() == 0 {
        InitChoice::Both
    } else {
        InitChoice::Skip
    }
}

/// Gemini counts as configured when the `GEMINI_API_KEY` variable is set or
/// a non-empty key is stored.
pub fn gemini_configured(env_key_present: bool, stored: &Option<String>) -> (r: bool)
    ensures
        r == (env_key_present || (stored matches Some(k) && k@.len() > 0)),
{
    env_key_present || match stored {
        Some(k) => k.as_str().unicode_len() > 0,
        None => false,
    }
}

/// The stored key is kept unless the answer is `n` (case and surrounding
/// whitespace ignored).
pub fn keep_existing_key(answer: &str) -> (r: bool)
    ensures
        r == (lowercase(trim(answer@)) != "n"@),
{
    let t = str_trim(answer);
    let l = to_lowercase(t.as_str());
    !str_eq(l.as_str(), "n")
}

/// Bytes shown at the start of a masked key: 8, or the whole key when
/// shorter.
pub open spec fn mask_head(k: Seq<char>) -> int {
    if byte_len(k) < 8 {
        byte_len(k) as int
    } else {
        8
    }
}

/// Where the last 4 bytes of a key start (0 for a shorter key).
pub open spec fn mask_tail(k: Seq<char>) -> int {
    if byte_len(k) < 4 {
        0
    } else {
        byte_len(k) - 4
    }
}

/// Both cuts of a masked key fall between characters (else the slicing
/// panics).
pub open spec fn mask_cuts_ok(k: Seq<char>) -> bool {
    byte_boundary(k, mask_head(k)) && byte_boundary(k, mask_tail(k))
}

/// A key as shown: its first bytes (up to 8), `...`, and its last 4 bytes.
pub open spec fn masked_key_text(k: Seq<char>) -> Seq<char> {
    take_bytes(k, mask_head(k)) + "..."@ + skip_bytes(k, mask_tail(k))
}

/// Whether `masked_key` can cut `key` where it needs to.
pub fn mask_fits(key: &str) -> (r: bool)
    ensures
        r == mask_cuts_ok(key@),
{
    let n = str_byte_len(key);
    let head: usize = if n < 8 {
        n
    } else {
        8
    };
    let tail: usize = if n < 4 {
        0
    } else {
        n - 4
    };
    crate::text::is_byte_boundary(key, head) && crate::text::is_byte_boundary(key, tail)
}

/// A key as shown to the user: its first bytes (up to 8), `...`, and its
/// last 4 bytes.
pub fn masked_key(key: &str) -> (r: String)
    requires
        mask_cuts_ok(key@),
    ensures
        r@ == masked_key_text(key@),
{
    let n = str_byte_len(key);
    let head: usize = if n < 8 {
        n
    } else {
        8
    };
    let tail: usize = if n < 4 {
        0
    } else {
        n - 4
    };
    let mut r = prefix_bytes(key, head);
    r.append("...");
    let t = suffix_bytes(key, tail);
    r.append(t.as_str());
    r
}

/// What `str::parse::<usize>` gives: the value of the digits, after an
/// optional `+`, when there is at least one digit, nothing else, and the
/// value fits.
pub open spec fn parsed_usize(s: Seq<char>) -> Option<usize> {
    let d = if s.len() > 0 && s[0] == '+' {
        s.drop_first()
    } else {
        s
    };
    if d.len() > 0 && all_digits(d) && digits_value(d) <= usize::MAX {
        Some(digits_value(d) as usize)
    } else {
        None
    }
}

/// Reads a `usize` as `str::parse` does.
pub fn parse_usize(s: &str) -> (r: Option<usize>)
    ensures
        r == parsed_usize(s@),
{
    let v = chars_of(s);
    let start: usize = if v.len() > 0 && v[0] == '+' {
        1
    } else {
        0
    };
    let ghost d = if s@.len() > 0 && s@[0] == '+' {
        s@.drop_first()
    } else {
        s@
    };
    assert(d =~= v@.skip(start as int));
    if start >= v.len() {
        assert(d.len() == 0);
        return None;
    }
    let mut acc: usize = 0;
    let mut i: usize = start;
    while i < v.len()
        invariant
            start <= i <= v@.len(),
            start < v@.len(),
            d == v@.skip(start as int),
            d == (if s@.len() > 0 && s@[0] == '+' {
                s@.drop_first()
            } else {
                s@
            }),
            all_digits(d.take(i - start)),
            acc == digits_value(d.take(i - start)),
        decreases v.len() - i,
    {
        let c = v[i];
        assert(d[i - start] == c);
        if c < '0' || c > '9' {
            assert(!all_digits(d));
            return None;
        }
        let digit: usize = (c as u32 - '0' as u32) as usize;
        assert(d.take(i - start + 1).drop_last() =~= d.take(i - start));
        assert(d.take(i - start + 1).last() == c);
        assert(digits_value(d.take(i - start + 1)) == digits_value(d.take(i - start)) * 10 + digit);
        assert(all_digits(d.take(i - start + 1)));
        let next = match acc.checked_mul(10) {
            Some(m) => m.checked_add(digit),
            None => None,
        };
        match next {
            Some(n) => {
                acc = n;
            },
            None => {
                proof {
                    if all_digits(d) {
                        lemma_digits_value_grows(d, i - start + 1);
                    }
                }
                return None;
            },
        }
        i = i + 1;
    }
    assert(d.take(i - start) =~= d);
    Some(acc)
}

/// The model after the user answers the model question: nothing keeps the
/// current model; a number below the number of models picks that model
/// (counting from 0), a larger number keeps the current one; any other
/// text is the model's name.
pub open spec fn chosen_model_of(models: Seq<Seq<char>>, answer: Seq<char>, current: Seq<char>) -> Seq<char> {
    let t = trim(answer);
    if t.len() == 0 {
        current
    } else {
        match parsed_usize(t) {
            Some(i) => if i < models.len() {
                models[i as int]
            } else {
                current
            },
            None => t,
        }
    }
}

/// The model after the user answers the model question.
pub fn chosen_model(models: &Vec<String>, answer: &str, current: &str) -> (r: String)
    ensures
        r@ == chosen_model_of(views(models@), answer@, current@),
{
    let t = str_trim(answer);
    if t.as_str().unicode_len() == 0 {
        return owned(current);
    }
    match parse_usize(t.as_str()) {
        Some(i) => {
            if i < models.len() {
                models[i].clone()
            } else {
                owned(current)
            }
        },
        None => t,
    }
}

/// The provider once the Ollama setup ends: Gemini when Ollama is down or
/// has no models; after a successful test, Auto when Gemini is also
/// configured and Ollama otherwise; after a failed test, unchanged.
pub open spec fn provider_after_ollama_of(
    ollama_up: bool,
    has_models: bool,
    test_ok: bool,
    gemini_configured: bool,
    current: AIProvider,
) -> AIProvider {
    if !ollama_up || !has_models {
        AIProvider::Gemini
    } else if test_ok {
        if gemini_configured {
            AIProvider::Auto
        } else {
            AIProvider::Ollama
        }
    } else {
        current
    }
}

/// The provider once the Ollama setup ends. `has_models` is false only when
/// Ollama listed no models (a failed listing goes on to the test).
pub fn provider_after_ollama(
    ollama_up: bool,
    has_models: bool,
    test_ok: bool,
    gemini_configured: bool,
    current: AIProvider,
) -> (r: AIProvider)
    ensures
        r == provider_after_ollama_of(ollama_up, has_models, test_ok, gemini_configured, current),
{
    if !ollama_up || !has_models {
        AIProvider::Gemini
    } else if test_ok {
        if gemini_configured {
            AIProvider::Auto
        } else {
            AIProvider::Ollama
        }
    } else {
        current
    }
}

/// The provider chosen by the non-interactive setup: Auto when Ollama is
/// available, else Gemini when `GEMINI_API_KEY` is set, else unchanged.
pub fn provider_non_interactive(ollama_up: bool, gemini_env_set: bool, current: AIProvider) -> (r: AIProvider)
    ensures
        r == (if ollama_up {
            AIProvider::Auto
        } else if gemini_env_set {
            AIProvider::Gemini
        } else {
            current
        }),
{
    if ollama_up {
        AIProvider::Auto
    } else if gemini_env_set {
        AIProvider::Gemini
    } else {
        current
    }
}

// ---------------------------------------------------------------------------
// The wizard as a state machine
// ---------------------------------------------------------------------------

/// Where the wizard stands.
#[derive(Debug, Clone, Copy, PartialEq, Eq, Structural)]
pub enum SetupStage {
    /// Waiting for the choice of setups.
    Choosing,
    /// Waiting for whether to keep the stored Gemini key.
    KeepingKey,
    /// Waiting for the `GEMINI_API_KEY` variable.
    ReadingEnv,
    /// Waiting for a Gemini key to be typed.
    EnteringKey,
    /// Waiting for the test call with the new key.
    CheckingKey,
    /// Waiting for whether Ollama answers.
    ProbingOllama,
    /// Waiting for Ollama's list of models.
    ListingModels,
    /// Waiting for the model question's answer.
    ChoosingModel,
    /// Waiting for the test call with the chosen model.
    TestingModel,
    /// Waiting for the settings to be saved.
    Saving,
    /// Finished.
    Done,
}

/// The wizard: the settings being built, where it stands, whether the
/// Ollama setup follows the Gemini one, and the models Ollama listed.
pub struct Wizard {
    pub config: Config,
    pub stage: SetupStage,
    pub then_ollama: bool,
    pub models: Vec<String>,
}

/// What the application reports to the wizard.
pub enum SetupEvent {
    /// A line the user typed.
    Answered(String),
    /// The `GEMINI_API_KEY` variable, when set.
    GeminiEnv(Option<String>),
    /// The test call with the new key returned (whatever its outcome: the
    /// key is kept either way).
    KeyChecked,
    /// Whether Ollama answered.
    OllamaProbed(bool),
    /// Ollama's models, or nothing when they could not be listed, with the
    /// model the application's scoring picks among them.
    ModelsListed(Option<Vec<String>>, Option<String>),
    /// Whether the test call with the model succeeded, and whether
    /// `GEMINI_API_KEY` is set.
    ModelTested { ok: bool, gemini_env_set: bool },
    /// The settings were saved.
    Saved,
}

/// What the application does next.
#[derive(Debug, Clone)]
pub enum SetupAction {
    /// Ask which setups to run.
    AskChoice,
    /// Show the stored key masked and ask whether to keep it.
    AskKeepKey,
    /// Read `GEMINI_API_KEY`.
    ReadGeminiEnv,
    /// Ask for a Gemini key.
    AskKey,
    /// Test this key with a call to Gemini.
    CheckKey(String),
    /// Ask whether Ollama answers.
    ProbeOllama,
    /// List Ollama's models.
    ListModels,
    /// Show the models and ask which to use.
    AskModel,
    /// Test this model with a call to Ollama.
    TestModel(String),
    /// Save the settings.
    Save,
    /// Stop.
    Finish,
}

/// The parts of the wizard the steps change: stage, whether Ollama follows,
/// the stored key, the provider, the Ollama model and the listed models.
pub struct WizardView {
    pub stage: SetupStage,
    pub then_ollama: bool,
    pub key: Option<Seq<char>>,
    pub provider: AIProvider,
    pub model: Seq<char>,
    pub models: Seq<Seq<char>>,
}

/// An action as plain values.
pub enum PlannedAction {
    AskChoice,
    AskKeepKey,
    ReadGeminiEnv,
    AskKey,
    CheckKey(Seq<char>),
    ProbeOllama,
    ListModels,
    AskModel,
    TestModel(Seq<char>),
    Save,
    Finish,
}

/// The wizard as plain values.
pub open spec fn wizard_view(w: Wizard) -> WizardView {
    WizardView {
        stage: w.stage,
        then_ollama: w.then_ollama,
        key: opt_view(w.config.gemini_api_key),
        provider: w.config.provider,
        model: w.config.ollama.model@,
        models: views(w.models@),
    }
}

/// An action as plain values.
pub open spec fn action_view(a: SetupAction) -> PlannedAction {
    match a {
        SetupAction::AskChoice => PlannedAction::AskChoice,
        SetupAction::AskKeepKey => PlannedAction::AskKeepKey,
        SetupAction::ReadGeminiEnv => PlannedAction::ReadGeminiEnv,
        SetupAction::AskKey => PlannedAction::AskKey,
        SetupAction::CheckKey(k) => PlannedAction::CheckKey(k@),
        SetupAction::ProbeOllama => PlannedAction::ProbeOllama,
        SetupAction::ListModels => PlannedAction::ListModels,
        SetupAction::AskModel => PlannedAction::AskModel,
        SetupAction::TestModel(m) => PlannedAction::TestModel(m@),
        SetupAction::Save => PlannedAction::Save,
        SetupAction::Finish => PlannedAction::Finish,
    }
}

/// A stored key counts: it is present and not empty.
pub open spec fn has_key(w: WizardView) -> bool {
    w.key matches Some(k) && k.len() > 0
}

/// The action that a stage waits on.
pub open spec fn stage_action(w: WizardView) -> PlannedAction {
    match w.stage {
        SetupStage::Choosing => PlannedAction::AskChoice,
        SetupStage::KeepingKey => PlannedAction::AskKeepKey,
        SetupStage::ReadingEnv => PlannedAction::ReadGeminiEnv,
        SetupStage::EnteringKey => PlannedAction::AskKey,
        SetupStage::CheckingKey => PlannedAction::CheckKey(
            match w.key {
                Some(k) => k,
                None => seq![],
            },
        ),
        SetupStage::ProbingOllama => PlannedAction::ProbeOllama,
        SetupStage::ListingModels => PlannedAction::ListModels,
        SetupStage::ChoosingModel => PlannedAction::AskModel,
        SetupStage::TestingModel => PlannedAction::TestModel(w.model),
        SetupStage::Saving => PlannedAction::Save,
        SetupStage::Done => PlannedAction::Finish,
    }
}

/// The Gemini setup begins: a stored key is offered for keeping, else the
/// environment is read.
pub open spec fn gemini_start(w: WizardView, then_ollama: bool) -> (WizardView, PlannedAction) {
    if has_key(w) {
        (WizardView { stage: SetupStage::KeepingKey, then_ollama, ..w }, PlannedAction::AskKeepKey)
    } else {
        (WizardView { stage: SetupStage::ReadingEnv, then_ollama, ..w }, PlannedAction::ReadGeminiEnv)
    }
}

/// The Gemini setup is over: the Ollama setup follows when both were
/// asked for, else the settings are saved.
pub open spec fn gemini_done(w: WizardView) -> (WizardView, PlannedAction) {
    if w.then_ollama {
        (WizardView { stage: SetupStage::ProbingOllama, ..w }, PlannedAction::ProbeOllama)
    } else {
        (WizardView { stage: SetupStage::Saving, ..w }, PlannedAction::Save)
    }
}

/// Saving with the given provider.
pub open spec fn save_with(w: WizardView, p: AIProvider) -> (WizardView, PlannedAction) {
    (WizardView { stage: SetupStage::Saving, provider: p, ..w }, PlannedAction::Save)
}

/// One step of the wizard: the next state and action for an event. An
/// event the stage does not wait for changes nothing and repeats the
/// stage's action.
pub open spec fn setup_next(w: WizardView, e: SetupEvent) -> (WizardView, PlannedAction) {
    match (w.stage, e) {
        (SetupStage::Choosing, SetupEvent::Answered(a)) => match init_choice_of(a@) {
            InitChoice::Gemini => gemini_start(w, false),
            InitChoice::Both => gemini_start(w, true),
            InitChoice::Ollama => (
                WizardView { stage: SetupStage::ProbingOllama, then_ollama: false, ..w },
                PlannedAction::ProbeOllama,
            ),
            InitChoice::Skip => (WizardView { stage: SetupStage::Saving, ..w }, PlannedAction::Save),
        },
        (SetupStage::KeepingKey, SetupEvent::Answered(a)) => if lowercase(trim(a@)) != "n"@ {
            gemini_done(w)
        } else {
            (WizardView { stage: SetupStage::ReadingEnv, ..w }, PlannedAction::ReadGeminiEnv)
        },
        (SetupStage::ReadingEnv, SetupEvent::GeminiEnv(v)) => if v matches Some(x) && x@.len() > 0 {
            gemini_done(w)
        } else {
            (WizardView { stage: SetupStage::EnteringKey, ..w }, PlannedAction::AskKey)
        },
        (SetupStage::EnteringKey, SetupEvent::Answered(a)) => if trim(a@).len() == 0 {
            gemini_done(w)
        } else {
            (
                WizardView { stage: SetupStage::CheckingKey, key: Some(trim(a@)), ..w },
                PlannedAction::CheckKey(trim(a@)),
            )
        },
        (SetupStage::CheckingKey, SetupEvent::KeyChecked) => gemini_done(w),
        (SetupStage::ProbingOllama, SetupEvent::OllamaProbed(up)) => if up {
            (WizardView { stage: SetupStage::ListingModels, ..w }, PlannedAction::ListModels)
        } else {
            save_with(w, provider_after_ollama_of(false, true, false, false, w.provider))
        },
        (SetupStage::ListingModels, SetupEvent::ModelsListed(listed, pick)) => match listed {
            None => (WizardView { stage: SetupStage::TestingModel, ..w }, PlannedAction::TestModel(w.model)),
            Some(ms) => if ms@.len() == 0 {
                save_with(w, provider_after_ollama_of(true, false, false, false, w.provider))
            } else {
                (
                    WizardView {
                        stage: SetupStage::ChoosingModel,
                        model: match pick {
                            Some(p) => p@,
                            None => w.model,
                        },
                        models: views(ms@),
                        ..w
                    },
                    PlannedAction::AskModel,
                )
            },
        },
        (SetupStage::ChoosingModel, SetupEvent::Answered(a)) => {
            let m = chosen_model_of(w.models, a@, w.model);
            (WizardView { stage: SetupStage::TestingModel, model: m, ..w }, PlannedAction::TestModel(m))
        },
        (SetupStage::TestingModel, SetupEvent::ModelTested { ok, gemini_env_set }) => save_with(
            w,
            provider_after_ollama_of(true, true, ok, gemini_env_set || has_key(w), w.provider),
        ),
        (SetupStage::Saving, SetupEvent::Saved) => (WizardView { stage: SetupStage::Done, ..w }, PlannedAction::Finish),
        _ => (w, stage_action(w)),
    }
}

/// The wizard at its start: waiting for the choice of setups.
pub fn start_setup(config: Config) -> (r: (Wizard, SetupAction))
    ensures
        r.0.config == config,
        r.0.stage == SetupStage::Choosing,
        !r.0.then_ollama,
        r.0.models@.len() == 0,
        r.1 is AskChoice,
{
    (Wizard { config, stage: SetupStage::Choosing, then_ollama: false, models: Vec::new() }, SetupAction::AskChoice)
}

/// The action that the wizard's stage waits on.
fn stage_action_of(w: &Wizard) -> (r: SetupAction)
    ensures
        action_view(r) == stage_action(wizard_view(*w)),
{
    match w.stage {
        SetupStage::Choosing => SetupAction::AskChoice,
        SetupStage::KeepingKey => SetupAction::AskKeepKey,
        SetupStage::ReadingEnv => SetupAction::ReadGeminiEnv,
        SetupStage::EnteringKey => SetupAction::AskKey,
        SetupStage::CheckingKey => SetupAction::CheckKey(
            match &w.config.gemini_api_key {
                Some(k) => k.clone(),
                None => String::new(),
            },
        ),
        SetupStage::ProbingOllama => SetupAction::ProbeOllama,
        SetupStage::ListingModels => SetupAction::ListModels,
        SetupStage::ChoosingModel => SetupAction::AskModel,
        SetupStage::TestingModel => SetupAction::TestModel(w.config.ollama.model.clone()),
        SetupStage::Saving => SetupAction::Save,
        SetupStage::Done => SetupAction::Finish,
    }
}

/// The Gemini setup is over.
fn finish_gemini(w: Wizard) -> (r: (Wizard, SetupAction))
    ensures
        wizard_view(r.0) == gemini_done(wizard_view(w)).0,
        action_view(r.1) == gemini_done(wizard_view(w)).1,
        r.0.config.ai == w.config.ai,
        r.0.config.audit == w.config.audit,
        r.0.config.safety == w.config.safety,
        r.0.config.display == w.config.display,
        r.0.config.ollama.base_url == w.config.ollama.base_url,
{
    if w.then_ollama {
        (Wizard { stage: SetupStage::ProbingOllama, ..w }, SetupAction::ProbeOllama)
    } else {
        (Wizard { stage: SetupStage::Saving, ..w }, SetupAction::Save)
    }
}

/// One step of the wizard: takes what the application reports and gives
/// the next state and what the application does next. Settings other than
/// the Gemini key, the provider and the Ollama model are left as they were.
pub fn setup_step(w: Wizard, e: SetupEvent) -> (r: (Wizard, SetupAction))
    ensures
        wizard_view(r.0) == setup_next(wizard_view(w), e).0,
        action_view(r.1) == setup_next(wizard_view(w), e).1,
        r.0.config.ai == w.config.ai,
        r.0.config.audit == w.config.audit,
        r.0.config.safety == w.config.safety,
        r.0.config.display == w.config.display,
        r.0.config.ollama.base_url == w.config.ollama.base_url,
{
    let ghost wv = wizard_view(w);
    match (w.stage, e) {
        (SetupStage::Choosing, SetupEvent::Answered(a)) => match init_choice(a.as_str()) {
            InitChoice::Gemini | InitChoice::Both => {
                let then_ollama = init_choice(a.as_str()) == InitChoice::Both;
                let has = gemini_configured(false, &w.config.gemini_api_key);
                if has {
                    (Wizard { stage: SetupStage::KeepingKey, then_ollama, ..w }, SetupAction::AskKeepKey)
                } else {
                    (Wizard { stage: SetupStage::ReadingEnv, then_ollama, ..w }, SetupAction::ReadGeminiEnv)
                }
            },
            InitChoice::Ollama => (
                Wizard { stage: SetupStage::ProbingOllama, then_ollama: false, ..w },
                SetupAction::ProbeOllama,
            ),
            InitChoice::Skip => (Wizard { stage: SetupStage::Saving, ..w }, SetupAction::Save),
        },
        (SetupStage::KeepingKey, SetupEvent::Answered(a)) => {
            if keep_existing_key(a.as_str()) {
                finish_gemini(w)
            } else {
                (Wizard { stage: SetupStage::ReadingEnv, ..w }, SetupAction::ReadGeminiEnv)
            }
        },
        (SetupStage::ReadingEnv, SetupEvent::GeminiEnv(v)) => {
            if gemini_configured(false, &v) {
                finish_gemini(w)
            } else {
                (Wizard { stage: SetupStage::EnteringKey, ..w }, SetupAction::AskKey)
            }
        },
        (SetupStage::EnteringKey, SetupEvent::Answered(a)) => {
            let t = str_trim(a.as_str());
            if t.as_str().unicode_len() == 0 {
                finish_gemini(w)
            } else {
                let shown = t.clone();
                let mut config = w.config;
                config.gemini_api_key = Some(t);
                (Wizard { config, stage: SetupStage::CheckingKey, ..w }, SetupAction::CheckKey(shown))
            }
        },
        (SetupStage::CheckingKey, SetupEvent::KeyChecked) => finish_gemini(w),
        (SetupStage::ProbingOllama, SetupEvent::OllamaProbed(up)) => {
            if up {
                (Wizard { stage: SetupStage::ListingModels, ..w }, SetupAction::ListModels)
            } else {
                let p = provider_after_ollama(false, true, false, false, w.config.provider);
                let mut config = w.config;
                config.provider = p;
                (Wizard { config, stage: SetupStage::Saving, ..w }, SetupAction::Save)
            }
        },
        (SetupStage::ListingModels, SetupEvent::ModelsListed(listed, pick)) => match listed {
            None => {
                let m = w.config.ollama.model.clone();
                (Wizard { stage: SetupStage::TestingModel, ..w }, SetupAction::TestModel(m))
            },
            Some(ms) => {
                if ms.len() == 0 {
                    let p = provider_after_ollama(true, false, false, false, w.config.provider);
                    let mut config = w.config;
                    config.provider = p;
                    (Wizard { config, stage: SetupStage::Saving, ..w }, SetupAction::Save)
                } else {
                    let mut config = w.config;
                    match pick {
                        Some(p) => {
                            config.ollama.model = p;
                        },
                        None => {},
                    }
                    (Wizard { config, stage: SetupStage::ChoosingModel, models: ms, ..w }, SetupAction::AskModel)
                }
            },
        },
        (SetupStage::ChoosingModel, SetupEvent::Answered(a)) => {
            let m = chosen_model(&w.models, a.as_str(), w.config.ollama.model.as_str());
            let shown = m.clone();
            let mut config = w.config;
            config.ollama.model = m;
            (Wizard { config, stage: SetupStage::TestingModel, ..w }, SetupAction::TestModel(shown))
        },
        (SetupStage::TestingModel, SetupEvent::ModelTested { ok, gemini_env_set }) => {
            let configured = gemini_configured(gemini_env_set, &w.config.gemini_api_key);
            let p = provider_after_ollama(true, true, ok, configured, w.config.provider);
            let mut config = w.config;
            config.provider = p;
            (Wizard { config, stage: SetupStage::Saving, ..w }, SetupAction::Save)
        },
        (SetupStage::Saving, SetupEvent::Saved) => (Wizard { stage: SetupStage::Done, ..w }, SetupAction::Finish),
        _ => {
            let act = stage_action_of(&w);
            (w, act)
        },
    }
}

} // verus!

use kaido::config::{AIProvider, Config};
use kaido::setup::{
    chosen_model, gemini_configured, init_choice, keep_existing_key, mask_fits, masked_key, parse_usize,
    provider_after_ollama, provider_non_interactive, setup_step, start_setup, InitChoice, SetupAction, SetupEvent,
    SetupStage, Wizard,
};

#[test]
fn init_choices() {
    assert_eq!(init_choice("1\n"), InitChoice::Gemini);
    assert_eq!(init_choice(" 2 "), InitChoice::Ollama);
    assert_eq!(init_choice("3"), InitChoice::Both);
    assert_eq!(init_choice("\n"), InitChoice::Both);
    assert_eq!(init_choice("4"), InitChoice::Skip);
    assert_eq!(init_choice("gemini"), InitChoice::Skip);
}

#[test]
fn gemini_detection_and_keeping() {
    assert!(gemini_configured(true, &None));
    assert!(!gemini_configured(false, &None));
    assert!(!gemini_configured(false, &Some(String::new())));
    assert!(gemini_configured(false, &Some("k".to_string())));
    assert!(keep_existing_key("\n"));
    assert!(keep_existing_key("y"));
    assert!(!keep_existing_key(" N \n"));
    assert!(!keep_existing_key("n"));
    assert!(keep_existing_key("no"));
}

#[test]
fn key_masking() {
    assert_eq!(masked_key("AIzaSyABCDEFGH1234"), "AIzaSyAB...1234");
    assert_eq!(masked_key("abc"), "abc...abc");
    assert_eq!(masked_key("abcdef"), "abcdef...cdef");
    assert!(mask_fits("AIzaSyABCDEFGH1234"));
    assert!(!mask_fits("abcdefgé12345"));
}

#[test]
fn model_choice() {
    let models = vec!["llama3.2".to_string(), "mistral".to_string()];
    assert_eq!(chosen_model(&models, "1\n", "llama3.2"), "mistral");
    assert_eq!(chosen_model(&models, "+0", "mistral"), "llama3.2");
    assert_eq!(chosen_model(&models, "7", "llama3.2"), "llama3.2");
    assert_eq!(chosen_model(&models, "\n", "qwen2.5"), "qwen2.5");
    assert_eq!(chosen_model(&models, " phi3 \n", "llama3.2"), "phi3");
    assert_eq!(chosen_model(&models, "-1", "llama3.2"), "-1");
    assert_eq!(parse_usize("99999999999999999999999"), None);
    assert_eq!(parse_usize("42"), Some(42));
}

#[test]
fn providers() {
    assert_eq!(provider_after_ollama(false, true, true, true, AIProvider::Ollama), AIProvider::Gemini);
    assert_eq!(provider_after_ollama(true, false, true, true, AIProvider::Ollama), AIProvider::Gemini);
    assert_eq!(provider_after_ollama(true, true, true, true, AIProvider::Gemini), AIProvider::Auto);
    assert_eq!(provider_after_ollama(true, true, true, false, AIProvider::Gemini), AIProvider::Ollama);
    assert_eq!(provider_after_ollama(true, true, false, true, AIProvider::Gemini), AIProvider::Gemini);
    assert_eq!(provider_non_interactive(true, true, AIProvider::Ollama), AIProvider::Auto);
    assert_eq!(provider_non_interactive(false, true, AIProvider::Ollama), AIProvider::Gemini);
    assert_eq!(provider_non_interactive(false, false, AIProvider::Ollama), AIProvider::Ollama);
}

fn step(w: Wizard, e: SetupEvent) -> (Wizard, SetupAction) {
    setup_step(w, e)
}

#[test]
fn wizard_both_setups() {
    let (w, a) = start_setup(Config::default());
    assert!(matches!(a, SetupAction::AskChoice));
    let (w, a) = step(w, SetupEvent::Answered("3\n".to_string()));
    assert!(matches!(a, SetupAction::ReadGeminiEnv));
    assert!(w.then_ollama);
    let (w, a) = step(w, SetupEvent::GeminiEnv(Some(String::new())));
    assert!(matches!(a, SetupAction::AskKey));
    let (w, a) = step(w, SetupEvent::Answered("  my-key \n".to_string()));
    assert!(matches!(&a, SetupAction::CheckKey(k) if k == "my-key"));
    assert_eq!(w.config.gemini_api_key.as_deref(), Some("my-key"));
    let (w, a) = step(w, SetupEvent::KeyChecked);
    assert!(matches!(a, SetupAction::ProbeOllama));
    let (w, a) = step(w, SetupEvent::OllamaProbed(true));
    assert!(matches!(a, SetupAction::ListModels));
    let models = vec!["llava".to_string(), "llama3.2".to_string()];
    let (w, a) = step(w, SetupEvent::ModelsListed(Some(models), Some("llama3.2".to_string())));
    assert!(matches!(a, SetupAction::AskModel));
    assert_eq!(w.config.ollama.model, "llama3.2");
    let (w, a) = step(w, SetupEvent::Answered("\n".to_string()));
    assert!(matches!(&a, SetupAction::TestModel(m) if m == "llama3.2"));
    let (w, a) = step(w, SetupEvent::ModelTested { ok: true, gemini_env_set: false });
    assert!(matches!(a, SetupAction::Save));
    assert_eq!(w.config.provider, AIProvider::Auto);
    let (w, a) = step(w, SetupEvent::Saved);
    assert!(matches!(a, SetupAction::Finish));
    assert_eq!(w.stage, SetupStage::Done);
}

#[test]
fn wizard_keeps_key_and_falls_back_to_gemini() {
    let mut config = Config::default();
    config.gemini_api_key = Some("AIzaSyABCDEFGH1234".to_string());
    config.provider = AIProvider::Ollama;
    let (w, _) = start_setup(config);
    let (w, a) = step(w, SetupEvent::Answered("1".to_string()));
    assert!(matches!(a, SetupAction::AskKeepKey));
    assert!(!w.then_ollama);
    let (w, a) = step(w, SetupEvent::Answered("y".to_string()));
    assert!(matches!(a, SetupAction::Save));
    assert_eq!(w.config.gemini_api_key.as_deref(), Some("AIzaSyABCDEFGH1234"));

    let (w, _) = start_setup(Config::default());
    let (w, a) = step(w, SetupEvent::Answered("2".to_string()));
    assert!(matches!(a, SetupAction::ProbeOllama));
    let (w, a) = step(w, SetupEvent::OllamaProbed(false));
    assert!(matches!(a, SetupAction::Save));
    assert_eq!(w.config.provider, AIProvider::Gemini);
    // An event the stage does not wait for changes nothing.
    let (w, a) = step(w, SetupEvent::KeyChecked);
    assert!(matches!(a, SetupAction::Save));
    assert_eq!(w.stage, SetupStage::Saving);
}

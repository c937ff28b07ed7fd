//! Settings defaults, the prompt presets, and the template selection.

use voice_input::config::{
    get_preset_prompt, preset_from_name, LlmSettings, OutputMode, PromptPreset, Settings,
    ShortcutSettings,
};
use voice_input::{get_model_filename, get_model_url};

#[test]
fn test_settings_defaults() {
    let s = Settings::default();
    assert_eq!(s.whisper.model_name, "large-v3-turbo");
    assert!(!s.llm.enabled);
    assert_eq!(s.llm.ollama_url, "http://localhost:11434");
    assert_eq!(s.llm.model_name, "gpt-oss:20b");
    assert_eq!(s.llm.preset, PromptPreset::Default);
    assert!(s.llm.custom_prompt.is_empty());
    assert_eq!(s.output_mode, OutputMode::DirectInput);
    assert_eq!(s.shortcut.recording_toggle, "Ctrl+Space");
    assert!(!s.is_saved);
}

#[test]
fn test_shortcut_default() {
    assert_eq!(ShortcutSettings::default().recording_toggle, "Ctrl+Space");
}

#[test]
fn test_preset_prompts_mention_input_marker() {
    for preset in [
        PromptPreset::Default,
        PromptPreset::Meeting,
        PromptPreset::Memo,
        PromptPreset::Chat,
    ] {
        let p = get_preset_prompt(&preset);
        assert!(p.contains("{input}"), "preset {:?} lost its input marker", preset);
    }
    assert_eq!(get_preset_prompt(&PromptPreset::Custom), "");
}

#[test]
fn test_prompt_template_selection() {
    let mut s = LlmSettings::default();
    assert_eq!(s.get_prompt_template(), get_preset_prompt(&PromptPreset::Default));

    s.preset = PromptPreset::Meeting;
    assert_eq!(s.get_prompt_template(), get_preset_prompt(&PromptPreset::Meeting));

    // Custom with an empty custom prompt falls back to the default
    // preset's template.
    s.preset = PromptPreset::Custom;
    s.custom_prompt = String::new();
    assert_eq!(s.get_prompt_template(), get_preset_prompt(&PromptPreset::Default));

    s.custom_prompt = "Mine: {input}".to_string();
    assert_eq!(s.get_prompt_template(), "Mine: {input}");
}

#[test]
fn test_preset_from_name() {
    assert_eq!(preset_from_name("Meeting"), PromptPreset::Meeting);
    assert_eq!(preset_from_name("Custom"), PromptPreset::Custom);
    // An unknown name falls back to the default preset.
    assert_eq!(preset_from_name("Haiku"), PromptPreset::Default);
}

#[test]
fn test_model_catalogue() {
    assert_eq!(get_model_filename("base"), Some("ggml-base.bin"));
    assert_eq!(
        get_model_url("tiny"),
        Some("https://huggingface.co/ggerganov/whisper.cpp/resolve/main/ggml-tiny.bin")
    );
    assert_eq!(
        get_model_filename("large-v3-turbo-q8_0"),
        Some("ggml-large-v3-turbo-q8_0.bin")
    );
    assert_eq!(get_model_url("nonexistent"), None);
    assert_eq!(get_model_filename(""), None);
}

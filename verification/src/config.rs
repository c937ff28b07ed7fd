//! Application settings consumed by the pipeline core.
//!
//! Loading and saving these to disk is host work; the types, their
//! defaults, and the prompt-template selection logic are verified here.

use vstd::prelude::*;

verus! {

/// Application settings.
pub struct Settings {
    pub whisper: WhisperSettings,
    pub llm: LlmSettings,
    /// Output mode for transcription results.
    pub output_mode: OutputMode,
    /// Shortcut key settings.
    pub shortcut: ShortcutSettings,
    /// Whether settings were loaded from a saved file (not defaults).
    pub is_saved: bool,
}

/// Which recognition model the host should load.
pub struct WhisperSettings {
    pub model_name: String,
}

/// Shortcut key settings.
pub struct ShortcutSettings {
    /// The shortcut key combination (e.g., "Ctrl+Space", "Alt+R").
    pub recording_toggle: String,
}

/// Output mode for transcription results.
#[derive(PartialEq, Eq, Structural, Clone, Copy, Debug)]
pub enum OutputMode {
    /// Copy to clipboard only (no paste).
    ClipboardOnly,
    /// Paste directly (temporary clipboard, restore after).
    DirectInput,
    /// Copy to clipboard and paste.
    Both,
}

/// Available prompt presets.
#[derive(PartialEq, Eq, Structural, Clone, Copy, Debug)]
pub enum PromptPreset {
    /// Natural Japanese text formatting.
    Default,
    /// Format as meeting minutes.
    Meeting,
    /// Short, concise notes.
    Memo,
    /// Casual conversation style.
    Chat,
    /// User-defined prompt.
    Custom,
}

/// The prompt template of each preset, as the contracts see it.
pub open spec fn spec_preset_prompt(preset: PromptPreset) -> Seq<char> {
    match preset {
        PromptPreset::Default => "以下の音声認識結果を自然な日本語に整形してください。
誤字脱字の修正、句読点の追加、文法の修正を行ってください。
整形後のテキストのみを出力してください。余計な説明は不要です。

入力: {input}

出力:"@,
        PromptPreset::Meeting => "以下の音声認識結果を議事録形式で整形してください。
- 発言内容を箇条書きで整理
- 重要なポイントや決定事項を明確に
- 誤字脱字を修正
整形後のテキストのみを出力してください。

入力: {input}

出力:"@,
        PromptPreset::Memo => "以下の音声認識結果を簡潔なメモに整形してください。
- 要点を短くまとめる
- 不要な言葉を省く
- 誤字脱字を修正
整形後のテキストのみを出力してください。

入力: {input}

出力:"@,
        PromptPreset::Chat => "以下の音声認識結果をカジュアルなチャット文に整形してください。
- 口語的な表現を維持
- 適度な絵文字や句読点を追加
- 誤字脱字のみ修正
整形後のテキストのみを出力してください。

入力: {input}

出力:"@,
        PromptPreset::Custom => ""@,
    }
}

/// Get the prompt template for a preset.
pub fn get_preset_prompt(preset: &PromptPreset) -> (r: &'static str)
    ensures
        r@ == spec_preset_prompt(*preset),
{
    match preset {
        PromptPreset::Default => "以下の音声認識結果を自然な日本語に整形してください。
誤字脱字の修正、句読点の追加、文法の修正を行ってください。
整形後のテキストのみを出力してください。余計な説明は不要です。

入力: {input}

出力:",
        PromptPreset::Meeting => "以下の音声認識結果を議事録形式で整形してください。
- 発言内容を箇条書きで整理
- 重要なポイントや決定事項を明確に
- 誤字脱字を修正
整形後のテキストのみを出力してください。

入力: {input}

出力:",
        PromptPreset::Memo => "以下の音声認識結果を簡潔なメモに整形してください。
- 要点を短くまとめる
- 不要な言葉を省く
- 誤字脱字を修正
整形後のテキストのみを出力してください。

入力: {input}

出力:",
        PromptPreset::Chat => "以下の音声認識結果をカジュアルなチャット文に整形してください。
- 口語的な表現を維持
- 適度な絵文字や句読点を追加
- 誤字脱字のみ修正
整形後のテキストのみを出力してください。

入力: {input}

出力:",
        PromptPreset::Custom => "",
    }
}

/// The preset a user-facing name selects; an unknown name selects the
/// default preset.
pub open spec fn spec_preset_from_name(name: Seq<char>) -> PromptPreset {
    if name == "Default"@ {
        PromptPreset::Default
    } else if name == "Meeting"@ {
        PromptPreset::Meeting
    } else if name == "Memo"@ {
        PromptPreset::Memo
    } else if name == "Chat"@ {
        PromptPreset::Chat
    } else if name == "Custom"@ {
        PromptPreset::Custom
    } else {
        PromptPreset::Default
    }
}

/// Select a preset by its user-facing name.
pub fn preset_from_name(name: &str) -> (r: PromptPreset)
    ensures
        r == spec_preset_from_name(name@),
{
    if crate::text::str_eq(name, "Default") {
        PromptPreset::Default
    } else if crate::text::str_eq(name, "Meeting") {
        PromptPreset::Meeting
    } else if crate::text::str_eq(name, "Memo") {
        PromptPreset::Memo
    } else if crate::text::str_eq(name, "Chat") {
        PromptPreset::Chat
    } else if crate::text::str_eq(name, "Custom") {
        PromptPreset::Custom
    } else {
        PromptPreset::Default
    }
}

/// Settings for the text-refinement language model.
pub struct LlmSettings {
    /// Whether refinement is enabled.
    pub enabled: bool,
    /// Refinement service base URL.
    pub ollama_url: String,
    /// Model name to use.
    pub model_name: String,
    /// Selected prompt preset.
    pub preset: PromptPreset,
    /// Custom prompt template (used when the preset is Custom).
    pub custom_prompt: String,
}

/// The effective prompt template: the custom prompt when the Custom
/// preset is selected and the custom prompt is not empty, the Default
/// preset's template when it is empty, and the preset's template
/// otherwise.
pub open spec fn spec_prompt_template(s: LlmSettings) -> Seq<char> {
    if s.preset == PromptPreset::Custom {
        if s.custom_prompt@.len() == 0 {
            spec_preset_prompt(PromptPreset::Default)
        } else {
            s.custom_prompt@
        }
    } else {
        spec_preset_prompt(s.preset)
    }
}

impl LlmSettings {
    /// Get the effective prompt template based on preset or custom
    /// prompt.
    pub fn get_prompt_template(&self) -> (r: String)
        ensures
            r@ == spec_prompt_template(*self),
    {
        if self.preset == PromptPreset::Custom {
            if self.custom_prompt.as_str().is_empty() {
                get_preset_prompt(&PromptPreset::Default).to_owned()
            } else {
                self.custom_prompt.clone()
            }
        } else {
            get_preset_prompt(&self.preset).to_owned()
        }
    }
}

impl Default for ShortcutSettings {
    /// The toggle gesture out of the box.
    fn default() -> (r: Self)
        ensures
            r.recording_toggle@ == "Ctrl+Space"@,
    {
        Self { recording_toggle: "Ctrl+Space".to_owned() }
    }
}

impl Default for OutputMode {
    fn default() -> (r: Self)
        ensures
            r == OutputMode::DirectInput,
    {
        OutputMode::DirectInput
    }
}

impl Default for PromptPreset {
    fn default() -> (r: Self)
        ensures
            r == PromptPreset::Default,
    {
        PromptPreset::Default
    }
}

impl Default for LlmSettings {
    /// Refinement off, pointing at a local service.
    fn default() -> (r: Self)
        ensures
            !r.enabled,
            r.ollama_url@ == "http://localhost:11434"@,
            r.model_name@ == "gpt-oss:20b"@,
            r.preset == PromptPreset::Default,
            r.custom_prompt@ == Seq::<char>::empty(),
    {
        Self {
            enabled: false,
            ollama_url: "http://localhost:11434".to_owned(),
            model_name: "gpt-oss:20b".to_owned(),
            preset: PromptPreset::Default,
            custom_prompt: String::new(),
        }
    }
}

impl Default for Settings {
    fn default() -> (r: Self)
        ensures
            r.whisper.model_name@ == "large-v3-turbo"@,
            !r.llm.enabled,
            r.llm.ollama_url@ == "http://localhost:11434"@,
            r.llm.model_name@ == "gpt-oss:20b"@,
            r.llm.preset == PromptPreset::Default,
            r.llm.custom_prompt@ == Seq::<char>::empty(),
            r.output_mode == OutputMode::DirectInput,
            r.shortcut.recording_toggle@ == "Ctrl+Space"@,
            !r.is_saved,
    {
        Self {
            whisper: WhisperSettings { model_name: "large-v3-turbo".to_owned() },
            llm: LlmSettings::default(),
            output_mode: OutputMode::default(),
            shortcut: ShortcutSettings::default(),
            is_saved: false,
        }
    }
}

} // verus!

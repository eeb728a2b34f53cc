use ggufy::prompt::{is_audio_prompt, mentions_audio, prompt_text};

#[test]
fn prompt_words_are_joined_with_blanks() {
    let words = vec!["tell".to_string(), "me".to_string(), "a joke".to_string()];
    assert_eq!(prompt_text(&words), "tell me a joke");
    assert_eq!(prompt_text(&Vec::new()), "");
    assert_eq!(prompt_text(&vec!["one".to_string()]), "one");
}

#[test]
fn audio_keywords_are_found_in_lower_case_text() {
    assert!(mentions_audio("use tts"));
    assert!(mentions_audio("an audio file"));
    assert!(mentions_audio("tts"));
    assert!(mentions_audio("xttsx"));
    assert!(!mentions_audio("TTS"));
    assert!(!mentions_audio("AUDIO"));
    assert!(!mentions_audio("tell me a joke"));
    assert!(!mentions_audio("audi o"));
    assert!(!mentions_audio(""));
}

#[test]
fn audio_prompts_are_judged_in_lower_case() {
    assert!(is_audio_prompt("use tts"));
    assert!(is_audio_prompt("Use TTS"));
    assert!(is_audio_prompt("Generate AUDIO"));
    assert!(is_audio_prompt("Audio, please"));
    assert!(!is_audio_prompt("tell me a joke"));
    assert!(!is_audio_prompt(""));
}

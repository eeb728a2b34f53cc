use ggufy::token::{is_cloud_tag, link_name, model_ref, normalize_model_tag, split_model_tag};

fn pair(a: &str, b: &str) -> (String, String) {
    (a.to_string(), b.to_string())
}

#[test]
fn split_untagged_token_gets_default_tag() {
    assert_eq!(split_model_tag("mistral"), pair("mistral", "latest"));
    assert_eq!(split_model_tag("llama3.1"), pair("llama3.1", "latest"));
}

#[test]
fn split_tagged_token() {
    assert_eq!(split_model_tag("a:b"), pair("a", "b"));
    assert_eq!(split_model_tag("mistral:7b-instruct"), pair("mistral", "7b-instruct"));
}

#[test]
fn split_token_ending_at_separator_has_empty_tag() {
    assert_eq!(split_model_tag("a:"), pair("a", ""));
    assert_eq!(split_model_tag(":"), pair("", ""));
}

#[test]
fn split_empty_token() {
    assert_eq!(split_model_tag(""), pair("", "latest"));
}

#[test]
fn split_token_with_empty_name() {
    assert_eq!(split_model_tag(":tag"), pair("", "tag"));
}

#[test]
fn split_ignores_what_follows_a_second_separator() {
    assert_eq!(split_model_tag("a:b:c"), pair("a", "b"));
    assert_eq!(split_model_tag("a::c"), pair("a", ""));
}

#[test]
fn split_keeps_non_ascii_text() {
    assert_eq!(split_model_tag("modèle:étiquette"), pair("modèle", "étiquette"));
}

#[test]
fn normalize_prefers_tag_inside_target() {
    assert_eq!(normalize_model_tag("a:b", Some("c")), pair("a", "b"));
    assert_eq!(normalize_model_tag("a:b", None), pair("a", "b"));
}

#[test]
fn normalize_uses_tag_argument_for_bare_target() {
    assert_eq!(normalize_model_tag("mistral", Some("7b")), pair("mistral", "7b"));
}

#[test]
fn normalize_defaults_to_latest() {
    assert_eq!(normalize_model_tag("mistral", None), pair("mistral", "latest"));
}

#[test]
fn cloud_tag_is_recognised_in_any_case() {
    assert!(is_cloud_tag("cloud"));
    assert!(is_cloud_tag("CLOUD"));
    assert!(is_cloud_tag("Cloud"));
    assert!(is_cloud_tag("cLoUd"));
}

#[test]
fn other_tags_are_not_cloud() {
    assert!(!is_cloud_tag("latest"));
    assert!(!is_cloud_tag("clouds"));
    assert!(!is_cloud_tag("clou"));
    assert!(!is_cloud_tag(""));
    assert!(!is_cloud_tag("cloud "));
    // the Kelvin sign lower-cases to `k` only under Unicode rules
    assert!(!is_cloud_tag("c\u{212A}oud"));
}

#[test]
fn model_ref_joins_with_colon() {
    assert_eq!(model_ref("mistral", "cloud"), "mistral:cloud");
    assert_eq!(model_ref("", ""), ":");
}

#[test]
fn link_name_is_name_dash_tag_gguf() {
    assert_eq!(link_name("mistral", "latest"), "mistral-latest.gguf");
    assert_eq!(link_name("a", ""), "a-.gguf");
}

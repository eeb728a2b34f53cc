use ggufy::ports::{port_or_default, REGISTRY_PORT, SERVER_PORT};
use ggufy::sniff::is_gguf_file;

#[test]
fn empty_file_is_no_weight_file() {
    assert!(!is_gguf_file(&[]));
}

#[test]
fn short_file_is_no_weight_file() {
    assert!(!is_gguf_file(b"G"));
    assert!(!is_gguf_file(b"GG"));
    assert!(!is_gguf_file(b"GGU"));
}

#[test]
fn signature_makes_a_weight_file() {
    assert!(is_gguf_file(b"GGUF"));
    assert!(is_gguf_file(&[0x47, 0x47, 0x55, 0x46]));
}

#[test]
fn only_the_first_four_bytes_count() {
    assert!(is_gguf_file(b"GGUF\x03\x00\x00\x00rest"));
    assert!(!is_gguf_file(b" GGUF"));
    assert!(!is_gguf_file(b"\x00GGUF"));
}

#[test]
fn wrong_signatures_are_refused() {
    assert!(!is_gguf_file(b"gguf"));
    assert!(!is_gguf_file(b"GGML"));
    assert!(!is_gguf_file(b"GGUf"));
    assert!(!is_gguf_file(b"FUGG"));
    assert!(!is_gguf_file(b"XGUF"));
    assert!(!is_gguf_file(b"GXUF"));
    assert!(!is_gguf_file(b"GGXF"));
    assert!(!is_gguf_file(&[0, 0, 0, 0]));
}

#[test]
fn default_ports_differ_by_family() {
    assert_eq!(port_or_default(true, None), 11434);
    assert_eq!(port_or_default(false, None), 12434);
    assert_eq!(REGISTRY_PORT, 11434);
    assert_eq!(SERVER_PORT, 12434);
}

#[test]
fn explicit_port_overrides_both_families() {
    assert_eq!(port_or_default(true, Some(8080)), 8080);
    assert_eq!(port_or_default(false, Some(8080)), 8080);
    assert_eq!(port_or_default(false, Some(0)), 0);
    assert_eq!(port_or_default(true, Some(65535)), 65535);
}

use ggufy::manifest::{
    blob_path, collect_digests, manifest_blobs, resolve_ollama_library_gguf, JsonValue,
};
use ggufy::scan::Entry;

fn text(s: &str) -> JsonValue {
    JsonValue::Text(s.to_string())
}

fn member(name: &str, value: JsonValue) -> (String, JsonValue) {
    (name.to_string(), value)
}

fn probe(path: &str, head: &[u8], size: Option<u64>) -> Entry {
    Entry { path: path.to_string(), is_file: true, head: head.to_vec(), size, modified: None }
}

fn strings(items: &[&str]) -> Vec<String> {
    items.iter().map(|s| s.to_string()).collect()
}

#[test]
fn blob_path_replaces_colon_and_joins() {
    assert_eq!(blob_path("/blobs", "sha256:abc"), "/blobs/sha256-abc");
    assert_eq!(blob_path("/blobs/", "sha256:a:b"), "/blobs/sha256-a-b");
}

#[test]
fn digests_are_collected_depth_first() {
    let tree = JsonValue::Record(vec![
        member("config", JsonValue::Record(vec![member("digest", text("sha256:c0"))])),
        member(
            "layers",
            JsonValue::List(vec![
                JsonValue::Record(vec![
                    member("digest", text("sha256:l1")),
                    member("mediaType", text("application/vnd.ollama.image.model")),
                    member("size", JsonValue::Other),
                ]),
                JsonValue::List(vec![text("sha256:l2"), JsonValue::Other, text("md5:zz")]),
                text("sha256:l3"),
            ]),
        ),
        member("schemaVersion", JsonValue::Other),
    ]);
    let mut out = vec!["kept".to_string()];
    collect_digests(&tree, "/b", &mut out);
    assert_eq!(
        out,
        strings(&["kept", "/b/sha256-c0", "/b/sha256-l1", "/b/sha256-l2", "/b/sha256-l3"])
    );
}

#[test]
fn member_names_are_not_digests() {
    let tree = JsonValue::Record(vec![member("sha256:key", text("value"))]);
    let mut out = Vec::new();
    collect_digests(&tree, "/b", &mut out);
    assert_eq!(out, Vec::<String>::new());
}

#[test]
fn only_the_prefix_makes_a_digest() {
    let tree = JsonValue::List(vec![
        text("sha256:"),
        text("sha256"),
        text(" sha256:ab"),
        text("SHA256:ab"),
        text("sha256:ab"),
    ]);
    let mut out = Vec::new();
    collect_digests(&tree, "/b", &mut out);
    assert_eq!(out, strings(&["/b/sha256-", "/b/sha256-ab"]));
}

#[test]
fn scalars_hold_no_digests() {
    let mut out = Vec::new();
    collect_digests(&JsonValue::Other, "/b", &mut out);
    collect_digests(&JsonValue::List(Vec::new()), "/b", &mut out);
    collect_digests(&JsonValue::Record(Vec::new()), "/b", &mut out);
    assert_eq!(out, Vec::<String>::new());
}

#[test]
fn manifest_text_is_parsed_and_walked() {
    let manifest = r#"{
        "schemaVersion": 2,
        "mediaType": "application/vnd.docker.distribution.manifest.v2+json",
        "config": {"digest": "sha256:cfg", "size": 485},
        "layers": [
            {"mediaType": "application/vnd.ollama.image.model", "digest": "sha256:weights", "size": 4096},
            {"mediaType": "application/vnd.ollama.image.template", "digest": "sha256:tmpl", "size": 512},
            {"nested": [["sha256:deep"], null, true, 1.5]}
        ]
    }"#;
    assert_eq!(
        manifest_blobs(manifest, "/blobs"),
        strings(&[
            "/blobs/sha256-cfg",
            "/blobs/sha256-weights",
            "/blobs/sha256-tmpl",
            "/blobs/sha256-deep",
        ])
    );
}

#[test]
fn manifest_members_are_walked_in_the_readers_order() {
    let manifest = r#"{"b": "sha256:2", "a": "sha256:1", "c": ["sha256:3"]}"#;
    assert_eq!(
        manifest_blobs(manifest, "/s"),
        strings(&["/s/sha256-1", "/s/sha256-2", "/s/sha256-3"])
    );
}

#[test]
fn manifest_that_is_a_bare_string() {
    assert_eq!(manifest_blobs("\"sha256:only\"", "/s"), strings(&["/s/sha256-only"]));
    assert_eq!(manifest_blobs("\"sha256\\u003aesc\"", "/s"), strings(&["/s/sha256-esc"]));
}

#[test]
fn malformed_manifest_names_nothing() {
    assert_eq!(manifest_blobs("{not json", "/s"), Vec::<String>::new());
    assert_eq!(manifest_blobs("", "/s"), Vec::<String>::new());
    assert_eq!(manifest_blobs("sha256:abc", "/s"), Vec::<String>::new());
    assert_eq!(manifest_blobs("{\"a\": \"sha256:1\"} trailing", "/s"), Vec::<String>::new());
}

#[test]
fn largest_weight_blob_is_chosen() {
    let blobs = vec![
        probe("/b/sha256-decoy", b"GGUF", Some(512)),
        probe("/b/sha256-weights", b"GGUF", Some(4096)),
        probe("/b/sha256-template", b"{{ .", Some(2048)),
    ];
    assert_eq!(resolve_ollama_library_gguf(&blobs), Some("/b/sha256-weights".to_string()));
}

#[test]
fn largest_weight_blob_is_chosen_in_any_order() {
    let weights = probe("/b/w", b"GGUF", Some(4096));
    let decoy = probe("/b/d", b"GGUF", Some(512));
    let other = probe("/b/o", b"\x00\x00\x00\x00", Some(2048));
    let orders = [
        vec![weights.clone(), decoy.clone(), other.clone()],
        vec![weights.clone(), other.clone(), decoy.clone()],
        vec![decoy.clone(), weights.clone(), other.clone()],
        vec![decoy.clone(), other.clone(), weights.clone()],
        vec![other.clone(), weights.clone(), decoy.clone()],
        vec![other.clone(), decoy.clone(), weights.clone()],
    ];
    for blobs in orders {
        assert_eq!(resolve_ollama_library_gguf(&blobs), Some("/b/w".to_string()));
    }
}

#[test]
fn last_of_equally_large_blobs_is_chosen() {
    let blobs = vec![
        probe("/b/first", b"GGUF", Some(100)),
        probe("/b/second", b"GGUF", Some(100)),
        probe("/b/small", b"GGUF", Some(1)),
    ];
    assert_eq!(resolve_ollama_library_gguf(&blobs), Some("/b/second".to_string()));
}

#[test]
fn blobs_without_signature_or_size_do_not_count() {
    let blobs = vec![
        probe("/b/missing", b"", None),
        probe("/b/json", b"{\"a\"", Some(9000)),
        probe("/b/unsized", b"GGUF", None),
        probe("/b/short", b"GGU", Some(3)),
        Entry {
            path: "/b/dir".to_string(),
            is_file: false,
            head: b"GGUF".to_vec(),
            size: Some(9000),
            modified: None,
        },
    ];
    assert_eq!(resolve_ollama_library_gguf(&blobs), None);
    assert_eq!(resolve_ollama_library_gguf(&Vec::new()), None);
}

#[test]
fn empty_weight_blob_can_be_chosen() {
    let blobs = vec![probe("/b/only", b"GGUF", Some(0))];
    assert_eq!(resolve_ollama_library_gguf(&blobs), Some("/b/only".to_string()));
}

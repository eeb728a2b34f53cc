use ggufy::locate::{keep_marked, locate};
use ggufy::lookup::{bin_candidates, resolve_bin, resolve_model_ref, set_exe_extension, split_on};

fn strings(items: &[&str]) -> Vec<String> {
    items.iter().map(|s| s.to_string()).collect()
}

#[test]
fn marked_candidates_are_kept_in_order() {
    let c = strings(&["a", "b", "c", "d"]);
    assert_eq!(keep_marked(&c, &vec![true, false, true, false]), strings(&["a", "c"]));
    assert_eq!(keep_marked(&c, &vec![false, false, false, false]), Vec::<String>::new());
    assert_eq!(keep_marked(&c, &vec![true, true]), strings(&["a", "b"]));
    assert_eq!(keep_marked(&strings(&["a"]), &vec![false, true, true]), Vec::<String>::new());
    assert_eq!(keep_marked(&c, &Vec::new()), Vec::<String>::new());
}

#[test]
fn locate_filters_by_pattern() {
    let c = strings(&["/c/mistral-7b.gguf", "/c/llama3.gguf", "/b/sha256-abc"]);
    assert_eq!(locate("mistral", &c), Some(strings(&["/c/mistral-7b.gguf"])));
    assert_eq!(locate(r"\.gguf$", &c), Some(strings(&["/c/mistral-7b.gguf", "/c/llama3.gguf"])));
    assert_eq!(locate("^/b/", &c), Some(strings(&["/b/sha256-abc"])));
    assert_eq!(locate("nothing-like-it", &c), Some(Vec::new()));
}

#[test]
fn locate_reads_the_pattern_as_a_regular_expression() {
    let c = strings(&["a.c", "abc", "a+c"]);
    assert_eq!(locate("a.c", &c), Some(strings(&["a.c", "abc", "a+c"])));
    assert_eq!(locate(r"a\.c", &c), Some(strings(&["a.c"])));
}

#[test]
fn locate_with_broken_pattern_finds_everything() {
    let c = strings(&["/c/a.gguf", "", "line\nbreak"]);
    assert_eq!(locate("foo(bar", &c), Some(c.clone()));
    assert_eq!(locate("[", &c), Some(c.clone()));
}

#[test]
fn locate_among_nothing() {
    assert_eq!(locate(".*", &Vec::new()), Some(Vec::new()));
}

#[test]
fn model_ref_takes_the_first_that_exists() {
    assert_eq!(
        resolve_model_ref("mistral", "/links", true, true),
        Some("/links/mistral".to_string())
    );
    assert_eq!(
        resolve_model_ref("mistral", "/links", true, false),
        Some("/links/mistral".to_string())
    );
    assert_eq!(
        resolve_model_ref("mistral", "/links", false, true),
        Some("/links/mistral.gguf".to_string())
    );
    assert_eq!(resolve_model_ref("mistral", "/links", false, false), None);
}

#[test]
fn model_ref_of_rooted_token_ignores_the_link_directory() {
    assert_eq!(
        resolve_model_ref("/abs/m.gguf", "/links", true, false),
        Some("/abs/m.gguf".to_string())
    );
}

#[test]
fn search_path_is_split_on_every_separator() {
    assert_eq!(split_on("/usr/bin:/bin", ':'), strings(&["/usr/bin", "/bin"]));
    assert_eq!(split_on("/usr/bin", ':'), strings(&["/usr/bin"]));
    assert_eq!(split_on("", ':'), strings(&[""]));
    assert_eq!(split_on(":/bin:", ':'), strings(&["", "/bin", ""]));
    assert_eq!(split_on("a::b", ':'), strings(&["a", "", "b"]));
    assert_eq!(split_on("C:\\bin;D:\\tools", ';'), strings(&["C:\\bin", "D:\\tools"]));
}

#[test]
fn exe_extension_replaces_or_is_added() {
    assert_eq!(set_exe_extension("/bin/ollama"), "/bin/ollama.exe");
    assert_eq!(set_exe_extension("/bin/ollama.cmd"), "/bin/ollama.exe");
    assert_eq!(set_exe_extension("/bin/ollama."), "/bin/ollama.exe");
    assert_eq!(set_exe_extension("/bin/"), "/bin/");
    assert_eq!(set_exe_extension("/bin/.hidden"), "/bin/.hidden.exe");
}

#[test]
fn bin_candidates_follow_the_search_path() {
    assert_eq!(
        bin_candidates("/usr/local/bin:/usr/bin", "ollama", false),
        strings(&["/usr/local/bin/ollama", "/usr/bin/ollama"])
    );
    assert_eq!(bin_candidates("", "ollama", false), strings(&["ollama"]));
    assert_eq!(
        bin_candidates("C:/a;C:/b", "ollama", true),
        strings(&["C:/a/ollama", "C:/a/ollama.exe", "C:/b/ollama", "C:/b/ollama.exe"])
    );
}

#[test]
fn bin_is_the_first_candidate_present() {
    let path = "/a:/b:/c";
    assert_eq!(
        resolve_bin(path, "ollama", false, &vec![false, true, true]),
        Some("/b/ollama".to_string())
    );
    assert_eq!(
        resolve_bin(path, "ollama", false, &vec![true, false, false]),
        Some("/a/ollama".to_string())
    );
    assert_eq!(resolve_bin(path, "ollama", false, &vec![false, false, false]), None);
    assert_eq!(resolve_bin(path, "ollama", false, &Vec::new()), None);
    assert_eq!(resolve_bin(path, "ollama", false, &vec![false, false, false, true]), None);
    assert_eq!(
        resolve_bin("C:/a;C:/b", "ollama", true, &vec![false, true, false, false]),
        Some("C:/a/ollama.exe".to_string())
    );
}

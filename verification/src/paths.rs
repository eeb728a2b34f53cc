//! Paths as text, and where the caches of the two families live.
//!
//! A path is a text whose components are separated by `/`. Joining follows
//! the usual rule that a rooted second path replaces the first. The file name
//! of a path is its last component; a trailing `/` leaves it without one, and
//! `.` and `..` are no file names.

use vstd::prelude::*;
use vstd::string::*;
use crate::text::{chars_of, last_index_of, lemma_last_index_of, rscan};

verus! {

/// The operating systems whose cache layouts are known.
#[derive(Clone, Copy, Debug, PartialEq, Eq, Structural)]
pub enum Platform {
    MacOs,
    Linux,
    Windows,
}

/// The path starts at the root.
pub open spec fn is_rooted(p: Seq<char>) -> bool {
    p.len() > 0 && p[0] == '/'
}

/// `name` seen from `base`: `name` itself where it is rooted, else `base`
/// followed by `name`, with a `/` between them unless `base` is empty or
/// already ends in one.
pub open spec fn joined_path(base: Seq<char>, name: Seq<char>) -> Seq<char> {
    if is_rooted(name) {
        name
    } else if base.len() == 0 || base.last() == '/' {
        base + name
    } else {
        base + seq!['/'] + name
    }
}

/// The last component of a path: what follows its last `/`.
pub open spec fn last_component(p: Seq<char>) -> Seq<char> {
    p.skip(last_index_of(p, '/') + 1)
}

/// The last component is a file name: not empty, not `.` and not `..`.
pub open spec fn names_a_file(p: Seq<char>) -> bool {
    let n = last_component(p);
    n.len() > 0 && n != seq!['.'] && n != seq!['.', '.']
}

/// The extension of a path: what follows the last `.` of its file name,
/// unless that `.` is the file name's first character.
pub open spec fn extension_of(p: Seq<char>) -> Option<Seq<char>> {
    let n = last_component(p);
    let dot = last_index_of(n, '.');
    if names_a_file(p) && dot > 0 {
        Some(n.skip(dot + 1))
    } else {
        None
    }
}

/// The path names a weight file by its extension.
pub open spec fn is_gguf_path(p: Seq<char>) -> bool {
    extension_of(p) == Some("gguf"@)
}

/// The path with the weight-file extension added where its file name has no
/// extension. A path without a file name stays as it is.
pub open spec fn with_gguf_extension(p: Seq<char>) -> Seq<char> {
    if names_a_file(p) && extension_of(p) is None {
        p + ".gguf"@
    } else {
        p
    }
}

/// The directory that holds the path's last component: none for a path
/// without `/`, the root for a path directly under it.
pub open spec fn parent_of(p: Seq<char>) -> Option<Seq<char>> {
    let slash = last_index_of(p, '/');
    if slash < 0 {
        None
    } else if slash == 0 {
        Some(seq!['/'])
    } else {
        Some(p.take(slash))
    }
}

/// Where `model` is linked: its place in the link directory, with the
/// weight-file extension where the token brings none.
pub open spec fn link_path_of(model: Seq<char>, link_dir: Seq<char>) -> Seq<char> {
    with_gguf_extension(joined_path(link_dir, model))
}

/// The link directory: the override where one is given, else the user's own.
pub open spec fn models_dir_of(link_override: Option<Seq<char>>, home: Seq<char>) -> Seq<char> {
    match link_override {
        Some(dir) => dir,
        None => joined_path(home, ".guffy/models"@),
    }
}

/// The engine's cache: the override where one is given; else a fixed place
/// under the user's home, or on Windows under the local application data,
/// with a public fallback where that is unknown.
pub open spec fn engine_cache_dir_of(
    cache_override: Option<Seq<char>>,
    platform: Platform,
    home: Seq<char>,
    local_app_data: Option<Seq<char>>,
) -> Seq<char> {
    match cache_override {
        Some(dir) => dir,
        None => match platform {
            Platform::MacOs => joined_path(home, "Library/Caches/llama.cpp"@),
            Platform::Linux => joined_path(home, ".cache/llama.cpp"@),
            Platform::Windows => match local_app_data {
                Some(data) => joined_path(data, "llama.cpp"@),
                None => "C:/Users/Public/AppData/Local/llama.cpp"@,
            },
        },
    }
}

/// The engine's cache cannot be placed without the user's home.
pub open spec fn engine_cache_needs_home(cache_override: Option<Seq<char>>, platform: Platform) -> bool {
    cache_override is None && platform != Platform::Windows
}

/// The registry's blob store.
pub open spec fn registry_blobs_dir_of(home: Seq<char>) -> Seq<char> {
    joined_path(home, ".ollama/models/blobs"@)
}

/// The registry's manifests of library models.
pub open spec fn registry_manifest_dir_of(home: Seq<char>) -> Seq<char> {
    joined_path(home, ".ollama/models/manifests/registry.ollama.ai/library"@)
}

/// The manifest of a model at a tag.
pub open spec fn manifest_path_of(manifest_dir: Seq<char>, name: Seq<char>, tag: Seq<char>) -> Seq<char> {
    joined_path(joined_path(manifest_dir, name), tag)
}

/// The plain text of an optional text.
pub open spec fn text_of(s: Option<&str>) -> Option<Seq<char>> {
    match s {
        Some(t) => Some(t@),
        None => None,
    }
}

/// A text without `/` is its own last component.
pub proof fn lemma_plain_name_is_last_component(name: Seq<char>)
    requires
        !name.contains('/'),
    ensures
        last_index_of(name, '/') == -1,
        last_component(name) == name,
{
    lemma_last_index_of(name, '/');
    let at = last_index_of(name, '/');
    if at >= 0 {
        assert(name.contains(name[at]));
    }
    assert(name.skip(0) =~= name);
}

/// Joining a base with a name that holds no `/` gives a path whose last
/// component is that name: file name and extension are the name's own.
pub proof fn lemma_join_keeps_last_component(base: Seq<char>, name: Seq<char>)
    requires
        !name.contains('/'),
    ensures
        last_component(joined_path(base, name)) == name,
        names_a_file(joined_path(base, name)) == names_a_file(name),
        extension_of(joined_path(base, name)) == extension_of(name),
{
    let p = joined_path(base, name);
    lemma_plain_name_is_last_component(name);
    if name.len() > 0 {
        assert(name.contains(name[0]));
    }
    if base.len() == 0 {
        assert(p =~= name);
    } else {
        let start = p.len() - name.len();
        assert(p[start - 1] == '/');
        assert forall|j: int| start <= j < p.len() implies p[j] != '/' by {
            assert(p[j] == name[j - start]);
            assert(name.contains(name[j - start]));
        }
        lemma_last_index_of(p, '/');
        assert(last_index_of(p, '/') == start - 1);
        assert(p.skip(start) =~= name);
    }
}

/// Asks `dirs::home_dir` for the user's home directory and writes the path
/// out as text. Nothing is claimed of the answer: it depends on the machine.
#[verifier::external_body]
fn home_dir() -> (home: Option<String>) {
    dirs::home_dir().map(|p| p.to_string_lossy().into_owned())
}

/// `name` seen from `base`.
pub fn join_path(base: &str, name: &str) -> (p: String)
    ensures
        p@ == joined_path(base@, name@),
{
    let b: Vec<char> = chars_of(base);
    let n: Vec<char> = chars_of(name);
    if n.len() > 0 && n[0] == '/' {
        String::from_str(name)
    } else {
        let mut p: String = String::from_str(base);
        if b.len() > 0 && b[b.len() - 1] != '/' {
            proof {
                reveal_strlit("/");
            }
            p.append("/");
            assert(p@ =~= base@ + seq!['/']);
        }
        p.append(name);
        p
    }
}

/// The last component of a path.
pub fn file_name(p: &str) -> (n: String)
    ensures
        n@ == last_component(p@),
{
    let chars: Vec<char> = chars_of(p);
    let start: usize = match rscan(&chars, '/') {
        Some(i) => i + 1,
        None => 0,
    };
    let n: String = String::from_str(p.substring_char(start, chars.len()));
    assert(n@ =~= p@.skip(start as int));
    n
}

/// Whether the last component of a path is a file name.
pub fn has_file_name(p: &str) -> (b: bool)
    ensures
        b == names_a_file(p@),
{
    let name: String = file_name(p);
    let n: Vec<char> = chars_of(name.as_str());
    if n.len() == 0 {
        false
    } else if n.len() == 1 && n[0] == '.' {
        assert(n@ =~= seq!['.']);
        false
    } else if n.len() == 2 && n[0] == '.' && n[1] == '.' {
        assert(n@ =~= seq!['.', '.']);
        false
    } else {
        true
    }
}

/// The extension of a path, if its file name has one.
pub fn extension(p: &str) -> (e: Option<String>)
    ensures
        match e {
            Some(ext) => extension_of(p@) == Some(ext@),
            None => extension_of(p@) is None,
        },
{
    if !has_file_name(p) {
        return None;
    }
    let name: String = file_name(p);
    let n: Vec<char> = chars_of(name.as_str());
    match rscan(&n, '.') {
        Some(dot) => {
            if dot == 0 {
                None
            } else {
                let ext: String = String::from_str(name.as_str().substring_char(dot + 1, n.len()));
                assert(ext@ =~= name@.skip(dot as int + 1));
                Some(ext)
            }
        },
        None => None,
    }
}

/// Whether the path names a weight file by its extension.
pub fn has_gguf_extension(p: &str) -> (b: bool)
    ensures
        b == is_gguf_path(p@),
{
    match extension(p) {
        Some(ext) => ext == String::from_str("gguf"),
        None => false,
    }
}

/// The path with the weight-file extension added where it has none.
pub fn add_gguf_extension(p: &str) -> (q: String)
    ensures
        q@ == with_gguf_extension(p@),
{
    let mut q: String = String::from_str(p);
    if has_file_name(p) && extension(p).is_none() {
        q.append(".gguf");
    }
    q
}

/// The directory that holds the path's last component.
pub fn parent_dir(p: &str) -> (d: Option<String>)
    ensures
        match d {
            Some(dir) => parent_of(p@) == Some(dir@),
            None => parent_of(p@) is None,
        },
{
    let chars: Vec<char> = chars_of(p);
    match rscan(&chars, '/') {
        None => None,
        Some(slash) => {
            proof {
                lemma_last_index_of(p@, '/');
                reveal_strlit("/");
            }
            if slash == 0 {
                let root: String = String::from_str("/");
                assert(root@ =~= seq!['/']);
                Some(root)
            } else {
                let dir: String = String::from_str(p.substring_char(0, slash));
                Some(dir)
            }
        },
    }
}

/// Where `model` is linked in `link_dir`.
pub fn link_path_for(model: &str, link_dir: &str) -> (p: String)
    ensures
        p@ == link_path_of(model@, link_dir@),
{
    let joined: String = join_path(link_dir, model);
    add_gguf_extension(joined.as_str())
}

/// The link directory of a user whose home is `home`.
pub fn models_dir(link_override: Option<&str>, home: &str) -> (dir: String)
    ensures
        dir@ == models_dir_of(text_of(link_override), home@),
{
    match link_override {
        Some(d) => String::from_str(d),
        None => join_path(home, ".guffy/models"),
    }
}

/// The engine's cache of a user whose home is `home`.
pub fn engine_cache_dir(
    cache_override: Option<&str>,
    platform: Platform,
    home: &str,
    local_app_data: Option<&str>,
) -> (dir: String)
    ensures
        dir@ == engine_cache_dir_of(
            text_of(cache_override),
            platform,
            home@,
            text_of(local_app_data),
        ),
{
    match cache_override {
        Some(d) => String::from_str(d),
        None => match platform {
            Platform::MacOs => join_path(home, "Library/Caches/llama.cpp"),
            Platform::Linux => join_path(home, ".cache/llama.cpp"),
            Platform::Windows => match local_app_data {
                Some(data) => join_path(data, "llama.cpp"),
                None => String::from_str("C:/Users/Public/AppData/Local/llama.cpp"),
            },
        },
    }
}

/// The registry's blob store of a user whose home is `home`.
pub fn registry_blobs_dir(home: &str) -> (dir: String)
    ensures
        dir@ == registry_blobs_dir_of(home@),
{
    join_path(home, ".ollama/models/blobs")
}

/// The registry's manifests of library models of a user whose home is `home`.
pub fn registry_manifest_dir(home: &str) -> (dir: String)
    ensures
        dir@ == registry_manifest_dir_of(home@),
{
    join_path(home, ".ollama/models/manifests/registry.ollama.ai/library")
}

/// The manifest of a model at a tag.
pub fn manifest_path(manifest_dir: &str, name: &str, tag: &str) -> (p: String)
    ensures
        p@ == manifest_path_of(manifest_dir@, name@, tag@),
{
    let model_dir: String = join_path(manifest_dir, name);
    join_path(model_dir.as_str(), tag)
}

/// The link directory of the current user. An override is returned as it is;
/// without one the directory lies under the user's home, and there is none
/// where the home cannot be found.
pub fn ggufy_models_dir_with(link_override: Option<&str>) -> (dir: Option<String>)
    ensures
        link_override is Some ==> dir is Some,
        dir matches Some(d) ==> exists|home: Seq<char>|
            d@ == models_dir_of(text_of(link_override), home),
{
    match link_override {
        Some(d) => {
            let dir: String = String::from_str(d);
            assert(dir@ == models_dir_of(text_of(link_override), Seq::<char>::empty()));
            Some(dir)
        },
        None => match home_dir() {
            Some(home) => {
                let dir: String = models_dir(None, home.as_str());
                assert(dir@ == models_dir_of(text_of(link_override), home@));
                Some(dir)
            },
            None => None,
        },
    }
}

/// The engine's cache of the current user; none where it lies under the
/// user's home and the home cannot be found.
pub fn llama_cache_dir(
    cache_override: Option<&str>,
    platform: Platform,
    local_app_data: Option<&str>,
) -> (dir: Option<String>)
    ensures
        !engine_cache_needs_home(text_of(cache_override), platform) ==> dir is Some,
        dir matches Some(d) ==> exists|home: Seq<char>|
            d@ == engine_cache_dir_of(
                text_of(cache_override),
                platform,
                home,
                text_of(local_app_data),
            ),
{
    let needs_home: bool = cache_override.is_none() && match platform {
        Platform::Windows => false,
        _ => true,
    };
    if needs_home {
        match home_dir() {
            Some(home) => {
                let dir: String = engine_cache_dir(
                    cache_override,
                    platform,
                    home.as_str(),
                    local_app_data,
                );
                assert(dir@ == engine_cache_dir_of(
                    text_of(cache_override),
                    platform,
                    home@,
                    text_of(local_app_data),
                ));
                Some(dir)
            },
            None => None,
        }
    } else {
        let dir: String = engine_cache_dir(cache_override, platform, "", local_app_data);
        assert(dir@ == engine_cache_dir_of(
            text_of(cache_override),
            platform,
            ""@,
            text_of(local_app_data),
        ));
        Some(dir)
    }
}

/// The registry's blob store of the current user; none where the home cannot
/// be found.
pub fn ollama_blobs_dir() -> (dir: Option<String>)
    ensures
        dir matches Some(d) ==> exists|home: Seq<char>| d@ == registry_blobs_dir_of(home),
{
    match home_dir() {
        Some(home) => {
            let dir: String = registry_blobs_dir(home.as_str());
            assert(dir@ == registry_blobs_dir_of(home@));
            Some(dir)
        },
        None => None,
    }
}

/// The registry's manifests of library models of the current user; none where
/// the home cannot be found.
pub fn ollama_library_manifest_dir() -> (dir: Option<String>)
    ensures
        dir matches Some(d) ==> exists|home: Seq<char>| d@ == registry_manifest_dir_of(home),
{
    match home_dir() {
        Some(home) => {
            let dir: String = registry_manifest_dir(home.as_str());
            assert(dir@ == registry_manifest_dir_of(home@));
            Some(dir)
        },
        None => None,
    }
}

} // verus!

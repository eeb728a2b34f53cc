//! Picking weight files out of what a walk of the caches has seen.
//!
//! Walking directories is the caller's business. The caller reports each
//! entry it saw as an `Entry`; the functions here decide which of them count.

use vstd::prelude::*;
use vstd::string::*;
use crate::paths::{file_name, has_gguf_extension, is_gguf_path, last_component};
use crate::sniff::{is_gguf_file, is_weight_head};
use crate::text::{chars_of, contains_str, has_substring, lemma_scan_to, scan, scan_to};

verus! {

/// What was seen of one entry of a directory.
#[derive(Clone, Debug, PartialEq, Eq)]
pub struct Entry {
    /// Where the entry is.
    pub path: String,
    /// It is a regular file.
    pub is_file: bool,
    /// Its leading bytes, as far as they were read; empty for an entry that
    /// could not be read.
    pub head: Vec<u8>,
    /// Its size in bytes, where known.
    pub size: Option<u64>,
    /// When it was last modified, on any scale that grows with time, where known.
    pub modified: Option<u64>,
}

/// A directory of the registry's manifest tree, named after a model.
#[derive(Clone, Debug, PartialEq, Eq)]
pub struct ModelDir {
    /// The name of the entry: the model's name.
    pub name: String,
    /// It is a directory.
    pub is_dir: bool,
    /// The entries found inside it.
    pub tags: Vec<TagFile>,
}

/// An entry inside a model's directory, named after a tag.
#[derive(Clone, Debug, PartialEq, Eq)]
pub struct TagFile {
    /// The name of the entry: the tag.
    pub name: String,
    /// It is a regular file.
    pub is_file: bool,
}

/// The path of an entry of the engine's cache if it counts as a model: a
/// regular file with the weight-file extension.
pub open spec fn cache_model(e: Entry) -> Option<Seq<char>> {
    if e.is_file && is_gguf_path(e.path@) {
        Some(e.path@)
    } else {
        None
    }
}

/// The models among the entries of the engine's cache, in the order seen.
pub open spec fn cache_models(entries: Seq<Entry>) -> Seq<Seq<char>> {
    entries.filter_map(|e: Entry| cache_model(e))
}

/// The path of an entry of the registry's blob store if it counts as a model:
/// a regular file that starts with the weight-file signature.
pub open spec fn blob_model(e: Entry) -> Option<Seq<char>> {
    if e.is_file && is_weight_head(e.head@) {
        Some(e.path@)
    } else {
        None
    }
}

/// The models among the entries of the registry's blob store, in the order seen.
pub open spec fn blob_models(entries: Seq<Entry>) -> Seq<Seq<char>> {
    entries.filter_map(|e: Entry| blob_model(e))
}

/// The path names a projector file: a weight file with `mmproj` in its name.
pub open spec fn is_projector(p: Seq<char>) -> bool {
    has_substring(last_component(p), "mmproj"@) && is_gguf_path(p)
}

/// The first projector file at or after position `from`.
pub open spec fn first_projector(paths: Seq<Seq<char>>, from: int) -> Option<Seq<char>>
    decreases paths.len() - from,
{
    if from >= paths.len() {
        None
    } else if is_projector(paths[from]) {
        Some(paths[from])
    } else {
        first_projector(paths, from + 1)
    }
}

/// The projector file that goes with a model: the first one beside the model,
/// else the first one in the link directory.
pub open spec fn projector_for(beside: Seq<Seq<char>>, linked: Seq<Seq<char>>) -> Option<Seq<char>> {
    match first_projector(beside, 0) {
        Some(p) => Some(p),
        None => first_projector(linked, 0),
    }
}

/// Owner and name of a hub repository written `owner/name`; none for a text
/// with no `/` or with more than one.
pub open spec fn repo_parts(repo: Seq<char>) -> Option<(Seq<char>, Seq<char>)> {
    let first = scan_to(repo, '/', 0);
    if first < repo.len() && scan_to(repo, '/', first + 1) >= repo.len() {
        Some((repo.take(first), repo.skip(first + 1)))
    } else {
        None
    }
}

/// The entry may hold the weights of the repository: a regular file with the
/// weight-file extension whose path mentions both owner and name.
pub open spec fn is_repo_file(e: Entry, owner: Seq<char>, name: Seq<char>) -> bool {
    &&& e.is_file
    &&& is_gguf_path(e.path@)
    &&& has_substring(e.path@, owner)
    &&& has_substring(e.path@, name)
}

/// `a` is not newer than `b`; an unknown time counts as older than any known one.
pub open spec fn not_newer(a: Option<u64>, b: Option<u64>) -> bool {
    match (a, b) {
        (None, _) => true,
        (Some(_), None) => false,
        (Some(x), Some(y)) => x <= y,
    }
}

/// Entry `i` is the repository's newest file: no file of the repository is
/// newer, and none that was seen later is as new.
pub open spec fn is_newest_repo_file(
    entries: Seq<Entry>,
    owner: Seq<char>,
    name: Seq<char>,
    i: int,
) -> bool {
    &&& 0 <= i < entries.len()
    &&& is_repo_file(entries[i], owner, name)
    &&& forall|j: int|
        0 <= j < entries.len() && is_repo_file(#[trigger] entries[j], owner, name) ==> not_newer(
            entries[j].modified,
            entries[i].modified,
        )
    &&& forall|j: int|
        i < j < entries.len() && is_repo_file(#[trigger] entries[j], owner, name) ==> !not_newer(
            entries[i].modified,
            entries[j].modified,
        )
}

/// `found` is the path of the repository's newest file, or nothing where the
/// repository has no file among the entries.
pub open spec fn picks_newest_repo_file(
    entries: Seq<Entry>,
    owner: Seq<char>,
    name: Seq<char>,
    found: Option<String>,
) -> bool {
    match found {
        Some(p) => exists|i: int|
            #[trigger] is_newest_repo_file(entries, owner, name, i) && p@ == entries[i].path@,
        None => forall|j: int|
            0 <= j < entries.len() ==> !is_repo_file(#[trigger] entries[j], owner, name),
    }
}

/// The pairs of model and tag that one directory of the manifest tree holds:
/// one for each regular file in it, if it is a directory at all.
pub open spec fn tags_in(m: ModelDir) -> Seq<(Seq<char>, Seq<char>)> {
    if m.is_dir {
        m.tags@.filter_map(
            |t: TagFile|
                if t.is_file {
                    Some((m.name@, t.name@))
                } else {
                    None
                },
        )
    } else {
        Seq::empty()
    }
}

/// The pairs of model and tag that the manifest tree holds, in the order seen.
pub open spec fn library_models(dirs: Seq<ModelDir>) -> Seq<(Seq<char>, Seq<char>)> {
    dirs.flat_map(|m: ModelDir| tags_in(m))
}

/// The pairs of a list as plain text.
pub open spec fn pairs_of(list: Seq<(String, String)>) -> Seq<(Seq<char>, Seq<char>)> {
    list.map_values(|p: (String, String)| (p.0@, p.1@))
}

/// The models among the entries that a walk of the engine's cache has seen.
pub fn find_llama_cache_models(entries: &Vec<Entry>) -> (found: Vec<String>)
    ensures
        found.deep_view() == cache_models(entries@),
{
    let mut found: Vec<String> = Vec::new();
    let n: usize = entries.len();
    let mut i: usize = 0;
    assert(found.deep_view() =~= cache_models(entries@.take(0)));
    while i < n
        invariant
            i <= n,
            n == entries.len(),
            found.deep_view() == cache_models(entries@.take(i as int)),
        decreases n - i,
    {
        let ghost before = found.deep_view();
        proof {
            entries@.lemma_filter_map_take_succ(|e: Entry| cache_model(e), i as int);
        }
        if entries[i].is_file && has_gguf_extension(entries[i].path.as_str()) {
            found.push(entries[i].path.clone());
            assert(found.deep_view() =~= before + seq![entries[i as int].path@]);
        }
        i += 1;
    }
    assert(entries@.take(n as int) =~= entries@);
    found
}

/// The models among the entries that a listing of the registry's blob store
/// has seen. Blobs carry no extension, so only their content tells.
pub fn find_ollama_blob_gguf(entries: &Vec<Entry>) -> (found: Vec<String>)
    ensures
        found.deep_view() == blob_models(entries@),
{
    let mut found: Vec<String> = Vec::new();
    let n: usize = entries.len();
    let mut i: usize = 0;
    assert(found.deep_view() =~= blob_models(entries@.take(0)));
    while i < n
        invariant
            i <= n,
            n == entries.len(),
            found.deep_view() == blob_models(entries@.take(i as int)),
        decreases n - i,
    {
        let ghost before = found.deep_view();
        proof {
            entries@.lemma_filter_map_take_succ(|e: Entry| blob_model(e), i as int);
        }
        if entries[i].is_file && is_gguf_file(entries[i].head.as_slice()) {
            found.push(entries[i].path.clone());
            assert(found.deep_view() =~= before + seq![entries[i as int].path@]);
        }
        i += 1;
    }
    assert(entries@.take(n as int) =~= entries@);
    found
}

/// Whether the path names a projector file.
pub fn is_mmproj(p: &str) -> (b: bool)
    ensures
        b == is_projector(p@),
{
    let name: String = file_name(p);
    contains_str(name.as_str(), "mmproj") && has_gguf_extension(p)
}

/// The first projector file among the entries of one directory.
pub fn scan_for_mmproj(paths: &Vec<String>) -> (found: Option<String>)
    ensures
        match found {
            Some(p) => first_projector(paths.deep_view(), 0) == Some(p@),
            None => first_projector(paths.deep_view(), 0) is None,
        },
{
    let n: usize = paths.len();
    let mut i: usize = 0;
    while i < n
        invariant
            i <= n,
            n == paths.len(),
            first_projector(paths.deep_view(), 0) == first_projector(paths.deep_view(), i as int),
        decreases n - i,
    {
        assert(paths.deep_view()[i as int] == paths[i as int]@);
        if is_mmproj(paths[i].as_str()) {
            return Some(paths[i].clone());
        }
        i += 1;
    }
    None
}

/// The projector file that goes with a model, given the entries of the
/// model's own directory and those of the link directory.
pub fn find_mmproj_for(beside: &Vec<String>, linked: &Vec<String>) -> (found: Option<String>)
    ensures
        match found {
            Some(p) => projector_for(beside.deep_view(), linked.deep_view()) == Some(p@),
            None => projector_for(beside.deep_view(), linked.deep_view()) is None,
        },
{
    match scan_for_mmproj(beside) {
        Some(p) => Some(p),
        None => scan_for_mmproj(linked),
    }
}

/// Owner and name of a hub repository written `owner/name`.
pub fn split_repo(repo: &str) -> (parts: Option<(String, String)>)
    ensures
        match parts {
            Some((owner, name)) => repo_parts(repo@) == Some((owner@, name@)),
            None => repo_parts(repo@) is None,
        },
{
    let chars: Vec<char> = chars_of(repo);
    let n: usize = chars.len();
    let first: usize = scan(&chars, '/', 0);
    if first >= n {
        return None;
    }
    if scan(&chars, '/', first + 1) < n {
        return None;
    }
    let owner: String = String::from_str(repo.substring_char(0, first));
    let name: String = String::from_str(repo.substring_char(first + 1, n));
    assert(name@ =~= repo@.skip(first as int + 1));
    Some((owner, name))
}

/// Whether `a` is not newer than `b`.
fn older_or_same(a: Option<u64>, b: Option<u64>) -> (r: bool)
    ensures
        r == not_newer(a, b),
{
    match a {
        None => true,
        Some(x) => match b {
            None => false,
            Some(y) => x <= y,
        },
    }
}

/// The newest weight file that the engine's cache holds for a repository of
/// the model hub, among the entries that a walk of the cache has seen. Of
/// several equally new files the one seen last is taken.
pub fn find_hf_cached_gguf(repo: &str, entries: &Vec<Entry>) -> (found: Option<String>)
    ensures
        match repo_parts(repo@) {
            Some(parts) => picks_newest_repo_file(entries@, parts.0, parts.1, found),
            None => found is None,
        },
{
    let (owner, name) = match split_repo(repo) {
        Some(parts) => parts,
        None => {
            return None;
        },
    };
    let n: usize = entries.len();
    let mut best: Option<usize> = None;
    let mut i: usize = 0;
    while i < n
        invariant
            i <= n,
            n == entries.len(),
            repo_parts(repo@) == Some((owner@, name@)),
            match best {
                Some(b) => is_newest_repo_file(entries@.take(i as int), owner@, name@, b as int),
                None => forall|j: int|
                    0 <= j < i ==> !is_repo_file(#[trigger] entries[j], owner@, name@),
            },
        decreases n - i,
    {
        let e: &Entry = &entries[i];
        let counts: bool = e.is_file && has_gguf_extension(e.path.as_str()) && contains_str(
            e.path.as_str(),
            owner.as_str(),
        ) && contains_str(e.path.as_str(), name.as_str());
        let ghost seen = entries@.take(i as int);
        let ghost next = entries@.take(i as int + 1);
        assert(forall|j: int| 0 <= j < i ==> seen[j] == entries@[j] && next[j] == entries@[j]);
        assert(next[i as int] == entries@[i as int]);
        if counts {
            let takes_over: bool = match best {
                Some(b) => older_or_same(entries[b].modified, e.modified),
                None => true,
            };
            if takes_over {
                best = Some(i);
            }
        }
        i += 1;
    }
    assert(entries@.take(n as int) =~= entries@);
    match best {
        Some(b) => {
            let p: String = entries[b].path.clone();
            assert(is_newest_repo_file(entries@, owner@, name@, b as int));
            assert(p@ == entries[b as int].path@);
            Some(p)
        },
        None => None,
    }
}

/// The pairs of model and tag that the registry's manifest tree holds, given
/// what a listing of the tree has seen.
pub fn enumerate_ollama_library_models(dirs: &Vec<ModelDir>) -> (models: Vec<(String, String)>)
    ensures
        pairs_of(models@) == library_models(dirs@),
{
    let mut models: Vec<(String, String)> = Vec::new();
    let n: usize = dirs.len();
    let mut i: usize = 0;
    assert(pairs_of(models@) =~= library_models(dirs@.take(0)));
    while i < n
        invariant
            i <= n,
            n == dirs.len(),
            pairs_of(models@) == library_models(dirs@.take(i as int)),
        decreases n - i,
    {
        let m: &ModelDir = &dirs[i];
        let ghost before = pairs_of(models@);
        if m.is_dir {
            let k: usize = m.tags.len();
            let mut j: usize = 0;
            let ghost pick = |t: TagFile|
                if t.is_file {
                    Some((m.name@, t.name@))
                } else {
                    None
                };
            assert(m.tags@.take(0).filter_map(pick) =~= Seq::empty());
            while j < k
                invariant
                    j <= k,
                    k == m.tags.len(),
                    m.is_dir,
                    pick == |t: TagFile|
                        if t.is_file {
                            Some((m.name@, t.name@))
                        } else {
                            None
                        },
                    pairs_of(models@) == before + m.tags@.take(j as int).filter_map(pick),
                decreases k - j,
            {
                let ghost so_far = pairs_of(models@);
                proof {
                    m.tags@.lemma_filter_map_take_succ(pick, j as int);
                }
                if m.tags[j].is_file {
                    models.push((m.name.clone(), m.tags[j].name.clone()));
                    assert(pairs_of(models@) =~= so_far + seq![(m.name@, m.tags[j as int].name@)]);
                }
                j += 1;
            }
            assert(m.tags@.take(k as int) =~= m.tags@);
            assert(m.tags@.filter_map(pick) == tags_in(*m));
        }
        proof {
            let f = |m: ModelDir| tags_in(m);
            assert(dirs@.take(i as int + 1) =~= dirs@.take(i as int).push(*m));
            dirs@.take(i as int).lemma_flat_map_push(f, *m);
            assert(pairs_of(models@) =~= before + tags_in(*m));
        }
        i += 1;
    }
    assert(dirs@.take(n as int) =~= dirs@);
    models
}

} // verus!

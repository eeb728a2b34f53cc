//! Registry manifests: from a manifest's text to the weight file it names.
//!
//! A manifest is a JSON document. Only the texts in it that begin with
//! `sha256:` mean anything here: each names a blob of the registry's store.
//! The largest of those blobs that is a weight file holds the model.

use vstd::prelude::*;
use vstd::string::*;
use crate::paths::{join_path, joined_path};
use crate::scan::Entry;
use crate::sniff::{is_gguf_file, is_weight_head};
use crate::text::{has_prefix, replace_char, replaced, starts_with};

verus! {

/// A JSON document, as far as a manifest is read: its texts and how they nest.
#[derive(Debug, PartialEq, Eq)]
pub enum JsonValue {
    /// A string.
    Text(String),
    /// An array, with its elements in order.
    List(Vec<JsonValue>),
    /// An object, with its members in the order in which the reader yields them.
    Record(Vec<(String, JsonValue)>),
    /// Anything else: null, a boolean or a number.
    Other,
}

/// Makes `serde_json::Value` known as a type whose inside is not looked at.
#[verifier::external_type_specification]
#[verifier::external_body]
pub struct ExJsonDocument(serde_json::Value);

/// What `serde_json::from_str` reads from a text, as a `JsonValue`: the
/// document, or nothing where the text is not valid JSON.
pub uninterp spec fn json_document(text: Seq<char>) -> Option<JsonValue>;

/// Rewrites a `serde_json::Value` as a `JsonValue`, variant by variant: a
/// string, the elements of an array and the members of an object are kept,
/// in the order in which `serde_json` hands them out.
#[verifier::external_body]
fn from_serde(v: serde_json::Value) -> JsonValue {
    match v {
        serde_json::Value::String(s) => JsonValue::Text(s),
        serde_json::Value::Array(a) => JsonValue::List(a.into_iter().map(from_serde).collect()),
        serde_json::Value::Object(m) => JsonValue::Record(
            m.into_iter().map(|(k, x)| (k, from_serde(x))).collect(),
        ),
        serde_json::Value::Null => JsonValue::Other,
        serde_json::Value::Bool(_) => JsonValue::Other,
        serde_json::Value::Number(_) => JsonValue::Other,
    }
}

/// Calls `serde_json::from_str` for a `serde_json::Value`. The outcome is
/// taken to depend on the text alone; nothing else is claimed of it.
#[verifier::external_body]
fn parse_json(text: &str) -> (tree: Option<JsonValue>)
    ensures
        tree == json_document(text@),
{
    match serde_json::from_str::<serde_json::Value>(text) {
        Ok(v) => Some(from_serde(v)),
        Err(_) => None,
    }
}

/// The text is a content address: it begins with `sha256:`.
pub open spec fn is_digest(s: Seq<char>) -> bool {
    has_prefix(s, "sha256:"@)
}

/// The file of the blob store that a content address names: the address
/// with each `:` turned into `-`, inside the store.
pub open spec fn blob_path_of(blobs_dir: Seq<char>, digest: Seq<char>) -> Seq<char> {
    joined_path(blobs_dir, replaced(digest, ':', '-'))
}

/// The number of values directly inside a value.
pub open spec fn child_count(v: JsonValue) -> nat {
    match v {
        JsonValue::List(items) => items.len() as nat,
        JsonValue::Record(members) => members.len() as nat,
        _ => 0,
    }
}

/// The `i`-th value directly inside a value.
pub open spec fn child(v: JsonValue, i: int) -> JsonValue {
    match v {
        JsonValue::List(items) => items[i],
        JsonValue::Record(members) => members[i].1,
        _ => v,
    }
}

/// The blob files named anywhere in a value, in the order in which a walk
/// meets them that goes depth first through arrays and through the values of
/// objects. The names of an object's members do not count.
pub open spec fn blob_paths_in(v: JsonValue, blobs_dir: Seq<char>) -> Seq<Seq<char>>
    decreases v, child_count(v) + 1,
{
    match v {
        JsonValue::Text(s) => if is_digest(s@) {
            seq![blob_path_of(blobs_dir, s@)]
        } else {
            Seq::empty()
        },
        JsonValue::Other => Seq::empty(),
        _ => blob_paths_in_children(v, blobs_dir, child_count(v)),
    }
}

/// The blob files named in the first `n` values directly inside a value.
pub open spec fn blob_paths_in_children(v: JsonValue, blobs_dir: Seq<char>, n: nat) -> Seq<Seq<char>>
    decreases v, n,
{
    if n == 0 || n > child_count(v) {
        Seq::empty()
    } else {
        blob_paths_in_children(v, blobs_dir, (n - 1) as nat) + blob_paths_in(
            child(v, n - 1),
            blobs_dir,
        )
    }
}

/// The blob files that a manifest's text names; none where it is not valid JSON.
pub open spec fn manifest_blob_paths(text: Seq<char>, blobs_dir: Seq<char>) -> Seq<Seq<char>> {
    match json_document(text) {
        Some(tree) => blob_paths_in(tree, blobs_dir),
        None => Seq::empty(),
    }
}

/// The entry is a weight file of known size: a regular file that exists,
/// starts with the weight-file signature and could be measured.
pub open spec fn is_weight_blob(e: Entry) -> bool {
    e.is_file && is_weight_head(e.head@) && e.size is Some
}

/// Entry `i` is the largest weight file: none is larger, and none that comes
/// later is as large.
pub open spec fn is_largest_weight_blob(entries: Seq<Entry>, i: int) -> bool {
    &&& 0 <= i < entries.len()
    &&& is_weight_blob(entries[i])
    &&& forall|j: int|
        0 <= j < entries.len() && is_weight_blob(#[trigger] entries[j]) ==> entries[j].size->0
            <= entries[i].size->0
    &&& forall|j: int|
        i < j < entries.len() && is_weight_blob(#[trigger] entries[j]) ==> entries[j].size->0
            < entries[i].size->0
}

/// `found` is the path of the largest weight file, or nothing where there is
/// no weight file among the entries.
pub open spec fn picks_largest_weight_blob(entries: Seq<Entry>, found: Option<String>) -> bool {
    match found {
        Some(p) => exists|i: int|
            #[trigger] is_largest_weight_blob(entries, i) && p@ == entries[i].path@,
        None => forall|j: int| 0 <= j < entries.len() ==> !is_weight_blob(#[trigger] entries[j]),
    }
}

/// The file of the blob store that a content address names.
pub fn blob_path(blobs_dir: &str, digest: &str) -> (p: String)
    ensures
        p@ == blob_path_of(blobs_dir@, digest@),
{
    proof {
        reveal_strlit("-");
    }
    let name: String = replace_char(digest, ':', "-");
    join_path(blobs_dir, name.as_str())
}

/// Adds to `out` the blob files named anywhere in a value, in walking order.
pub fn collect_digests(v: &JsonValue, blobs_dir: &str, out: &mut Vec<String>)
    ensures
        final(out).deep_view() == old(out).deep_view() + blob_paths_in(*v, blobs_dir@),
    decreases v,
{
    let ghost before = out.deep_view();
    match v {
        JsonValue::Text(s) => {
            if starts_with(s.as_str(), "sha256:") {
                out.push(blob_path(blobs_dir, s.as_str()));
                assert(out.deep_view() =~= before + seq![blob_path_of(blobs_dir@, s@)]);
            } else {
                assert(out.deep_view() =~= before + Seq::<Seq<char>>::empty());
            }
        },
        JsonValue::List(items) => {
            let n: usize = items.len();
            let mut i: usize = 0;
            assert(out.deep_view() =~= before + blob_paths_in_children(*v, blobs_dir@, 0));
            while i < n
                invariant
                    i <= n,
                    n == items.len(),
                    *v == JsonValue::List(*items),
                    out.deep_view() == before + blob_paths_in_children(*v, blobs_dir@, i as nat),
                decreases n - i,
            {
                let ghost so_far = out.deep_view();
                collect_digests(&items[i], blobs_dir, out);
                assert(out.deep_view() =~= before + blob_paths_in_children(
                    *v,
                    blobs_dir@,
                    (i + 1) as nat,
                ));
                i += 1;
            }
        },
        JsonValue::Record(members) => {
            let n: usize = members.len();
            let mut i: usize = 0;
            assert(out.deep_view() =~= before + blob_paths_in_children(*v, blobs_dir@, 0));
            while i < n
                invariant
                    i <= n,
                    n == members.len(),
                    *v == JsonValue::Record(*members),
                    out.deep_view() == before + blob_paths_in_children(*v, blobs_dir@, i as nat),
                decreases n - i,
            {
                collect_digests(&members[i].1, blobs_dir, out);
                assert(out.deep_view() =~= before + blob_paths_in_children(
                    *v,
                    blobs_dir@,
                    (i + 1) as nat,
                ));
                i += 1;
            }
        },
        JsonValue::Other => {
            assert(out.deep_view() =~= before + Seq::<Seq<char>>::empty());
        },
    }
}

/// The blob files that a manifest's text names, in walking order; none where
/// the text is not valid JSON.
pub fn manifest_blobs(text: &str, blobs_dir: &str) -> (paths: Vec<String>)
    ensures
        paths.deep_view() == manifest_blob_paths(text@, blobs_dir@),
{
    let mut paths: Vec<String> = Vec::new();
    match parse_json(text) {
        Some(tree) => {
            assert(paths.deep_view() =~= Seq::<Seq<char>>::empty());
            collect_digests(&tree, blobs_dir, &mut paths);
            assert(paths.deep_view() =~= blob_paths_in(tree, blobs_dir@));
        },
        None => {
            assert(paths.deep_view() =~= Seq::<Seq<char>>::empty());
        },
    }
    paths
}

/// The weight file of a registry model, given what was seen of the blobs
/// that its manifest names: the largest one that exists as a regular file,
/// starts with the weight-file signature and has a known size. Of several
/// equally large ones the last is taken.
pub fn resolve_ollama_library_gguf(blobs: &Vec<Entry>) -> (found: Option<String>)
    ensures
        picks_largest_weight_blob(blobs@, found),
{
    let n: usize = blobs.len();
    let mut best: Option<usize> = None;
    let mut i: usize = 0;
    while i < n
        invariant
            i <= n,
            n == blobs.len(),
            match best {
                Some(b) => is_largest_weight_blob(blobs@.take(i as int), b as int),
                None => forall|j: int| 0 <= j < i ==> !is_weight_blob(#[trigger] blobs[j]),
            },
        decreases n - i,
    {
        let e: &Entry = &blobs[i];
        let ghost seen = blobs@.take(i as int);
        let ghost next = blobs@.take(i as int + 1);
        assert(forall|j: int| 0 <= j < i ==> seen[j] == blobs@[j] && next[j] == blobs@[j]);
        assert(next[i as int] == blobs@[i as int]);
        if e.is_file && is_gguf_file(e.head.as_slice()) {
            match e.size {
                Some(size) => {
                    let takes_over: bool = match best {
                        Some(b) => match blobs[b].size {
                            Some(largest) => largest <= size,
                            None => true,
                        },
                        None => true,
                    };
                    if takes_over {
                        best = Some(i);
                    }
                },
                None => {},
            }
        }
        i += 1;
    }
    assert(blobs@.take(n as int) =~= blobs@);
    match best {
        Some(b) => {
            let p: String = blobs[b].path.clone();
            assert(is_largest_weight_blob(blobs@, b as int) && p@ == blobs[b as int].path@);
            Some(p)
        },
        None => None,
    }
}

} // verus!

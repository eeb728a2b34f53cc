//! Model tokens: a name, optionally followed by `:` and a tag.

use vstd::prelude::*;
use vstd::string::*;
use crate::text::{
    chars_of, contains_char, eq_ignore_ascii_case, lemma_scan_to_absent, lemma_scan_to_first, scan,
    same_ignoring_ascii_case, scan_to,
};

verus! {

/// The tag a token has when it names none.
pub open spec fn default_tag() -> Seq<char> {
    "latest"@
}

/// The tag that stands for the remote backend.
pub open spec fn cloud_tag() -> Seq<char> {
    "cloud"@
}

/// The name of a token: what stands before its first `:`.
pub open spec fn token_name(t: Seq<char>) -> Seq<char> {
    t.take(scan_to(t, ':', 0))
}

/// The tag of a token: what stands between its first `:` and the next one (or
/// the end); the default tag where the token holds no `:` at all. A token that
/// ends at its first `:` has the empty tag.
pub open spec fn token_tag(t: Seq<char>) -> Seq<char> {
    let first = scan_to(t, ':', 0);
    if first >= t.len() {
        default_tag()
    } else {
        t.subrange(first + 1, scan_to(t, ':', first + 1))
    }
}

/// Name and tag of a target that may come with a separate tag argument: a tag
/// inside the target wins, then the argument, then the default.
pub open spec fn normalized(target: Seq<char>, tag: Option<Seq<char>>) -> (Seq<char>, Seq<char>) {
    if target.contains(':') {
        (token_name(target), token_tag(target))
    } else {
        match tag {
            Some(t) => (target, t),
            None => (target, default_tag()),
        }
    }
}

/// The tag asks for the remote backend, however it is capitalised.
pub open spec fn is_cloud(tag: Seq<char>) -> bool {
    same_ignoring_ascii_case(tag, cloud_tag())
}

/// `name:tag`, the form in which the registry family takes a model.
pub open spec fn tagged(name: Seq<char>, tag: Seq<char>) -> Seq<char> {
    name + seq![':'] + tag
}

/// `name-tag.gguf`, the file name under which a registry model is linked.
pub open spec fn link_name_of(name: Seq<char>, tag: Seq<char>) -> Seq<char> {
    name + seq!['-'] + tag + ".gguf"@
}

/// A token without `:` is all name and gets the default tag.
pub proof fn lemma_split_untagged(t: Seq<char>)
    requires
        !t.contains(':'),
    ensures
        token_name(t) == t,
        token_tag(t) == default_tag(),
{
    lemma_scan_to_absent(t, ':', 0);
    assert(t.take(t.len() as int) =~= t);
}

/// A token `a:b`, with no `:` inside `a` or `b`, splits into `a` and `b`. With
/// an empty `b` this is the token that ends at its separator: its tag is empty.
pub proof fn lemma_split_tagged(a: Seq<char>, b: Seq<char>)
    requires
        !a.contains(':'),
        !b.contains(':'),
    ensures
        token_name(tagged(a, b)) == a,
        token_tag(tagged(a, b)) == b,
{
    let t = tagged(a, b);
    let first = a.len() as int;
    assert(t[first] == ':');
    assert forall|j: int| 0 <= j < first implies t[j] != ':' by {
        assert(t[j] == a[j]);
        assert(a.contains(a[j]));
    }
    lemma_scan_to_first(t, ':', 0, first);
    assert forall|j: int| first + 1 <= j < t.len() implies t[j] != ':' by {
        assert(t[j] == b[j - first - 1]);
        assert(b.contains(b[j - first - 1]));
    }
    lemma_scan_to_absent(t, ':', first + 1);
    assert(t.take(first) =~= a);
    assert(t.subrange(first + 1, t.len() as int) =~= b);
}

/// Splits a token into its name and its tag.
pub fn split_model_tag(s: &str) -> (r: (String, String))
    ensures
        r.0@ == token_name(s@),
        r.1@ == token_tag(s@),
{
    let chars: Vec<char> = chars_of(s);
    let n: usize = chars.len();
    let first: usize = scan(&chars, ':', 0);
    let name: String = String::from_str(s.substring_char(0, first));
    if first >= n {
        (name, String::from_str("latest"))
    } else {
        let second: usize = scan(&chars, ':', first + 1);
        (name, String::from_str(s.substring_char(first + 1, second)))
    }
}

/// Name and tag of a target that may come with a separate tag argument.
pub fn normalize_model_tag(target: &str, tag: Option<&str>) -> (r: (String, String))
    ensures
        (r.0@, r.1@) == normalized(target@, match tag {
            Some(t) => Some(t@),
            None => None,
        }),
{
    if contains_char(target, ':') {
        split_model_tag(target)
    } else {
        let name: String = String::from_str(target);
        match tag {
            Some(t) => (name, String::from_str(t)),
            None => (name, String::from_str("latest")),
        }
    }
}

/// Whether the tag asks for the remote backend.
pub fn is_cloud_tag(tag: &str) -> (b: bool)
    ensures
        b == is_cloud(tag@),
{
    eq_ignore_ascii_case(tag, "cloud")
}

/// `name:tag`.
pub fn model_ref(name: &str, tag: &str) -> (r: String)
    ensures
        r@ == tagged(name@, tag@),
{
    proof {
        reveal_strlit(":");
    }
    let mut r: String = String::from_str(name);
    r.append(":");
    r.append(tag);
    assert(r@ =~= tagged(name@, tag@));
    r
}

/// `name-tag.gguf`.
pub fn link_name(name: &str, tag: &str) -> (r: String)
    ensures
        r@ == link_name_of(name@, tag@),
{
    proof {
        reveal_strlit("-");
    }
    let mut r: String = String::from_str(name);
    r.append("-");
    r.append(tag);
    r.append(".gguf");
    assert(r@ =~= link_name_of(name@, tag@));
    r
}

} // verus!

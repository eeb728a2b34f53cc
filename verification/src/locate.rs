//! Locating weight files by a pattern over their paths.

use vstd::prelude::*;
use vstd::string::*;

verus! {

/// `regex::Regex::new` accepts the pattern.
pub uninterp spec fn regex_compiles(pattern: Seq<char>) -> bool;

/// `regex::Regex::is_match` finds a match of the pattern somewhere in the text.
pub uninterp spec fn regex_finds(pattern: Seq<char>, text: Seq<char>) -> bool;

/// Compiles the pattern with `regex::Regex::new` and asks
/// `regex::Regex::is_match` of each text in turn. There is no answer where
/// the pattern does not compile; otherwise there is one answer for each text,
/// in order. Both outcomes are taken to depend on the texts alone.
#[verifier::external_body]
fn match_each(pattern: &str, texts: &Vec<String>) -> (answers: Option<Vec<bool>>)
    ensures
        answers is Some <==> regex_compiles(pattern@),
        answers matches Some(found) ==> {
            &&& found@.len() == texts@.len()
            &&& forall|i: int|
                0 <= i < texts@.len() ==> found@[i] == regex_finds(pattern@, #[trigger] texts@[i]@)
        },
{
    match regex::Regex::new(pattern) {
        Ok(re) => Some(texts.iter().map(|t| re.is_match(t)).collect()),
        Err(_) => None,
    }
}

/// The first `n` candidates that are marked, in order. Marks beyond the
/// candidates, and candidates beyond the marks, do not count.
pub open spec fn marked(candidates: Seq<Seq<char>>, marks: Seq<bool>, n: nat) -> Seq<Seq<char>>
    decreases n,
{
    if n == 0 {
        Seq::empty()
    } else {
        let rest = marked(candidates, marks, (n - 1) as nat);
        if n <= candidates.len() && n <= marks.len() && marks[n - 1] {
            rest.push(candidates[n - 1])
        } else {
            rest
        }
    }
}

/// The candidates in which the pattern is found, in order.
pub open spec fn matching(pattern: Seq<char>, candidates: Seq<Seq<char>>) -> Seq<Seq<char>> {
    marked(
        candidates,
        Seq::new(candidates.len(), |i: int| regex_finds(pattern, candidates[i])),
        candidates.len(),
    )
}

/// The pattern that stands in for one that does not compile: it is found in
/// every text.
pub open spec fn any_text() -> Seq<char> {
    ".*"@
}

/// The candidates that a pattern locates: those in which it is found; for a
/// pattern that does not compile, those in which the stand-in is found.
/// Nothing where the stand-in does not compile either.
pub open spec fn located(pattern: Seq<char>, candidates: Seq<Seq<char>>) -> Option<Seq<Seq<char>>> {
    if regex_compiles(pattern) {
        Some(matching(pattern, candidates))
    } else if regex_compiles(any_text()) {
        Some(matching(any_text(), candidates))
    } else {
        None
    }
}

/// The candidates that are marked, in order.
pub fn keep_marked(candidates: &Vec<String>, marks: &Vec<bool>) -> (kept: Vec<String>)
    ensures
        kept.deep_view() == marked(candidates.deep_view(), marks@, candidates.len() as nat),
{
    let mut kept: Vec<String> = Vec::new();
    let n: usize = candidates.len();
    let mut i: usize = 0;
    assert(kept.deep_view() =~= marked(candidates.deep_view(), marks@, 0));
    while i < n
        invariant
            i <= n,
            n == candidates.len(),
            kept.deep_view() == marked(candidates.deep_view(), marks@, i as nat),
        decreases n - i,
    {
        let ghost before = kept.deep_view();
        if i < marks.len() && marks[i] {
            kept.push(candidates[i].clone());
            assert(kept.deep_view() =~= before.push(candidates.deep_view()[i as int]));
        }
        i += 1;
    }
    kept
}

/// The candidates in which the pattern is found; nothing where the pattern
/// does not compile.
fn find_matching(pattern: &str, candidates: &Vec<String>) -> (found: Option<Vec<String>>)
    ensures
        found is Some <==> regex_compiles(pattern@),
        found matches Some(kept) ==> kept.deep_view() == matching(pattern@, candidates.deep_view()),
{
    match match_each(pattern, candidates) {
        Some(marks) => {
            let kept: Vec<String> = keep_marked(candidates, &marks);
            assert(marks@ =~= Seq::new(
                candidates.deep_view().len(),
                |i: int| regex_finds(pattern@, candidates.deep_view()[i]),
            ));
            Some(kept)
        },
        None => None,
    }
}

/// The candidates that a pattern locates, in order.
pub fn locate(pattern: &str, candidates: &Vec<String>) -> (found: Option<Vec<String>>)
    ensures
        match found {
            Some(kept) => located(pattern@, candidates.deep_view()) == Some(kept.deep_view()),
            None => located(pattern@, candidates.deep_view()) is None,
        },
{
    match find_matching(pattern, candidates) {
        Some(kept) => Some(kept),
        None => find_matching(".*", candidates),
    }
}

} // verus!

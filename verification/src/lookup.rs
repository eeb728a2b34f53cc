//! Resolving bare names: a model token in the link directory, a backend's
//! executable on the search path.
//!
//! Whether a file exists is for the caller to find out. The functions here
//! say which paths to look at and which of the ones found to take.

use vstd::prelude::*;
use vstd::string::*;
use crate::paths::{
    extension, extension_of, has_file_name, is_gguf_path, join_path, joined_path, last_component,
    lemma_join_keeps_last_component, lemma_plain_name_is_last_component, link_path_for,
    link_path_of, names_a_file,
};
use crate::token::link_name_of;
use crate::text::{chars_of, last_index_of, lemma_last_index_of, lemma_scan_to, scan, scan_to};

verus! {

/// The entry of the link directory that a token names, given whether the
/// token's own path exists there and whether its path with the weight-file
/// extension does: the first of the two that exists.
pub open spec fn model_ref_choice(
    model: Seq<char>,
    link_dir: Seq<char>,
    plain_exists: bool,
    with_extension_exists: bool,
) -> Option<Seq<char>> {
    if plain_exists {
        Some(joined_path(link_dir, model))
    } else if with_extension_exists {
        Some(link_path_of(model, link_dir))
    } else {
        None
    }
}

/// The pieces of `s` between separators, starting at position `from`. A text
/// with `k` separators has `k + 1` pieces; pieces may be empty.
pub open spec fn pieces_from(s: Seq<char>, sep: char, from: int) -> Seq<Seq<char>>
    decreases s.len() - from,
    when 0 <= from <= s.len()
{
    let end = scan_to(s, sep, from);
    if end >= s.len() {
        seq![s.subrange(from, s.len() as int)]
    } else {
        proof {
            lemma_scan_to(s, sep, from);
        }
        seq![s.subrange(from, end)] + pieces_from(s, sep, end + 1)
    }
}

/// The character that separates the directories of a search path.
pub open spec fn search_path_separator(windows: bool) -> char {
    if windows {
        ';'
    } else {
        ':'
    }
}

/// The path with its extension replaced by `exe`, or with `.exe` added where
/// it has none. A path without a file name stays as it is.
pub open spec fn with_exe_extension(p: Seq<char>) -> Seq<char> {
    if !names_a_file(p) {
        p
    } else {
        match extension_of(p) {
            Some(e) => p.take(p.len() - e.len()) + "exe"@,
            None => p + ".exe"@,
        }
    }
}

/// Where an executable may be in one directory of the search path: under its
/// own name, and on Windows also under that name with the extension `exe`.
pub open spec fn candidates_in(dir: Seq<char>, name: Seq<char>, windows: bool) -> Seq<Seq<char>> {
    if windows {
        seq![joined_path(dir, name), with_exe_extension(joined_path(dir, name))]
    } else {
        seq![joined_path(dir, name)]
    }
}

/// Where an executable may be, directory by directory.
pub open spec fn candidates_of(dirs: Seq<Seq<char>>, name: Seq<char>, windows: bool) -> Seq<Seq<char>> {
    dirs.flat_map(|dir: Seq<char>| candidates_in(dir, name, windows))
}

/// Where an executable may be, given the text of the search path, in the
/// order in which the places are to be tried.
pub open spec fn bin_candidates_of(path_var: Seq<char>, name: Seq<char>, windows: bool) -> Seq<Seq<char>> {
    candidates_of(pieces_from(path_var, search_path_separator(windows), 0), name, windows)
}

/// Position `i` is the first one that is marked present.
pub open spec fn is_first_present(present: Seq<bool>, i: int) -> bool {
    &&& 0 <= i < present.len()
    &&& present[i]
    &&& forall|j: int| 0 <= j < i ==> !present[j]
}

/// `found` is the first candidate that is marked present, or nothing where no
/// candidate is. Marks beyond the candidates, and candidates beyond the marks,
/// do not count.
pub open spec fn picks_first_present(
    candidates: Seq<Seq<char>>,
    present: Seq<bool>,
    found: Option<String>,
) -> bool {
    match found {
        Some(p) => exists|i: int|
            #[trigger] is_first_present(present, i) && i < candidates.len() && p@ == candidates[i],
        None => forall|j: int|
            0 <= j < present.len() && j < candidates.len() ==> !#[trigger] present[j],
    }
}

/// The entry of the link directory that a token names, if any. The caller
/// says whether `join_path(link_dir, model)` exists and whether
/// `link_path_for(model, link_dir)` does.
pub fn resolve_model_ref(
    model: &str,
    link_dir: &str,
    plain_exists: bool,
    with_extension_exists: bool,
) -> (found: Option<String>)
    ensures
        match found {
            Some(p) => model_ref_choice(model@, link_dir@, plain_exists, with_extension_exists)
                == Some(p@),
            None => model_ref_choice(model@, link_dir@, plain_exists, with_extension_exists)
                is None,
        },
{
    if plain_exists {
        Some(join_path(link_dir, model))
    } else if with_extension_exists {
        Some(link_path_for(model, link_dir))
    } else {
        None
    }
}

/// The pieces of `s` between separators.
pub fn split_on(s: &str, sep: char) -> (pieces: Vec<String>)
    ensures
        pieces.deep_view() == pieces_from(s@, sep, 0),
{
    let chars: Vec<char> = chars_of(s);
    let n: usize = chars.len();
    let mut pieces: Vec<String> = Vec::new();
    let mut start: usize = 0;
    assert(pieces.deep_view() =~= Seq::<Seq<char>>::empty());
    loop
        invariant
            start <= n,
            n == chars.len(),
            chars@ == s@,
            pieces.deep_view() + pieces_from(s@, sep, start as int) == pieces_from(s@, sep, 0),
        decreases n - start,
    {
        let end: usize = scan(&chars, sep, start);
        let ghost before = pieces.deep_view();
        pieces.push(String::from_str(s.substring_char(start, end)));
        assert(pieces.deep_view() =~= before + seq![s@.subrange(start as int, end as int)]);
        if end >= n {
            return pieces;
        }
        assert(before + (seq![s@.subrange(start as int, end as int)] + pieces_from(
            s@,
            sep,
            end as int + 1,
        )) =~= pieces.deep_view() + pieces_from(s@, sep, end as int + 1));
        start = end + 1;
    }
}

/// The path with its extension replaced by `exe`.
pub fn set_exe_extension(p: &str) -> (q: String)
    ensures
        q@ == with_exe_extension(p@),
{
    if !has_file_name(p) {
        return String::from_str(p);
    }
    match extension(p) {
        Some(e) => {
            proof {
                lemma_last_index_of(p@, '/');
                lemma_last_index_of(last_component(p@), '.');
            }
            let total: usize = p.unicode_len();
            let tail: usize = e.as_str().unicode_len();
            let mut q: String = String::from_str(p.substring_char(0, total - tail));
            q.append("exe");
            q
        },
        None => {
            let mut q: String = String::from_str(p);
            q.append(".exe");
            q
        },
    }
}

/// Where an executable may be, given the text of the search path, in the
/// order in which the places are to be tried.
pub fn bin_candidates(path_var: &str, name: &str, windows: bool) -> (candidates: Vec<String>)
    ensures
        candidates.deep_view() == bin_candidates_of(path_var@, name@, windows),
{
    let sep: char = if windows {
        ';'
    } else {
        ':'
    };
    let dirs: Vec<String> = split_on(path_var, sep);
    let mut candidates: Vec<String> = Vec::new();
    let n: usize = dirs.len();
    let mut i: usize = 0;
    let ghost per_dir = |dir: Seq<char>| candidates_in(dir, name@, windows);
    assert(candidates.deep_view() =~= dirs.deep_view().take(0).flat_map(per_dir));
    while i < n
        invariant
            i <= n,
            n == dirs.len(),
            per_dir == |dir: Seq<char>| candidates_in(dir, name@, windows),
            candidates.deep_view() == dirs.deep_view().take(i as int).flat_map(per_dir),
        decreases n - i,
    {
        let ghost before = candidates.deep_view();
        let plain: String = join_path(dirs[i].as_str(), name);
        if windows {
            let exe: String = set_exe_extension(plain.as_str());
            candidates.push(plain);
            candidates.push(exe);
        } else {
            candidates.push(plain);
        }
        proof {
            let dir = dirs.deep_view()[i as int];
            assert(dir == dirs[i as int]@);
            assert(candidates.deep_view() =~= before + candidates_in(dir, name@, windows));
            assert(dirs.deep_view().take(i as int + 1) =~= dirs.deep_view().take(i as int).push(
                dir,
            ));
            dirs.deep_view().take(i as int).lemma_flat_map_push(per_dir, dir);
        }
        i += 1;
    }
    assert(dirs.deep_view().take(n as int) =~= dirs.deep_view());
    candidates
}

/// The executable `name` on the search path: the first of its candidate
/// places that the caller has found to exist. `present[i]` says whether the
/// `i`-th place of `bin_candidates(path_var, name, windows)` exists.
pub fn resolve_bin(path_var: &str, name: &str, windows: bool, present: &Vec<bool>) -> (found: Option<
    String,
>)
    ensures
        picks_first_present(bin_candidates_of(path_var@, name@, windows), present@, found),
{
    let candidates: Vec<String> = bin_candidates(path_var, name, windows);
    let n: usize = if present.len() < candidates.len() {
        present.len()
    } else {
        candidates.len()
    };
    let mut i: usize = 0;
    while i < n
        invariant
            i <= n,
            n <= present.len(),
            n <= candidates.len(),
            n == present.len() || n == candidates.len(),
            candidates.deep_view() == bin_candidates_of(path_var@, name@, windows),
            forall|j: int| 0 <= j < i ==> !present[j],
        decreases n - i,
    {
        if present[i] {
            let p: String = candidates[i].clone();
            assert(is_first_present(present@, i as int));
            assert(p@ == candidates.deep_view()[i as int]);
            return Some(p);
        }
        i += 1;
    }
    None
}

/// A registry model that was linked under its normalized name is found again
/// under that name: the name carries the weight-file extension, so the
/// resolver looks for it exactly where the link was made, and nowhere else.
pub proof fn lemma_linked_model_resolves(name: Seq<char>, tag: Seq<char>, link_dir: Seq<char>)
    requires
        !name.contains('/'),
        !tag.contains('/'),
    ensures
        is_gguf_path(link_name_of(name, tag)),
        link_path_of(link_name_of(name, tag), link_dir) == joined_path(
            link_dir,
            link_name_of(name, tag),
        ),
        model_ref_choice(link_name_of(name, tag), link_dir, true, false) == Some(
            joined_path(link_dir, link_name_of(name, tag)),
        ),
{
    reveal_strlit(".gguf");
    reveal_strlit("gguf");
    let n = link_name_of(name, tag);
    let dot = n.len() - 5;
    assert(n[dot] == '.');
    assert(n[dot + 1] == 'g' && n[dot + 2] == 'g' && n[dot + 3] == 'u' && n[dot + 4] == 'f');
    assert(n[name.len() as int] == '-');
    assert forall|j: int| 0 <= j < n.len() implies n[j] != '/' by {
        if j < name.len() {
            assert(n[j] == name[j]);
            assert(name.contains(name[j]));
        } else if name.len() < j < dot {
            assert(n[j] == tag[j - name.len() - 1]);
            assert(tag.contains(tag[j - name.len() - 1]));
        }
    }
    assert(!n.contains('/'));
    lemma_plain_name_is_last_component(n);
    lemma_last_index_of(n, '.');
    assert(last_index_of(n, '.') == dot);
    assert(n.skip(dot + 1) =~= "gguf"@);
    assert(n != seq!['.']);
    assert(n != seq!['.', '.']);
    lemma_join_keeps_last_component(link_dir, n);
}

} // verus!

//! One-shot prompts and what their wording asks for.

use vstd::prelude::*;
use vstd::string::*;
use crate::text::{contains_str, has_substring, join, joined};

verus! {

/// What `str::to_lowercase` makes of a text: its lower-case form by the
/// Unicode rules that the standard library follows.
pub uninterp spec fn lowercase(s: Seq<char>) -> Seq<char>;

/// Calls `str::to_lowercase`. The result is taken to depend on the text alone;
/// nothing is claimed about what it holds.
#[verifier::external_body]
fn to_lowercase(s: &str) -> (lowered: String)
    ensures
        lowered@ == lowercase(s@),
{
    s.to_lowercase()
}

/// The words of a prompt as one text, a blank between neighbours.
pub open spec fn prompt_of(words: Seq<Seq<char>>) -> Seq<char> {
    joined(words, seq![' '])
}

/// A lower-cased prompt speaks of synthesized speech or of sound.
pub open spec fn audio_intent(lowered: Seq<char>) -> bool {
    has_substring(lowered, "tts"@) || has_substring(lowered, "audio"@)
}

/// The words of a prompt as one text.
pub fn prompt_text(words: &Vec<String>) -> (prompt: String)
    ensures
        prompt@ == prompt_of(words.deep_view()),
{
    proof {
        reveal_strlit(" ");
    }
    assert(" "@ =~= seq![' ']);
    join(words, " ")
}

/// Whether a prompt that is already in lower case asks for speech or sound.
pub fn mentions_audio(lowered: &str) -> (b: bool)
    ensures
        b == audio_intent(lowered@),
{
    contains_str(lowered, "tts") || contains_str(lowered, "audio")
}

/// Whether a prompt asks for speech or sound, however it is capitalised.
pub fn is_audio_prompt(prompt: &str) -> (b: bool)
    ensures
        b == audio_intent(lowercase(prompt@)),
{
    let lowered: String = to_lowercase(prompt);
    mentions_audio(lowered.as_str())
}

} // verus!

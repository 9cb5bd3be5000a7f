//! What the editor says of its own version.

use vstd::prelude::*;

use crate::text::{chars_of, string_of, trim_chars, utf8_text};

verus! {

/// The short name of a commit, by what the program that tells it printed: the
/// printed text without the spaces around it, where the program succeeded and
/// printed one.
pub open spec fn commit_of(success: bool, stdout: Seq<u8>) -> Seq<char> {
    if success && vstd::utf8::valid_utf8(stdout) && crate::text::trimmed(
        vstd::utf8::decode_utf8(stdout),
    ).len() > 0 {
        crate::text::trimmed(vstd::utf8::decode_utf8(stdout))
    } else {
        "unknown"@
    }
}

/// The short name of the commit that a build is of.
pub fn git_hash(success: bool, stdout: &[u8]) -> (r: String)
    ensures
        r@ == commit_of(success, stdout@),
{
    if success {
        match utf8_text(stdout) {
            Some(text) => {
                let short = trim_chars(chars_of(text.as_str()).as_slice());
                if short.len() > 0 {
                    return string_of(short.as_slice());
                }
            },
            None => {},
        }
    }
    "unknown".to_string()
}

/// The version of a build: the tag of a release, where it is one.
pub fn version(release_tag: &Option<String>) -> (r: String)
    ensures
        r@ == match crate::text::opt_view(*release_tag) {
            Some(tag) => tag,
            None => "dev"@,
        },
{
    match release_tag {
        Some(tag) => tag.clone(),
        None => "dev".to_string(),
    }
}


/// The name of the commit is what was printed, but for the white space around
/// it; a program that failed, or printed nothing, names none.
pub proof fn commit_is_what_was_printed(success: bool, stdout: Seq<u8>) -> (ends: (
    Seq<char>,
    Seq<char>,
))
    ensures
        ({
            let (front, back) = ends;
            let commit = commit_of(success, stdout);
            &&& success && vstd::utf8::valid_utf8(stdout) && !crate::text::all_space(
                vstd::utf8::decode_utf8(stdout),
            ) ==> {
                &&& vstd::utf8::decode_utf8(stdout) == front + commit + back
                &&& crate::text::all_space(front) && crate::text::all_space(back)
                &&& commit.len() > 0
                &&& !crate::text::is_space(commit[0]) && !crate::text::is_space(commit.last())
            }
            &&& !success || !vstd::utf8::valid_utf8(stdout) || crate::text::all_space(
                vstd::utf8::decode_utf8(stdout),
            ) ==> commit == "unknown"@
        }),
{
    let text = vstd::utf8::decode_utf8(stdout);
    let ends = crate::text::trimming_takes_space_alone(text);
    let (front, back) = ends;
    let middle = crate::text::trimmed(text);
    if middle.len() > 0 {
        assert(text[front.len() as int] == middle[0]);
    } else {
        assert forall|i: int| 0 <= i < text.len() implies crate::text::is_space(
            #[trigger] text[i],
        ) by {
            if i < front.len() {
                assert(text[i] == front[i]);
            } else {
                assert(text[i] == back[i - front.len()]);
            }
        }
    }
    ends
}

} // verus!

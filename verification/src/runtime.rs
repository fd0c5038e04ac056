//! The decisions of the client of the local model server (llama.cpp):
//! where requests go and which reply counts.

use vstd::prelude::*;
use vstd::string::{StrSliceExecFns, StringExecFns};
use crate::text::{trim_end_char, trim_end_matching};

verus! {

#[verifier::external_type_specification]
#[verifier::external_body]
pub struct ExHttpError(reqwest::Error);

/// Why a chat with the model runtime gave no answer.
#[derive(Debug)]
pub enum RuntimeError {
    /// The HTTP exchange failed.
    Http(reqwest::Error),
    /// The runtime answered without any non-blank content.
    EmptyResponse,
}

/// Whether a character has the Unicode `White_Space` property (the set
/// that `char::is_whitespace` tests): U+0009 to U+000D, U+0020, U+0085,
/// U+00A0, U+1680, U+2000 to U+200A, U+2028, U+2029, U+202F, U+205F and
/// U+3000.
pub open spec fn unicode_white_space(c: char) -> bool {
    let n = c as u32;
    ||| 0x09 <= n <= 0x0d
    ||| n == 0x20
    ||| n == 0x85
    ||| n == 0xa0
    ||| n == 0x1680
    ||| 0x2000 <= n <= 0x200a
    ||| n == 0x2028
    ||| n == 0x2029
    ||| n == 0x202f
    ||| n == 0x205f
    ||| n == 0x3000
}

/// Whether a character has the Unicode `White_Space` property.
pub fn is_white_space(c: char) -> (r: bool)
    ensures
        r == unicode_white_space(c),
{
    let n = c as u32;
    (0x09 <= n && n <= 0x0d) || n == 0x20 || n == 0x85 || n == 0xa0 || n == 0x1680 || (0x2000
        <= n && n <= 0x200a) || n == 0x2028 || n == 0x2029 || n == 0x202f || n == 0x205f || n
        == 0x3000
}

/// A text is blank when trimming white space leaves nothing of it.
pub open spec fn is_blank(text: Seq<char>) -> bool {
    forall|i: int| 0 <= i < text.len() ==> #[trigger] unicode_white_space(text[i])
}

/// A text holding a character that is no white space, anywhere in it, is
/// not blank; a text of white space only is.
pub proof fn lemma_blank_iff_all_white_space(text: Seq<char>, i: int)
    ensures
        0 <= i < text.len() && !unicode_white_space(text[i]) ==> !is_blank(text),
        (forall|j: int| 0 <= j < text.len() ==> #[trigger] unicode_white_space(text[j])) ==> is_blank(text),
{
}

/// Whether every character of `text` is white space.
pub fn blank(text: &str) -> (r: bool)
    ensures
        r == is_blank(text@),
        r <==> forall|i: int| 0 <= i < text@.len() ==> #[trigger] unicode_white_space(text@[i]),
{
    let n = text.unicode_len();
    let mut i: usize = 0;
    while i < n
        invariant
            n == text@.len(),
            0 <= i <= n,
            forall|k: int| 0 <= k < i ==> #[trigger] unicode_white_space(text@[k]),
        decreases n - i,
    {
        if !is_white_space(text.get_char(i)) {
            return false;
        }
        i = i + 1;
    }
    true
}

/// The path of the OpenAI-style chat endpoint.
pub open spec fn completions_path() -> Seq<char> {
    "/v1/chat/completions"@
}

/// The chat endpoint of a runtime: its base URL without trailing slashes,
/// then the chat path.
pub fn completions_url(base_url: &str) -> (r: String)
    ensures
        r@ == trim_end_char(base_url@, '/') + completions_path(),
{
    let base = trim_end_matching(base_url, '/');
    base.to_owned().concat("/v1/chat/completions")
}

/// The answer of a chat reply whose choices carry `contents`: the first
/// choice, unless there is none or it is blank.
pub fn first_reply(contents: Vec<String>) -> (r: Result<String, RuntimeError>)
    ensures
        contents@.len() == 0 || is_blank(contents@[0]@) <==> r matches Err(
            RuntimeError::EmptyResponse,
        ),
        contents@.len() > 0 && !is_blank(contents@[0]@) ==> r == Ok::<String, RuntimeError>(
            contents@[0],
        ),
        contents@.len() > 0 && (exists|i: int|
            0 <= i < contents@[0]@.len() && !#[trigger] unicode_white_space(contents@[0]@[i]))
            ==> r == Ok::<String, RuntimeError>(contents@[0]),
{
    if contents.len() == 0 {
        return Err(RuntimeError::EmptyResponse);
    }
    let mut contents = contents;
    let first = contents.remove(0);
    if blank(first.as_str()) {
        Err(RuntimeError::EmptyResponse)
    } else {
        Ok(first)
    }
}

} // verus!

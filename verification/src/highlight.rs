//! Syntax highlighting of fenced code: the language a fence declares, and the markup
//! that the highlighter writes for a block's text.
use crate::text::{chars_of, text_of};
use vstd::prelude::*;

verus! {

/// The characters that end a fence's language tag: space, tab, line feed, form feed and
/// carriage return.
pub open spec fn is_blank(c: char) -> bool {
    c == ' ' || c == '\t' || c == '\n' || c == '\x0c' || c == '\r'
}

/// How many characters of `info` stand before its first blank.
pub open spec fn token_len(info: Seq<char>) -> nat
    decreases info.len(),
{
    if info.len() == 0 || is_blank(info[0]) {
        0
    } else {
        1 + token_len(info.drop_first())
    }
}

/// The language tag of a fence: its info string up to the first blank. It is empty where
/// the fence names no language.
pub open spec fn language_token_of(info: Seq<char>) -> Seq<char> {
    info.take(token_len(info) as int)
}

/// A blank-free prefix that ends at the end of the text or before a blank is the
/// language tag.
pub proof fn lemma_token_len(info: Seq<char>, n: int)
    requires
        0 <= n <= info.len(),
        forall|j: int| 0 <= j < n ==> !is_blank(#[trigger] info[j]),
        n == info.len() || is_blank(info[n]),
    ensures
        token_len(info) == n,
    decreases n,
{
    if n > 0 {
        let rest = info.drop_first();
        assert forall|j: int| 0 <= j < n - 1 implies !is_blank(#[trigger] rest[j]) by {}
        lemma_token_len(rest, n - 1);
    }
}

/// The language tag holds no blank, and it is the whole info string or a blank follows
/// it.
pub proof fn lemma_language_token_ends(info: Seq<char>)
    ensures
        token_len(info) <= info.len(),
        forall|j: int| 0 <= j < token_len(info) ==> !is_blank(#[trigger] info[j]),
        token_len(info) == info.len() || is_blank(info[token_len(info) as int]),
    decreases info.len(),
{
    if info.len() != 0 && !is_blank(info[0]) {
        let rest = info.drop_first();
        lemma_language_token_ends(rest);
        assert forall|j: int| 0 <= j < token_len(info) implies !is_blank(#[trigger] info[j]) by {
            if j > 0 {
                assert(info[j] == rest[j - 1]);
            }
        }
    }
}

fn blank(c: char) -> (b: bool)
    ensures
        b == is_blank(c),
{
    c == ' ' || c == '\t' || c == '\n' || c == '\x0c' || c == '\r'
}

/// Reads the language tag off a fence's info string.
pub fn language_token(info: &str) -> (token: String)
    ensures
        token@ == language_token_of(info@),
{
    let chars = chars_of(info);
    let mut n: usize = 0;
    while n < chars.len() && !blank(chars[n])
        invariant
            n <= chars.len(),
            forall|j: int| 0 <= j < n ==> !is_blank(#[trigger] chars@[j]),
        decreases chars.len() - n,
    {
        n = n + 1;
    }
    proof {
        lemma_token_len(chars@, n as int);
    }
    text_of(&chars, 0, n)
}

/// A language of the highlighter, opaque to the verifier.
#[verifier::external_type_specification]
#[verifier::external_body]
pub struct ExLanguage(inkjet::Language);

/// The language that the highlighter knows by `token`, if it knows one by it. Which
/// languages it knows is settled where the highlighter is built; a token of a language
/// that was left out names none.
pub uninterp spec fn language_named(token: Seq<char>) -> Option<inkjet::Language>;

/// The markup that the highlighter writes for `code` in `language`, or `None` where it
/// reports an error.
pub uninterp spec fn highlighted_in(language: inkjet::Language, code: Seq<char>) -> Option<
    Seq<char>,
>;

/// Looks a language up with `inkjet::Language::from_token`, which matches the token
/// against the names that the highlighter was built with.
#[verifier::external_body]
fn language_of(token: &str) -> (language: Option<inkjet::Language>)
    ensures
        language == language_named(token@),
{
    inkjet::Language::from_token(token)
}

/// Highlights `code` in `language` with `inkjet::Highlighter::highlight_to_string` and
/// the HTML formatter, on a new highlighter. The formatter escapes the code and wraps
/// the highlighted spans in `span` elements with a `class`; an error of the highlighter
/// becomes `None`.
#[verifier::external_body]
fn highlight_in(language: inkjet::Language, code: &str) -> (html: Option<String>)
    ensures
        html.deep_view() == highlighted_in(language, code@),
{
    inkjet::Highlighter::new().highlight_to_string(language, &inkjet::formatter::Html, code).ok()
}

/// The highlighted markup of a code block: in the language that `token` names, or, where
/// it names none that the highlighter knows, in the language that the highlighter calls
/// `plaintext`, which only escapes the code. `None` where the highlighter reported an
/// error or knows no plain text.
pub open spec fn highlighted(token: Seq<char>, code: Seq<char>) -> Option<Seq<char>> {
    match language_named(token) {
        Some(language) => highlighted_in(language, code),
        None => match language_named("plaintext"@) {
            Some(plain) => highlighted_in(plain, code),
            None => None,
        },
    }
}

/// Highlights a code block in the language that `token` names. A missing or unknown
/// language is no error: the code is then highlighted as plain text.
pub fn highlight(token: &str, code: &str) -> (html: Option<String>)
    ensures
        html.deep_view() == highlighted(token@, code@),
{
    match language_of(token) {
        Some(language) => highlight_in(language, code),
        None => match language_of("plaintext") {
            Some(plain) => highlight_in(plain, code),
            None => None,
        },
    }
}

} // verus!

//! Two helpers of a node client: bringing the address of a node into its
//! plain form, and telling from an error whether an account is missing.

use vstd::prelude::*;

verus! {

/// The error code with which a node says that it knows no such account.
pub const ACCOUNT_NOT_FOUND_CODE: i64 = -32075;

/// Whether a character is white space: one of the characters that Unicode
/// gives the property `White_Space`.
pub open spec fn is_whitespace(c: char) -> bool {
    ||| '\u{9}' <= c <= '\u{d}'
    ||| c == ' '
    ||| c == '\u{85}'
    ||| c == '\u{a0}'
    ||| c == '\u{1680}'
    ||| '\u{2000}' <= c <= '\u{200a}'
    ||| c == '\u{2028}'
    ||| c == '\u{2029}'
    ||| c == '\u{202f}'
    ||| c == '\u{205f}'
    ||| c == '\u{3000}'
}

/// A text without the slashes at its end.
pub open spec fn spec_trim_end_slashes(s: Seq<char>) -> Seq<char>
    decreases s.len(),
{
    if s.len() > 0 && s.last() == '/' {
        spec_trim_end_slashes(s.drop_last())
    } else {
        s
    }
}

/// A text without the white space at its end.
pub open spec fn spec_trim_end(s: Seq<char>) -> Seq<char>
    decreases s.len(),
{
    if s.len() > 0 && is_whitespace(s.last()) {
        spec_trim_end(s.drop_last())
    } else {
        s
    }
}

/// A text without the white space at its start.
pub open spec fn spec_trim_start(s: Seq<char>) -> Seq<char>
    decreases s.len(),
{
    if s.len() > 0 && is_whitespace(s.first()) {
        spec_trim_start(s.drop_first())
    } else {
        s
    }
}

/// A text without the white space at its start and at its end.
pub open spec fn spec_trim(s: Seq<char>) -> Seq<char> {
    spec_trim_start(spec_trim_end(s))
}

/// Whether a text ends with another.
pub open spec fn ends_with(s: Seq<char>, suffix: Seq<char>) -> bool {
    s.len() >= suffix.len() && s.subrange(s.len() - suffix.len(), s.len() as int) == suffix
}

/// Whether a text holds another.
pub open spec fn spec_contains(hay: Seq<char>, needle: Seq<char>) -> bool {
    exists|i: int|
        0 <= i && i + needle.len() <= hay.len() && #[trigger] hay.subrange(
            i,
            i + needle.len(),
        ) == needle
}

/// A character with an upper-case ASCII letter made lower case.
pub open spec fn spec_lower(c: char) -> char {
    if 'A' <= c && c <= 'Z' {
        ((c as u8) + 32) as char
    } else {
        c
    }
}

/// A text with its upper-case ASCII letters made lower case.
pub open spec fn spec_ascii_lowercase(s: Seq<char>) -> Seq<char> {
    Seq::new(s.len(), |i: int| spec_lower(s[i]))
}

/// Calls `str::trim`: the text without leading and trailing white space,
/// where white space is what Unicode gives the property `White_Space`.
#[verifier::external_body]
fn trim(s: &str) -> (r: &str)
    ensures
        r@ == spec_trim(s@),
{
    s.trim()
}

/// Calls `str::trim_end_matches` with a slash: the text without the
/// slashes at its end.
#[verifier::external_body]
fn trim_end_slashes(s: &str) -> (r: &str)
    ensures
        r@ == spec_trim_end_slashes(s@),
{
    s.trim_end_matches('/')
}

/// Calls `str::strip_suffix`: the text before `suffix`, where the text ends
/// with it.
#[verifier::external_body]
fn strip_suffix<'a>(s: &'a str, suffix: &str) -> (r: Option<&'a str>)
    ensures
        r is Some <==> ends_with(s@, suffix@),
        r is Some ==> r.unwrap()@ == s@.subrange(0, s@.len() - suffix@.len()),
{
    s.strip_suffix(suffix)
}

/// Calls `str::to_ascii_lowercase`: a copy of the text with the letters
/// `A` to `Z` made lower case.
#[verifier::external_body]
fn to_ascii_lowercase(s: &str) -> (r: String)
    ensures
        r@ == spec_ascii_lowercase(s@),
{
    s.to_ascii_lowercase()
}

/// Calls `str::contains` with a text as the pattern: whether the text
/// occurs somewhere in `hay`.
#[verifier::external_body]
fn contains(hay: &str, needle: &str) -> (r: bool)
    ensures
        r == spec_contains(hay@, needle@),
{
    hay.contains(needle)
}

/// A copy of the text without the white space around it.
pub fn trim_text(s: &str) -> (r: String)
    ensures
        r@ == spec_trim(s@),
{
    trim(s).to_owned()
}

/// The plain form of a node address: without white space around it,
/// without slashes at its end and without a last path segment `/rpc`. An
/// address of which nothing is left has no plain form.
pub open spec fn spec_normalize(endpoint: Seq<char>) -> Option<Seq<char>> {
    let trimmed = spec_trim(endpoint);
    if trimmed.len() == 0 {
        None
    } else {
        let bare = spec_trim_end_slashes(trimmed);
        let cleaned = if ends_with(bare, "/rpc"@) {
            spec_trim_end_slashes(bare.subrange(0, bare.len() - "/rpc"@.len()))
        } else {
            bare
        };
        if cleaned.len() == 0 {
            None
        } else {
            Some(cleaned)
        }
    }
}

/// The plain form of a node address.
pub fn normalize_node_address(endpoint: &str) -> (r: Option<String>)
    ensures
        r is Some <==> spec_normalize(endpoint@) is Some,
        r is Some ==> r.unwrap()@ == spec_normalize(endpoint@).unwrap(),
{
    let trimmed = trim(endpoint);
    if trimmed.is_empty() {
        return None;
    }
    let without_trailing_slash = trim_end_slashes(trimmed);
    let cleaned = match strip_suffix(without_trailing_slash, "/rpc") {
        Some(stripped) => trim_end_slashes(stripped).to_owned(),
        None => without_trailing_slash.to_owned(),
    };
    if cleaned.as_str().is_empty() {
        None
    } else {
        Some(cleaned)
    }
}

/// Whether a message, in lower case, speaks of a missing account.
pub open spec fn speaks_of_missing_account(lower: Seq<char>) -> bool {
    spec_contains(lower, "failed to get account"@) || spec_contains(lower, "account not found"@)
        || spec_contains(lower, "no such account"@) || spec_contains(lower, "does not exist"@)
        || spec_contains(lower, "missing"@)
}

/// Whether an error of a node says that an account is missing: by its
/// code, or by what its message says, whatever the case of its letters.
pub fn is_missing_account_error(code: i64, message: &str) -> (r: bool)
    ensures
        r == (code == ACCOUNT_NOT_FOUND_CODE || speaks_of_missing_account(
            spec_ascii_lowercase(message@),
        )),
{
    if code == ACCOUNT_NOT_FOUND_CODE {
        return true;
    }
    let message = to_ascii_lowercase(message);
    contains(message.as_str(), "failed to get account") || contains(
        message.as_str(),
        "account not found",
    ) || contains(message.as_str(), "no such account") || contains(
        message.as_str(),
        "does not exist",
    ) || contains(message.as_str(), "missing")
}

/// A text that neither starts nor ends with white space is left as it is
/// when the white space around it is taken away.
pub proof fn lemma_trim_of_trimmed(s: Seq<char>)
    requires
        s.len() > 0 ==> !is_whitespace(s.first()) && !is_whitespace(s.last()),
    ensures
        spec_trim(s) == s,
{
}

/// A text that does not end with a slash is left as it is when the slashes
/// at its end are taken away, and a text with one slash at its end loses
/// that slash.
pub proof fn lemma_trim_end_slashes(s: Seq<char>)
    requires
        s.len() > 0 ==> s.last() != '/',
    ensures
        spec_trim_end_slashes(s) == s,
        spec_trim_end_slashes(s.push('/')) == s,
{
    assert(s.push('/').drop_last() == s);
}

/// An address that is clean already is its own plain form: it has no
/// white space around it, no slash at its end and no last segment `/rpc`.
pub proof fn lemma_normalize_of_plain(s: Seq<char>)
    requires
        s.len() > 0,
        !is_whitespace(s.first()),
        !is_whitespace(s.last()),
        s.last() != '/',
        !ends_with(s, "/rpc"@),
    ensures
        spec_normalize(s) == Some(s),
{
    lemma_trim_of_trimmed(s);
    lemma_trim_end_slashes(s);
}

} // verus!

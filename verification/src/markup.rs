//! Reading a name back from an announcement: the span that the chat's
//! markup sets in bold.

use vstd::prelude::*;

verus! {

/// A pattern that matches a span between two pairs of asterisks and
/// captures what stands between them under the name `name`.
pub const BOLD_NAME: &'static str = "[*]{2}(?P<name>[^*]+)[*]{2}";

/// The name of the capture group of `BOLD_NAME`.
pub const NAME_GROUP: &'static str = "name";

/// `regex::Error`, carried through without a look inside.
#[verifier::external_type_specification]
#[verifier::external_body]
pub struct ExRegexError(regex::Error);

/// What the crate `regex` finds of `pattern` in `haystack`: `None` where
/// `pattern` does not compile; else the text that the group named
/// `group` took in the leftmost match, or `None` inside where nothing
/// matches, no group has that name, or the group took no part.
pub uninterp spec fn regex_capture(
    pattern: Seq<char>,
    group: Seq<char>,
    haystack: Seq<char>,
) -> Option<Option<Seq<char>>>;

/// `regex::Regex::new` on `pattern`, then `Regex::captures` on
/// `haystack` and `Captures::name` on `group`.
///
/// The result is named, not described: an error exactly where the
/// pattern does not compile, and else the text of the named group in the
/// leftmost match, if there is one.
#[verifier::external_body]
fn capture(pattern: &str, group: &str, haystack: &str) -> (found: Result<
    Option<String>,
    regex::Error,
>)
    ensures
        match found {
            Ok(text) => regex_capture(pattern@, group@, haystack@) == Some(text.deep_view()),
            Err(_) => regex_capture(pattern@, group@, haystack@) is None,
        },
{
    let regex = regex::Regex::new(pattern)?;
    match regex.captures(haystack) {
        Some(found) => match found.name(group) {
            Some(span) => Ok(Some(span.as_str().to_string())),
            None => Ok(None),
        },
        None => Ok(None),
    }
}

/// The name that `text` sets in bold, if it sets one.
pub open spec fn bold_name_in(text: Seq<char>) -> Option<Seq<char>> {
    match regex_capture(BOLD_NAME@, NAME_GROUP@, text) {
        Some(found) => found,
        None => None,
    }
}

/// The first name that `text` sets in bold, if it sets one.
pub fn bold_name(text: &str) -> (name: Option<String>)
    ensures
        name.deep_view() == bold_name_in(text@),
{
    match capture(BOLD_NAME, NAME_GROUP, text) {
        Ok(found) => found,
        Err(_) => None,
    }
}

} // verus!

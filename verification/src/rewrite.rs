//! The link to the regex engine. Compilation, searching and template
//! substitution are done by the `regex` crate; the contracts here name what
//! those calls return, so that the matching logic can be verified against
//! them.

use vstd::prelude::*;

verus! {

#[verifier::external_type_specification]
#[verifier::external_body]
pub struct ExRegex(regex::Regex);

#[verifier::external_type_specification]
#[verifier::external_body]
pub struct ExRegexError(regex::Error);

/// The pattern string a compiled regex was built from; `regex::Regex::as_str`
/// returns exactly this string.
pub uninterp spec fn regex_pattern(re: regex::Regex) -> Seq<char>;

/// Whether `regex::Regex::new` accepts a pattern string. Compilation is
/// deterministic in the pattern alone.
pub uninterp spec fn re_valid(pattern: Seq<char>) -> bool;

/// What `regex::Regex::is_match` returns for a regex compiled from `pattern`
/// when searching `text`: whether the pattern matches anywhere in the text.
pub uninterp spec fn re_search_match(pattern: Seq<char>, text: Seq<char>) -> bool;

/// What `regex::Regex::replace` returns for a regex compiled from `pattern`,
/// the given substitution `template`, and `text`: the text with its leftmost
/// match replaced by the template expanded against the match's capture groups.
pub uninterp spec fn re_rewrite(pattern: Seq<char>, template: Seq<char>, text: Seq<char>) -> Seq<char>;

/// Relies on `regex::Regex::new`: it compiles the pattern or reports a syntax
/// error, deterministically in the pattern string alone, and the compiled
/// regex keeps that pattern (`regex::Regex::as_str` hands it back).
#[verifier::external_body]
pub(crate) fn regex_new(pattern: &str) -> (r: Result<regex::Regex, regex::Error>)
    ensures
        r is Ok <==> re_valid(pattern@),
        r matches Ok(re) ==> regex_pattern(re) == pattern@,
{
    regex::Regex::new(pattern)
}

/// Relies on `regex::Regex::is_match`: a search anywhere in the text, not a
/// full-string match, deterministic in the compiled pattern and the text.
#[verifier::external_body]
pub(crate) fn regex_is_match(re: &regex::Regex, text: &str) -> (r: bool)
    ensures
        r == re_search_match(regex_pattern(*re), text@),
{
    re.is_match(text)
}

/// Relies on `regex::Regex::replace`: it replaces the leftmost match in the
/// text with the template, expanding `$`-references to the match's capture
/// groups, deterministically in pattern, template and text; when nothing
/// matches it returns the text unchanged.
#[verifier::external_body]
pub(crate) fn regex_replace(re: &regex::Regex, text: &str, template: &str) -> (r: String)
    ensures
        r@ == re_rewrite(regex_pattern(*re), template@, text@),
        !re_search_match(regex_pattern(*re), text@) ==> r@ == text@,
{
    re.replace(text, template).into_owned()
}

/// Relies on `regex::Error`'s `Display` implementation to render the
/// compiler's diagnostic for an invalid pattern.
#[verifier::external_body]
pub(crate) fn regex_error_text(e: &regex::Error) -> String {
    e.to_string()
}

} // verus!

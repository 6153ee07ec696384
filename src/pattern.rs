//! Compiled redaction patterns, kept by the regex crate.

use vstd::prelude::*;

verus! {

#[verifier::external_type_specification]
#[verifier::external_body]
pub struct ExRegex(regex::Regex);

#[verifier::external_type_specification]
#[verifier::external_body]
pub struct ExRegexError(regex::Error);

/// Whether regex's `Regex::new` accepts `pattern` (its syntax is valid and
/// the compiled form stays under the default size limit).
pub uninterp spec fn regex_accepts(pattern: Seq<char>) -> bool;

/// What regex's `Regex::replace_all` gives for the regex compiled from
/// `pattern`: every non-overlapping match in `text`, leftmost first,
/// replaced by `replacement` (in which `$name` refers to a capture group).
pub uninterp spec fn regex_replace_all(pattern: Seq<char>, text: Seq<char>, replacement: Seq<char>) -> Seq<char>;

/// A pattern together with the regex compiled from it. Only `compile`
/// makes one, so the two always agree.
pub struct CompiledPattern {
    source: String,
    re: regex::Regex,
}

impl CompiledPattern {
    /// The pattern's text.
    pub closed spec fn view(&self) -> Seq<char> {
        self.source@
    }
}

/// Relies on regex's `Regex::new`: it succeeds exactly on the patterns it
/// accepts, and the result is compiled from `pattern`.
#[verifier::external_body]
pub(crate) fn compile(pattern: &str) -> (r: Result<CompiledPattern, regex::Error>)
    ensures
        r is Ok <==> regex_accepts(pattern@),
        r matches Ok(c) ==> c.view() == pattern@,
{
    match regex::Regex::new(pattern) {
        Ok(re) => Ok(CompiledPattern { source: pattern.to_string(), re }),
        Err(e) => Err(e),
    }
}

/// Relies on regex's `Regex::replace_all` with a `&str` replacement.
#[verifier::external_body]
pub(crate) fn replace_all(p: &CompiledPattern, text: &str, replacement: &str) -> (r: String)
    ensures
        r@ == regex_replace_all(p.view(), text@, replacement@),
{
    p.re.replace_all(text, replacement).into_owned()
}

} // verus!

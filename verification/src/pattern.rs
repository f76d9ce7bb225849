//! Regular expressions, compiled and matched by the `regex` crate.

use crate::text::optional_text;
use regex::Regex;
use vstd::prelude::*;

verus! {

#[verifier::external_type_specification]
#[verifier::external_body]
pub struct ExRegex(Regex);

#[verifier::external_type_specification]
#[verifier::external_body]
pub struct ExRegexError(regex::Error);

/// Whether `Regex::new` accepts `pattern`: it is well formed in the crate's
/// default syntax and compiles to a program within the default size limit.
pub uninterp spec fn pattern_accepted(pattern: Seq<char>) -> bool;

/// What a regular expression compiled from `pattern` by `Regex::new` finds
/// for capture group `group` when `Regex::captures` searches `text`: the
/// part of `text` that the group holds in the first match, or `None` where
/// `text` has no match or the group took no part in it.
pub uninterp spec fn captured_group(pattern: Seq<char>, text: Seq<char>, group: nat) -> Option<
    Seq<char>,
>;

/// A pattern together with the program that the `regex` crate compiled from
/// it. Only `compile_pattern` makes one, so the program is always that of
/// the pattern.
#[derive(Debug)]
pub struct CompiledPattern {
    source: String,
    program: Regex,
}

impl View for CompiledPattern {
    type V = Seq<char>;

    /// The pattern that was compiled.
    closed spec fn view(&self) -> Seq<char> {
        self.source@
    }
}

/// Compiles `pattern` with `Regex::new`. The error is that of `Regex::new`,
/// which refuses a pattern that is not well formed or that compiles to too
/// large a program.
#[verifier::external_body]
pub(crate) fn compile_pattern(pattern: &str) -> (r: Result<CompiledPattern, regex::Error>)
    ensures
        r is Ok <==> pattern_accepted(pattern@),
        r matches Ok(compiled) ==> compiled@ == pattern@,
{
    Regex::new(pattern).map(|program| CompiledPattern { source: pattern.to_string(), program })
}

/// Searches `text` with `Regex::captures` and hands out what `Captures::get`
/// holds for `group`, as text.
#[verifier::external_body]
pub(crate) fn capture_group(pattern: &CompiledPattern, text: &str, group: usize) -> (found: Option<
    String,
>)
    ensures
        optional_text(found) == captured_group(pattern@, text@, group as nat),
{
    pattern.program.captures(text).and_then(|c| c.get(group)).map(|m| m.as_str().to_string())
}

} // verus!

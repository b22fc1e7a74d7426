//! Pattern-mode matching, backed by the `regex` crate. Compilation and
//! searching happen in the outside crate; their results are named by the
//! two uninterpreted spec functions below, and everything the engine
//! proves about pattern mode is stated over those names.

use vstd::prelude::*;

verus! {

#[verifier::external_type_specification]
#[verifier::external_body]
pub struct ExRegex(regex::Regex);

/// Whether `regex::Regex::new` accepts `p` as a pattern. Compilation is a
/// function of the pattern text alone.
pub uninterp spec fn regex_accepted(p: Seq<char>) -> bool;

/// Whether the compiled form of the pattern `p` matches anywhere in
/// `text`. The search result is a function of the pattern and the
/// haystack alone.
pub uninterp spec fn regex_matches(p: Seq<char>, text: Seq<char>) -> bool;

/// A pattern that `regex::Regex::new` accepted, kept together with its
/// source text. Values exist only through [`compile`], so the compiled
/// regex is always the compilation of `text`; the contract of
/// [`CompiledPattern::is_match`] relies on that.
pub struct CompiledPattern {
    re: regex::Regex,
    text: String,
}

impl CompiledPattern {
    /// The pattern text this value was compiled from.
    pub closed spec fn view(&self) -> Seq<char> {
        self.text@
    }

    /// Relies on `regex::Regex::is_match`: true if and only if the regex
    /// matches anywhere in `line` (search semantics, no anchoring). The
    /// empty pattern matches at position 0 of every haystack.
    #[verifier::external_body]
    pub fn is_match(&self, line: &str) -> (r: bool)
        ensures
            r == regex_matches(self@, line@),
            self@.len() == 0 ==> r,
    {
        self.re.is_match(line)
    }
}

/// Relies on `regex::Regex::new`: returns `Some` exactly when the pattern
/// compiles, that is on valid pattern syntax within the default size
/// limit. The empty pattern always compiles.
#[verifier::external_body]
pub fn compile(p: &str) -> (r: Option<CompiledPattern>)
    ensures
        r is Some <==> regex_accepted(p@),
        r matches Some(cp) ==> cp@ == p@,
        p@.len() == 0 ==> r is Some,
{
    match regex::Regex::new(p) {
        Ok(re) => Some(CompiledPattern { re, text: p.to_string() }),
        Err(_) => None,
    }
}

} // verus!

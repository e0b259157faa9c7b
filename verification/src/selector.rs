//! The selector compiler: validates a user-supplied regular expression and
//! wraps it for the message filter.
//!
//! The regex engine itself is an outside collaborator; what it computes is
//! named by uninterpreted functions over the pattern and the haystack, and
//! everything built on top of those names is verified.

use vstd::prelude::*;
use crate::error::ReplayError;

verus! {

#[verifier::external_type_specification]
#[verifier::external_body]
pub struct ExRegex(regex::Regex);

/// Whether `regex::Regex::new` accepts the pattern.
pub uninterp spec fn regex_compiles(pattern: Seq<char>) -> bool;

/// What `regex::Regex::captures_len` reports for a compiled pattern: the
/// number of capture groups, the implicit whole-match group included.
pub uninterp spec fn regex_group_count(pattern: Seq<char>) -> nat;

/// What `regex::Regex::captures` finds for a pattern in a haystack: `None`
/// when the regex does not match, otherwise one entry per capture group in
/// opening-parenthesis order (the whole match first), `None` for groups that
/// did not participate in the match.
pub uninterp spec fn regex_groups(pattern: Seq<char>, haystack: Seq<char>) -> Option<
    Seq<Option<Seq<char>>>,
>;

/// The views of a group list handed back by the regex engine.
pub open spec fn opt_str_views(s: Seq<Option<String>>) -> Seq<Option<Seq<char>>> {
    s.map_values(
        |o: Option<String>|
            match o {
                Some(x) => Some(x@),
                None => None,
            },
    )
}

/// A validated selector: a compiled regular expression together with the
/// pattern text it was compiled from.
pub struct Selector {
    pattern: String,
    re: regex::Regex,
}

impl Selector {
    /// The pattern this selector was compiled from.
    pub closed spec fn pat(&self) -> Seq<char> {
        self.pattern@
    }

    /// Relies on `regex::Regex::new`: whether a pattern compiles depends on
    /// the pattern text alone, and on failure the error describes why. The
    /// returned selector keeps the pattern it was compiled from.
    #[verifier::external_body]
    fn compile_pattern(pattern: &str) -> (r: Result<Selector, String>)
        ensures
            r is Ok <==> regex_compiles(pattern@),
            r is Ok ==> r->Ok_0.pat() == pattern@,
    {
        match regex::Regex::new(pattern) {
            Ok(re) => Ok(Selector { pattern: pattern.to_string(), re }),
            Err(e) => Err(format!("invalid pattern: {}", e)),
        }
    }

    /// Relies on `regex::Regex::captures_len`: the group count depends on the
    /// pattern alone and, the implicit whole-match group being counted, is at
    /// least one.
    #[verifier::external_body]
    pub(crate) fn captures_len(&self) -> (n: usize)
        ensures
            n == regex_group_count(self.pat()),
            n >= 1,
    {
        self.re.captures_len()
    }

    /// Relies on `regex::Regex::captures`, `regex::Captures::iter` and
    /// `regex::Match::as_str`: the leftmost match and its capture groups
    /// depend on the pattern and the haystack alone; `iter` yields one entry
    /// per group in opening-parenthesis order, `None` for a group that did
    /// not participate in the match.
    #[verifier::external_body]
    pub(crate) fn match_groups(&self, haystack: &str) -> (r: Option<Vec<Option<String>>>)
        ensures
            r is Some <==> regex_groups(self.pat(), haystack@) is Some,
            r matches Some(v) ==> opt_str_views(v@) == regex_groups(self.pat(), haystack@)->0,
    {
        match self.re.captures(haystack) {
            None => None,
            Some(caps) => {
                let mut groups: Vec<Option<String>> = Vec::new();
                for g in caps.iter() {
                    match g {
                        Some(m) => groups.push(Some(m.as_str().to_string())),
                        None => groups.push(None),
                    }
                }
                Some(groups)
            },
        }
    }
}

/// Whether `compile` must reject the pattern: it does not compile, or it
/// compiles with no capture group beside the implicit whole-match one.
pub open spec fn rejects_pattern(pattern: Seq<char>) -> bool {
    !regex_compiles(pattern) || regex_group_count(pattern) < 2
}

/// Validates and compiles an optional selector pattern.
///
/// No pattern means no deduplication. A pattern that fails to compile, or
/// that has no capture group of its own, is rejected with `BadSelector`; the
/// dedup key will be taken from the last participating capture group, so at
/// least one explicit group is required.
pub fn compile(pattern: Option<String>) -> (r: Result<Option<Selector>, ReplayError>)
    ensures
        pattern is None ==> (r matches Ok(s) && s is None),
        pattern matches Some(p) ==> {
            &&& r is Err <==> rejects_pattern(p@)
            &&& r matches Err(e) ==> e is BadSelector
            &&& r matches Ok(s) ==> s matches Some(sel) && sel.pat() == p@
        },
{
    match pattern {
        None => Ok(None),
        Some(p) => match Selector::compile_pattern(p.as_str()) {
            Err(detail) => Err(ReplayError::BadSelector(detail)),
            Ok(sel) => {
                if sel.captures_len() < 2 {
                    Err(
                        ReplayError::BadSelector(
                            "regex must have at least one capture group.".to_owned(),
                        ),
                    )
                } else {
                    Ok(Some(sel))
                }
            },
        },
    }
}

} // verus!

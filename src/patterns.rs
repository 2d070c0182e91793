//! Selecting files by regular expressions over their paths.
use vstd::prelude::*;

use crate::filters::{ext_allowed, ext_passes, opt_views};
use crate::{rel_string, rel_view};

verus! {

#[verifier::external_type_specification]
#[verifier::external_body]
pub struct ExRegexSet(regex::RegexSet);

#[verifier::external_type_specification]
#[verifier::external_body]
pub struct ExRegexError(regex::Error);

/// Whether `regex::RegexSet::new` accepts these patterns.
pub uninterp spec fn patterns_compile(patterns: Seq<Seq<char>>) -> bool;

/// Whether a `regex::RegexSet` built from these patterns matches somewhere
/// in the text.
pub uninterp spec fn any_pattern_matches(patterns: Seq<Seq<char>>, text: Seq<char>) -> bool;

pub open spec fn string_views(v: Seq<String>) -> Seq<Seq<char>> {
    v.map_values(|s: String| s@)
}

/// Relies on `regex::RegexSet::new`: an error exactly when some pattern is
/// not a valid regular expression or the set outgrows the default size
/// limit, which depends on the patterns alone.
#[verifier::external_body]
fn compile_set(patterns: &Vec<String>) -> (r: Result<regex::RegexSet, regex::Error>)
    ensures
        r is Ok <==> patterns_compile(string_views(patterns@)),
{
    regex::RegexSet::new(patterns)
}

/// Why a set of path patterns was refused.
#[derive(Debug)]
pub enum FilterError {
    InvalidPattern(regex::Error),
}

/// Regular expressions compiled into one set, kept with their text.
pub struct PathPatterns {
    set: regex::RegexSet,
    patterns: Vec<String>,
}

impl PathPatterns {
    /// The patterns the set was compiled from.
    pub closed spec fn patterns(&self) -> Seq<Seq<char>> {
        string_views(self.patterns@)
    }

    /// Compiles the patterns into one set.
    pub fn new(patterns: Vec<String>) -> (r: Result<PathPatterns, FilterError>)
        ensures
            r is Ok <==> patterns_compile(string_views(patterns@)),
            r is Ok ==> r->Ok_0.patterns() == string_views(patterns@),
    {
        match compile_set(&patterns) {
            Ok(set) => Ok(PathPatterns { set, patterns }),
            Err(e) => Err(FilterError::InvalidPattern(e)),
        }
    }
}

/// Relies on `regex::RegexSet::is_match`: whether one of the set's patterns
/// matches somewhere in the text. The set in `p` is the one compiled from
/// `p`'s own patterns.
#[verifier::external_body]
fn set_is_match(p: &PathPatterns, text: &str) -> (r: bool)
    ensures
        r == any_pattern_matches(p.patterns(), text@),
{
    p.set.is_match(text)
}

/// Whether a path passes the pattern filters, given whether the allowed
/// patterns matched it and whether the denied ones did (`None` where that
/// filter is not given).
pub open spec fn match_passes(allow_hit: Option<bool>, deny_hit: Option<bool>) -> bool {
    allow_hit != Some(false) && deny_hit != Some(true)
}

/// Decides a path from what the two filters found: it passes where the
/// allowed patterns, if any, matched it and the denied ones, if any, did
/// not.
pub fn selection_passes(allow_hit: Option<bool>, deny_hit: Option<bool>) -> (r: bool)
    ensures
        r == match_passes(allow_hit, deny_hit),
{
    let allowed = match allow_hit {
        Some(hit) => hit,
        None => true,
    };
    let denied = match deny_hit {
        Some(hit) => hit,
        None => false,
    };
    allowed && !denied
}

/// What a filter found on a text: `None` where the filter is not given.
pub open spec fn hit(filter: Option<&PathPatterns>, text: Seq<char>) -> Option<bool> {
    match filter {
        None => None,
        Some(p) => Some(any_pattern_matches(p.patterns(), text)),
    }
}

/// Whether a path passes the pattern filters. The patterns are matched
/// against the path as shown relative to the working directory.
pub fn path_selected(path: &str, allow: Option<&PathPatterns>, deny: Option<&PathPatterns>) -> (r:
    bool)
    ensures
        r == match_passes(
            hit(allow, rel_view(seq!['.'], path@)),
            hit(deny, rel_view(seq!['.'], path@)),
        ),
{
    if allow.is_none() && deny.is_none() {
        return true;
    }
    let cwd_rel = rel_string(".", path);
    proof {
        reveal_strlit(".");
        assert(".".view() =~= seq!['.']);
    }
    let allow_hit = match allow {
        Some(p) => Some(set_is_match(p, cwd_rel.as_str())),
        None => None,
    };
    let deny_hit = match deny {
        Some(p) => Some(set_is_match(p, cwd_rel.as_str())),
        None => None,
    };
    selection_passes(allow_hit, deny_hit)
}

/// The filters a file must pass to be emitted.
pub struct Filters {
    /// Normalized extensions of which the file must have one, where given.
    pub ext_allow: Option<Vec<String>>,
    /// Normalized extensions the file must not have, where given.
    pub ext_deny: Option<Vec<String>>,
    /// Patterns of which one must match the path, where given.
    pub re_allow: Option<PathPatterns>,
    /// Patterns none of which may match the path, where given.
    pub re_deny: Option<PathPatterns>,
}

pub open spec fn opt_ref(p: &Option<PathPatterns>) -> Option<&PathPatterns> {
    match p {
        Some(x) => Some(x),
        None => None,
    }
}

/// Whether a file, by its path and extension, passes every filter.
pub open spec fn filters_pass(f: &Filters, path: Seq<char>, ext: Option<Seq<char>>) -> bool {
    &&& ext_passes(ext, opt_views(&f.ext_allow), opt_views(&f.ext_deny))
    &&& match_passes(
        hit(opt_ref(&f.re_allow), rel_view(seq!['.'], path)),
        hit(opt_ref(&f.re_deny), rel_view(seq!['.'], path)),
    )
}

impl Filters {
    /// Checks a file's extension (`None` where it has none) and then its path.
    pub fn passes(&self, path: &str, ext: Option<&str>) -> (r: bool)
        ensures
            r == filters_pass(
                self,
                path@,
                match ext {
                    None => None,
                    Some(e) => Some(e@),
                },
            ),
    {
        if !ext_allowed(ext, &self.ext_allow, &self.ext_deny) {
            return false;
        }
        path_selected(path, self.re_allow.as_ref(), self.re_deny.as_ref())
    }
}

} // verus!

//! Detection of the active CI provider from environment-variable values.
//!
//! The caller reads the process environment and hands the raw values in, so
//! that detection itself is a pure function of its arguments.

use vstd::prelude::*;
use vstd::string::StrSliceExecFns;

verus! {

/// A CI provider whose log viewer understands collapsible-group markers, or
/// `NoCi` when no supported provider is active.
#[derive(Clone, Copy, Debug, PartialEq, Eq, Structural)]
pub enum Provider {
    GitHub,
    Azure,
    NoCi,
}

/// A variable value turns its provider on exactly when it is the four-letter
/// word "true", compared ASCII-case-insensitively.
pub open spec fn is_true_value(s: Seq<char>) -> bool {
    &&& s.len() == 4
    &&& (s[0] == 't' || s[0] == 'T')
    &&& (s[1] == 'r' || s[1] == 'R')
    &&& (s[2] == 'u' || s[2] == 'U')
    &&& (s[3] == 'e' || s[3] == 'E')
}

/// Whether an optional variable value turns its provider on; an unset
/// variable never does.
pub open spec fn activates(v: Option<Seq<char>>) -> bool {
    v matches Some(s) && is_true_value(s)
}

/// What detection returns for given values of the two provider variables:
/// the first variable in the fixed priority order that holds "true" wins.
pub open spec fn detection(github: Option<Seq<char>>, azure: Option<Seq<char>>) -> Provider {
    if activates(github) {
        Provider::GitHub
    } else if activates(azure) {
        Provider::Azure
    } else {
        Provider::NoCi
    }
}

/// The view of an optional variable value.
pub open spec fn value_view(v: Option<&str>) -> Option<Seq<char>> {
    match v {
        Some(s) => Some(s@),
        None => None,
    }
}

/// Compares a variable value against "true", ASCII-case-insensitively.
fn matches_true(v: &str) -> (r: bool)
    ensures
        r == is_true_value(v@),
{
    if v.unicode_len() != 4 {
        return false;
    }
    let c0 = v.get_char(0);
    let c1 = v.get_char(1);
    let c2 = v.get_char(2);
    let c3 = v.get_char(3);
    (c0 == 't' || c0 == 'T') && (c1 == 'r' || c1 == 'R') && (c2 == 'u' || c2 == 'U') && (c3 == 'e'
        || c3 == 'E')
}

impl Provider {
    /// True for every provider tag except `NoCi`.
    pub open spec fn spec_is_active(&self) -> bool {
        *self != Provider::NoCi
    }

    /// Returns true if the provider is active.
    #[verifier::when_used_as_spec(spec_is_active)]
    pub fn is_active(&self) -> (r: bool)
        ensures
            r == self.spec_is_active(),
    {
        match self {
            Provider::NoCi => false,
            _ => true,
        }
    }

    /// Detects the provider from the values of its variables, in the fixed
    /// priority order: `GITHUB_ACTIONS` first, then `TF_BUILD`. Absent or
    /// malformed values degrade to "no match", never to an error.
    pub fn detect(github: Option<&str>, azure: Option<&str>) -> (r: Provider)
        ensures
            r == detection(value_view(github), value_view(azure)),
    {
        if let Some(v) = github {
            if matches_true(v) {
                return Provider::GitHub;
            }
        }
        if let Some(v) = azure {
            if matches_true(v) {
                return Provider::Azure;
            }
        }
        Provider::NoCi
    }
}

/// Law: when exactly one provider variable holds "true", detection yields
/// that provider.
pub proof fn lemma_single_active_variable_detected(
    github: Option<Seq<char>>,
    azure: Option<Seq<char>>,
)
    ensures
        activates(github) && !activates(azure) ==> detection(github, azure) == Provider::GitHub,
        !activates(github) && activates(azure) ==> detection(github, azure) == Provider::Azure,
{
}

/// Law: when both provider variables hold "true" at once, the fixed priority
/// order decides: the GitHub variable is checked first and wins.
pub proof fn lemma_priority_order(github: Option<Seq<char>>, azure: Option<Seq<char>>)
    requires
        activates(github),
        activates(azure),
    ensures
        detection(github, azure) == Provider::GitHub,
{
}

/// Law: a variable set to anything but a case-insensitive "true" is treated
/// exactly as an unset variable, in either position.
pub proof fn lemma_non_true_value_like_unset(
    value: Seq<char>,
    github: Option<Seq<char>>,
    azure: Option<Seq<char>>,
)
    requires
        !is_true_value(value),
    ensures
        detection(Some(value), azure) == detection(None, azure),
        detection(github, Some(value)) == detection(github, None),
{
}

} // verus!

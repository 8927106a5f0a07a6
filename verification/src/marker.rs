//! The marker lines that a CI log viewer recognises, one template pair per
//! provider.
//!
//! Every marker line begins with a newline, so that it starts at column zero
//! even when prior output left an unterminated line, and ends with one.

use vstd::prelude::*;
use vstd::string::StringExecFns;
use crate::provider::activates;
use crate::provider::detection;
use crate::provider::Provider;

verus! {

/// The start-marker line for a provider and title: a leading newline, the
/// provider's template with the title inserted verbatim, and a trailing
/// newline. No line when no provider is active.
pub open spec fn start_marker(provider: Provider, title: Seq<char>) -> Option<Seq<char>> {
    match provider {
        Provider::GitHub => Some("\n::group::"@ + title + "\n"@),
        Provider::Azure => Some("\n##[group]"@ + title + "\n"@),
        Provider::NoCi => None,
    }
}

/// The end-marker line matching a provider's start marker.
pub open spec fn end_marker(provider: Provider) -> Option<Seq<char>> {
    match provider {
        Provider::GitHub => Some("\n::endgroup::\n"@),
        Provider::Azure => Some("\n##[endgroup]\n"@),
        Provider::NoCi => None,
    }
}

/// Builds the start-marker line for a provider, with the title inserted
/// verbatim: the caller is responsible for titles that themselves contain
/// marker syntax.
pub fn start_line(provider: Provider, title: &str) -> (r: Option<String>)
    ensures
        r.deep_view() == start_marker(provider, title@),
{
    match provider {
        Provider::GitHub => {
            let mut line = String::from_str("\n::group::");
            line.append(title);
            line.append("\n");
            Some(line)
        },
        Provider::Azure => {
            let mut line = String::from_str("\n##[group]");
            line.append(title);
            line.append("\n");
            Some(line)
        },
        Provider::NoCi => None,
    }
}

/// Builds the end-marker line for a provider.
pub fn end_line(provider: Provider) -> (r: Option<&'static str>)
    ensures
        r.deep_view() == end_marker(provider),
    no_unwind
{
    match provider {
        Provider::GitHub => Some("\n::endgroup::\n"),
        Provider::Azure => Some("\n##[endgroup]\n"),
        Provider::NoCi => None,
    }
}

/// Law: under an active provider the start-marker line exists, begins at
/// column zero, and carries the exact title text after its ten-character
/// prefix; and the matching end-marker line exists.
pub proof fn lemma_active_provider_markers(provider: Provider, title: Seq<char>)
    requires
        provider.spec_is_active(),
    ensures
        start_marker(provider, title) matches Some(s) && s.len() == title.len() + 11 && s[0] == '\n'
            && s.subrange(10, 10 + title.len() as int) == title,
        end_marker(provider) is Some,
{
    reveal_strlit("\n::group::");
    reveal_strlit("\n##[group]");
    reveal_strlit("\n");
    let s = start_marker(provider, title)->Some_0;
    assert(s.subrange(10, 10 + title.len() as int) =~= title);
}

/// Law: marker lines come in matched pairs. For every provider the start
/// marker exists exactly when the matching end marker does, and both exist
/// exactly when the provider is active.
pub proof fn lemma_markers_paired(provider: Provider, title: Seq<char>)
    ensures
        start_marker(provider, title) is Some <==> end_marker(provider) is Some,
        start_marker(provider, title) is Some <==> provider.spec_is_active(),
{
}

/// Law: when neither provider variable holds "true", detection yields no
/// provider, and neither marker line exists, so a guard emits nothing.
pub proof fn lemma_inactive_environment_silent(
    github: Option<Seq<char>>,
    azure: Option<Seq<char>>,
    title: Seq<char>,
)
    requires
        !activates(github),
        !activates(azure),
    ensures
        detection(github, azure) == Provider::NoCi,
        start_marker(detection(github, azure), title) is None,
        end_marker(detection(github, azure)) is None,
{
}

} // verus!

//! The scoped guard that brackets a block of log output with marker lines.

use std::io::Write;
use vstd::prelude::*;
use crate::marker::end_line;
use crate::marker::end_marker;
use crate::marker::start_line;
use crate::provider::Provider;

verus! {

/// Relies on `std::io::Stdout`: locks the stream, writes the bytes of `line`
/// in a single call and flushes at once, so the line is visible even if the
/// process ends abruptly right after. A failed write or flush is discarded,
/// so emission itself never fails or unwinds.
#[verifier::external_body]
fn emit(line: &str)
    no_unwind
{
    let mut out = std::io::stdout().lock();
    let _ = out.write_all(line.as_bytes());
    let _ = out.flush();
}

/// A collapsible log group. Writes the start marker of its provider when
/// created and the matching end marker when dropped, each exactly once per
/// guard; under an inactive provider it writes nothing at all.
#[must_use]
pub struct Group {
    provider: Provider,
    end: Option<&'static str>,
}

impl Group {
    /// The line the finalizer writes is exactly the end marker matching the
    /// guard's provider: an end marker is emitted if and only if the start
    /// marker was, and the pair always uses one provider's syntax.
    #[verifier::type_invariant]
    closed spec fn wf(self) -> bool {
        self.end.deep_view() == end_marker(self.provider)
    }

    /// The provider this guard was created under.
    pub closed spec fn provider(&self) -> Provider {
        self.provider
    }

    /// The end-marker line this guard will write when dropped, if any.
    pub closed spec fn end_view(&self) -> Option<Seq<char>> {
        self.end.deep_view()
    }

    /// Creates a group titled `title` under `provider`: writes the start
    /// marker if the provider is active, and returns the guard either way,
    /// armed with the matching end marker.
    pub fn new(title: &str, provider: Provider) -> (g: Group)
        ensures
            g.provider() == provider,
            g.end_view() == end_marker(provider),
    {
        if let Some(line) = start_line(provider, title) {
            emit(line.as_str());
        }
        Group { provider, end: end_line(provider) }
    }
}

impl Drop for Group {
    /// Trusted finalizer: writes the guard's stored end-marker line, if there
    /// is one, through [`emit`]. Rust runs it exactly once per guard, on
    /// normal scope exit as well as during abrupt unwind, and `emit` discards
    /// write errors, so finalization can never fail or mask an unwinding
    /// failure with one of its own.
    #[verifier::external_body]
    fn drop(&mut self)
        opens_invariants none
        no_unwind
    {
        if let Some(line) = self.end {
            emit(line);
        }
    }
}

/// Opens a new log group. Alias for [`Group::new`].
pub fn open(title: &str, provider: Provider) -> (g: Group)
    ensures
        g.provider() == provider,
        g.end_view() == end_marker(provider),
{
    Group::new(title, provider)
}

/// Runs `work` inside a group titled `title`: the group closes when
/// execution leaves `work` by any path, normal return or abrupt unwind.
pub fn with_group<T, F: FnOnce() -> T>(title: &str, provider: Provider, work: F) -> (r: T)
    requires
        work.requires(()),
    ensures
        work.ensures((), r),
{
    let _guard = Group::new(title, provider);
    work()
}

} // verus!

//! Collapsible log groups for CI log viewers.
//!
//! An unclosed group swallows all log output after it, so the closing marker
//! must be written on every path out of the guarded scope, including abrupt
//! unwind. [`Group`] ties the end marker to the lifetime of a value; the
//! provider layer decides which marker syntax applies.

pub mod group;
pub mod marker;
pub mod provider;

pub use group::open;
pub use group::with_group;
pub use group::Group;
pub use marker::end_line;
pub use marker::start_line;
pub use provider::Provider;

use vstd::prelude::*;

verus! {

/// The recoverable failures of the ledger and its command dispatcher.
/// Nothing in this library aborts: every failure is surfaced as one of
/// these typed results so the calling layer can decide how to react.
#[derive(Debug, Clone, Copy, PartialEq, Eq, Structural)]
pub enum NoteError {
    /// A removal was requested for a title absent from the ledger.
    EntryNotFound,
    /// The event lacked an author handle or a link to its comment.
    MissingContext,
    /// The persistence collaborator observed a concurrent modification;
    /// the whole read-mutate-render cycle may be retried.
    Conflict,
    /// The underlying storage collaborator failed; not retried.
    Io,
}

} // verus!

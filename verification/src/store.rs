use vstd::prelude::*;

use crate::dispatch::{EventContext, NoteCommand, handle, spec_dispatch, spec_initial};
use crate::entry::EntryView;
use crate::errors::NoteError;
use crate::ledger::{NoteData, spec_note_markdown};

verus! {

/// An in-memory model of the document editor collaborator: the delimited
/// region's current markdown, the structured shadow state stored beside
/// it, and a version token that detects concurrent writers. Markdown and
/// structured state are only ever written together, so a well-formed
/// store can never let the two drift apart.
#[derive(Debug)]
pub struct DocumentStore {
    pub state: Option<NoteData>,
    pub markdown: String,
    pub version: u64,
}

impl DocumentStore {
    /// The entries currently persisted; an absent state holds none.
    pub open spec fn contents(&self) -> Seq<EntryView> {
        match self.state {
            None => Seq::empty(),
            Some(d) => d@,
        }
    }

    /// Well-formedness: the persisted markdown is exactly the rendering
    /// of the persisted structured state.
    pub open spec fn wf(&self) -> bool {
        self.markdown@ == spec_note_markdown(self.contents())
    }

    /// A document that holds no notes yet: absent state, empty region.
    pub fn new() -> (res: Self)
        ensures
            res.wf(),
            res.contents() == Seq::<EntryView>::empty(),
            res.state is None,
    {
        DocumentStore { state: None, markdown: String::new(), version: 0 }
    }

    /// Reads the currently persisted state (as a copy) together with the
    /// version token that a later `apply_update` must present.
    pub fn load(&self) -> (r: (Option<NoteData>, u64))
        ensures
            spec_initial(r.0) == self.contents(),
            r.0 is Some <==> self.state is Some,
            r.1 == self.version,
    {
        let state = match &self.state {
            None => None,
            Some(d) => Some(d.clone()),
        };
        (state, self.version)
    }

    /// Writes the new markdown and the new structured state as one atomic
    /// unit, but only when `expected` still names the version that was
    /// read: a concurrently intervening write is detected and reported as
    /// `Conflict`, and then changes nothing.
    pub fn apply_update(&mut self, expected: u64, new_markdown: String, new_state: NoteData) -> (r:
        Result<(), NoteError>)
        requires
            new_markdown@ == spec_note_markdown(new_state@),
        ensures
            r is Ok <==> expected == old(self).version,
            r is Ok ==> final(self).contents() == new_state@ && final(self).markdown@
                == new_markdown@ && final(self).version != old(self).version,
            r is Err ==> r == Err::<(), NoteError>(NoteError::Conflict) && *final(self) == *old(
                self,
            ),
            final(self).wf() <== old(self).wf(),
    {
        if expected != self.version {
            return Err(NoteError::Conflict);
        }
        self.version = if self.version == u64::MAX {
            0
        } else {
            self.version + 1
        };
        self.markdown = new_markdown;
        self.state = Some(new_state);
        Ok(())
    }
}

/// Runs one command against the persisted document as a single logical
/// transaction: read the current state, apply the command, render, and
/// persist markdown and state as one unit, retrying the whole cycle (up
/// to `max_attempts` times) when a concurrent write is detected. On
/// success the returned markdown is exactly what was persisted.
pub fn process_command(
    store: &mut DocumentStore,
    cmd: &NoteCommand,
    ctx: &EventContext,
    max_attempts: u32,
) -> (r: Result<String, NoteError>)
    requires
        old(store).wf(),
    ensures
        final(store).wf(),
        max_attempts == 0 ==> r == Err::<String, NoteError>(NoteError::Conflict) && *final(store)
            == *old(store),
        max_attempts >= 1 ==> (r is Ok <==> spec_dispatch(old(store).contents(), *cmd, *ctx)
            is Ok),
        r is Ok ==> final(store).contents() == spec_dispatch(
            old(store).contents(),
            *cmd,
            *ctx,
        )->Ok_0 && r->Ok_0@ == final(store).markdown@ && final(store).markdown@
            == spec_note_markdown(final(store).contents()),
        max_attempts >= 1 && r is Err ==> r->Err_0 == spec_dispatch(
            old(store).contents(),
            *cmd,
            *ctx,
        )->Err_0 && *final(store) == *old(store),
{
    let mut attempt: u32 = 0;
    // Holding `&mut` on the store, no other writer can slip in between
    // `load` and `apply_update`, so the conflict arm below is provably
    // unreachable here and `attempt` never moves; real collaborators,
    // driven the same way from unverified code, do take the retry arm.
    while attempt < max_attempts
        invariant
            *store == *old(store),
            old(store).wf(),
            attempt == 0,
        decreases max_attempts - attempt,
    {
        let (current, token) = store.load();
        match handle(current, cmd, ctx) {
            Ok((new_state, new_markdown)) => {
                let reply = new_markdown.clone();
                match store.apply_update(token, new_markdown, new_state) {
                    Ok(()) => {
                        return Ok(reply);
                    },
                    Err(_) => {
                        attempt = attempt + 1;
                    },
                }
            },
            Err(e) => {
                return Err(e);
            },
        }
    }
    Err(NoteError::Conflict)
}

} // verus!

use vstd::prelude::*;

use crate::entry::{EntryView, NoteDataEntry};
use crate::errors::NoteError;
use crate::ledger::{NoteData, spec_contains_title, spec_note_markdown, spec_remove_first};

verus! {

/// A parsed user intent: append a titled entry, or remove one.
#[derive(Debug)]
pub enum NoteCommand {
    /// Append a new entry with the given title.
    Summary { title: String },
    /// Remove the first entry whose title matches.
    Remove { title: String },
}

/// The title a command speaks of.
pub open spec fn spec_cmd_title(cmd: NoteCommand) -> Seq<char> {
    match cmd {
        NoteCommand::Summary { title } => title@,
        NoteCommand::Remove { title } => title@,
    }
}

/// The event context of one command: the permanent link to the comment
/// that carried it and the commenting user's handle. Either may be
/// absent from the inbound event; the dispatcher validates both.
#[derive(Debug)]
pub struct EventContext {
    pub comment_url: Option<String>,
    pub author: Option<String>,
}

/// Whether the event carried both a comment link and an author handle.
pub open spec fn spec_ctx_complete(ctx: EventContext) -> bool {
    ctx.comment_url is Some && ctx.author is Some
}

/// The entry a complete context builds for an add command.
pub open spec fn spec_new_entry(title: Seq<char>, ctx: EventContext) -> EntryView
    recommends
        spec_ctx_complete(ctx),
{
    EntryView { title, comment_url: ctx.comment_url->0@, author: ctx.author->0@ }
}

/// The entries of the observed state; an absent state is the empty ledger.
pub open spec fn spec_initial(current: Option<NoteData>) -> Seq<EntryView> {
    match current {
        None => Seq::empty(),
        Some(d) => d@,
    }
}

/// The outcome one command owes on the observed entries `s0`: a rejection
/// when the context is incomplete, the appended sequence for an add, the
/// first-match removal for a remove that finds its title, and
/// `EntryNotFound` for one that does not.
pub open spec fn spec_dispatch(s0: Seq<EntryView>, cmd: NoteCommand, ctx: EventContext) -> Result<
    Seq<EntryView>,
    NoteError,
> {
    if !spec_ctx_complete(ctx) {
        Err(NoteError::MissingContext)
    } else {
        match cmd {
            NoteCommand::Summary { title } => Ok(s0.push(spec_new_entry(title@, ctx))),
            NoteCommand::Remove { title } => if spec_contains_title(s0, title@) {
                Ok(spec_remove_first(s0, title@))
            } else {
                Err(NoteError::EntryNotFound)
            },
        }
    }
}

/// Applies one command to the observed state (absent meaning empty) and
/// renders the result. On success, the returned ledger and markdown form
/// one unit to be persisted atomically: the markdown is exactly the
/// rendering of the returned state.
pub fn handle(current: Option<NoteData>, cmd: &NoteCommand, ctx: &EventContext) -> (r: Result<
    (NoteData, String),
    NoteError,
>)
    ensures
        r is Ok <==> spec_dispatch(spec_initial(current), *cmd, *ctx) is Ok,
        r is Ok ==> r->Ok_0.0@ == spec_dispatch(spec_initial(current), *cmd, *ctx)->Ok_0,
        r is Ok ==> r->Ok_0.1@ == spec_note_markdown(r->Ok_0.0@),
        r is Err ==> r->Err_0 == spec_dispatch(spec_initial(current), *cmd, *ctx)->Err_0,
{
    let comment_url = match &ctx.comment_url {
        Some(u) => u.clone(),
        None => {
            return Err(NoteError::MissingContext);
        },
    };
    let author = match &ctx.author {
        Some(a) => a.clone(),
        None => {
            return Err(NoteError::MissingContext);
        },
    };
    let mut data = match current {
        Some(d) => d,
        None => NoteData::default(),
    };
    match cmd {
        NoteCommand::Summary { title } => {
            let new_entry = NoteDataEntry { title: title.clone(), comment_url, author };
            data.append(new_entry);
        },
        NoteCommand::Remove { title } => {
            match data.remove(title.as_str()) {
                Ok(()) => {},
                Err(e) => {
                    return Err(e);
                },
            }
        },
    }
    let new_markdown = data.to_markdown();
    Ok((data, new_markdown))
}

/// Law: two add commands racing on the same observed state converge.
/// The compare-and-swap loser retries the whole cycle against the
/// winner's persisted state, so the final entries are the initial ones
/// followed by both new entries, winner's first: neither entry is lost.
pub proof fn lemma_conflict_retry_convergence(
    s0: Seq<EntryView>,
    cmd1: NoteCommand,
    cmd2: NoteCommand,
    ctx1: EventContext,
    ctx2: EventContext,
)
    requires
        cmd1 is Summary,
        cmd2 is Summary,
        spec_ctx_complete(ctx1),
        spec_ctx_complete(ctx2),
    ensures
        ({
            let e1 = spec_new_entry(spec_cmd_title(cmd1), ctx1);
            let e2 = spec_new_entry(spec_cmd_title(cmd2), ctx2);
            let r1 = spec_dispatch(s0, cmd1, ctx1);
            r1 is Ok && {
                let r2 = spec_dispatch(r1->Ok_0, cmd2, ctx2);
                r2 is Ok && r2->Ok_0 == s0 + seq![e1, e2] && r2->Ok_0.contains(e1)
                    && r2->Ok_0.contains(e2)
            }
        }),
{
    let e1 = spec_new_entry(spec_cmd_title(cmd1), ctx1);
    let e2 = spec_new_entry(spec_cmd_title(cmd2), ctx2);
    let s2 = s0.push(e1).push(e2);
    assert(s2 =~= s0 + seq![e1, e2]);
    assert(s2.contains(e1)) by {
        assert(s2[s0.len() as int] == e1);
    }
    assert(s2.contains(e2)) by {
        assert(s2[s0.len() as int + 1] == e2);
    }
}

} // verus!

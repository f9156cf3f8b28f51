use note_ledger::dispatch::{EventContext, NoteCommand, handle};
use note_ledger::entry::NoteDataEntry;
use note_ledger::errors::NoteError;
use note_ledger::ledger::NoteData;
use note_ledger::store::{DocumentStore, process_command};

fn entry(title: &str, url: &str, author: &str) -> NoteDataEntry {
    NoteDataEntry {
        title: title.to_string(),
        comment_url: url.to_string(),
        author: author.to_string(),
    }
}

fn ctx(url: &str, author: &str) -> EventContext {
    EventContext { comment_url: Some(url.to_string()), author: Some(author.to_string()) }
}

const FOOTER: &str = "\n\nGenerated by triagebot, see [help](https://github.com/rust-lang/triagebot/wiki/Note) for how to add more";

#[test]
fn append_preserves_order() {
    let mut data = NoteData::default();
    data.append(entry("first", "u1", "alice"));
    data.append(entry("second", "u2", "bob"));
    data.append(entry("third", "u3", "carol"));
    let titles: Vec<&str> = data.entries.iter().map(|e| e.title.as_str()).collect();
    assert_eq!(titles, vec!["first", "second", "third"]);
}

#[test]
fn duplicate_titles_are_both_kept_and_rendered() {
    let mut data = NoteData::default();
    data.append(entry("dup", "u1", "alice"));
    data.append(entry("dup", "u2", "bob"));
    assert_eq!(data.entries.len(), 2);
    assert_eq!(data.entries[0].comment_url, "u1");
    assert_eq!(data.entries[1].comment_url, "u2");
    let md = data.to_markdown();
    assert!(md.contains("\n- [\"dup\" by @alice](u1)"));
    assert!(md.contains("\n- [\"dup\" by @bob](u2)"));
    assert_eq!(md.matches("\n- [\"dup\"").count(), 2);
}

#[test]
fn remove_matches_first_occurrence() {
    let mut data = NoteData::default();
    data.append(entry("a", "u1", "alice"));
    data.append(entry("b", "u2", "bob"));
    data.append(entry("a", "u3", "carol"));
    let r = data.remove("a");
    assert!(r.is_ok());
    assert_eq!(data.entries, vec![entry("b", "u2", "bob"), entry("a", "u3", "carol")]);
}

#[test]
fn remove_from_empty_fails_cleanly() {
    let mut data = NoteData::default();
    let r = data.remove("anything");
    assert_eq!(r, Err(NoteError::EntryNotFound));
    assert!(data.entries.is_empty());
}

#[test]
fn remove_missing_title_fails_cleanly_and_changes_nothing() {
    let mut data = NoteData::default();
    data.append(entry("kept", "u1", "alice"));
    let r = data.remove("absent");
    assert_eq!(r, Err(NoteError::EntryNotFound));
    assert_eq!(data.entries, vec![entry("kept", "u1", "alice")]);
}

#[test]
fn empty_ledger_renders_to_empty_string() {
    let data = NoteData::default();
    assert_eq!(data.to_markdown(), "");
}

#[test]
fn entry_renders_to_its_bullet_line() {
    let e = entry("fix-typo", "https://x/1", "alice");
    assert_eq!(e.to_markdown(), "\n- [\"fix-typo\" by @alice](https://x/1)");
}

#[test]
fn one_entry_ledger_renders_literally() {
    let mut data = NoteData::default();
    data.append(entry("fix-typo", "https://x/1", "alice"));
    let expected = format!(
        "\n### Summary Notes\n\n- [\"fix-typo\" by @alice](https://x/1){}",
        FOOTER
    );
    assert_eq!(data.to_markdown(), expected);
}

#[test]
fn handle_add_on_absent_state() {
    let cmd = NoteCommand::Summary { title: "note-1".to_string() };
    let r = handle(None, &cmd, &ctx("https://x/9", "dave"));
    let (data, md) = r.expect("add never fails on a complete context");
    assert_eq!(data.entries, vec![entry("note-1", "https://x/9", "dave")]);
    assert_eq!(md, data.to_markdown());
}

#[test]
fn handle_remove_finds_and_deletes() {
    let mut data = NoteData::default();
    data.append(entry("a", "u1", "alice"));
    data.append(entry("b", "u2", "bob"));
    let cmd = NoteCommand::Remove { title: "a".to_string() };
    let r = handle(Some(data), &cmd, &ctx("https://x/9", "dave"));
    let (data, md) = r.expect("the title is present");
    assert_eq!(data.entries, vec![entry("b", "u2", "bob")]);
    assert_eq!(md, data.to_markdown());
}

#[test]
fn handle_remove_missing_title_reports_entry_not_found() {
    let cmd = NoteCommand::Remove { title: "ghost".to_string() };
    let r = handle(None, &cmd, &ctx("https://x/9", "dave"));
    assert_eq!(r.map(|_| ()), Err(NoteError::EntryNotFound));
}

#[test]
fn handle_rejects_missing_comment_url() {
    let cmd = NoteCommand::Summary { title: "note".to_string() };
    let c = EventContext { comment_url: None, author: Some("alice".to_string()) };
    let r = handle(None, &cmd, &c);
    assert_eq!(r.map(|_| ()), Err(NoteError::MissingContext));
}

#[test]
fn handle_rejects_missing_author() {
    let cmd = NoteCommand::Summary { title: "note".to_string() };
    let c = EventContext { comment_url: Some("https://x/1".to_string()), author: None };
    let r = handle(None, &cmd, &c);
    assert_eq!(r.map(|_| ()), Err(NoteError::MissingContext));
}

#[test]
fn handle_rejects_fully_empty_context_even_for_remove() {
    let cmd = NoteCommand::Remove { title: "note".to_string() };
    let c = EventContext { comment_url: None, author: None };
    let r = handle(None, &cmd, &c);
    assert_eq!(r.map(|_| ()), Err(NoteError::MissingContext));
}

#[test]
fn process_command_persists_state_and_markdown_together() {
    let mut store = DocumentStore::new();
    let cmd = NoteCommand::Summary { title: "first".to_string() };
    let md = process_command(&mut store, &cmd, &ctx("u1", "alice"), 3)
        .expect("add succeeds");
    let persisted = store.state.as_ref().expect("state was persisted");
    assert_eq!(md, persisted.to_markdown());
    assert_eq!(md, store.markdown);
}

#[test]
fn two_adds_against_one_store_keep_both_entries() {
    let mut store = DocumentStore::new();
    let cmd1 = NoteCommand::Summary { title: "from-alice".to_string() };
    let cmd2 = NoteCommand::Summary { title: "from-bob".to_string() };
    process_command(&mut store, &cmd1, &ctx("u1", "alice"), 3).expect("first add");
    process_command(&mut store, &cmd2, &ctx("u2", "bob"), 3).expect("second add");
    let persisted = store.state.as_ref().expect("state was persisted");
    assert_eq!(
        persisted.entries,
        vec![entry("from-alice", "u1", "alice"), entry("from-bob", "u2", "bob")]
    );
    assert_eq!(store.markdown, persisted.to_markdown());
}

#[test]
fn process_command_remove_deletes_persisted_entry() {
    let mut store = DocumentStore::new();
    let add = NoteCommand::Summary { title: "gone-soon".to_string() };
    process_command(&mut store, &add, &ctx("u1", "alice"), 3).expect("add");
    let remove = NoteCommand::Remove { title: "gone-soon".to_string() };
    let md = process_command(&mut store, &remove, &ctx("u2", "bob"), 3).expect("remove");
    assert_eq!(md, "");
    let persisted = store.state.as_ref().expect("state stays persisted");
    assert!(persisted.entries.is_empty());
    assert_eq!(store.markdown, "");
}

#[test]
fn process_command_remove_missing_reports_entry_not_found() {
    let mut store = DocumentStore::new();
    let remove = NoteCommand::Remove { title: "ghost".to_string() };
    let r = process_command(&mut store, &remove, &ctx("u1", "alice"), 3);
    assert_eq!(r.map(|_| ()), Err(NoteError::EntryNotFound));
    assert!(store.state.is_none());
}

#[test]
fn process_command_with_no_attempts_reports_conflict() {
    let mut store = DocumentStore::new();
    let cmd = NoteCommand::Summary { title: "note".to_string() };
    let r = process_command(&mut store, &cmd, &ctx("u1", "alice"), 0);
    assert_eq!(r.map(|_| ()), Err(NoteError::Conflict));
    assert!(store.state.is_none());
    assert_eq!(store.markdown, "");
}

#[test]
fn stale_version_token_is_detected_as_conflict() {
    let mut store = DocumentStore::new();
    let (_, stale_token) = store.load();
    let mut first = NoteData::default();
    first.append(entry("winner", "u1", "alice"));
    let first_md = first.to_markdown();
    store
        .apply_update(stale_token, first_md, first)
        .expect("the token is still fresh");

    let mut second = NoteData::default();
    second.append(entry("loser", "u2", "bob"));
    let second_md = second.to_markdown();
    let r = store.apply_update(stale_token, second_md, second);
    assert_eq!(r, Err(NoteError::Conflict));
    let persisted = store.state.as_ref().expect("winner stays persisted");
    assert_eq!(persisted.entries, vec![entry("winner", "u1", "alice")]);
}

#[test]
fn error_kinds_stay_distinguishable() {
    let kinds = [
        NoteError::EntryNotFound,
        NoteError::MissingContext,
        NoteError::Conflict,
        NoteError::Io,
    ];
    for (i, a) in kinds.iter().enumerate() {
        for (j, b) in kinds.iter().enumerate() {
            assert_eq!(a == b, i == j);
        }
    }
}

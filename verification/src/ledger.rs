use vstd::prelude::*;
use vstd::string::StringExecFns;

use crate::entry::{EntryView, NoteDataEntry, spec_entry_markdown};
use crate::errors::NoteError;

verus! {

/// The notes ledger: the ordered sequence of note entries attached to one
/// document, insertion order preserved.
#[derive(Debug, PartialEq, Eq)]
pub struct NoteData {
    pub entries: Vec<NoteDataEntry>,
}

impl View for NoteData {
    type V = Seq<EntryView>;

    open spec fn view(&self) -> Seq<EntryView> {
        self.entries@.map(|i: int, e: NoteDataEntry| e@)
    }
}

impl Clone for NoteData {
    fn clone(&self) -> (res: Self)
        ensures
            res@ == self@,
    {
        let entries = self.entries.clone();
        proof {
            assert(entries@ =~= self.entries@);
        }
        NoteData { entries }
    }
}

impl Default for NoteData {
    /// The empty ledger: the state of a document that holds no notes yet.
    fn default() -> (res: Self)
        ensures
            res@ == Seq::<EntryView>::empty(),
    {
        let res = NoteData { entries: Vec::new() };
        proof {
            assert(res@ =~= Seq::<EntryView>::empty());
        }
        res
    }
}

/// Whether some entry of `s` carries the title `title`.
pub open spec fn spec_contains_title(s: Seq<EntryView>, title: Seq<char>) -> bool {
    exists|i: int| 0 <= i < s.len() && s[i].title == title
}

/// The sequence left after deleting the first entry titled `title`;
/// the sequence itself when no entry matches.
pub open spec fn spec_remove_first(s: Seq<EntryView>, title: Seq<char>) -> Seq<EntryView>
    decreases s.len(),
{
    if s.len() == 0 {
        s
    } else if s[0].title == title {
        s.drop_first()
    } else {
        seq![s[0]] + spec_remove_first(s.drop_first(), title)
    }
}

proof fn lemma_remove_first_absent(s: Seq<EntryView>, title: Seq<char>)
    requires
        forall|j: int| 0 <= j < s.len() ==> s[j].title != title,
    ensures
        spec_remove_first(s, title) == s,
        !spec_contains_title(s, title),
    decreases s.len(),
{
    if s.len() > 0 {
        lemma_remove_first_absent(s.drop_first(), title);
        assert(seq![s[0]] + s.drop_first() =~= s);
    }
}

proof fn lemma_remove_first_at(s: Seq<EntryView>, title: Seq<char>, i: int)
    requires
        0 <= i < s.len(),
        s[i].title == title,
        forall|j: int| 0 <= j < i ==> s[j].title != title,
    ensures
        spec_remove_first(s, title) == s.remove(i),
        spec_contains_title(s, title),
    decreases i,
{
    if i == 0 {
        assert(s.drop_first() =~= s.remove(0));
    } else {
        lemma_remove_first_at(s.drop_first(), title, i - 1);
        assert(s.drop_first().remove(i - 1) =~= s.remove(i).drop_first());
        assert(seq![s[0]] + s.remove(i).drop_first() =~= s.remove(i));
    }
}

/// The markdown bullet lines of `entries`, one per entry, in ledger order.
pub open spec fn spec_bullets(entries: Seq<EntryView>) -> Seq<char>
    decreases entries.len(),
{
    if entries.len() == 0 {
        Seq::empty()
    } else {
        spec_bullets(entries.drop_last()) + spec_entry_markdown(entries.last())
    }
}

/// The markdown text of a whole ledger: empty for an empty ledger, and
/// otherwise the section header, one bullet per entry in ledger order,
/// and the trailing generator-attribution line.
pub open spec fn spec_note_markdown(entries: Seq<EntryView>) -> Seq<char> {
    if entries.len() == 0 {
        Seq::empty()
    } else {
        "\n### Summary Notes\n"@ + spec_bullets(entries)
            + "\n\nGenerated by triagebot, see [help](https://github.com/rust-lang/triagebot/wiki/Note) for how to add more"@
    }
}

/// The entries left after appending each entry of `es` in turn, oldest
/// command first.
pub open spec fn spec_append_all(s0: Seq<EntryView>, es: Seq<EntryView>) -> Seq<EntryView>
    decreases es.len(),
{
    if es.len() == 0 {
        s0
    } else {
        spec_append_all(s0.push(es[0]), es.drop_first())
    }
}

/// Law: appending is order-preserving — a run of appends lands its
/// entries at the end of the ledger, in exactly the order applied.
pub proof fn lemma_append_all_order(s0: Seq<EntryView>, es: Seq<EntryView>)
    ensures
        spec_append_all(s0, es) == s0 + es,
    decreases es.len(),
{
    if es.len() == 0 {
        assert(s0 + es =~= s0);
    } else {
        lemma_append_all_order(s0.push(es[0]), es.drop_first());
        assert(s0.push(es[0]) + es.drop_first() =~= s0 + es);
    }
}

/// Law: any sequence of appends applied to an initially empty ledger
/// yields exactly that sequence of entries, in application order.
pub proof fn lemma_append_order_preserving(es: Seq<EntryView>)
    ensures
        spec_append_all(Seq::empty(), es) == es,
{
    lemma_append_all_order(Seq::empty(), es);
    assert(Seq::<EntryView>::empty() + es =~= es);
}

/// Law: duplicate titles are allowed — appending two entries that share
/// a title yields two distinct entries at the end, in insertion order,
/// and the rendering carries one bullet for each.
pub proof fn lemma_duplicates_allowed(s: Seq<EntryView>, e1: EntryView, e2: EntryView)
    requires
        e1.title == e2.title,
    ensures
        ({
            let s2 = s.push(e1).push(e2);
            s2.len() == s.len() + 2 && s2[s.len() as int] == e1 && s2[s.len() as int + 1] == e2
                && spec_bullets(s2) == spec_bullets(s) + spec_entry_markdown(e1)
                + spec_entry_markdown(e2)
        }),
{
    let s2 = s.push(e1).push(e2);
    assert(s2.drop_last() =~= s.push(e1));
    assert(s.push(e1).drop_last() =~= s);
    assert(s2.last() == e2);
    assert(s.push(e1).last() == e1);
    assert(spec_bullets(s2) == spec_bullets(s.push(e1)) + spec_entry_markdown(e2));
    assert(spec_bullets(s.push(e1)) == spec_bullets(s) + spec_entry_markdown(e1));
}

impl NoteData {
    /// Inserts `entry` at the end of the ledger. Always succeeds; duplicate
    /// titles are deliberately permitted.
    pub fn append(&mut self, entry: NoteDataEntry)
        ensures
            final(self)@ == old(self)@.push(entry@),
    {
        let ghost e = entry@;
        self.entries.push(entry);
        proof {
            assert(self@ =~= old(self)@.push(e));
        }
    }

    /// Deletes the first entry (in ledger order) whose title equals `title`.
    /// When no entry matches, the ledger is left unchanged and the failure
    /// is reported as `EntryNotFound` rather than aborting.
    pub fn remove(&mut self, title: &str) -> (r: Result<(), NoteError>)
        ensures
            r is Ok <==> spec_contains_title(old(self)@, title@),
            final(self)@ == spec_remove_first(old(self)@, title@),
            r is Err ==> r == Err::<(), NoteError>(NoteError::EntryNotFound) && final(self)@
                == old(self)@,
    {
        let t: String = title.to_owned();
        let n: usize = self.entries.len();
        let mut i: usize = 0;
        while i < n
            invariant
                n == self.entries@.len(),
                i <= n,
                *self == *old(self),
                t@ == title@,
                forall|j: int| 0 <= j < i ==> self@[j].title != title@,
            decreases n - i,
        {
            if self.entries[i].title == t {
                proof {
                    lemma_remove_first_at(self@, title@, i as int);
                }
                self.entries.remove(i);
                proof {
                    assert(self@ =~= old(self)@.remove(i as int));
                }
                return Ok(());
            }
            i += 1;
        }
        proof {
            lemma_remove_first_absent(self@, title@);
        }
        Err(NoteError::EntryNotFound)
    }

    /// Renders the ledger to the markdown text that fills the delimited
    /// region. Deterministic: the text is a function of the entries alone.
    /// An empty ledger renders to the empty string.
    pub fn to_markdown(&self) -> (r: String)
        ensures
            r@ == spec_note_markdown(self@),
            self@.len() == 0 ==> r@ == Seq::<char>::empty(),
    {
        if self.entries.is_empty() {
            let r = String::new();
            return r;
        }
        let mut text = "\n### Summary Notes\n".to_owned();
        let n: usize = self.entries.len();
        let mut i: usize = 0;
        while i < n
            invariant
                n == self.entries@.len(),
                i <= n,
                text@ == "\n### Summary Notes\n"@ + spec_bullets(self@.take(i as int)),
            decreases n - i,
        {
            let bullet = self.entries[i].to_markdown();
            text.append(bullet.as_str());
            proof {
                assert(self@.take(i + 1).drop_last() =~= self@.take(i as int));
                assert(text@ =~= "\n### Summary Notes\n"@ + spec_bullets(self@.take(i + 1)));
            }
            i += 1;
        }
        text.append(
            "\n\nGenerated by triagebot, see [help](https://github.com/rust-lang/triagebot/wiki/Note) for how to add more",
        );
        proof {
            assert(self@.take(n as int) =~= self@);
        }
        text
    }
}

} // verus!

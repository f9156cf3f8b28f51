use vstd::prelude::*;
use vstd::string::StringExecFns;

verus! {

/// Mathematical model of one note entry: its three fields as character
/// sequences.
pub struct EntryView {
    pub title: Seq<char>,
    pub comment_url: Seq<char>,
    pub author: Seq<char>,
}

/// One note record: a user-supplied title, a permanent link to the comment
/// that created it, and the handle of the commenting author.
#[derive(Debug, PartialEq, Eq)]
pub struct NoteDataEntry {
    pub title: String,
    pub comment_url: String,
    pub author: String,
}

impl View for NoteDataEntry {
    type V = EntryView;

    open spec fn view(&self) -> EntryView {
        EntryView {
            title: self.title@,
            comment_url: self.comment_url@,
            author: self.author@,
        }
    }
}

impl Clone for NoteDataEntry {
    fn clone(&self) -> (res: Self)
        ensures
            res == *self,
    {
        NoteDataEntry {
            title: self.title.clone(),
            comment_url: self.comment_url.clone(),
            author: self.author.clone(),
        }
    }
}

/// The markdown bullet line rendered for one entry: the title quoted,
/// attributed to the author as a link to the originating comment.
pub open spec fn spec_entry_markdown(e: EntryView) -> Seq<char> {
    "\n- [\""@ + e.title + "\" by @"@ + e.author + "]("@ + e.comment_url + ")"@
}

impl NoteDataEntry {
    /// Renders this entry as its markdown bullet line.
    pub fn to_markdown(&self) -> (r: String)
        ensures
            r@ == spec_entry_markdown(self@),
    {
        let mut text = "\n- [\"".to_owned();
        text.append(self.title.as_str());
        text.append("\" by @");
        text.append(self.author.as_str());
        text.append("](");
        text.append(self.comment_url.as_str());
        text.append(")");
        proof {
            assert(text@ =~= spec_entry_markdown(self@));
        }
        text
    }
}

} // verus!

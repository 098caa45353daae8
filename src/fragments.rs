//! CSS selectors of the page fragments that show notes.

use vstd::prelude::*;
use vstd::string::*;

use crate::ids::{uuid_text, uuid_to_text};
use crate::model::Note;

verus! {

/// The selector of the list that holds every note of the page.
pub const NOTE_LIST_ID: &'static str = "#note-list";

/// The selector text of the element that shows note `id`.
pub open spec fn note_selector_text(id: u128) -> Seq<char> {
    seq!['#', 'n', 'o', 't', 'e', '-'] + uuid_text(id)
}

/// The selector of the element that shows note `id`.
pub fn note_selector(id: u128) -> (r: String)
    ensures
        r@ == note_selector_text(id),
{
    proof {
        reveal_strlit("#note-");
    }
    let mut r = String::from_str("#note-");
    let text = uuid_to_text(id);
    r.append(text.as_str());
    assert(r@ =~= note_selector_text(id));
    r
}

/// The fragment that shows a note.
pub struct NoteFragment {
    pub note: Note,
}

impl NoteFragment {
    /// The selector of the element this fragment replaces.
    pub fn selector(&self) -> (r: String)
        ensures
            r@ == note_selector_text(self.note.id),
    {
        note_selector(self.note.id)
    }
}

/// The fragment that shows a note in its editor.
pub struct EditNoteFragment {
    pub note: Note,
}

impl EditNoteFragment {
    /// The selector of the element this fragment replaces.
    pub fn selector(&self) -> (r: String)
        ensures
            r@ == note_selector_text(self.note.id),
    {
        note_selector(self.note.id)
    }
}

} // verus!
